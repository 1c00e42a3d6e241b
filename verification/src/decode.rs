//! The decoders of the pipeline: raw transaction bytes to a normalized
//! transaction, and the arguments of a direct `call` to what they ask for.

use vstd::prelude::*;
use vstd::utf8::encode_utf8;
use crate::engine::{
    decode_call_args, decode_transaction_fields, keccak, near_account_to_evm_address,
    transaction_fields, call_args_decoding, keccak256, CallArgs, CallArgsView,
};
use crate::types::{option_view, Address, NormalizedTransaction, TransactionView, Wei};

verus! {

/// What decoding makes of raw transaction bytes: the fields that the engine
/// reads out of them, with the Keccak-256 digest of those very bytes. `None`
/// where the engine rejects the bytes.
pub open spec fn transaction_decoding(raw: Seq<u8>) -> Option<TransactionView> {
    match transaction_fields(raw) {
        Some(fields) => Some(
            TransactionView {
                chain_id: fields.chain_id,
                from: fields.from,
                to: fields.to,
                value: fields.value,
                input: fields.input,
                hash: keccak256(raw),
            },
        ),
        None => None,
    }
}

/// Decodes an Ethereum-style transaction, legacy or typed, and hashes the
/// bytes it was given. The hash is taken over `raw` as it stands, never over
/// a fresh encoding of the decoded fields.
pub fn decode_transaction(raw: &[u8]) -> (tx: Option<NormalizedTransaction>)
    ensures
        option_view(tx) == transaction_decoding(raw@),
{
    match decode_transaction_fields(raw) {
        Some(fields) => {
            let hash = keccak(raw);
            Some(
                NormalizedTransaction {
                    chain_id: fields.chain_id,
                    from: fields.from,
                    to: fields.to,
                    value: fields.value,
                    input: fields.input,
                    hash,
                },
            )
        },
        None => None,
    }
}

/// What a direct `call` of the engine asks for.
#[derive(Clone, Debug, PartialEq, Eq)]
pub struct CallRequest {
    /// The EVM address that stands for the calling account.
    pub from: Address,
    pub to: Address,
    pub value: Wei,
    pub input: Vec<u8>,
}

/// The mathematical value of a [`CallRequest`].
pub struct CallRequestView {
    pub from: Seq<u8>,
    pub to: Seq<u8>,
    pub value: nat,
    pub input: Seq<u8>,
}

impl View for CallRequest {
    type V = CallRequestView;

    open spec fn view(&self) -> CallRequestView {
        CallRequestView {
            from: self.from@,
            to: self.to@,
            value: self.value@,
            input: self.input@,
        }
    }
}

/// The EVM address of a host-chain account: the last 20 bytes of the
/// Keccak-256 digest of its name in UTF-8.
pub open spec fn account_address(account_id: Seq<char>) -> Seq<u8> {
    keccak256(encode_utf8(account_id)).subrange(12, 32)
}

/// The request that decoded `call` arguments make on behalf of an account.
/// The older shape of the arguments sends no value along.
pub open spec fn request_of(call: CallArgsView, predecessor_id: Seq<char>) -> CallRequestView {
    match call {
        CallArgsView::V2 { contract, value, input } => CallRequestView {
            from: account_address(predecessor_id),
            to: contract,
            value,
            input,
        },
        CallArgsView::V1 { contract, input } => CallRequestView {
            from: account_address(predecessor_id),
            to: contract,
            value: 0,
            input,
        },
    }
}

/// What decoding makes of the argument bytes of a `call` by an account.
pub open spec fn call_decoding(args: Seq<u8>, predecessor_id: Seq<char>) -> Option<
    CallRequestView,
> {
    match call_args_decoding(args) {
        Some(call) => Some(request_of(call, predecessor_id)),
        None => None,
    }
}

/// Turns decoded `call` arguments of either shape into the request they make.
pub fn call_request(call: CallArgs, predecessor_id: &str) -> (request: CallRequest)
    ensures
        request@ == request_of(call@, predecessor_id@),
{
    let from = near_account_to_evm_address(predecessor_id.as_bytes());
    match call {
        CallArgs::V2 { contract, value, input } => CallRequest { from, to: contract, value, input },
        CallArgs::V1 { contract, input } => CallRequest {
            from,
            to: contract,
            value: Wei::zero(),
            input,
        },
    }
}

/// Decodes the argument bytes of a direct `call`. No transaction hash can be
/// had from such a call, so no event is ever made of the request.
pub fn decode_call(args: &[u8], predecessor_id: &str) -> (request: Option<CallRequest>)
    ensures
        option_view(request) == call_decoding(args@, predecessor_id@),
{
    match decode_call_args(args) {
        Some(call) => Some(call_request(call, predecessor_id)),
        None => None,
    }
}

} // verus!
