//! The boundary to the Aurora engine's own crates. The engine defines the
//! encodings of its arguments, results and transactions; this module calls its
//! decoders and turns what they return into values of this crate. Nothing in
//! here is proved: each function's contract is what the rest of the crate
//! believes of the engine's code.

use vstd::prelude::*;
use crate::types::{Address, CryptoHash, Wei, option_view, option_bytes};
use aurora_engine_transactions::{EthTransactionKind, NormalizedEthTransaction};
use aurora_engine_types::parameters::engine as aurora;

verus! {

/// The sender-independent fields of an Ethereum-style transaction, with the
/// sender that its signature gives.
#[derive(Clone, Debug, PartialEq, Eq)]
pub struct TransactionFields {
    pub chain_id: Option<u64>,
    pub from: Address,
    pub to: Option<Address>,
    pub value: Wei,
    pub input: Vec<u8>,
}

/// The mathematical value of [`TransactionFields`].
pub struct TransactionFieldsView {
    pub chain_id: Option<u64>,
    pub from: Seq<u8>,
    pub to: Option<Seq<u8>>,
    pub value: nat,
    pub input: Seq<u8>,
}

impl View for TransactionFields {
    type V = TransactionFieldsView;

    open spec fn view(&self) -> TransactionFieldsView {
        TransactionFieldsView {
            chain_id: self.chain_id,
            from: self.from@,
            to: option_bytes(self.to),
            value: self.value@,
            input: self.input@,
        }
    }
}

/// How the engine says an embedded transaction ended. The engine knows more
/// ways to fail than the ones named here; each of those is `Unrecognized`.
#[derive(Clone, Debug, PartialEq, Eq)]
pub enum EngineStatus {
    Succeed(Vec<u8>),
    Revert(Vec<u8>),
    OutOfGas,
    OutOfFund,
    OutOfOffset,
    CallTooDeep,
    Unrecognized,
}

/// The mathematical value of an [`EngineStatus`].
pub enum EngineStatusView {
    Succeed(Seq<u8>),
    Revert(Seq<u8>),
    OutOfGas,
    OutOfFund,
    OutOfOffset,
    CallTooDeep,
    Unrecognized,
}

impl View for EngineStatus {
    type V = EngineStatusView;

    open spec fn view(&self) -> EngineStatusView {
        match self {
            EngineStatus::Succeed(bytes) => EngineStatusView::Succeed(bytes@),
            EngineStatus::Revert(bytes) => EngineStatusView::Revert(bytes@),
            EngineStatus::OutOfGas => EngineStatusView::OutOfGas,
            EngineStatus::OutOfFund => EngineStatusView::OutOfFund,
            EngineStatus::OutOfOffset => EngineStatusView::OutOfOffset,
            EngineStatus::CallTooDeep => EngineStatusView::CallTooDeep,
            EngineStatus::Unrecognized => EngineStatusView::Unrecognized,
        }
    }
}

/// The arguments of the engine's `call` method, in either of their two shapes.
#[derive(Clone, Debug, PartialEq, Eq)]
pub enum CallArgs {
    /// The current shape, which names the amount to send along.
    V2 { contract: Address, value: Wei, input: Vec<u8> },
    /// The older shape, which sends nothing along.
    V1 { contract: Address, input: Vec<u8> },
}

/// The mathematical value of [`CallArgs`].
pub enum CallArgsView {
    V2 { contract: Seq<u8>, value: nat, input: Seq<u8> },
    V1 { contract: Seq<u8>, input: Seq<u8> },
}

impl View for CallArgs {
    type V = CallArgsView;

    open spec fn view(&self) -> CallArgsView {
        match self {
            CallArgs::V2 { contract, value, input } => CallArgsView::V2 {
                contract: contract@,
                value: value@,
                input: input@,
            },
            CallArgs::V1 { contract, input } => CallArgsView::V1 {
                contract: contract@,
                input: input@,
            },
        }
    }
}

/// The Keccak-256 digest of a byte string.
pub uninterp spec fn keccak256(data: Seq<u8>) -> Seq<u8>;

/// The raw transaction that the argument bytes of `submit_with_args` carry,
/// or `None` where they are not the engine's encoding of such arguments.
pub uninterp spec fn submit_args_transaction(args: Seq<u8>) -> Option<Seq<u8>>;

/// What the engine reads out of a raw transaction, or `None` where it
/// rejects the bytes.
pub uninterp spec fn transaction_fields(raw: Seq<u8>) -> Option<TransactionFieldsView>;

/// The status inside the engine's encoded result of a submitted transaction,
/// or `None` where the bytes are not such a result.
pub uninterp spec fn submit_result_status(value: Seq<u8>) -> Option<EngineStatusView>;

/// The arguments that the argument bytes of `call` carry, or `None` where
/// they have neither of the two shapes.
pub uninterp spec fn call_args_decoding(args: Seq<u8>) -> Option<CallArgsView>;

/// Calls `aurora_engine_sdk::keccak`, which hashes the bytes with Keccak-256
/// and cannot fail. The contract gives the digest its name; that it has
/// 32 bytes is in the type.
#[verifier::external_body]
pub(crate) fn keccak(data: &[u8]) -> (digest: CryptoHash)
    ensures
        digest@ == keccak256(data@),
{
    aurora_engine_sdk::keccak(data).0
}

/// Calls `aurora_engine_sdk::types::near_account_to_evm_address`, whose source
/// takes the last 20 bytes of the Keccak-256 digest of the account's name.
/// The contract says exactly that.
#[verifier::external_body]
pub(crate) fn near_account_to_evm_address(account_id: &[u8]) -> (address: Address)
    ensures
        address@ == keccak256(account_id@).subrange(12, 32),
{
    aurora_engine_sdk::types::near_account_to_evm_address(account_id).raw().0
}

/// Calls `borsh::from_slice` for the engine's `SubmitArgs` and keeps the
/// `tx_data` field. The decoder reads the bytes and nothing else, returns an
/// error for bytes that are malformed or not used up, and the contract names
/// what comes out.
#[verifier::external_body]
pub(crate) fn decode_submit_args(args: &[u8]) -> (tx_data: Option<Vec<u8>>)
    ensures
        option_view(tx_data) == submit_args_transaction(args@),
{
    match aurora_engine_types::borsh::from_slice::<aurora::SubmitArgs>(args) {
        Ok(decoded) => Some(decoded.tx_data),
        Err(_) => None,
    }
}

/// Calls `EthTransactionKind::try_from` on the bytes and, on what it accepts,
/// `NormalizedEthTransaction::try_from`, which recovers the sender from the
/// signature. Both read the bytes and nothing else and return an error for
/// what they reject; the contract names what comes out, field by field.
#[verifier::external_body]
pub(crate) fn decode_transaction_fields(raw: &[u8]) -> (fields: Option<TransactionFields>)
    ensures
        option_view(fields) == transaction_fields(raw@),
{
    let envelope = EthTransactionKind::try_from(raw).ok()?;
    let tx = NormalizedEthTransaction::try_from(envelope).ok()?;
    Some(TransactionFields {
        chain_id: tx.chain_id,
        from: tx.address.raw().0,
        to: tx.to.map(|address| address.raw().0),
        value: Wei { be_bytes: tx.value.to_bytes() },
        input: tx.data,
    })
}

/// Calls `borsh::from_slice` for the engine's `SubmitResult` and keeps its
/// `status`, variant by variant; a variant that [`EngineStatus`] does not
/// name becomes `Unrecognized`. The contract names what comes out.
#[verifier::external_body]
pub(crate) fn decode_submit_result(value: &[u8]) -> (status: Option<EngineStatus>)
    ensures
        option_view(status) == submit_result_status(value@),
{
    Some(match aurora_engine_types::borsh::from_slice::<aurora::SubmitResult>(value).ok()?.status {
        aurora::TransactionStatus::Succeed(bytes) => EngineStatus::Succeed(bytes),
        aurora::TransactionStatus::Revert(bytes) => EngineStatus::Revert(bytes),
        aurora::TransactionStatus::OutOfGas => EngineStatus::OutOfGas,
        aurora::TransactionStatus::OutOfFund => EngineStatus::OutOfFund,
        aurora::TransactionStatus::OutOfOffset => EngineStatus::OutOfOffset,
        aurora::TransactionStatus::CallTooDeep => EngineStatus::CallTooDeep,
        _ => EngineStatus::Unrecognized,
    })
}

/// Calls the engine's `CallArgs::deserialize`, which tries the current shape
/// and then the older one, and moves the fields over. The amount of the
/// current shape is 32 big-endian bytes in the engine too. The contract
/// names what comes out.
#[verifier::external_body]
pub(crate) fn decode_call_args(args: &[u8]) -> (call: Option<CallArgs>)
    ensures
        option_view(call) == call_args_decoding(args@),
{
    Some(match aurora::CallArgs::deserialize(args)? {
        aurora::CallArgs::V2(call) => CallArgs::V2 {
            contract: call.contract.raw().0,
            value: Wei { be_bytes: call.value },
            input: call.input,
        },
        aurora::CallArgs::V1(call) => CallArgs::V1 { contract: call.contract.raw().0, input: call.input },
    })
}

} // verus!
