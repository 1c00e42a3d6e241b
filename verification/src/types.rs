//! The records that the decoding pipeline produces, each with the mathematical
//! value (its view) that the contracts of this crate speak of.

use vstd::prelude::*;

verus! {

/// A 32-byte hash that names a transaction or a receipt of the host chain.
pub type CryptoHash = [u8; 32];

/// A 20-byte account address of the embedded EVM.
pub type Address = [u8; 20];

/// The number that a byte string denotes when it is read as a big-endian
/// unsigned integer. The empty string denotes zero.
pub open spec fn be_value(bytes: Seq<u8>) -> nat
    decreases bytes.len(),
{
    if bytes.len() == 0 {
        0
    } else {
        be_value(bytes.drop_last()) * 256 + bytes.last() as nat
    }
}

/// A byte string of zeros denotes zero.
pub proof fn lemma_be_value_of_zeros(bytes: Seq<u8>)
    requires
        forall|i: int| 0 <= i < bytes.len() ==> bytes[i] == 0,
    ensures
        be_value(bytes) == 0,
    decreases bytes.len(),
{
    if bytes.len() > 0 {
        lemma_be_value_of_zeros(bytes.drop_last());
    }
}

/// An amount in wei, the smallest unit of the embedded chain: an unsigned
/// integer of up to 256 bits, kept as 32 big-endian bytes.
#[derive(Clone, Copy, Debug, PartialEq, Eq)]
pub struct Wei {
    pub be_bytes: [u8; 32],
}

impl View for Wei {
    type V = nat;

    open spec fn view(&self) -> nat {
        be_value(self.be_bytes@)
    }
}

impl Wei {
    /// The amount of nothing.
    pub fn zero() -> (amount: Wei)
        ensures
            amount@ == 0,
            amount.be_bytes@ == Seq::new(32, |i: int| 0u8),
    {
        let amount = Wei { be_bytes: [0u8; 32] };
        proof {
            assert(amount.be_bytes@ =~= Seq::new(32, |i: int| 0u8));
            lemma_be_value_of_zeros(amount.be_bytes@);
        }
        amount
    }
}

/// The view of an optional value: the view of what it holds, if anything.
pub open spec fn option_view<T: View>(value: Option<T>) -> Option<T::V> {
    match value {
        Some(inner) => Some(inner@),
        None => None,
    }
}

/// The view of an optional fixed-length byte string.
pub open spec fn option_bytes<const N: usize>(value: Option<[u8; N]>) -> Option<Seq<u8>> {
    match value {
        Some(bytes) => Some(bytes@),
        None => None,
    }
}

/// What is known of a receipt when its actions are decoded: where it stands
/// in the chain and between which accounts it was sent.
#[derive(Clone, Debug, PartialEq)]
pub struct EventContext {
    pub transaction_id: CryptoHash,
    pub receipt_id: CryptoHash,
    pub block_height: u64,
    pub block_timestamp_nanosec: u128,
    pub predecessor_id: String,
    pub contract_id: String,
}

/// The mathematical value of an [`EventContext`].
pub struct EventContextView {
    pub transaction_id: Seq<u8>,
    pub receipt_id: Seq<u8>,
    pub block_height: u64,
    pub block_timestamp_nanosec: u128,
    pub predecessor_id: Seq<char>,
    pub contract_id: Seq<char>,
}

impl View for EventContext {
    type V = EventContextView;

    open spec fn view(&self) -> EventContextView {
        EventContextView {
            transaction_id: self.transaction_id@,
            receipt_id: self.receipt_id@,
            block_height: self.block_height,
            block_timestamp_nanosec: self.block_timestamp_nanosec,
            predecessor_id: self.predecessor_id@,
            contract_id: self.contract_id@,
        }
    }
}

/// An Ethereum-style transaction after decoding, whatever envelope it came in.
#[derive(Clone, Debug, PartialEq, Eq)]
pub struct NormalizedTransaction {
    /// Absent where the encoding carries none.
    pub chain_id: Option<u64>,
    /// The account that signed the transaction.
    pub from: Address,
    /// Absent for a transaction that creates a contract.
    pub to: Option<Address>,
    pub value: Wei,
    pub input: Vec<u8>,
    /// Keccak-256 of the bytes that were decoded.
    pub hash: CryptoHash,
}

/// The mathematical value of a [`NormalizedTransaction`].
pub struct TransactionView {
    pub chain_id: Option<u64>,
    pub from: Seq<u8>,
    pub to: Option<Seq<u8>>,
    pub value: nat,
    pub input: Seq<u8>,
    pub hash: Seq<u8>,
}

impl View for NormalizedTransaction {
    type V = TransactionView;

    open spec fn view(&self) -> TransactionView {
        TransactionView {
            chain_id: self.chain_id,
            from: self.from@,
            to: option_bytes(self.to),
            value: self.value@,
            input: self.input@,
            hash: self.hash@,
        }
    }
}

/// How the embedded transaction ended, as an event reports it.
#[derive(Clone, Debug, PartialEq, Eq)]
pub enum TransactionStatus {
    /// It ran to its end and returned these bytes.
    Succeeded(Vec<u8>),
    /// It was reverted with these bytes.
    Reverted(Vec<u8>),
    OutOfGas,
    OutOfFunds,
    OutOfOffset,
    CallTooDeep,
}

/// The mathematical value of a [`TransactionStatus`].
pub enum StatusView {
    Succeeded(Seq<u8>),
    Reverted(Seq<u8>),
    OutOfGas,
    OutOfFunds,
    OutOfOffset,
    CallTooDeep,
}

impl View for TransactionStatus {
    type V = StatusView;

    open spec fn view(&self) -> StatusView {
        match self {
            TransactionStatus::Succeeded(bytes) => StatusView::Succeeded(bytes@),
            TransactionStatus::Reverted(bytes) => StatusView::Reverted(bytes@),
            TransactionStatus::OutOfGas => StatusView::OutOfGas,
            TransactionStatus::OutOfFunds => StatusView::OutOfFunds,
            TransactionStatus::OutOfOffset => StatusView::OutOfOffset,
            TransactionStatus::CallTooDeep => StatusView::CallTooDeep,
        }
    }
}

/// One embedded transaction, as it is handed to an event sink.
#[derive(Clone, Debug, PartialEq, Eq)]
pub struct AuroraTransactionEvent {
    pub block_height: u64,
    pub block_timestamp_nanosec: u128,
    pub transaction_id: CryptoHash,
    pub receipt_id: CryptoHash,
    pub chain_id: Option<u64>,
    /// The transaction's hash, abbreviated for display.
    pub aurora_tx_hash: String,
    pub from: Address,
    pub to: Option<Address>,
    pub value: Wei,
    pub input: Vec<u8>,
    pub status: TransactionStatus,
}

/// The mathematical value of an [`AuroraTransactionEvent`].
pub struct EventView {
    pub block_height: u64,
    pub block_timestamp_nanosec: u128,
    pub transaction_id: Seq<u8>,
    pub receipt_id: Seq<u8>,
    pub chain_id: Option<u64>,
    pub aurora_tx_hash: Seq<char>,
    pub from: Seq<u8>,
    pub to: Option<Seq<u8>>,
    pub value: nat,
    pub input: Seq<u8>,
    pub status: StatusView,
}

impl View for AuroraTransactionEvent {
    type V = EventView;

    open spec fn view(&self) -> EventView {
        EventView {
            block_height: self.block_height,
            block_timestamp_nanosec: self.block_timestamp_nanosec,
            transaction_id: self.transaction_id@,
            receipt_id: self.receipt_id@,
            chain_id: self.chain_id,
            aurora_tx_hash: self.aurora_tx_hash@,
            from: self.from@,
            to: option_bytes(self.to),
            value: self.value@,
            input: self.input@,
            status: self.status@,
        }
    }
}

/// The views of a list of events, in the list's order.
pub open spec fn event_views(events: Seq<AuroraTransactionEvent>) -> Seq<EventView> {
    events.map_values(|event: AuroraTransactionEvent| event@)
}

} // verus!
