//! The assembly of an event from a receipt's context, the decoded
//! transaction and the engine's status.

use vstd::prelude::*;
use crate::engine::{EngineStatus, EngineStatusView};
use crate::hash_text::{abbreviate_hash, abbreviated_hash};
use crate::types::{
    AuroraTransactionEvent, EventContext, EventContextView, EventView, NormalizedTransaction,
    StatusView, TransactionStatus, TransactionView,
};

verus! {

/// The status that an event reports for a status of the engine. The six
/// kinds that events know are kept, with their bytes. Every other kind is
/// reported as a revert without bytes: the reason is lost, the event is not.
pub open spec fn reported_status(inner: EngineStatusView) -> StatusView {
    match inner {
        EngineStatusView::Succeed(bytes) => StatusView::Succeeded(bytes),
        EngineStatusView::Revert(bytes) => StatusView::Reverted(bytes),
        EngineStatusView::OutOfGas => StatusView::OutOfGas,
        EngineStatusView::OutOfFund => StatusView::OutOfFunds,
        EngineStatusView::OutOfOffset => StatusView::OutOfOffset,
        EngineStatusView::CallTooDeep => StatusView::CallTooDeep,
        EngineStatusView::Unrecognized => StatusView::Reverted(Seq::empty()),
    }
}

/// Maps the engine's status to the one that an event reports. The mapping is
/// total: no status of the engine is refused.
pub fn report_status(inner: EngineStatus) -> (status: TransactionStatus)
    ensures
        status@ == reported_status(inner@),
{
    match inner {
        EngineStatus::Succeed(bytes) => TransactionStatus::Succeeded(bytes),
        EngineStatus::Revert(bytes) => TransactionStatus::Reverted(bytes),
        EngineStatus::OutOfGas => TransactionStatus::OutOfGas,
        EngineStatus::OutOfFund => TransactionStatus::OutOfFunds,
        EngineStatus::OutOfOffset => TransactionStatus::OutOfOffset,
        EngineStatus::CallTooDeep => TransactionStatus::CallTooDeep,
        EngineStatus::Unrecognized => TransactionStatus::Reverted(Vec::new()),
    }
}

/// The event of a decoded transaction in a receipt's context.
pub open spec fn assembled_event(
    ctx: EventContextView,
    tx: TransactionView,
    inner: EngineStatusView,
) -> EventView {
    EventView {
        block_height: ctx.block_height,
        block_timestamp_nanosec: ctx.block_timestamp_nanosec,
        transaction_id: ctx.transaction_id,
        receipt_id: ctx.receipt_id,
        chain_id: tx.chain_id,
        aurora_tx_hash: abbreviated_hash(tx.hash),
        from: tx.from,
        to: tx.to,
        value: tx.value,
        input: tx.input,
        status: reported_status(inner),
    }
}

/// Builds the event of a decoded transaction: place and time from the
/// receipt's context, parties and payload from the transaction, the hash
/// abbreviated for display, and the engine's status as events report it.
pub fn assemble_event(ctx: &EventContext, tx: NormalizedTransaction, inner: EngineStatus) -> (event:
    AuroraTransactionEvent)
    ensures
        event@ == assembled_event(ctx@, tx@, inner@),
{
    AuroraTransactionEvent {
        block_height: ctx.block_height,
        block_timestamp_nanosec: ctx.block_timestamp_nanosec,
        transaction_id: ctx.transaction_id,
        receipt_id: ctx.receipt_id,
        chain_id: tx.chain_id,
        aurora_tx_hash: abbreviate_hash(&tx.hash),
        from: tx.from,
        to: tx.to,
        value: tx.value,
        input: tx.input,
        status: report_status(inner),
    }
}

} // verus!
