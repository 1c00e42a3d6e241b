//! What holds of the pipeline and of the sink for every input, stated over
//! the spec functions that the contracts of the crate use.

use vstd::prelude::*;
use crate::dispatch::{call_event, carried_transaction, method_of};
use crate::engine::{keccak256, submit_result_status, transaction_fields, EngineStatusView};
use crate::event::reported_status;
use crate::hash_text::abbreviated_hash;
use crate::indexer::{
    action_events, block_calls, context_of, monitored_account, range_calls, receipt_events,
    receipts_events,
};
use crate::receipt::{
    ActionView, BlockHeader, BlockReceiptView, BlockView, ExecutionStatusView, ReceiptView,
};
use crate::sink::{accepts, after_calls, AuroraEventHandler, CappedStreamSink, SinkCall};
use crate::types::{EventContextView, EventView, StatusView};

verus! {

/// A receipt that is not addressed to the monitored account yields no
/// event, whatever its actions and its outcome are.
pub proof fn lemma_other_receiver_yields_nothing(
    receipt: ReceiptView,
    transaction_id: Seq<u8>,
    block: BlockHeader,
)
    requires
        receipt.receiver_id != monitored_account(),
    ensures
        receipt_events(receipt, transaction_id, block) == Seq::<EventView>::empty(),
{
}

/// Whether every stage of decoding succeeds for a call: its arguments give
/// a raw transaction, the engine accepts that transaction, the wrapping call
/// succeeded with a value, and the value is an encoded result of the engine.
pub open spec fn stages_succeed(
    method_name: Seq<char>,
    args: Seq<u8>,
    status: ExecutionStatusView,
) -> bool {
    &&& carried_transaction(method_of(method_name), args) matches Some(raw)
    &&& transaction_fields(raw) is Some
    &&& status matches ExecutionStatusView::SuccessValue(value)
    &&& submit_result_status(value) is Some
}

/// A call yields an event exactly if every stage of decoding succeeds. Where
/// one fails there is no event: none that is partly filled, and no error.
pub proof fn lemma_event_needs_every_stage(
    ctx: EventContextView,
    method_name: Seq<char>,
    args: Seq<u8>,
    status: ExecutionStatusView,
)
    ensures
        call_event(ctx, method_name, args, status) is Some <==> stages_succeed(
            method_name,
            args,
            status,
        ),
{
}

/// The actions of a receipt yield at most one event each, and none at all
/// where no call among them passes every stage of decoding.
pub proof fn lemma_failed_stages_yield_nothing(
    ctx: EventContextView,
    actions: Seq<ActionView>,
    status: ExecutionStatusView,
)
    ensures
        action_events(ctx, actions, status).len() <= actions.len(),
        (forall|i: int|
            0 <= i < actions.len() ==> (#[trigger] actions[i] matches ActionView::FunctionCall {
                method_name,
                args,
            } ==> !stages_succeed(method_name, args, status))) ==> action_events(
            ctx,
            actions,
            status,
        ) == Seq::<EventView>::empty(),
    decreases actions.len(),
{
    if actions.len() > 0 {
        lemma_failed_stages_yield_nothing(ctx, actions.drop_last(), status);
        if forall|i: int|
            0 <= i < actions.len() ==> (#[trigger] actions[i] matches ActionView::FunctionCall {
                method_name,
                args,
            } ==> !stages_succeed(method_name, args, status)) {
            assert forall|i: int| 0 <= i < actions.drop_last().len() implies (
            #[trigger] actions.drop_last()[i] matches ActionView::FunctionCall {
                method_name,
                args,
            } ==> !stages_succeed(method_name, args, status)) by {
                assert(actions.drop_last()[i] == actions[i]);
            }
            let last = actions[actions.len() - 1];
            assert(last == actions.last());
            match last {
                ActionView::FunctionCall { method_name, args } => {
                    lemma_event_needs_every_stage(ctx, method_name, args, status);
                },
                ActionView::Other => {},
            }
        }
    }
}

/// The hash that an event shows is the abbreviation of the Keccak-256
/// digest of the raw transaction that the call carried.
pub proof fn lemma_event_shows_hash_of_raw_transaction(
    ctx: EventContextView,
    method_name: Seq<char>,
    args: Seq<u8>,
    status: ExecutionStatusView,
)
    requires
        call_event(ctx, method_name, args, status) is Some,
    ensures
        carried_transaction(method_of(method_name), args) is Some,
        call_event(ctx, method_name, args, status).unwrap().aurora_tx_hash == abbreviated_hash(
            keccak256(carried_transaction(method_of(method_name), args).unwrap()),
        ),
{
}

/// Whether an event's status keeps the kind and the bytes of the engine's.
pub open spec fn keeps_status(inner: EngineStatusView, status: StatusView) -> bool {
    match inner {
        EngineStatusView::Succeed(bytes) => status == StatusView::Succeeded(bytes),
        EngineStatusView::Revert(bytes) => status == StatusView::Reverted(bytes),
        EngineStatusView::OutOfGas => status == StatusView::OutOfGas,
        EngineStatusView::OutOfFund => status == StatusView::OutOfFunds,
        EngineStatusView::OutOfOffset => status == StatusView::OutOfOffset,
        EngineStatusView::CallTooDeep => status == StatusView::CallTooDeep,
        EngineStatusView::Unrecognized => false,
    }
}

/// The status that is reported for a status of the engine keeps it, if it
/// is of one of the six kinds that events know, and is a revert without
/// bytes otherwise.
pub proof fn lemma_reported_status_keeps_or_reverts(inner: EngineStatusView)
    ensures
        keeps_status(inner, reported_status(inner)) || (inner is Unrecognized && reported_status(
            inner,
        ) == StatusView::Reverted(Seq::<u8>::empty())),
{
}

/// The status of every event is the one reported for the status that the
/// engine's result of the wrapping call holds.
pub proof fn lemma_event_reports_engine_status(
    ctx: EventContextView,
    method_name: Seq<char>,
    args: Seq<u8>,
    status: ExecutionStatusView,
)
    requires
        call_event(ctx, method_name, args, status) is Some,
    ensures
        status matches ExecutionStatusView::SuccessValue(value) && submit_result_status(
            value,
        ) matches Some(inner) && call_event(ctx, method_name, args, status).unwrap().status
            == reported_status(inner),
{
}

/// Indexing a block flushes the sink exactly once: the flush is the last
/// call, it names the block's height, and every call before it hands over
/// an event.
pub proof fn lemma_block_ends_with_its_only_flush(block: BlockView)
    ensures
        block_calls(block).len() >= 1,
        block_calls(block).last() == SinkCall::Flush(block.header.height),
        forall|i: int|
            0 <= i < block_calls(block).len() - 1 ==> #[trigger] block_calls(block)[i] is Accept,
{
}

/// The heights that a record of calls flushes, in the order of the flushes.
pub open spec fn flushed_heights(calls: Seq<SinkCall>) -> Seq<u64>
    decreases calls.len(),
{
    if calls.len() == 0 {
        Seq::empty()
    } else {
        match calls.last() {
            SinkCall::Flush(height) => flushed_heights(calls.drop_last()).push(height),
            SinkCall::Accept(_) => flushed_heights(calls.drop_last()),
        }
    }
}

/// The heights of a range of blocks, in the blocks' order.
pub open spec fn heights_of(blocks: Seq<BlockView>) -> Seq<u64> {
    blocks.map_values(|block: BlockView| block.header.height)
}

/// Indexing a range of blocks flushes the sink once for each block, with
/// the block's height, in the order of the blocks.
pub proof fn lemma_one_flush_for_each_block(blocks: Seq<BlockView>)
    ensures
        flushed_heights(range_calls(blocks)) == heights_of(blocks),
    decreases blocks.len(),
{
    if blocks.len() == 0 {
        assert(flushed_heights(range_calls(blocks)) =~= heights_of(blocks));
    } else {
        let earlier = range_calls(blocks.drop_last());
        let last = blocks.last();
        let handed = accepts(receipts_events(last.receipts, last.header));
        lemma_one_flush_for_each_block(blocks.drop_last());
        lemma_accepts_flush_nothing(earlier, receipts_events(last.receipts, last.header));
        let calls = range_calls(blocks);
        assert(calls =~= (earlier + handed).push(SinkCall::Flush(last.header.height)));
        assert(calls.drop_last() =~= earlier + handed);
        assert(flushed_heights(calls) =~= heights_of(blocks));
    }
}

proof fn lemma_accepts_flush_nothing(calls: Seq<SinkCall>, events: Seq<EventView>)
    ensures
        flushed_heights(calls + accepts(events)) == flushed_heights(calls),
    decreases events.len(),
{
    if events.len() == 0 {
        assert(calls + accepts(events) =~= calls);
    } else {
        let longer = calls + accepts(events);
        assert(longer.drop_last() =~= calls + accepts(events.drop_last()));
        lemma_accepts_flush_nothing(calls, events.drop_last());
    }
}

/// A block none of whose receipts is addressed to the monitored account
/// makes one call on the sink: the flush.
pub proof fn lemma_unrelated_block_only_flushes(block: BlockView)
    requires
        forall|i: int|
            0 <= i < block.receipts.len() ==> (#[trigger] block.receipts[i]).receipt.receiver_id
                != monitored_account(),
    ensures
        block_calls(block) == seq![SinkCall::Flush(block.header.height)],
{
    lemma_unrelated_receipts_yield_nothing(block.receipts, block.header);
    assert(block_calls(block) =~= seq![SinkCall::Flush(block.header.height)]);
}

proof fn lemma_unrelated_receipts_yield_nothing(
    receipts: Seq<BlockReceiptView>,
    header: BlockHeader,
)
    requires
        forall|i: int|
            0 <= i < receipts.len() ==> (#[trigger] receipts[i]).receipt.receiver_id
                != monitored_account(),
    ensures
        receipts_events(receipts, header) == Seq::<EventView>::empty(),
    decreases receipts.len(),
{
    if receipts.len() > 0 {
        assert forall|i: int| 0 <= i < receipts.drop_last().len() implies (
        #[trigger] receipts.drop_last()[i]).receipt.receiver_id != monitored_account() by {
            assert(receipts.drop_last()[i] == receipts[i]);
        }
        lemma_unrelated_receipts_yield_nothing(receipts.drop_last(), header);
        assert(receipts.last() == receipts[receipts.len() - 1]);
    }
}

/// Whatever calls are made on a sink that began empty, its stream never
/// holds more than its capacity, and right after a flush nothing is left in
/// its buffer.
pub proof fn lemma_stream_stays_within_capacity(calls: Seq<SinkCall>, max: nat)
    ensures
        after_calls(calls, max).published.len() <= max,
        calls.len() > 0 && calls.last() is Flush ==> after_calls(calls, max).buffered.len() == 0,
    decreases calls.len(),
{
    if calls.len() > 0 {
        lemma_stream_stays_within_capacity(calls.drop_last(), max);
    }
}

/// When a block has been indexed into a sink that publishes to a bounded
/// stream, the stream holds no more than its capacity and the buffer is
/// empty, whatever the sink had taken before.
pub proof fn lemma_indexed_block_leaves_stream_within_capacity(
    sink: CappedStreamSink,
    before: Seq<SinkCall>,
    block: BlockView,
)
    requires
        sink.wf(),
        sink.calls() == before + block_calls(block),
    ensures
        sink.state().published.len() <= sink.capacity(),
        sink.state().buffered.len() == 0,
{
    sink.lemma_state_follows_calls();
    lemma_stream_stays_within_capacity(sink.calls(), sink.capacity());
}

/// Every event of a receipt carries the height and the time of the block
/// that the receipt was executed in, and the names of the receipt and of
/// its transaction.
pub proof fn lemma_events_carry_their_place(
    receipt: ReceiptView,
    transaction_id: Seq<u8>,
    block: BlockHeader,
    i: int,
)
    requires
        0 <= i < receipt_events(receipt, transaction_id, block).len(),
    ensures
        receipt_events(receipt, transaction_id, block)[i].block_height == block.height,
        receipt_events(receipt, transaction_id, block)[i].block_timestamp_nanosec
            == block.timestamp_nanosec as u128,
        receipt_events(receipt, transaction_id, block)[i].receipt_id == receipt.receipt_id,
        receipt_events(receipt, transaction_id, block)[i].transaction_id == transaction_id,
{
    lemma_action_events_carry_context(
        context_of(receipt, transaction_id, block),
        receipt.actions,
        receipt.status,
        i,
    );
}

proof fn lemma_action_events_carry_context(
    ctx: EventContextView,
    actions: Seq<ActionView>,
    status: ExecutionStatusView,
    i: int,
)
    requires
        0 <= i < action_events(ctx, actions, status).len(),
    ensures
        action_events(ctx, actions, status)[i].block_height == ctx.block_height,
        action_events(ctx, actions, status)[i].block_timestamp_nanosec
            == ctx.block_timestamp_nanosec,
        action_events(ctx, actions, status)[i].receipt_id == ctx.receipt_id,
        action_events(ctx, actions, status)[i].transaction_id == ctx.transaction_id,
    decreases actions.len(),
{
    if actions.len() > 0 {
        let before = action_events(ctx, actions.drop_last(), status);
        if i < before.len() {
            lemma_action_events_carry_context(ctx, actions.drop_last(), status, i);
        }
    }
}

/// Two sinks of the same capacity on which the same calls were made hold
/// the same events in the same order, in the buffer and in the stream.
pub proof fn lemma_same_calls_same_stream(first: CappedStreamSink, second: CappedStreamSink)
    requires
        first.wf(),
        second.wf(),
        first.capacity() == second.capacity(),
        first.calls() == second.calls(),
    ensures
        first.state() == second.state(),
{
    first.lemma_state_follows_calls();
    second.lemma_state_follows_calls();
}

/// Indexing the same range of blocks again, with a sink that has seen as
/// little as the first one had, makes the same calls on it: the same events
/// in the same order, and the same flushes between them.
pub proof fn lemma_rerun_makes_same_calls(
    first_before: Seq<SinkCall>,
    first_after: Seq<SinkCall>,
    second_before: Seq<SinkCall>,
    second_after: Seq<SinkCall>,
    blocks: Seq<BlockView>,
)
    requires
        first_before == second_before,
        first_after == first_before + range_calls(blocks),
        second_after == second_before + range_calls(blocks),
    ensures
        first_after == second_after,
{
}

} // verus!
