//! The receipt filter and the indexer: which receipts are looked at, what
//! their actions yield, and what is handed to the sink, receipt by receipt
//! and block by block.

use vstd::prelude::*;
use crate::dispatch::{call_event, dispatch};
use crate::receipt::{
    block_views, Action, ActionView, Block, BlockHeader, BlockReceiptView, BlockView,
    ExecutionStatus, ExecutionStatusView, Receipt, ReceiptView,
};
use crate::sink::{accepts, AuroraEventHandler, SinkCall};
use crate::text::text_is;
use crate::types::{
    event_views, option_view, AuroraTransactionEvent, CryptoHash, EventContext,
    EventContextView, EventView,
};

verus! {

/// The name of the account whose receipts are decoded.
pub open spec fn monitored_account() -> Seq<char> {
    "aurora"@
}

/// Whether a receipt is addressed to the monitored account. The names are
/// compared as they are: no case is folded, nothing is trimmed.
pub fn is_monitored(receiver_id: &str) -> (monitored: bool)
    ensures
        monitored == (receiver_id@ == monitored_account()),
{
    text_is(receiver_id, "aurora")
}

/// The context of a receipt of the transaction `transaction_id` that was
/// executed in the block `block`.
pub open spec fn context_of(
    receipt: ReceiptView,
    transaction_id: Seq<u8>,
    block: BlockHeader,
) -> EventContextView {
    EventContextView {
        transaction_id,
        receipt_id: receipt.receipt_id,
        block_height: block.height,
        block_timestamp_nanosec: block.timestamp_nanosec as u128,
        predecessor_id: receipt.predecessor_id,
        contract_id: receipt.receiver_id,
    }
}

/// Collects what is known of a receipt when its actions are decoded.
pub fn receipt_context(receipt: &Receipt, transaction_id: &CryptoHash, block: &BlockHeader) -> (ctx:
    EventContext)
    ensures
        ctx@ == context_of(receipt@, transaction_id@, *block),
{
    EventContext {
        transaction_id: *transaction_id,
        receipt_id: receipt.receipt_id,
        block_height: block.height,
        block_timestamp_nanosec: block.timestamp_nanosec as u128,
        predecessor_id: receipt.predecessor_id.clone(),
        contract_id: receipt.receiver_id.clone(),
    }
}

/// The event of one action, if it yields one. Only calls of a contract's
/// function can.
pub open spec fn action_event(
    ctx: EventContextView,
    action: ActionView,
    status: ExecutionStatusView,
) -> Option<EventView> {
    match action {
        ActionView::FunctionCall { method_name, args } => call_event(ctx, method_name, args, status),
        ActionView::Other => None,
    }
}

/// The events of a list of actions of one receipt, in the actions' order.
pub open spec fn action_events(
    ctx: EventContextView,
    actions: Seq<ActionView>,
    status: ExecutionStatusView,
) -> Seq<EventView>
    decreases actions.len(),
{
    if actions.len() == 0 {
        Seq::empty()
    } else {
        let before = action_events(ctx, actions.drop_last(), status);
        match action_event(ctx, actions.last(), status) {
            Some(event) => before.push(event),
            None => before,
        }
    }
}

/// The events of a receipt: those of its actions if it is addressed to the
/// monitored account, none otherwise.
pub open spec fn receipt_events(
    receipt: ReceiptView,
    transaction_id: Seq<u8>,
    block: BlockHeader,
) -> Seq<EventView> {
    if receipt.receiver_id == monitored_account() {
        action_events(context_of(receipt, transaction_id, block), receipt.actions, receipt.status)
    } else {
        Seq::empty()
    }
}

/// The events of a list of receipts of one block, in the receipts' order.
pub open spec fn receipts_events(receipts: Seq<BlockReceiptView>, header: BlockHeader) -> Seq<
    EventView,
>
    decreases receipts.len(),
{
    if receipts.len() == 0 {
        Seq::empty()
    } else {
        receipts_events(receipts.drop_last(), header) + receipt_events(
            receipts.last().receipt,
            receipts.last().transaction_id,
            header,
        )
    }
}

/// The calls that indexing a block makes on the sink: one for each event of
/// its receipts, in their order, then the flush with the block's height.
pub open spec fn block_calls(block: BlockView) -> Seq<SinkCall> {
    accepts(receipts_events(block.receipts, block.header)).push(
        SinkCall::Flush(block.header.height),
    )
}

/// The calls that indexing a range of blocks makes on the sink.
pub open spec fn range_calls(blocks: Seq<BlockView>) -> Seq<SinkCall>
    decreases blocks.len(),
{
    if blocks.len() == 0 {
        Seq::empty()
    } else {
        range_calls(blocks.drop_last()) + block_calls(blocks.last())
    }
}

/// Handles one action of a receipt on the monitored account.
pub fn event_of_action(ctx: &EventContext, action: &Action, status: &ExecutionStatus) -> (event:
    Option<AuroraTransactionEvent>)
    ensures
        option_view(event) == action_event(ctx@, action@, status@),
{
    match action {
        Action::FunctionCall { method_name, args } => dispatch(
            ctx,
            method_name.as_str(),
            args.as_slice(),
            status,
        ),
        Action::Other => None,
    }
}

/// Decodes one receipt: the events of its actions, in their order, if it is
/// addressed to the monitored account. A receipt for any other account is
/// passed over.
pub fn events_of_receipt(receipt: &Receipt, transaction_id: &CryptoHash, block: &BlockHeader) -> (events:
    Vec<AuroraTransactionEvent>)
    ensures
        event_views(events@) == receipt_events(receipt@, transaction_id@, *block),
{
    let mut events: Vec<AuroraTransactionEvent> = Vec::new();
    if !is_monitored(receipt.receiver_id.as_str()) {
        assert(event_views(events@) =~= Seq::<EventView>::empty());
        return events;
    }
    let ctx = receipt_context(receipt, transaction_id, block);
    let mut done: usize = 0;
    assert(receipt@.actions.take(0) =~= Seq::<ActionView>::empty());
    assert(event_views(events@) =~= Seq::<EventView>::empty());
    while done < receipt.actions.len()
        invariant
            done <= receipt.actions.len(),
            ctx@ == context_of(receipt@, transaction_id@, *block),
            event_views(events@) == action_events(
                ctx@,
                receipt@.actions.take(done as int),
                receipt@.status,
            ),
        decreases receipt.actions.len() - done,
    {
        let ghost before = events@;
        let found = event_of_action(&ctx, &receipt.actions[done], &receipt.status);
        proof {
            let taken = receipt@.actions.take(done as int + 1);
            assert(taken.drop_last() =~= receipt@.actions.take(done as int));
            assert(taken.last() == receipt.actions[done as int]@);
        }
        match found {
            Some(event) => {
                events.push(event);
                assert(event_views(events@) =~= event_views(before).push(event@));
            },
            None => {},
        }
        done += 1;
    }
    assert(receipt@.actions.take(done as int) =~= receipt@.actions);
    events
}

/// The indexer: it decodes the receipts it is shown and hands the events to
/// its sink.
pub struct AuroraIndexer<T: AuroraEventHandler>(pub T);

impl<T: AuroraEventHandler> AuroraIndexer<T> {
    /// Handles one receipt: hands the sink the events of its actions, one
    /// call for each, in the actions' order, and makes no other call on it.
    /// A receipt that is not addressed to the monitored account, or none of
    /// whose actions decodes, leaves the sink as it was.
    pub fn on_receipt(&mut self, receipt: &Receipt, transaction_id: &CryptoHash, block: &BlockHeader)
        requires
            old(self).0.wf(),
        ensures
            final(self).0.wf(),
            final(self).0.capacity() == old(self).0.capacity(),
            final(self).0.calls() == old(self).0.calls() + accepts(
                receipt_events(receipt@, transaction_id@, *block),
            ),
    {
        if !is_monitored(receipt.receiver_id.as_str()) {
            assert(self.0.calls() =~= old(self).0.calls() + accepts(Seq::<EventView>::empty()));
            return ;
        }
        let ctx = receipt_context(receipt, transaction_id, block);
        let mut done: usize = 0;
        assert(receipt@.actions.take(0) =~= Seq::<ActionView>::empty());
        assert(self.0.calls() =~= old(self).0.calls() + accepts(Seq::<EventView>::empty()));
        while done < receipt.actions.len()
            invariant
                done <= receipt.actions.len(),
                ctx@ == context_of(receipt@, transaction_id@, *block),
                self.0.wf(),
                self.0.capacity() == old(self).0.capacity(),
                self.0.calls() == old(self).0.calls() + accepts(
                    action_events(ctx@, receipt@.actions.take(done as int), receipt@.status),
                ),
            decreases receipt.actions.len() - done,
        {
            let ghost before = action_events(
                ctx@,
                receipt@.actions.take(done as int),
                receipt@.status,
            );
            let found = event_of_action(&ctx, &receipt.actions[done], &receipt.status);
            proof {
                let taken = receipt@.actions.take(done as int + 1);
                assert(taken.drop_last() =~= receipt@.actions.take(done as int));
                assert(taken.last() == receipt.actions[done as int]@);
            }
            match found {
                Some(event) => {
                    let ghost handed = event@;
                    self.0.handle_transaction(event);
                    assert(self.0.calls() =~= old(self).0.calls() + accepts(before.push(handed)));
                },
                None => {},
            }
            done += 1;
        }
        assert(receipt@.actions.take(done as int) =~= receipt@.actions);
    }

    /// Ends a block: flushes the sink once, with the block's height, and
    /// makes no other call on it.
    pub fn process_block_end(&mut self, block: &BlockHeader)
        requires
            old(self).0.wf(),
        ensures
            final(self).0.wf(),
            final(self).0.capacity() == old(self).0.capacity(),
            final(self).0.calls() == old(self).0.calls().push(SinkCall::Flush(block.height)),
    {
        self.0.flush_events(block.height);
    }

    /// Indexes one block: handles its receipts in their order, then ends
    /// the block. The sink is flushed once, after everything that the
    /// block's receipts yield has been handed to it.
    pub fn index_block(&mut self, block: &Block)
        requires
            old(self).0.wf(),
        ensures
            final(self).0.wf(),
            final(self).0.capacity() == old(self).0.capacity(),
            final(self).0.calls() == old(self).0.calls() + block_calls(block@),
    {
        let mut done: usize = 0;
        assert(block@.receipts.take(0) =~= Seq::<BlockReceiptView>::empty());
        assert(self.0.calls() =~= old(self).0.calls() + accepts(Seq::<EventView>::empty()));
        while done < block.receipts.len()
            invariant
                done <= block.receipts.len(),
                self.0.wf(),
                self.0.capacity() == old(self).0.capacity(),
                self.0.calls() == old(self).0.calls() + accepts(
                    receipts_events(block@.receipts.take(done as int), block.header),
                ),
            decreases block.receipts.len() - done,
        {
            let ghost before = receipts_events(block@.receipts.take(done as int), block.header);
            let next = &block.receipts[done];
            self.on_receipt(&next.receipt, &next.transaction_id, &block.header);
            proof {
                let taken = block@.receipts.take(done as int + 1);
                assert(taken.drop_last() =~= block@.receipts.take(done as int));
                assert(taken.last() == next@);
                let yielded = receipt_events(next@.receipt, next@.transaction_id, block.header);
                assert(accepts(before + yielded) =~= accepts(before) + accepts(yielded));
                assert(self.0.calls() =~= old(self).0.calls() + accepts(before + yielded));
            }
            done += 1;
        }
        assert(block@.receipts.take(done as int) =~= block@.receipts);
        self.process_block_end(&block.header);
        assert(self.0.calls() =~= old(self).0.calls() + block_calls(block@));
    }

    /// Indexes a range of blocks, one after the other.
    pub fn index_blocks(&mut self, blocks: &Vec<Block>)
        requires
            old(self).0.wf(),
        ensures
            final(self).0.wf(),
            final(self).0.capacity() == old(self).0.capacity(),
            final(self).0.calls() == old(self).0.calls() + range_calls(block_views(blocks@)),
    {
        let mut done: usize = 0;
        assert(block_views(blocks@).take(0) =~= Seq::<BlockView>::empty());
        assert(self.0.calls() =~= old(self).0.calls() + Seq::<SinkCall>::empty());
        while done < blocks.len()
            invariant
                done <= blocks.len(),
                self.0.wf(),
                self.0.capacity() == old(self).0.capacity(),
                self.0.calls() == old(self).0.calls() + range_calls(
                    block_views(blocks@).take(done as int),
                ),
            decreases blocks.len() - done,
        {
            let ghost before = range_calls(block_views(blocks@).take(done as int));
            self.index_block(&blocks[done]);
            proof {
                let taken = block_views(blocks@).take(done as int + 1);
                assert(taken.drop_last() =~= block_views(blocks@).take(done as int));
                assert(taken.last() == blocks[done as int]@);
                assert(self.0.calls() =~= old(self).0.calls() + (before + block_calls(
                    blocks[done as int]@,
                )));
            }
            done += 1;
        }
        assert(block_views(blocks@).take(done as int) =~= block_views(blocks@));
    }
}

} // verus!
