//! The event sink: what takes the events, one at a time, and publishes them
//! once per block to a stream of bounded length.

use vstd::prelude::*;
use crate::types::{event_views, AuroraTransactionEvent, EventView};

verus! {

/// One call made on a sink.
pub enum SinkCall {
    /// An event was handed over.
    Accept(EventView),
    /// The events of the block of this height were to be published.
    Flush(u64),
}

/// The calls that hand over the given events, in their order.
pub open spec fn accepts(events: Seq<EventView>) -> Seq<SinkCall> {
    events.map_values(|event: EventView| SinkCall::Accept(event))
}

/// What consumes the events. A sink is handed each event of a block in the
/// order of the receipts, and is flushed once when the block has ended.
///
/// The contracts speak of the record of the calls and of nothing else that
/// changes: they fix what was handed over and when, and leave to each sink
/// what it does with it. Neither method can report a failure; a sink that
/// cannot publish has to end the run.
pub trait AuroraEventHandler {
    /// Whether the sink is in a state that its own methods leave it in.
    spec fn wf(&self) -> bool;

    /// Every call made on this sink so far, oldest first.
    spec fn calls(&self) -> Seq<SinkCall>;

    /// The most entries that the stream behind this sink retains. It is
    /// set when the sink is made, and no call changes it.
    spec fn capacity(&self) -> nat;

    /// Takes one event.
    fn handle_transaction(&mut self, event: AuroraTransactionEvent)
        requires
            old(self).wf(),
        ensures
            final(self).wf(),
            final(self).capacity() == old(self).capacity(),
            final(self).calls() == old(self).calls().push(SinkCall::Accept(event@)),
    ;

    /// Called after each block, with the block's height.
    fn flush_events(&mut self, block_height: u64)
        requires
            old(self).wf(),
        ensures
            final(self).wf(),
            final(self).capacity() == old(self).capacity(),
            final(self).calls() == old(self).calls().push(SinkCall::Flush(block_height)),
    ;
}

/// What a stream of bounded length retains of its entries: all of them while
/// they are at most `max`, else the newest `max`.
pub open spec fn retained<T>(entries: Seq<T>, max: nat) -> Seq<T> {
    if entries.len() <= max {
        entries
    } else {
        entries.subrange(entries.len() - max, entries.len() as int)
    }
}

/// The two parts of a sink that publishes to a bounded stream.
pub struct StreamState {
    /// The events taken since the last flush, oldest first.
    pub buffered: Seq<EventView>,
    /// The entries that the stream retains, oldest first.
    pub published: Seq<EventView>,
}

/// The state after one more call. An event is buffered and the stream is
/// not touched. A flush publishes what is buffered, in its order, behind
/// what the stream holds, and trims the stream from its oldest end.
pub open spec fn after_call(state: StreamState, call: SinkCall, max: nat) -> StreamState {
    match call {
        SinkCall::Accept(event) => StreamState {
            buffered: state.buffered.push(event),
            published: state.published,
        },
        SinkCall::Flush(_) => StreamState {
            buffered: Seq::empty(),
            published: retained(state.published + state.buffered, max),
        },
    }
}

/// The state that a record of calls leaves a sink in that began empty.
pub open spec fn after_calls(calls: Seq<SinkCall>, max: nat) -> StreamState
    decreases calls.len(),
{
    if calls.len() == 0 {
        StreamState { buffered: Seq::empty(), published: Seq::empty() }
    } else {
        after_call(after_calls(calls.drop_last(), max), calls.last(), max)
    }
}

/// A sink in memory: a buffer for the events of the block at hand, and the
/// stream that they are published to, which retains at most
/// `max_stream_size` entries.
pub struct CappedStreamSink {
    buffer: Vec<AuroraTransactionEvent>,
    stream: Vec<AuroraTransactionEvent>,
    max_stream_size: usize,
    record: Ghost<Seq<SinkCall>>,
}

impl CappedStreamSink {
    /// The buffer and the stream.
    pub closed spec fn state(&self) -> StreamState {
        StreamState { buffered: event_views(self.buffer@), published: event_views(self.stream@) }
    }

    /// A sink with nothing buffered and an empty stream.
    pub fn new(max_stream_size: usize) -> (sink: Self)
        ensures
            sink.wf(),
            sink.capacity() == max_stream_size,
            sink.calls() == Seq::<SinkCall>::empty(),
            sink.state() == (StreamState { buffered: Seq::empty(), published: Seq::empty() }),
    {
        let sink = CappedStreamSink {
            buffer: Vec::new(),
            stream: Vec::new(),
            max_stream_size,
            record: Ghost(Seq::empty()),
        };
        assert(sink.state().buffered =~= Seq::empty());
        assert(sink.state().published =~= Seq::empty());
        sink
    }

    /// A sink in a valid state holds what the record of its calls makes of
    /// an empty sink of its capacity.
    pub proof fn lemma_state_follows_calls(&self)
        requires
            self.wf(),
        ensures
            self.state() == after_calls(self.calls(), self.capacity()),
    {
    }

    /// The events taken since the last flush.
    pub fn buffer(&self) -> (events: &Vec<AuroraTransactionEvent>)
        ensures
            event_views(events@) == self.state().buffered,
    {
        &self.buffer
    }

    /// The entries that the stream retains.
    pub fn stream(&self) -> (events: &Vec<AuroraTransactionEvent>)
        ensures
            event_views(events@) == self.state().published,
    {
        &self.stream
    }

    /// The most entries that the stream retains.
    pub fn max_stream_size(&self) -> (max: usize)
        ensures
            max == self.capacity(),
    {
        self.max_stream_size
    }
}

impl AuroraEventHandler for CappedStreamSink {
    /// The buffer and the stream are what the record of the calls makes of
    /// an empty sink.
    closed spec fn wf(&self) -> bool {
        self.state() == after_calls(self.record@, self.max_stream_size as nat)
    }

    closed spec fn calls(&self) -> Seq<SinkCall> {
        self.record@
    }

    closed spec fn capacity(&self) -> nat {
        self.max_stream_size as nat
    }

    /// Buffers the event. The stream is not touched.
    fn handle_transaction(&mut self, event: AuroraTransactionEvent)
        ensures
            final(self).state() == after_call(
                old(self).state(),
                SinkCall::Accept(event@),
                old(self).capacity(),
            ),
    {
        let ghost call = SinkCall::Accept(event@);
        self.buffer.push(event);
        proof {
            assert(self.record@.push(call).drop_last() =~= self.record@);
            self.record@ = self.record@.push(call);
            assert(event_views(self.buffer@) =~= event_views(old(self).buffer@).push(event@));
        }
    }

    /// Publishes what is buffered, in its order, behind what the stream
    /// holds, and trims the stream from its oldest end to its capacity.
    fn flush_events(&mut self, block_height: u64)
        ensures
            final(self).state() == after_call(
                old(self).state(),
                SinkCall::Flush(block_height),
                old(self).capacity(),
            ),
            final(self).state().published.len() <= old(self).capacity(),
    {
        let ghost call = SinkCall::Flush(block_height);
        self.stream.append(&mut self.buffer);
        assert(event_views(self.stream@) =~= old(self).state().published + old(
            self,
        ).state().buffered);
        let len = self.stream.len();
        if len > self.max_stream_size {
            let newest = self.stream.split_off(len - self.max_stream_size);
            self.stream = newest;
        }
        proof {
            assert(self.record@.push(call).drop_last() =~= self.record@);
            self.record@ = self.record@.push(call);
            assert(event_views(self.stream@) =~= retained(
                old(self).state().published + old(self).state().buffered,
                old(self).capacity(),
            ));
            assert(event_views(self.buffer@) =~= Seq::<EventView>::empty());
        }
    }
}

} // verus!
