//! The action sequencer and its arena of action sources.

use std::collections::VecDeque;
use tokio::sync::mpsc::UnboundedReceiver;
use tokio::sync::mpsc::UnboundedSender;
use vstd::prelude::*;

verus! {

/// The sending half of a channel of `tokio::sync::mpsc::unbounded_channel`.
/// Nothing is known of what it holds.
#[verifier::external_type_specification]
#[verifier::external_body]
#[verifier::reject_recursive_types(T)]
pub struct ExUnboundedSender<T>(tokio::sync::mpsc::UnboundedSender<T>);

/// The receiving half of a channel of `tokio::sync::mpsc::unbounded_channel`.
/// Nothing is known of what it holds.
#[verifier::external_type_specification]
#[verifier::external_body]
#[verifier::reject_recursive_types(T)]
pub struct ExUnboundedReceiver<T>(tokio::sync::mpsc::UnboundedReceiver<T>);

/// Calls `tokio::sync::mpsc::unbounded_channel` for a channel of wake-ups.
/// Nothing is claimed of the two halves.
#[verifier::external_body]
fn wake_line() -> (halves: (UnboundedSender<()>, UnboundedReceiver<()>)) {
    tokio::sync::mpsc::unbounded_channel()
}

/// Calls `UnboundedSender::send` with one wake-up, which never waits. Where
/// the receiving half is closed or gone the wake-up is lost. Nothing is
/// claimed of the outcome.
#[verifier::external_body]
fn wake(line: &UnboundedSender<()>) {
    let _ = line.send(());
}

/// Handle of one action source: the index of its slot in the sequencer's arena.
/// Slots are never reused, so a handle stays unambiguous after its source is gone.
#[derive(Clone, Copy, Debug, PartialEq, Eq, Structural)]
pub struct UseQueued {
    pub slot: usize,
}

/// What a source is doing, as far as the sequencer is concerned.
#[derive(Clone, Copy, Debug, PartialEq, Eq, Structural)]
pub enum SourceState {
    /// Registered and waiting for a go-ahead.
    Idle,
    /// Holds the go-ahead: its action body is mid-execution.
    Running,
}

/// The mathematical model of a sequencer.
pub struct QueueView {
    /// One entry per slot ever handed out; `false` once the source was torn down.
    pub live: Seq<bool>,
    /// The requests not yet serviced, earliest first.
    pub pending: Seq<usize>,
    /// The source whose action body is mid-execution, if any.
    pub running: Option<usize>,
}

impl QueueView {
    /// A sequencer without sources, requests or running body.
    pub open spec fn idle() -> QueueView {
        QueueView { live: Seq::empty(), pending: Seq::empty(), running: None }
    }

    /// Every request and the running body refer to a slot that was handed out.
    pub open spec fn wf(self) -> bool {
        &&& forall|i: int| 0 <= i < self.pending.len() ==> (#[trigger] self.pending[i]) < self.live.len()
        &&& self.running matches Some(slot) ==> slot < self.live.len()
    }

    /// The source in `slot` is registered and not torn down.
    pub open spec fn is_live(self, slot: usize) -> bool {
        slot < self.live.len() && self.live[slot as int]
    }

    /// The state of the source in `slot`; `None` where there is no such source
    /// any more and no body of it is left running.
    pub open spec fn state(self, slot: usize) -> Option<SourceState> {
        if self.running == Some(slot) {
            Some(SourceState::Running)
        } else if self.is_live(slot) {
            Some(SourceState::Idle)
        } else {
            None
        }
    }

    /// A new source takes the next slot.
    pub open spec fn register(self) -> QueueView {
        QueueView { live: self.live.push(true), ..self }
    }

    /// The source in `slot` is torn down. Its requests stay where they are
    /// and are skipped when their turn comes; a running body is not touched.
    pub open spec fn release(self, slot: usize) -> QueueView {
        if slot < self.live.len() {
            QueueView { live: self.live.update(slot as int, false), ..self }
        } else {
            self
        }
    }

    /// A trigger of the source in `slot`: one more request at the end of the
    /// queue, or nothing where no such source is registered.
    pub open spec fn submit(self, slot: usize) -> QueueView {
        if self.is_live(slot) {
            QueueView { pending: self.pending.push(slot), ..self }
        } else {
            self
        }
    }

    /// The number of requests at the head of the queue whose source is gone.
    pub open spec fn stale(self) -> nat
        decreases self.pending.len(),
    {
        if self.pending.len() == 0 || self.is_live(self.pending[0]) {
            0
        } else {
            1 + (QueueView { pending: self.pending.skip(1), ..self }).stale()
        }
    }

    /// The source that a dispatch would hand the go-ahead to: the earliest
    /// request of a live source, provided that no body is running.
    pub open spec fn next(self) -> Option<UseQueued> {
        if self.running is None && self.stale() < self.pending.len() {
            Some(UseQueued { slot: self.pending[self.stale() as int] })
        } else {
            None
        }
    }

    /// The source whose body is running, as a handle.
    pub open spec fn holder(self) -> Option<UseQueued> {
        match self.running {
            Some(slot) => Some(UseQueued { slot }),
            None => None,
        }
    }

    /// One dispatch. While a body is running nothing moves. Otherwise the
    /// stale requests at the head are dropped, and the first request behind
    /// them, if there is one, leaves the queue and its source runs.
    pub open spec fn dispatch(self) -> QueueView {
        if self.running is Some {
            self
        } else if self.stale() < self.pending.len() {
            QueueView {
                pending: self.pending.skip((self.stale() + 1) as int),
                running: Some(self.pending[self.stale() as int]),
                ..self
            }
        } else {
            QueueView { pending: Seq::empty(), ..self }
        }
    }

    /// The running body, if any, has ended.
    pub open spec fn finish(self) -> QueueView {
        QueueView { running: None, ..self }
    }
}

/// The action sequencer: one per session. It owns the arena of source slots
/// and the queue of pending requests, and remembers which source, if any,
/// holds the go-ahead. Whenever it accepts a request it sends a wake-up to the
/// task that hands out the go-aheads.
pub struct Queue {
    live: Vec<bool>,
    pending: VecDeque<usize>,
    running: Option<usize>,
    wake: UnboundedSender<()>,
}

impl View for Queue {
    type V = QueueView;

    closed spec fn view(&self) -> QueueView {
        QueueView { live: self.live@, pending: self.pending@, running: self.running }
    }
}

/// Creates the sequencer of a session: no source is registered, nothing is
/// queued, nothing runs. With it comes the receiving end of its wake-ups,
/// for the task that hands out the go-aheads to wait on.
pub fn use_queue_provider() -> (provided: (Queue, UnboundedReceiver<()>))
    ensures
        provided.0@ == QueueView::idle(),
{
    let (wake, woken) = wake_line();
    (Queue { live: Vec::new(), pending: VecDeque::new(), running: None, wake }, woken)
}

/// Registers a new action source with the sequencer and returns its handle.
/// The source starts idle, with no request of its own in the queue.
pub fn use_queued(queue: &mut Queue) -> (source: UseQueued)
    ensures
        source.slot == old(queue)@.live.len(),
        final(queue)@ == old(queue)@.register(),
{
    let slot: usize = queue.live.len();
    queue.live.push(true);
    UseQueued { slot }
}

impl UseQueued {
    /// Triggers the source: one more request at the end of the sequencer's
    /// queue, and a wake-up for the task that hands out the go-aheads. Every
    /// call queues a run of its own. For a source that was never registered,
    /// or that has been torn down, nothing happens.
    pub fn queue(&self, queue: &mut Queue)
        ensures
            final(queue)@ == old(queue)@.submit(self.slot),
    {
        if self.slot < queue.live.len() && queue.live[self.slot] {
            queue.pending.push_back(self.slot);
            wake(&queue.wake);
        }
    }
}

impl Queue {
    /// Tears the source down. Requests of it that are still queued are
    /// dropped when their turn comes; a body of it that is running goes on to
    /// its end. For a handle that was never handed out nothing happens.
    pub fn release(&mut self, source: UseQueued)
        ensures
            final(self)@ == old(self)@.release(source.slot),
    {
        if source.slot < self.live.len() {
            self.live.set(source.slot, false);
        }
    }

    /// Hands out the next go-ahead. While a body is running there is none.
    /// Otherwise the earliest request whose source is still registered gets
    /// it and leaves the queue, together with the stale requests before it.
    pub fn dispatch(&mut self) -> (go: Option<UseQueued>)
        ensures
            go == old(self)@.next(),
            final(self)@ == old(self)@.dispatch(),
    {
        if self.running.is_some() {
            return None;
        }
        let ghost mut dropped: nat = 0;
        loop
            invariant
                old(self)@.running is None,
                self@.running is None,
                self@.live == old(self)@.live,
                dropped <= old(self)@.pending.len(),
                self@.pending == old(self)@.pending.skip(dropped as int),
                old(self)@.stale() == dropped + self@.stale(),
            decreases self@.pending.len(),
        {
            let ghost before = self@;
            match self.pending.pop_front() {
                None => {
                    proof {
                        assert(self@.pending =~= Seq::<usize>::empty());
                    }
                    return None;
                },
                Some(slot) => {
                    if slot < self.live.len() && self.live[slot] {
                        self.running = Some(slot);
                        proof {
                            assert(before.is_live(slot));
                            assert(self@.pending =~= old(self)@.pending.skip((dropped + 1) as int));
                        }
                        return Some(UseQueued { slot });
                    }
                    proof {
                        assert(!before.is_live(before.pending[0]));
                        assert(self@ == (QueueView { pending: before.pending.skip(1), ..before }));
                        assert(self@.pending =~= old(self)@.pending.skip((dropped + 1) as int));
                        dropped = dropped + 1;
                    }
                },
            }
        }
    }

    /// Records that the running body has ended, however it ended, and returns
    /// its source. The sequencer is then free to hand out the next go-ahead.
    pub fn finish(&mut self) -> (done: Option<UseQueued>)
        ensures
            done == old(self)@.holder(),
            final(self)@ == old(self)@.finish(),
    {
        match self.running {
            Some(slot) => {
                self.running = None;
                Some(UseQueued { slot })
            },
            None => None,
        }
    }

    /// The state of a source: running, idle, or `None` where it is neither
    /// registered nor running.
    pub fn state(&self, source: UseQueued) -> (state: Option<SourceState>)
        ensures
            state == self@.state(source.slot),
    {
        if self.running == Some(source.slot) {
            Some(SourceState::Running)
        } else if source.slot < self.live.len() && self.live[source.slot] {
            Some(SourceState::Idle)
        } else {
            None
        }
    }

    /// The source whose body is running, if any.
    pub fn running(&self) -> (holder: Option<UseQueued>)
        ensures
            holder == self@.holder(),
    {
        match self.running {
            Some(slot) => Some(UseQueued { slot }),
            None => None,
        }
    }

    /// The number of requests that wait in the queue.
    pub fn pending(&self) -> (n: usize)
        ensures
            n == self@.pending.len(),
    {
        self.pending.len()
    }

    /// True where no body runs and no request waits.
    pub fn is_idle(&self) -> (idle: bool)
        ensures
            idle == (self@.running is None && self@.pending.len() == 0),
    {
        self.running.is_none() && self.pending.len() == 0
    }
}

} // verus!
