//! What a sequencer does over a whole run of events: requests leave the queue
//! in the order in which they were accepted, and a body starts only once the
//! one before it has ended.

use crate::queue::QueueView;
use crate::queue::SourceState;
use crate::queue::UseQueued;
use vstd::prelude::*;

verus! {

/// One thing that can happen to a sequencer.
pub enum Event {
    /// A new source registers.
    Register,
    /// The source in the given slot is torn down.
    Release(usize),
    /// The source in the given slot is triggered.
    Submit(usize),
    /// The sequencer is asked for the next go-ahead.
    Dispatch,
    /// The running body ends.
    Finish,
}

/// A sequencer together with a record of what has passed through it. Every
/// accepted request is known by its ticket: its position in `accepted`.
pub struct History {
    /// The sequencer as it stands.
    pub queue: QueueView,
    /// The source of every request that was accepted, in the order of arrival.
    pub accepted: Seq<usize>,
    /// The number of requests that have left the queue, started or dropped.
    pub served: nat,
    /// The tickets of the requests whose body was started, in the order of the go-aheads.
    pub started: Seq<nat>,
    /// The tickets of the requests whose body has ended, in the order of the endings.
    pub finished: Seq<nat>,
}

impl History {
    /// A fresh sequencer, before anything happened.
    pub open spec fn start() -> History {
        History {
            queue: QueueView::idle(),
            accepted: Seq::empty(),
            served: 0,
            started: Seq::empty(),
            finished: Seq::empty(),
        }
    }

    /// The history after one more event.
    pub open spec fn step(self, event: Event) -> History {
        match event {
            Event::Register => History { queue: self.queue.register(), ..self },
            Event::Release(slot) => History { queue: self.queue.release(slot), ..self },
            Event::Submit(slot) => History {
                queue: self.queue.submit(slot),
                accepted: if self.queue.is_live(slot) {
                    self.accepted.push(slot)
                } else {
                    self.accepted
                },
                ..self
            },
            Event::Dispatch => if self.queue.running is Some {
                self
            } else if self.queue.stale() < self.queue.pending.len() {
                History {
                    queue: self.queue.dispatch(),
                    served: self.served + self.queue.stale() + 1,
                    started: self.started.push(self.served + self.queue.stale()),
                    ..self
                }
            } else {
                History {
                    queue: self.queue.dispatch(),
                    served: self.served + self.queue.pending.len(),
                    ..self
                }
            },
            Event::Finish => if self.queue.running is Some {
                History {
                    queue: self.queue.finish(),
                    finished: self.finished.push(self.started.last()),
                    ..self
                }
            } else {
                self
            },
        }
    }

    /// The history of a fresh sequencer after the given events, in their order.
    pub open spec fn replay(events: Seq<Event>) -> History
        decreases events.len(),
    {
        if events.len() == 0 {
            History::start()
        } else {
            History::replay(events.drop_last()).step(events.last())
        }
    }

    /// What holds of a sequencer at every moment of every run.
    pub open spec fn in_order(self) -> bool {
        &&& self.queue.wf()
        // The queue holds exactly the accepted requests that were not served yet,
        // in the order of their arrival.
        &&& self.served <= self.accepted.len()
        &&& self.queue.pending =~= self.accepted.skip(self.served as int)
        // Go-aheads follow the order of arrival, and only served requests got one.
        &&& forall|i: int, j: int|
            0 <= i < j < self.started.len() ==> self.started[i] < self.started[j]
        &&& forall|i: int| 0 <= i < self.started.len() ==> self.started[i] < self.served
        // Bodies end in the order in which they started, and all but the last
        // one started have ended.
        &&& self.finished.len() <= self.started.len() <= self.finished.len() + 1
        &&& self.finished =~= self.started.take(self.finished.len() as int)
        // A body runs exactly while the last go-ahead is not answered, and it
        // is the body of the source that asked.
        &&& self.queue.running == if self.started.len() > self.finished.len() {
            Some(self.accepted[self.started.last() as int])
        } else {
            None
        }
    }
}

/// The requests that a dispatch skips are exactly those at the head of the
/// queue whose source is gone: the request behind them, if there is one, is of
/// a live source.
pub proof fn lemma_stale_prefix(queue: QueueView)
    ensures
        queue.stale() <= queue.pending.len(),
        forall|i: int| 0 <= i < queue.stale() ==> !queue.is_live(#[trigger] queue.pending[i]),
        queue.stale() < queue.pending.len() ==> queue.is_live(queue.pending[queue.stale() as int]),
    decreases queue.pending.len(),
{
    if queue.pending.len() == 0 || queue.is_live(queue.pending[0]) {
    } else {
        let rest = QueueView { pending: queue.pending.skip(1), ..queue };
        lemma_stale_prefix(rest);
        assert forall|i: int| 0 <= i < queue.stale() implies !queue.is_live(
            #[trigger] queue.pending[i],
        ) by {
            if i > 0 {
                assert(queue.pending[i] == rest.pending[i - 1]);
            }
        }
        if queue.stale() < queue.pending.len() {
            assert(rest.pending[rest.stale() as int] == queue.pending[queue.stale() as int]);
            assert(rest.is_live(rest.pending[rest.stale() as int]));
        }
    }
}

/// No two sources run at once.
pub proof fn lemma_one_body_at_a_time(queue: QueueView, a: usize, b: usize)
    requires
        queue.state(a) == Some(SourceState::Running),
        queue.state(b) == Some(SourceState::Running),
    ensures
        a == b,
{
}

/// A source goes from idle to running when it is handed the go-ahead, and
/// back to idle when its body ends; or out of the arena, where it was torn
/// down in between.
pub proof fn lemma_source_cycle(queue: QueueView, source: UseQueued)
    requires
        queue.next() == Some(source),
    ensures
        queue.state(source.slot) == Some(SourceState::Idle),
        queue.dispatch().state(source.slot) == Some(SourceState::Running),
        queue.dispatch().finish().state(source.slot) == Some(SourceState::Idle),
        queue.dispatch().release(source.slot).state(source.slot) == Some(SourceState::Running),
        queue.dispatch().release(source.slot).finish().state(source.slot) is None,
{
    lemma_stale_prefix(queue);
}

/// A trigger that arrives while a body runs waits behind it: the running body
/// keeps the go-ahead, no other is handed out, and the request stands at the
/// end of the queue.
pub proof fn lemma_no_preemption(queue: QueueView, slot: usize)
    requires
        queue.running is Some,
    ensures
        queue.submit(slot).running == queue.running,
        queue.submit(slot).next() is None,
        queue.submit(slot).dispatch() == queue.submit(slot),
        queue.is_live(slot) ==> queue.submit(slot).pending.last() == slot,
{
}

/// Tearing a source down while requests of it wait does not stop the
/// sequencer. The queue itself is left as it was; at the next dispatch the
/// requests at its head that belong to the source, or to one torn down
/// earlier, are dropped, and the go-ahead goes to the first request behind
/// them, whose source is another one and still registered.
pub proof fn lemma_release_drops_requests(queue: QueueView, slot: usize)
    requires
        queue.running is None,
    ensures
        ({
            let after = queue.release(slot);
            let skipped = after.stale();
            &&& after.pending == queue.pending
            &&& after.running is None
            &&& skipped <= queue.pending.len()
            &&& forall|i: int|
                0 <= i < skipped ==> (#[trigger] queue.pending[i]) == slot || !queue.is_live(
                    queue.pending[i],
                )
            &&& after.next() != Some(UseQueued { slot })
            &&& skipped < queue.pending.len() ==> {
                &&& after.next() == Some(UseQueued { slot: queue.pending[skipped as int] })
                &&& queue.is_live(queue.pending[skipped as int])
                &&& after.dispatch().pending == queue.pending.skip((skipped + 1) as int)
            }
            &&& skipped == queue.pending.len() ==> {
                &&& after.next() is None
                &&& after.dispatch().pending.len() == 0
            }
        }),
{
    let after = queue.release(slot);
    lemma_stale_prefix(after);
    assert forall|i: int| 0 <= i < after.stale() implies (#[trigger] queue.pending[i]) == slot
        || !queue.is_live(queue.pending[i]) by {
        assert(!after.is_live(after.pending[i]));
    }
}

/// One event keeps a history in order.
pub proof fn lemma_step_in_order(history: History, event: Event)
    requires
        history.in_order(),
    ensures
        history.step(event).in_order(),
{
    let after = history.step(event);
    let queue = history.queue;
    lemma_stale_prefix(queue);
    match event {
        Event::Register => {},
        Event::Release(slot) => {},
        Event::Submit(slot) => {
            if queue.is_live(slot) {
                assert(after.queue.pending =~= after.accepted.skip(after.served as int));
            }
        },
        Event::Dispatch => {
            if queue.running is Some {
            } else if queue.stale() < queue.pending.len() {
                let k = queue.stale() as int;
                assert(queue.pending[k] == history.accepted[history.served + k]);
                assert(after.queue.pending =~= after.accepted.skip(after.served as int));
                assert(after.started.last() == history.served + k);
                assert(after.finished =~= after.started.take(after.finished.len() as int));
            } else {
                assert(after.queue.pending =~= after.accepted.skip(after.served as int));
            }
        },
        Event::Finish => {
            if queue.running is Some {
                assert(after.finished =~= after.started.take(after.finished.len() as int));
            }
        },
    }
}

/// Whatever happens to a sequencer, and in whatever order: requests leave the
/// queue in the order in which they were accepted, go-aheads and endings
/// follow that order, and a body is started only when every body started
/// before it has ended.
pub proof fn lemma_replay_in_order(events: Seq<Event>)
    ensures
        History::replay(events).in_order(),
    decreases events.len(),
{
    if events.len() > 0 {
        lemma_replay_in_order(events.drop_last());
        lemma_step_in_order(History::replay(events.drop_last()), events.last());
    }
}

} // verus!
