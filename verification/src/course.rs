//! What holds of a body over its whole execution: it changes the characters
//! exactly once, between two phases, and a phase ends only when the last of
//! its operations has completed.

use crate::action::ActionBody;
use crate::action::Lane;
use crate::action::Order;
use crate::action::RunView;
use vstd::prelude::*;

verus! {

/// One thing that happens to a running body.
pub enum Tick {
    /// The driver asks what to do next, and does it.
    Next,
    /// An operation of the lane completes.
    Completed(Lane),
}

/// A running body together with the number of times it has ordered the
/// characters changed.
pub struct Course {
    pub run: RunView,
    pub mutations: nat,
}

impl Course {
    /// The course after one more tick.
    pub open spec fn step(self, tick: Tick) -> Course {
        match tick {
            Tick::Next => Course {
                run: self.run.step(),
                mutations: if self.run.order() == Order::Mutate {
                    self.mutations + 1
                } else {
                    self.mutations
                },
            },
            Tick::Completed(lane) => Course { run: self.run.completed(lane), ..self },
        }
    }

    /// The course of a body from its start through the given ticks.
    pub open spec fn replay(body: ActionBody, ticks: Seq<Tick>) -> Course
        decreases ticks.len(),
    {
        if ticks.len() == 0 {
            Course { run: RunView::begin(body), mutations: 0 }
        } else {
            Course::replay(body, ticks.drop_last()).step(ticks.last())
        }
    }

    /// The run has not gone past the point of the change without making it,
    /// and the change was ordered once if it was made and never if not.
    pub open spec fn on_course(self) -> bool {
        &&& self.run.wf()
        &&& self.run.body.strikes_midway()
        &&& self.mutations == if self.run.struck {
            1nat
        } else {
            0nat
        }
        &&& !self.run.struck ==> {
            ||| self.run.stage < self.run.body.strike_stage
            ||| {
                &&& self.run.stage == self.run.body.strike_stage
                &&& self.run.phase <= self.run.body.strike_phase
                &&& self.run.phase == self.run.body.strike_phase ==> self.run.started == 0
            }
        }
    }
}

/// One tick keeps a body on course.
pub proof fn lemma_step_on_course(course: Course, tick: Tick)
    requires
        course.on_course(),
    ensures
        course.step(tick).on_course(),
        course.step(tick).run.body == course.run.body,
{
}

/// A body whose change comes in the middle of a stage orders that change at
/// most once, whatever the order in which its operations complete, and has
/// ordered it exactly once when it ends: never zero times, never twice.
pub proof fn lemma_body_strikes_once(body: ActionBody, ticks: Seq<Tick>)
    requires
        body.strikes_midway(),
    ensures
        Course::replay(body, ticks).on_course(),
        Course::replay(body, ticks).run.body == body,
        Course::replay(body, ticks).mutations <= 1,
        Course::replay(body, ticks).run.is_done() ==> Course::replay(body, ticks).mutations == 1,
    decreases ticks.len(),
{
    if ticks.len() > 0 {
        lemma_body_strikes_once(body, ticks.drop_last());
        lemma_step_on_course(Course::replay(body, ticks.drop_last()), ticks.last());
    }
}

/// The change comes between two phases: when it is ordered, every operation
/// of the phases before it has completed and none of the phases after it was
/// started, at least one phase lies behind and at least one lies ahead.
pub proof fn lemma_strike_between_phases(run: RunView)
    requires
        run.wf(),
        run.body.strikes_midway(),
        run.order() == Order::Mutate,
    ensures
        run.started == 0,
        run.pending == 0,
        0 < run.phase < run.current().phases@.len(),
        run.step().phase == run.phase,
        run.step().struck,
        run.step().order() != Order::Mutate,
{
}

/// Nothing ends early. A phase is left only when every one of its operations
/// was started and has completed; a stage only when its phases are over and
/// every operation of its own has completed. The driver is told to wait only
/// while something is running that it can wait for.
pub proof fn lemma_nothing_ends_early(run: RunView)
    requires
        run.wf(),
    ensures
        run.order() == Order::PhaseEnded ==> {
            &&& run.phase < run.current().phases@.len()
            &&& run.started == run.ops().len()
            &&& run.pending == 0
        },
        run.order() == Order::StageEnded ==> {
            &&& run.phase == run.current().phases@.len()
            &&& run.whole_started == run.current().whole@.len()
            &&& run.whole_pending == 0
            &&& run.pending == 0
        },
        run.order() == Order::Wait ==> run.pending > 0 || run.whole_pending > 0,
        run.order() == Order::Done <==> run.is_done(),
        run.step().wf(),
{
}

impl RunView {
    /// The run once `count` operations of the lane have completed.
    pub open spec fn completions(self, lane: Lane, count: nat) -> RunView
        decreases count,
    {
        if count == 0 {
            self
        } else {
            self.completions(lane, (count - 1) as nat).completed(lane)
        }
    }
}

/// A phase ends with the last of its operations. Once all of them were
/// started, the driver is told to wait as long as one of them is still
/// running, however many of the others have completed and whatever the stage's
/// own operations do; the phase ends when all have completed.
pub proof fn lemma_phase_ends_with_last_op(run: RunView, done: nat, beside: nat)
    requires
        run.wf(),
        !run.is_done(),
        run.phase < run.current().phases@.len(),
        run.ops().len() > 0,
        run.started == run.ops().len(),
        run.pending == run.ops().len(),
        done <= run.ops().len(),
    ensures
        run.completions(Lane::Phase, done).pending == run.ops().len() - done,
        run.completions(Lane::Whole, beside).completions(Lane::Phase, done).order() == if done
            < run.ops().len() {
            Order::Wait
        } else {
            Order::PhaseEnded
        },
{
    lemma_completions(run, Lane::Whole, beside);
    let aside = run.completions(Lane::Whole, beside);
    lemma_completions(aside, Lane::Phase, done);
    lemma_completions(run, Lane::Phase, done);
}

/// Completions lower the count of the running operations of their lane, one
/// by one and not below zero, and touch nothing else.
pub proof fn lemma_completions(run: RunView, lane: Lane, count: nat)
    ensures
        run.completions(lane, count) == match lane {
            Lane::Whole => RunView {
                whole_pending: if count <= run.whole_pending {
                    (run.whole_pending - count) as nat
                } else {
                    0
                },
                ..run
            },
            Lane::Phase => RunView {
                pending: if count <= run.pending {
                    (run.pending - count) as nat
                } else {
                    0
                },
                ..run
            },
        },
    decreases count,
{
    if count > 0 {
        lemma_completions(run, lane, (count - 1) as nat);
    }
}

} // verus!
