//! The body of a skill's action: what it animates, in which order, and where
//! in that order it changes the characters.

use vstd::prelude::*;

verus! {

/// What an animation moves.
#[derive(Clone, Copy, Debug, PartialEq, Eq, Structural)]
pub enum Part {
    Position,
    Rotation,
    LeftArm,
    RightArm,
    LeftLeg,
    RightLeg,
}

/// Where an animation moves its part to.
#[derive(Clone, Copy, Debug, PartialEq, Eq, Structural)]
pub enum Goal {
    /// The part's position at rest.
    Rest,
    /// A limb swung forward.
    Forward,
    /// A limb swung back.
    Back,
    /// An arm raised to throw.
    Raised,
    /// The place in front of the target.
    Advanced,
    /// The character's own place.
    Home,
    /// Turned about.
    About,
}

/// One operation of the animator: it drives a part to a goal over a duration
/// and completes once, when the goal is reached.
#[derive(Clone, Copy, Debug, PartialEq, Eq, Structural)]
pub struct Animation {
    pub part: Part,
    pub goal: Goal,
    pub millis: u64,
}

/// A phase: operations that start together. The phase ends when the last of
/// them has completed.
#[derive(Clone, Debug)]
pub struct Phase {
    pub ops: Vec<Animation>,
}

/// A stage: phases that follow one another, and operations that run beside
/// them for the whole stage. The stage ends when its last phase has ended and
/// all of those operations have completed.
#[derive(Clone, Debug)]
pub struct Stage {
    pub whole: Vec<Animation>,
    pub phases: Vec<Phase>,
}

/// The body of an action: stages that follow one another, and the one point
/// at which the body changes the characters, which is the moment before the
/// phase `strike_phase` of the stage `strike_stage` begins.
#[derive(Clone, Debug)]
pub struct ActionBody {
    pub stages: Vec<Stage>,
    pub strike_stage: usize,
    pub strike_phase: usize,
}

impl Stage {
    /// The operations of each phase, phase by phase.
    pub open spec fn phase_ops(self) -> Seq<Seq<Animation>> {
        Seq::new(self.phases@.len(), |j: int| self.phases@[j].ops@)
    }
}

impl ActionBody {
    /// The change comes in the middle of a stage: at least one phase ends
    /// before it and at least one begins after it.
    pub open spec fn strikes_midway(self) -> bool {
        &&& self.strike_stage < self.stages@.len()
        &&& 0 < self.strike_phase < self.stages@[self.strike_stage as int].phases@.len()
    }

    /// Tells whether the change comes in the middle of a stage.
    pub fn is_valid(&self) -> (valid: bool)
        ensures
            valid == self.strikes_midway(),
    {
        self.strike_stage < self.stages.len() && 0 < self.strike_phase && self.strike_phase
            < self.stages[self.strike_stage].phases.len()
    }
}

/// Which of a stage's operations one is.
#[derive(Clone, Copy, Debug, PartialEq, Eq, Structural)]
pub enum Lane {
    /// One that runs for the whole stage.
    Whole,
    /// One of the current phase.
    Phase,
}

/// What is to be done next for a running body.
#[derive(Clone, Copy, Debug, PartialEq, Eq, Structural)]
pub enum Order {
    /// Start this operation now, and report its completion for this lane.
    Animate(Lane, Animation),
    /// Change the characters now.
    Mutate,
    /// The current phase has ended.
    PhaseEnded,
    /// The current stage has ended.
    StageEnded,
    /// Nothing can be done before another operation completes.
    Wait,
    /// The body has ended.
    Done,
}

/// The mathematical model of a body in execution.
pub struct RunView {
    pub body: ActionBody,
    /// The index of the current stage; the number of stages once the body has ended.
    pub stage: nat,
    /// How many of the stage's own operations were started.
    pub whole_started: nat,
    /// How many of them have not completed yet.
    pub whole_pending: nat,
    /// The index of the current phase; the number of phases once all have ended.
    pub phase: nat,
    /// How many of the phase's operations were started.
    pub started: nat,
    /// How many of them have not completed yet.
    pub pending: nat,
    /// The characters were changed.
    pub struck: bool,
}

impl RunView {
    /// A body before anything of it was started.
    pub open spec fn begin(body: ActionBody) -> RunView {
        RunView {
            body,
            stage: 0,
            whole_started: 0,
            whole_pending: 0,
            phase: 0,
            started: 0,
            pending: 0,
            struck: false,
        }
    }

    /// The body has ended.
    pub open spec fn is_done(self) -> bool {
        self.stage >= self.body.stages@.len()
    }

    /// The stage that is current. Only meaningful before the body has ended.
    pub open spec fn current(self) -> Stage {
        self.body.stages@[self.stage as int]
    }

    /// The operations of the phase that is current. Only meaningful while the
    /// stage has a phase left.
    pub open spec fn ops(self) -> Seq<Animation> {
        self.current().phases@[self.phase as int].ops@
    }

    /// The run stands at the point where the body changes the characters, and
    /// has not changed them yet.
    pub open spec fn at_strike(self) -> bool {
        &&& !self.struck
        &&& self.stage == self.body.strike_stage
        &&& self.phase == self.body.strike_phase
    }

    /// The counters fit the body.
    pub open spec fn wf(self) -> bool {
        if self.is_done() {
            &&& self.stage == self.body.stages@.len()
            &&& self.whole_started == 0
            &&& self.whole_pending == 0
            &&& self.phase == 0
            &&& self.started == 0
            &&& self.pending == 0
        } else {
            &&& self.whole_pending <= self.whole_started <= self.current().whole@.len()
            &&& self.phase <= self.current().phases@.len()
            &&& self.pending <= self.started
            &&& self.phase < self.current().phases@.len() ==> self.started <= self.ops().len()
            &&& self.phase == self.current().phases@.len() ==> self.started == 0
            &&& (self.phase > 0 || self.started > 0) ==> self.whole_started
                == self.current().whole@.len()
        }
    }

    /// What is to be done next.
    pub open spec fn order(self) -> Order {
        if self.is_done() {
            Order::Done
        } else if self.whole_started < self.current().whole@.len() {
            Order::Animate(Lane::Whole, self.current().whole@[self.whole_started as int])
        } else if self.at_strike() && self.started == 0 {
            Order::Mutate
        } else if self.phase < self.current().phases@.len() {
            if self.started < self.ops().len() {
                Order::Animate(Lane::Phase, self.ops()[self.started as int])
            } else if self.pending > 0 {
                Order::Wait
            } else {
                Order::PhaseEnded
            }
        } else if self.whole_pending > 0 {
            Order::Wait
        } else {
            Order::StageEnded
        }
    }

    /// The run once the next order was given.
    pub open spec fn step(self) -> RunView {
        match self.order() {
            Order::Animate(Lane::Whole, _) => RunView {
                whole_started: self.whole_started + 1,
                whole_pending: self.whole_pending + 1,
                ..self
            },
            Order::Animate(Lane::Phase, _) => RunView {
                started: self.started + 1,
                pending: self.pending + 1,
                ..self
            },
            Order::Mutate => RunView { struck: true, ..self },
            Order::PhaseEnded => RunView { phase: self.phase + 1, started: 0, pending: 0, ..self },
            Order::StageEnded => RunView {
                stage: self.stage + 1,
                whole_started: 0,
                whole_pending: 0,
                phase: 0,
                started: 0,
                pending: 0,
                ..self
            },
            Order::Wait | Order::Done => self,
        }
    }

    /// The run once an operation of the lane has completed. A completion that
    /// nothing waits for changes nothing.
    pub open spec fn completed(self, lane: Lane) -> RunView {
        match lane {
            Lane::Whole => if self.whole_pending > 0 {
                RunView { whole_pending: (self.whole_pending - 1) as nat, ..self }
            } else {
                self
            },
            Lane::Phase => if self.pending > 0 {
                RunView { pending: (self.pending - 1) as nat, ..self }
            } else {
                self
            },
        }
    }
}

/// A body in execution. It is driven from outside: `next` says what to do,
/// and `completed` takes note of each operation that has run to its goal.
#[derive(Debug)]
pub struct Run {
    body: ActionBody,
    stage: usize,
    whole_started: usize,
    whole_pending: usize,
    phase: usize,
    started: usize,
    pending: usize,
    struck: bool,
}

impl View for Run {
    type V = RunView;

    closed spec fn view(&self) -> RunView {
        RunView {
            body: self.body,
            stage: self.stage as nat,
            whole_started: self.whole_started as nat,
            whole_pending: self.whole_pending as nat,
            phase: self.phase as nat,
            started: self.started as nat,
            pending: self.pending as nat,
            struck: self.struck,
        }
    }
}

impl Run {
    #[verifier::type_invariant]
    spec fn inv(self) -> bool {
        self@.wf()
    }

    /// Takes a body to its start: nothing of it is running yet.
    pub fn new(body: ActionBody) -> (run: Run)
        ensures
            run@ == RunView::begin(body),
            run@.wf(),
    {
        Run {
            body,
            stage: 0,
            whole_started: 0,
            whole_pending: 0,
            phase: 0,
            started: 0,
            pending: 0,
            struck: false,
        }
    }

    /// Says what is to be done next, and counts it as done: an operation as
    /// started, the change as made, a phase or a stage as left behind.
    pub fn next(&mut self) -> (order: Order)
        ensures
            order == old(self)@.order(),
            final(self)@ == old(self)@.step(),
            final(self)@.wf(),
    {
        proof {
            use_type_invariant(&*self);
        }
        if self.stage >= self.body.stages.len() {
            return Order::Done;
        }
        let whole_len = self.body.stages[self.stage].whole.len();
        let phases_len = self.body.stages[self.stage].phases.len();
        if self.whole_started < whole_len {
            let animation = self.body.stages[self.stage].whole[self.whole_started];
            self.whole_started = self.whole_started + 1;
            self.whole_pending = self.whole_pending + 1;
            return Order::Animate(Lane::Whole, animation);
        }
        if !self.struck && self.stage == self.body.strike_stage && self.phase
            == self.body.strike_phase && self.started == 0 {
            self.struck = true;
            return Order::Mutate;
        }
        if self.phase < phases_len {
            let ops_len = self.body.stages[self.stage].phases[self.phase].ops.len();
            if self.started < ops_len {
                let animation = self.body.stages[self.stage].phases[self.phase].ops[self.started];
                self.started = self.started + 1;
                self.pending = self.pending + 1;
                Order::Animate(Lane::Phase, animation)
            } else if self.pending > 0 {
                Order::Wait
            } else {
                self.started = 0;
                self.phase = self.phase + 1;
                Order::PhaseEnded
            }
        } else if self.whole_pending > 0 {
            Order::Wait
        } else {
            self.phase = 0;
            self.whole_started = 0;
            self.stage = self.stage + 1;
            Order::StageEnded
        }
    }

    /// Takes note that an operation of the lane has completed.
    pub fn completed(&mut self, lane: Lane)
        ensures
            final(self)@ == old(self)@.completed(lane),
            final(self)@.wf(),
    {
        proof {
            use_type_invariant(&*self);
        }
        match lane {
            Lane::Whole => {
                if self.whole_pending > 0 {
                    self.whole_pending = self.whole_pending - 1;
                }
            },
            Lane::Phase => {
                if self.pending > 0 {
                    self.pending = self.pending - 1;
                }
            },
        }
    }

    /// Tells whether the body has ended.
    pub fn is_done(&self) -> (done: bool)
        ensures
            done == self@.is_done(),
    {
        self.stage >= self.body.stages.len()
    }

    /// Tells whether the characters were changed.
    pub fn has_struck(&self) -> (struck: bool)
        ensures
            struck == self@.struck,
    {
        self.struck
    }
}

} // verus!
