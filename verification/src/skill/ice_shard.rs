//! The ice shard: the player walks up to the target, throws, and walks back.
//! The throw costs the player one point of energy and the target one point of
//! health.

use crate::action::ActionBody;
use crate::action::Animation;
use crate::action::Goal;
use crate::action::Part;
use crate::action::Phase;
use crate::action::Stage;
use crate::character::CharacterState;
use crate::queue::Queue;
use crate::skill::Pointer;
use crate::skill::Skill;
use vstd::prelude::*;

verus! {

/// Why a throw did not take place.
#[derive(Clone, Copy, Debug, PartialEq, Eq, Structural)]
pub enum StrikeError {
    /// There is no record at the player's index.
    NoActor,
    /// The player has no energy left.
    NoEnergy,
    /// There is no record at the target's index.
    NoTarget,
    /// The target has no health left.
    NoHealth,
}

/// The ice shard skill of one player, aimed at one target.
#[derive(Clone, Copy, Debug, PartialEq, Eq, Structural)]
pub struct IceShard {
    /// The index of the player's record.
    pub player_idx: usize,
    /// The index of the target's record.
    pub target_idx: usize,
    /// The current turn.
    pub turn: u32,
    /// The end of the turn was asked for.
    pub is_turn_done: bool,
}

/// One operation, as a phase of its own.
pub open spec fn single(part: Part, goal: Goal, millis: u64) -> Seq<Animation> {
    seq![Animation { part, goal, millis }]
}

/// Both arms and both legs move at once, for half a second: the left limbs to
/// one goal, the right limbs to the other.
pub open spec fn limbs(left: Goal, right: Goal) -> Seq<Animation> {
    seq![
        Animation { part: Part::LeftArm, goal: left, millis: 500 },
        Animation { part: Part::RightArm, goal: right, millis: 500 },
        Animation { part: Part::LeftLeg, goal: left, millis: 500 },
        Animation { part: Part::RightLeg, goal: right, millis: 500 },
    ]
}

/// The way to the target: two strides, a halt, the arm goes up, the arm comes
/// down, the player turns about.
pub open spec fn approach() -> Seq<Seq<Animation>> {
    seq![
        limbs(Goal::Forward, Goal::Back),
        limbs(Goal::Back, Goal::Forward),
        limbs(Goal::Rest, Goal::Rest),
        single(Part::RightArm, Goal::Raised, 200),
        single(Part::RightArm, Goal::Rest, 200),
        single(Part::Rotation, Goal::About, 250),
    ]
}

/// The way back: two strides, a halt, the player turns to the front again.
pub open spec fn retreat() -> Seq<Seq<Animation>> {
    seq![
        limbs(Goal::Forward, Goal::Back),
        limbs(Goal::Back, Goal::Forward),
        limbs(Goal::Rest, Goal::Rest),
        single(Part::Rotation, Goal::Rest, 250),
    ]
}

fn single_phase(part: Part, goal: Goal, millis: u64) -> (phase: Phase)
    ensures
        phase.ops@ == single(part, goal, millis),
{
    let mut ops: Vec<Animation> = Vec::new();
    ops.push(Animation { part, goal, millis });
    proof {
        assert(ops@ =~= single(part, goal, millis));
    }
    Phase { ops }
}

fn limbs_phase(left: Goal, right: Goal) -> (phase: Phase)
    ensures
        phase.ops@ == limbs(left, right),
{
    let mut ops: Vec<Animation> = Vec::new();
    ops.push(Animation { part: Part::LeftArm, goal: left, millis: 500 });
    ops.push(Animation { part: Part::RightArm, goal: right, millis: 500 });
    ops.push(Animation { part: Part::LeftLeg, goal: left, millis: 500 });
    ops.push(Animation { part: Part::RightLeg, goal: right, millis: 500 });
    proof {
        assert(ops@ =~= limbs(left, right));
    }
    Phase { ops }
}

impl IceShard {
    /// Why the throw cannot take place on these records, if it cannot.
    pub open spec fn refusal(self, characters: Seq<CharacterState>) -> Option<StrikeError> {
        if self.player_idx >= characters.len() {
            Some(StrikeError::NoActor)
        } else if characters[self.player_idx as int].energy == 0 {
            Some(StrikeError::NoEnergy)
        } else if self.target_idx >= characters.len() {
            Some(StrikeError::NoTarget)
        } else if characters[self.target_idx as int].health == 0 {
            Some(StrikeError::NoHealth)
        } else {
            None
        }
    }

    /// The records after the throw: the player has one point of energy less,
    /// the target one point of health less, and nothing else has changed.
    pub open spec fn struck(self, characters: Seq<CharacterState>) -> Seq<CharacterState> {
        let player = characters[self.player_idx as int];
        let spent = characters.update(
            self.player_idx as int,
            CharacterState { energy: (player.energy - 1) as u32, ..player },
        );
        let target = spent[self.target_idx as int];
        spent.update(
            self.target_idx as int,
            CharacterState { health: (target.health - 1) as u32, ..target },
        )
    }

    /// Creates the skill: its name, its description, a cooldown of two turns,
    /// and a newly registered action source.
    pub fn skill(&self, queue: &mut Queue) -> (skill: Skill)
        ensures
            skill.name@ == "Ice Shard"@,
            skill.description@ == "Launch a shard of ice at the target, dealing 50 damage."@,
            skill.cooldown == 2,
            skill.task.slot == old(queue)@.live.len(),
            skill.record.last_used is None,
            !skill.is_hovered,
            !skill.is_pointer_down,
            final(queue)@ == old(queue)@.register(),
    {
        Skill::new(
            queue,
            "Ice Shard".to_owned(),
            "Launch a shard of ice at the target, dealing 50 damage.".to_owned(),
            2,
        )
    }

    /// Hands a pointer event on the skill's icon to the skill, with the turn
    /// and the latch as they are now.
    pub fn pointer(&self, skill: &mut Skill, event: Pointer, queue: &mut Queue) -> (triggered: bool)
        ensures
            triggered == old(skill).triggers(event, self.turn, self.is_turn_done),
            *final(skill) == old(skill).after(event, self.turn, self.is_turn_done),
            final(queue)@ == if triggered {
                old(queue)@.submit(old(skill).task.slot)
            } else {
                old(queue)@
            },
    {
        skill.pointer(event, queue, self.turn, self.is_turn_done)
    }

    /// The body of the skill's action. On the way to the target the player
    /// moves forward for a second and a half while walking; the throw comes
    /// when the arm is up, before it comes down. The way back is walked in
    /// the same manner.
    pub fn body() -> (body: ActionBody)
        ensures
            body.stages@.len() == 2,
            body.stages@[0].whole@ == single(Part::Position, Goal::Advanced, 1500),
            body.stages@[0].phase_ops() == approach(),
            body.stages@[1].whole@ == single(Part::Position, Goal::Home, 1500),
            body.stages@[1].phase_ops() == retreat(),
            body.strike_stage == 0,
            body.strike_phase == 4,
            body.strikes_midway(),
    {
        let mut there: Vec<Phase> = Vec::new();
        there.push(limbs_phase(Goal::Forward, Goal::Back));
        there.push(limbs_phase(Goal::Back, Goal::Forward));
        there.push(limbs_phase(Goal::Rest, Goal::Rest));
        there.push(single_phase(Part::RightArm, Goal::Raised, 200));
        there.push(single_phase(Part::RightArm, Goal::Rest, 200));
        there.push(single_phase(Part::Rotation, Goal::About, 250));
        let mut back: Vec<Phase> = Vec::new();
        back.push(limbs_phase(Goal::Forward, Goal::Back));
        back.push(limbs_phase(Goal::Back, Goal::Forward));
        back.push(limbs_phase(Goal::Rest, Goal::Rest));
        back.push(single_phase(Part::Rotation, Goal::Rest, 250));
        let advance = single_phase(Part::Position, Goal::Advanced, 1500);
        let home = single_phase(Part::Position, Goal::Home, 1500);
        let first = Stage { whole: advance.ops, phases: there };
        let second = Stage { whole: home.ops, phases: back };
        proof {
            assert(first.phase_ops() =~= approach());
            assert(second.phase_ops() =~= retreat());
        }
        let mut stages: Vec<Stage> = Vec::new();
        stages.push(first);
        stages.push(second);
        ActionBody { stages, strike_stage: 0, strike_phase: 4 }
    }

    /// The throw: the one point at which the action changes the characters.
    /// Where it cannot take place, no record is touched.
    pub fn strike(&self, characters: &mut Vec<CharacterState>) -> (result: Result<(), StrikeError>)
        ensures
            match result {
                Ok(()) => {
                    &&& self.refusal(old(characters)@) is None
                    &&& final(characters)@ == self.struck(old(characters)@)
                },
                Err(error) => {
                    &&& self.refusal(old(characters)@) == Some(error)
                    &&& final(characters)@ == old(characters)@
                },
            },
    {
        if self.player_idx >= characters.len() {
            return Err(StrikeError::NoActor);
        }
        let player = characters[self.player_idx];
        if player.energy == 0 {
            return Err(StrikeError::NoEnergy);
        }
        if self.target_idx >= characters.len() {
            return Err(StrikeError::NoTarget);
        }
        if characters[self.target_idx].health == 0 {
            return Err(StrikeError::NoHealth);
        }
        characters.set(self.player_idx, CharacterState { energy: player.energy - 1, ..player });
        let target = characters[self.target_idx];
        characters.set(self.target_idx, CharacterState { health: target.health - 1, ..target });
        Ok(())
    }
}

} // verus!
