//! A skill: its cooldown, its action source, and how its icon answers the pointer.

use crate::cooldown::SkillCooldownRecord;
use crate::queue::Queue;
use crate::queue::UseQueued;
use crate::queue::use_queued;
use vstd::prelude::*;

pub mod ice_shard;

verus! {

/// What the pointer does on an icon or a model.
#[derive(Clone, Copy, Debug, PartialEq, Eq, Structural)]
pub enum Pointer {
    /// It moves onto the element.
    Over,
    /// It leaves the element.
    Out,
    /// Its button goes down on the element.
    Down,
    /// Its button comes up on the element.
    Up,
    /// A full click on the element.
    Click,
}

/// One skill of the player.
#[derive(Clone, Debug)]
pub struct Skill {
    /// The name shown in the skill's menu.
    pub name: String,
    /// The text shown below the name.
    pub description: String,
    /// For how many turns the skill stays disabled after a use, the turn of the use included.
    pub cooldown: u8,
    /// The action source that runs the skill's body.
    pub task: UseQueued,
    /// When the skill was last used.
    pub record: SkillCooldownRecord,
    /// The pointer rests on the icon: the menu is shown.
    pub is_hovered: bool,
    /// The pointer's button is held down on the icon.
    pub is_pointer_down: bool,
}

impl Skill {
    /// The skill can be used: no end of turn is pending and it is not cooling down.
    pub open spec fn enabled(self, turn: u32, is_turn_done: bool) -> bool {
        self.record.enabled(is_turn_done, turn, self.cooldown)
    }

    /// The skill after the pointer event.
    pub open spec fn after(self, event: Pointer, turn: u32, is_turn_done: bool) -> Skill {
        let enabled = self.enabled(turn, is_turn_done);
        match event {
            Pointer::Over => if enabled {
                Skill { is_hovered: true, ..self }
            } else {
                self
            },
            Pointer::Out => Skill { is_hovered: false, is_pointer_down: false, ..self },
            Pointer::Down => if enabled {
                Skill { is_pointer_down: true, ..self }
            } else {
                self
            },
            Pointer::Up => Skill { is_pointer_down: false, ..self },
            Pointer::Click => if enabled {
                Skill { record: SkillCooldownRecord { last_used: Some(turn) }, ..self }
            } else {
                self
            },
        }
    }

    /// The pointer event triggers the skill: it is a click, and the skill is enabled.
    pub open spec fn triggers(self, event: Pointer, turn: u32, is_turn_done: bool) -> bool {
        event == Pointer::Click && self.enabled(turn, is_turn_done)
    }

    /// A skill that was never used, with a newly registered action source.
    pub fn new(queue: &mut Queue, name: String, description: String, cooldown: u8) -> (skill: Skill)
        ensures
            skill.name == name,
            skill.description == description,
            skill.cooldown == cooldown,
            skill.task.slot == old(queue)@.live.len(),
            skill.record.last_used is None,
            !skill.is_hovered,
            !skill.is_pointer_down,
            final(queue)@ == old(queue)@.register(),
    {
        let task = use_queued(queue);
        Skill {
            name,
            description,
            cooldown,
            task,
            record: SkillCooldownRecord::new(),
            is_hovered: false,
            is_pointer_down: false,
        }
    }

    /// Tells whether the skill can be used at `turn`.
    pub fn is_enabled(&self, turn: u32, is_turn_done: bool) -> (enabled: bool)
        ensures
            enabled == self.enabled(turn, is_turn_done),
    {
        self.record.is_enabled(is_turn_done, turn, self.cooldown)
    }

    /// The number shown over the icon while the skill cools down.
    pub fn remaining(&self, turn: u32) -> (left: Option<u32>)
        requires
            self.record.turns_left(turn, self.cooldown) matches Some(n) ==> n <= u32::MAX,
        ensures
            match left {
                Some(n) => self.record.turns_left(turn, self.cooldown) == Some(n as int),
                None => self.record.turns_left(turn, self.cooldown) is None,
            },
    {
        self.record.remaining(turn, self.cooldown)
    }

    /// Handles one pointer event on the icon. A disabled skill neither lights
    /// up nor reacts to a click. A click on an enabled skill queues one run of
    /// its body and starts the cooldown at `turn`.
    pub fn pointer(&mut self, event: Pointer, queue: &mut Queue, turn: u32, is_turn_done: bool) -> (triggered:
        bool)
        ensures
            triggered == old(self).triggers(event, turn, is_turn_done),
            *final(self) == old(self).after(event, turn, is_turn_done),
            final(queue)@ == if triggered {
                old(queue)@.submit(old(self).task.slot)
            } else {
                old(queue)@
            },
    {
        let enabled = self.is_enabled(turn, is_turn_done);
        match event {
            Pointer::Over => {
                if enabled {
                    self.is_hovered = true;
                }
                false
            },
            Pointer::Out => {
                self.is_hovered = false;
                self.is_pointer_down = false;
                false
            },
            Pointer::Down => {
                if enabled {
                    self.is_pointer_down = true;
                }
                false
            },
            Pointer::Up => {
                self.is_pointer_down = false;
                false
            },
            Pointer::Click => {
                if enabled {
                    self.task.queue(queue);
                    self.record.record_use(turn);
                }
                enabled
            },
        }
    }

    /// Tears the skill down together with its action source.
    pub fn release(self, queue: &mut Queue)
        ensures
            final(queue)@ == old(queue)@.release(self.task.slot),
    {
        queue.release(self.task);
    }
}

/// A click on an enabled skill starts its cooldown: from the turn of the click
/// on the skill is disabled for as many turns as the cooldown is long, and a
/// click on it in that time changes nothing and queues nothing.
pub proof fn lemma_click_starts_cooldown(skill: Skill, turn: u32, later: u32, is_turn_done: bool)
    requires
        skill.enabled(turn, false),
        turn <= later < turn + skill.cooldown,
    ensures
        skill.after(Pointer::Click, turn, false).record.last_used == Some(turn),
        !skill.after(Pointer::Click, turn, false).enabled(later, is_turn_done),
        !skill.after(Pointer::Click, turn, false).triggers(Pointer::Click, later, is_turn_done),
        skill.after(Pointer::Click, turn, false).after(Pointer::Click, later, is_turn_done)
            == skill.after(Pointer::Click, turn, false),
{
}

} // verus!
