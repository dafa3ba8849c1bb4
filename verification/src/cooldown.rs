//! The cooldown record of one skill.

use vstd::prelude::*;

verus! {

/// When a skill was last used, if ever. Each skill has a record of its own,
/// so what one skill does never shows in another.
#[derive(Clone, Copy, Debug, PartialEq, Eq, Structural)]
pub struct SkillCooldownRecord {
    /// The turn of the last use; `None` while the skill was never used.
    pub last_used: Option<u32>,
}

impl SkillCooldownRecord {
    /// The first turn at which the cooldown of the last use is over; `None`
    /// while the skill was never used.
    pub open spec fn ready_at(self, cooldown_length: u8) -> Option<int> {
        match self.last_used {
            Some(used) => Some(used + cooldown_length),
            None => None,
        }
    }

    /// A skill is enabled while no end of turn is pending and it is not
    /// cooling down.
    pub open spec fn enabled(self, end_turn_latch: bool, current_turn: u32, cooldown_length: u8) -> bool {
        !end_turn_latch && match self.ready_at(cooldown_length) {
            Some(ready) => current_turn >= ready,
            None => true,
        }
    }

    /// The turns that are left of the cooldown, while any are left.
    pub open spec fn turns_left(self, current_turn: u32, cooldown_length: u8) -> Option<int> {
        match self.ready_at(cooldown_length) {
            Some(ready) if current_turn < ready => Some(ready - current_turn),
            _ => None,
        }
    }

    /// The record of a skill that was never used.
    pub fn new() -> (record: SkillCooldownRecord)
        ensures
            record.last_used is None,
    {
        SkillCooldownRecord { last_used: None }
    }

    /// Notes that the skill was used at `current_turn`.
    pub fn record_use(&mut self, current_turn: u32)
        ensures
            final(self).last_used == Some(current_turn),
    {
        self.last_used = Some(current_turn);
    }

    /// Tells whether the skill can be used at `current_turn`.
    pub fn is_enabled(&self, end_turn_latch: bool, current_turn: u32, cooldown_length: u8) -> (enabled:
        bool)
        ensures
            enabled == self.enabled(end_turn_latch, current_turn, cooldown_length),
    {
        if end_turn_latch {
            return false;
        }
        match self.last_used {
            Some(used) => {
                let ready: u64 = used as u64 + cooldown_length as u64;
                current_turn as u64 >= ready
            },
            None => true,
        }
    }

    /// The number of turns until the skill is ready again; `None` where it
    /// was never used or its cooldown is over.
    pub fn remaining(&self, current_turn: u32, cooldown_length: u8) -> (left: Option<u32>)
        requires
            self.turns_left(current_turn, cooldown_length) matches Some(n) ==> n <= u32::MAX,
        ensures
            match left {
                Some(n) => self.turns_left(current_turn, cooldown_length) == Some(n as int),
                None => self.turns_left(current_turn, cooldown_length) is None,
            },
    {
        match self.last_used {
            Some(used) => {
                let ready: u64 = used as u64 + cooldown_length as u64;
                if (current_turn as u64) < ready {
                    let left: u64 = ready - current_turn as u64;
                    Some(left as u32)
                } else {
                    None
                }
            },
            None => None,
        }
    }
}

/// A skill used at some turn stays disabled for as many turns as its cooldown
/// is long, the turn of the use included, and is enabled again from the turn
/// after those, provided that no end of turn is pending.
pub proof fn lemma_cooldown_window(
    record: SkillCooldownRecord,
    used: u32,
    cooldown_length: u8,
    end_turn_latch: bool,
    turn: u32,
)
    requires
        record.last_used == Some(used),
    ensures
        turn < used + cooldown_length ==> !record.enabled(end_turn_latch, turn, cooldown_length),
        turn < used + cooldown_length ==> record.turns_left(turn, cooldown_length) == Some(
            used + cooldown_length - turn,
        ),
        turn >= used + cooldown_length ==> record.enabled(end_turn_latch, turn, cooldown_length)
            == !end_turn_latch,
        turn >= used + cooldown_length ==> record.turns_left(turn, cooldown_length) is None,
{
}

/// A skill that was never used is enabled whenever no end of turn is pending,
/// and shows no cooldown.
pub proof fn lemma_unused_skill_is_ready(
    record: SkillCooldownRecord,
    cooldown_length: u8,
    end_turn_latch: bool,
    turn: u32,
)
    requires
        record.last_used is None,
    ensures
        record.enabled(end_turn_latch, turn, cooldown_length) == !end_turn_latch,
        record.turns_left(turn, cooldown_length) is None,
{
}

} // verus!
