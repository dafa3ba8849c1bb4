//! The turn counter and the end-turn latch.

use crate::queue::Queue;
use crate::queue::QueueView;
use crate::queue::UseQueued;
use crate::queue::use_queued;
use vstd::prelude::*;

verus! {

/// The turn of the game and whether its end has been asked for. Ending a turn
/// is an action like any other: it is queued with the sequencer and takes
/// effect when its go-ahead comes, never in the middle of another body.
#[derive(Clone, Copy, Debug, PartialEq, Eq, Structural)]
pub struct Ui {
    /// The turn counter. It starts at 0 and only ever grows, by one per turn ended.
    pub turn: u32,
    /// The end-turn latch: set when the end of the turn is asked for, cleared
    /// when the counter moves on.
    pub is_turn_done: bool,
    /// The action source that ends the turn.
    pub on_click: UseQueued,
}

impl Ui {
    /// The state once the end of the turn has been asked for.
    pub open spec fn asked(self) -> Ui {
        Ui { is_turn_done: true, ..self }
    }

    /// The state once the turn has ended.
    pub open spec fn ended(self) -> Ui {
        Ui { turn: (self.turn + 1) as u32, is_turn_done: false, ..self }
    }

    /// The state at the start of a game: turn 0, latch clear, and a newly
    /// registered source for ending the turn.
    pub fn new(queue: &mut Queue) -> (ui: Ui)
        ensures
            ui.turn == 0,
            !ui.is_turn_done,
            ui.on_click.slot == old(queue)@.live.len(),
            final(queue)@ == old(queue)@.register(),
    {
        let on_click = use_queued(queue);
        Ui { turn: 0, is_turn_done: false, on_click }
    }

    /// The player asks for the end of the turn: the latch is set at once, and
    /// the action that moves the counter on is queued behind whatever is
    /// running or waiting.
    pub fn end_turn(&mut self, queue: &mut Queue)
        ensures
            *final(self) == old(self).asked(),
            final(queue)@ == old(queue)@.submit(old(self).on_click.slot),
    {
        self.is_turn_done = true;
        self.on_click.queue(queue);
    }

    /// The body of the end-turn action: the counter moves on by one and the
    /// latch is cleared.
    pub fn finish_turn(&mut self)
        requires
            old(self).turn < u32::MAX,
        ensures
            *final(self) == old(self).ended(),
    {
        self.turn = self.turn + 1;
        self.is_turn_done = false;
    }
}

/// Ending a turn while a body runs does not disturb it. The latch is set, the
/// counter stays, the running body keeps the go-ahead, and the request waits
/// at the end of the queue. Once the end-turn body itself has run, the counter
/// is one higher than when the end of the turn was asked for, and the latch is
/// clear.
pub proof fn lemma_end_turn_waits_its_turn(ui: Ui, queue: QueueView)
    requires
        ui.turn < u32::MAX,
        queue.running is Some,
        queue.is_live(ui.on_click.slot),
    ensures
        ui.asked().turn == ui.turn,
        ui.asked().is_turn_done,
        queue.submit(ui.on_click.slot).running == queue.running,
        queue.submit(ui.on_click.slot).dispatch() == queue.submit(ui.on_click.slot),
        queue.submit(ui.on_click.slot).pending == queue.pending.push(ui.on_click.slot),
        ui.asked().ended().turn == ui.turn + 1,
        !ui.asked().ended().is_turn_done,
        ui.asked().ended().on_click == ui.on_click,
{
}

/// Whenever the end-turn body runs, and whatever the latch was, the counter
/// moves on by exactly one and the latch is clear afterwards.
pub proof fn lemma_turn_ends_once(ui: Ui)
    requires
        ui.turn < u32::MAX,
    ensures
        ui.ended().turn == ui.turn + 1,
        !ui.ended().is_turn_done,
{
}

} // verus!
