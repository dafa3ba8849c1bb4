//! The characters of a fight: their state, and how a model answers the pointer.

use crate::skill::Pointer;
use vstd::prelude::*;

verus! {

/// What an action can change of a character. The records of all characters
/// are kept in one list and referred to by their index in it.
#[derive(Clone, Copy, Debug, PartialEq, Eq, Structural)]
pub struct CharacterState {
    pub health: u32,
    pub energy: u32,
}

impl CharacterState {
    /// The state in which every character enters the fight.
    pub fn new() -> (state: CharacterState)
        ensures
            state == (CharacterState { health: 100, energy: 10 }),
    {
        CharacterState { health: 100, energy: 10 }
    }
}

/// A character as it is shown.
#[derive(Clone, Copy, Debug, PartialEq, Eq, Structural)]
pub struct Character {
    /// The index of the character's record.
    pub index: usize,
    /// The index of the character that is the target now.
    pub target: usize,
    pub health: u32,
    pub energy: u32,
}

impl Character {
    /// The character is the target.
    pub fn is_selected(&self) -> (selected: bool)
        ensures
            selected == (self.target == self.index),
    {
        self.target == self.index
    }

    /// The model that shows the character, with no pointer button held.
    pub fn model(&self) -> (model: CharacterModel)
        ensures
            model == (CharacterModel {
                health: self.health,
                energy: self.energy,
                is_selected: self.target == self.index,
                is_mouse_down: false,
            }),
    {
        CharacterModel {
            health: self.health,
            energy: self.energy,
            is_selected: self.is_selected(),
            is_mouse_down: false,
        }
    }
}

/// The model of a character: what its status bar shows, and whether the
/// pointer's button is held down on it.
#[derive(Clone, Copy, Debug, PartialEq, Eq, Structural)]
pub struct CharacterModel {
    pub health: u32,
    pub energy: u32,
    pub is_selected: bool,
    pub is_mouse_down: bool,
}

impl CharacterModel {
    /// The model after the pointer event: the button is held from the moment
    /// it goes down on the model until it comes up or the pointer leaves.
    pub open spec fn after(self, event: Pointer) -> CharacterModel {
        match event {
            Pointer::Down => CharacterModel { is_mouse_down: true, ..self },
            Pointer::Out | Pointer::Up => CharacterModel { is_mouse_down: false, ..self },
            Pointer::Over | Pointer::Click => self,
        }
    }

    /// The pointer event completes a click on the model: the button comes up
    /// after it went down on the model, and the pointer did not leave in between.
    pub open spec fn clicks(self, event: Pointer) -> bool {
        event == Pointer::Up && self.is_mouse_down
    }

    /// Handles one pointer event and tells whether it selects the character.
    pub fn pointer(&mut self, event: Pointer) -> (clicked: bool)
        ensures
            clicked == old(self).clicks(event),
            *final(self) == old(self).after(event),
    {
        match event {
            Pointer::Down => {
                self.is_mouse_down = true;
                false
            },
            Pointer::Out => {
                self.is_mouse_down = false;
                false
            },
            Pointer::Up => {
                let was_down = self.is_mouse_down;
                self.is_mouse_down = false;
                was_down
            },
            Pointer::Over => false,
            Pointer::Click => false,
        }
    }
}

/// The root of a fight: it owns the records of all characters and knows which
/// character is the target.
#[derive(Clone, Debug)]
pub struct Game {
    /// The records, in the order in which the characters were mounted.
    pub character_states: Vec<CharacterState>,
    /// The index of the character that is the target.
    pub target: usize,
}

impl Game {
    /// What a status bar shows for the character at `index`: its record, or
    /// the state of a newly mounted character while it has none yet.
    pub open spec fn shown(self, index: usize) -> CharacterState {
        if index < self.character_states@.len() {
            self.character_states@[index as int]
        } else {
            CharacterState { health: 100, energy: 10 }
        }
    }

    /// A fight without characters; the target is the character that will be
    /// mounted first.
    pub fn new() -> (game: Game)
        ensures
            game.character_states@ == Seq::<CharacterState>::empty(),
            game.target == 0,
    {
        Game { character_states: Vec::new(), target: 0 }
    }

    /// A character enters the fight: its record goes to the end of the list.
    pub fn mount(&mut self, state: CharacterState)
        ensures
            final(self).character_states@ == old(self).character_states@.push(state),
            final(self).target == old(self).target,
    {
        self.character_states.push(state);
    }

    /// The character at `index` becomes the target.
    pub fn select(&mut self, index: usize)
        ensures
            final(self).target == index,
            final(self).character_states@ == old(self).character_states@,
    {
        self.target = index;
    }

    /// The character at `index` as it is shown now.
    pub fn character(&self, index: usize) -> (character: Character)
        ensures
            character == (Character {
                index,
                target: self.target,
                health: self.shown(index).health,
                energy: self.shown(index).energy,
            }),
    {
        if index < self.character_states.len() {
            let state = self.character_states[index];
            Character { index, target: self.target, health: state.health, energy: state.energy }
        } else {
            let state = CharacterState::new();
            Character { index, target: self.target, health: state.health, energy: state.energy }
        }
    }
}

} // verus!
