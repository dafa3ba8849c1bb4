//! Serialised execution of triggered actions for a turn-based combat game.
//!
//! Any number of action sources may be triggered at any moment, yet the
//! sequencer hands out one go-ahead at a time, in the order in which the
//! triggers arrived. On top of it sit the turn counter with its end-turn
//! latch, the per-skill cooldown records and the phases of a skill's action.

pub mod action;
pub mod character;
pub mod cooldown;
pub mod course;
pub mod history;
pub mod queue;
pub mod skill;
pub mod ui;
