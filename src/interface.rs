//! What a game needs from its surroundings: a source of commands and a sink
//! for what happens.
use crate::command::Command;
use crate::game::{GameState, Transition};
use crate::lottery::LotteryResult;
use vstd::prelude::*;

verus! {

/// Source of the commands that drive a game.
pub trait UserInput {
    /// Waits for the next commands, in the order they are to run. An empty
    /// batch means that nothing arrived and the source is to be asked again.
    fn wait_for_input(&mut self) -> Vec<Command>;
}

/// Receives what happens in a game.
pub trait UserOutput {
    /// Called at the start of every cycle with the state before the last
    /// command and the state now; `before` is absent on the first cycle.
    fn default(&mut self, state: Transition);

    /// Called with the last state of a session before it is reset.
    fn finish_game(&mut self, state: &GameState);

    /// Outcome of a Normal mode lottery.
    fn lottery_normal(&mut self, result: LotteryResult);

    /// Outcome of a Rush mode lottery.
    fn lottery_rush(&mut self, result: LotteryResult);

    /// Outcome of the draw that decides whether a rush goes on.
    fn lottery_rush_continue(&mut self, result: LotteryResult);
}

} // verus!
