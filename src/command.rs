//! The commands that drive a game.
use crate::config::{BallsConfig, Probability, Ratio};
use crate::game::{lottery_effect, Game, GameState};
use crate::lottery::ProbabilityError;
use crate::interface::{UserInput, UserOutput};
use crate::random::{chance, os_seeded_rng};
use rand::rngs::SmallRng;
use vstd::prelude::*;

verus! {

/// What the input source hands the control loop.
#[derive(Clone, Copy, Debug, PartialEq, Eq, Structural)]
pub enum Command {
    /// Ends the control loop, finishing a running session first.
    FinishGame,
    /// An action on the game.
    Control(ControlCommand),
}

/// The actions that a command can carry.
#[derive(Clone, Copy, Debug, PartialEq, Eq, Structural)]
pub enum ControlCommand {
    LaunchBall(LaunchBall),
    CauseLottery(CauseLottery),
    StartGame(StartGame),
    FinishGame(FinishGame),
    LaunchBallFlow(LaunchBallFlow),
}

/// Launches one ball.
#[derive(Clone, Copy, Debug, PartialEq, Eq, Structural)]
pub struct LaunchBall;

/// Draws the lottery of the current mode.
#[derive(Clone, Copy, Debug, PartialEq, Eq, Structural)]
pub struct CauseLottery;

/// Starts a session.
#[derive(Clone, Copy, Debug, PartialEq, Eq, Structural)]
pub struct StartGame;

/// Ends the running session.
#[derive(Clone, Copy, Debug, PartialEq, Eq, Structural)]
pub struct FinishGame;

/// Launches one ball, then draws the lottery when the ball went into the
/// start hole.
#[derive(Clone, Copy, Debug, PartialEq, Eq, Structural)]
pub struct LaunchBallFlow {
    is_lottery: bool,
}

/// Makes ball launches that reach the start hole with a given probability.
pub struct LaunchBallFlowProducer {
    start_hole_probability: Ratio,
    rng: SmallRng,
}

impl Command {
    /// Wraps an action.
    pub fn control(control: ControlCommand) -> (r: Command)
        ensures
            r == Command::Control(control),
    {
        Command::Control(control)
    }
}

/// The frame that every command keeps: same settings, same history of the
/// previous state, same pending commands.
pub open spec fn keeps_frame<I: UserInput, O: UserOutput, F: Fn(usize) -> Ratio>(
    before: &Game<I, O, F>,
    after: &Game<I, O, F>,
) -> bool {
    &&& before.keeps_setup(after)
    &&& after.before() == before.before()
    &&& after.pending() == before.pending()
}

impl ControlCommand {
    /// How the action may change the state `s` into `t`, returning `r`.
    /// Only a lottery can fail, when its continuation draw does.
    pub open spec fn effect<F: Fn(usize) -> Ratio>(
        self,
        s: GameState,
        t: GameState,
        config: BallsConfig,
        p: Probability<F>,
        r: Result<(), ProbabilityError>,
    ) -> bool {
        match self {
            ControlCommand::LaunchBall(_) => t == s.launched() && r is Ok,
            ControlCommand::CauseLottery(_) => lottery_effect(s, t, config, p, r),
            ControlCommand::StartGame(_) => r is Ok && match s.started(config) {
                Some(u) => t == u,
                None => t == s,
            },
            ControlCommand::FinishGame(_) => t == GameState::Uninitialized && r is Ok,
            ControlCommand::LaunchBallFlow(flow) => if flow.triggers_lottery() {
                lottery_effect(s.launched(), t, config, p, r)
            } else {
                t == s.launched() && r is Ok
            },
        }
    }

    /// Runs the action. A failure of a launch, start or finish is part of
    /// play and is dropped; a failed continuation draw is handed back.
    pub fn execute<I: UserInput, O: UserOutput, F: Fn(usize) -> Ratio>(
        &self,
        game: &mut Game<I, O, F>,
    ) -> (r: Result<(), ProbabilityError>)
        requires
            old(game).wf(),
        ensures
            keeps_frame(old(game), final(game)),
            self.effect(
                old(game).current(),
                final(game).current(),
                old(game).balls_config(),
                old(game).probability(),
                r,
            ),
    {
        match self {
            ControlCommand::LaunchBall(c) => {
                c.execute(game);
                Ok(())
            },
            ControlCommand::CauseLottery(c) => c.execute(game),
            ControlCommand::StartGame(c) => {
                c.execute(game);
                Ok(())
            },
            ControlCommand::FinishGame(c) => {
                c.execute(game);
                Ok(())
            },
            ControlCommand::LaunchBallFlow(c) => c.execute(game),
        }
    }
}

impl LaunchBall {
    pub fn execute<I: UserInput, O: UserOutput, F: Fn(usize) -> Ratio>(
        &self,
        game: &mut Game<I, O, F>,
    )
        requires
            old(game).wf(),
        ensures
            keeps_frame(old(game), final(game)),
            final(game).current() == old(game).current().launched(),
    {
        let _ = game.launch_ball();
    }
}

impl CauseLottery {
    pub fn execute<I: UserInput, O: UserOutput, F: Fn(usize) -> Ratio>(
        &self,
        game: &mut Game<I, O, F>,
    ) -> (r: Result<(), ProbabilityError>)
        requires
            old(game).wf(),
        ensures
            keeps_frame(old(game), final(game)),
            lottery_effect(
                old(game).current(),
                final(game).current(),
                old(game).balls_config(),
                old(game).probability(),
                r,
            ),
    {
        game.cause_lottery()
    }
}

impl StartGame {
    pub fn execute<I: UserInput, O: UserOutput, F: Fn(usize) -> Ratio>(
        &self,
        game: &mut Game<I, O, F>,
    )
        requires
            old(game).wf(),
        ensures
            keeps_frame(old(game), final(game)),
            match old(game).current().started(old(game).balls_config()) {
                Some(s) => final(game).current() == s,
                None => final(game).current() == old(game).current(),
            },
    {
        let _ = game.start();
    }
}

impl FinishGame {
    pub fn execute<I: UserInput, O: UserOutput, F: Fn(usize) -> Ratio>(
        &self,
        game: &mut Game<I, O, F>,
    )
        requires
            old(game).wf(),
        ensures
            keeps_frame(old(game), final(game)),
            final(game).current() == GameState::Uninitialized,
    {
        let _ = game.finish();
    }
}

impl LaunchBallFlow {
    pub fn new(is_lottery: bool) -> (r: Self)
        ensures
            r.triggers_lottery() == is_lottery,
    {
        LaunchBallFlow { is_lottery }
    }

    /// The ball reached the start hole.
    pub closed spec fn triggers_lottery(self) -> bool {
        self.is_lottery
    }

    /// Launches the ball, then draws the lottery if the ball reached the
    /// start hole.
    pub fn execute<I: UserInput, O: UserOutput, F: Fn(usize) -> Ratio>(
        &self,
        game: &mut Game<I, O, F>,
    ) -> (r: Result<(), ProbabilityError>)
        requires
            old(game).wf(),
        ensures
            keeps_frame(old(game), final(game)),
            if self.triggers_lottery() {
                lottery_effect(
                    old(game).current().launched(),
                    final(game).current(),
                    old(game).balls_config(),
                    old(game).probability(),
                    r,
                )
            } else {
                final(game).current() == old(game).current().launched() && r is Ok
            },
    {
        let _ = game.launch_ball();
        if self.is_lottery {
            game.cause_lottery()
        } else {
            Ok(())
        }
    }
}

impl LaunchBallFlowProducer {
    /// The chance that a ball reaches the start hole is a probability.
    pub closed spec fn wf(&self) -> bool {
        self.start_hole_probability.is_probability()
    }

    /// The chance that a ball reaches the start hole.
    pub closed spec fn start_hole(&self) -> Ratio {
        self.start_hole_probability
    }

    /// A producer whose generator is seeded from the operating system.
    pub fn new(start_hole_probability: Ratio) -> (r: Self)
        requires
            start_hole_probability.is_probability(),
        ensures
            r.wf(),
            r.start_hole() == start_hole_probability,
    {
        LaunchBallFlowProducer { start_hole_probability, rng: os_seeded_rng() }
    }

    /// A launch that reaches the start hole with the configured chance.
    pub fn produce(&mut self) -> (r: LaunchBallFlow)
        requires
            old(self).wf(),
        ensures
            final(self).wf(),
            final(self).start_hole() == old(self).start_hole(),
            old(self).start_hole().numerator == 0 ==> !r.triggers_lottery(),
            old(self).start_hole().numerator == old(self).start_hole().denominator
                ==> r.triggers_lottery(),
    {
        let p = self.start_hole_probability;
        LaunchBallFlow::new(
            chance(&mut self.rng, p.numerator as u64, p.denominator as u64),
        )
    }
}

} // verus!
