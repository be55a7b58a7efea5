//! The game state machine and the game that drives it.
use crate::command::{Command, ControlCommand};
use crate::config::{config_errors, BallsConfig, Config, ConfigError, Probability, Ratio};
use crate::interface::{UserInput, UserOutput};
use crate::lottery::{
    admits_slot, continuation_admits, exceeds_one, Lottery, LotteryResult, ProbabilityError,
};
use std::collections::VecDeque;
use std::ops::ControlFlow;
use vstd::prelude::*;

verus! {

/// The state before the last command and the state now.
#[derive(Clone, Copy, Debug, PartialEq, Eq, Structural)]
pub struct Transition {
    /// Absent before the first command.
    pub before: Option<GameState>,
    pub after: GameState,
}

/// The operation needs a session that has started.
#[derive(Clone, Copy, Debug, PartialEq, Eq, Structural)]
pub struct UninitializedError;

/// A session is already running.
#[derive(Clone, Copy, Debug, PartialEq, Eq, Structural)]
pub struct AlreadyStartedError;

/// Where a session stands.
#[derive(Clone, Copy, Debug, PartialEq, Eq, Structural)]
pub enum GameState {
    /// No session: not started yet, or over.
    Uninitialized,
    /// Ordinary play.
    Normal {
        /// Balls left.
        balls: usize,
    },
    /// Bonus play.
    Rush {
        /// Balls kept for after the rush.
        balls: usize,
        /// Balls left in the rush.
        rush_balls: usize,
        /// Consecutive rush rounds so far, from one.
        n: usize,
    },
}

impl GameState {
    /// The balls of a running session, zero without one.
    pub open spec fn balls_or_zero(self) -> usize {
        match self {
            GameState::Uninitialized => 0,
            GameState::Normal { balls } => balls,
            GameState::Rush { balls, .. } => balls,
        }
    }

    /// The rush balls in Rush mode, zero otherwise.
    pub open spec fn rush_balls_or_zero(self) -> usize {
        match self {
            GameState::Rush { rush_balls, .. } => rush_balls,
            _ => 0,
        }
    }

    /// The round count in Rush mode, zero otherwise.
    pub open spec fn rush_n(self) -> usize {
        match self {
            GameState::Rush { n, .. } => n,
            _ => 0,
        }
    }

    /// The state after a ball is launched. The last ball of a session ends
    /// it; the last rush ball ends the rush and keeps the balls.
    pub open spec fn launched(self) -> GameState {
        match self {
            GameState::Uninitialized => GameState::Uninitialized,
            GameState::Normal { balls } => if balls <= 1 {
                GameState::Uninitialized
            } else {
                GameState::Normal { balls: (balls - 1) as usize }
            },
            GameState::Rush { balls, rush_balls, n } => if rush_balls <= 1 {
                GameState::Normal { balls }
            } else {
                GameState::Rush { balls, rush_balls: (rush_balls - 1) as usize, n }
            },
        }
    }

    /// The state after a session starts, or none when one is running.
    pub open spec fn started(self, config: BallsConfig) -> Option<GameState> {
        match self {
            GameState::Uninitialized => Some(GameState::Normal { balls: config.init_balls }),
            _ => None,
        }
    }

    /// The state after a win that enters or extends a rush. Counts stop at
    /// the largest `usize`.
    pub open spec fn rushed(self, config: BallsConfig) -> GameState {
        match self {
            GameState::Uninitialized => GameState::Uninitialized,
            GameState::Normal { balls } => GameState::Rush {
                balls: balls.saturating_add(config.incremental_balls),
                rush_balls: config.incremental_rush,
                n: 1,
            },
            GameState::Rush { balls, rush_balls, n } => GameState::Rush {
                balls: balls.saturating_add(config.incremental_balls),
                rush_balls: rush_balls.saturating_add(config.incremental_rush),
                n: n.saturating_add(1),
            },
        }
    }

    /// The state after a prize of balls. The count stops at the largest
    /// `usize`.
    pub open spec fn awarded(self, config: BallsConfig) -> GameState {
        match self {
            GameState::Uninitialized => GameState::Uninitialized,
            GameState::Normal { balls } => GameState::Normal {
                balls: balls.saturating_add(config.incremental_balls),
            },
            GameState::Rush { balls, rush_balls, n } => GameState::Rush {
                balls: balls.saturating_add(config.incremental_balls),
                rush_balls,
                n,
            },
        }
    }

    /// Launches a ball: one ball fewer in Normal mode, one rush ball fewer in
    /// Rush mode, with the transitions of [`GameState::launched`].
    pub fn launch_ball(&mut self) -> (r: Result<(), UninitializedError>)
        ensures
            r is Err <==> *old(self) is Uninitialized,
            *final(self) == old(self).launched(),
    {
        match *self {
            GameState::Uninitialized => Err(UninitializedError),
            GameState::Normal { balls } => {
                if balls <= 1 {
                    *self = GameState::Uninitialized;
                } else {
                    *self = GameState::Normal { balls: balls - 1 };
                }
                Ok(())
            },
            GameState::Rush { balls, rush_balls, n } => {
                if rush_balls <= 1 {
                    *self = GameState::Normal { balls };
                } else {
                    *self = GameState::Rush { balls, rush_balls: rush_balls - 1, n };
                }
                Ok(())
            },
        }
    }

    /// No session runs.
    pub fn is_uninitialized(&self) -> (r: bool)
        ensures
            r == (*self is Uninitialized),
    {
        matches!(self, GameState::Uninitialized)
    }

    /// Starts a session with the configured balls; fails while one runs.
    pub fn init(&mut self, config: &BallsConfig) -> (r: Result<(), AlreadyStartedError>)
        ensures
            match old(self).started(*config) {
                Some(s) => r is Ok && *final(self) == s,
                None => r is Err && *final(self) == *old(self),
            },
    {
        if self.is_uninitialized() {
            *self = GameState::Normal { balls: config.init_balls };
            Ok(())
        } else {
            Err(AlreadyStartedError)
        }
    }

    /// Awards `incremental_balls` to the balls of a running session.
    pub fn increment_balls(&mut self, config: &BallsConfig)
        requires
            !(*old(self) is Uninitialized),
        ensures
            *final(self) == old(self).awarded(*config),
    {
        match self {
            GameState::Uninitialized => {},
            GameState::Normal { balls } => {
                *balls = balls.saturating_add(config.incremental_balls);
            },
            GameState::Rush { balls, .. } => {
                *balls = balls.saturating_add(config.incremental_balls);
            },
        }
    }

    /// A rush runs.
    pub fn is_rush(&self) -> (r: bool)
        ensures
            r == (*self is Rush),
    {
        match self {
            GameState::Uninitialized => false,
            GameState::Normal { .. } => false,
            GameState::Rush { .. } => true,
        }
    }

    /// The state once the draws of a lottery are known: a loss changes
    /// nothing; a win in Normal mode enters a rush; a win in Rush mode
    /// extends it when the continuation draw wins, awards balls when it
    /// loses, and changes nothing when it failed.
    pub open spec fn settled(
        self,
        config: BallsConfig,
        first: LotteryResult,
        continued: Option<Result<LotteryResult, ProbabilityError>>,
    ) -> GameState {
        if first is Lose {
            self
        } else {
            match self {
                GameState::Uninitialized => self,
                GameState::Normal { .. } => self.rushed(config),
                GameState::Rush { .. } => match continued {
                    Some(Ok(LotteryResult::Win(_))) => self.rushed(config),
                    Some(Ok(LotteryResult::Lose(_))) => self.awarded(config),
                    _ => self,
                },
            }
        }
    }

    /// Applies the draws of a lottery, as [`GameState::settled`] says.
    pub fn after_draws(
        self,
        config: &BallsConfig,
        first: LotteryResult,
        continued: Option<Result<LotteryResult, ProbabilityError>>,
    ) -> (r: GameState)
        ensures
            r == self.settled(*config, first, continued),
    {
        let mut s = self;
        if !first.is_win() || s.is_uninitialized() {
            return s;
        }
        if !s.is_rush() {
            s.trigger_rush(config);
            return s;
        }
        match continued {
            Some(Ok(c)) => {
                if c.is_win() {
                    s.trigger_rush(config);
                } else {
                    s.increment_balls(config);
                }
            },
            _ => {},
        }
        s
    }

    /// Enters a rush from Normal mode, or extends the running one: more
    /// balls, more rush balls, and one round more.
    pub fn trigger_rush(&mut self, config: &BallsConfig)
        requires
            !(*old(self) is Uninitialized),
        ensures
            *final(self) == old(self).rushed(*config),
    {
        match self {
            GameState::Uninitialized => {},
            GameState::Normal { balls } => {
                *self = GameState::Rush {
                    balls: balls.saturating_add(config.incremental_balls),
                    rush_balls: config.incremental_rush,
                    n: 1,
                };
            },
            GameState::Rush { balls, rush_balls, n } => {
                *balls = balls.saturating_add(config.incremental_balls);
                *rush_balls = rush_balls.saturating_add(config.incremental_rush);
                *n = n.saturating_add(1);
            },
        }
    }
}

/// The draws that a lottery from `s` may make: the first with the
/// probabilities of the current mode, then, after a win in Rush mode only,
/// the continuation draw for the current round count, with some value of the
/// decay function at that count.
pub open spec fn draws_admitted<F: Fn(usize) -> Ratio>(
    s: GameState,
    p: Probability<F>,
    first: LotteryResult,
    continued: Option<Result<LotteryResult, ProbabilityError>>,
) -> bool {
    &&& if s is Rush {
        admits_slot(p.rush, first)
    } else {
        admits_slot(p.normal, first)
    }
    &&& continued is Some <==> (first is Win && s is Rush)
    &&& continued matches Some(c) ==> exists|m: Ratio|
        call_ensures(p.rush_continue_fn, (s.rush_n(),), m) && #[trigger] continuation_admits(
            p.rush_continue,
            m,
            c,
        )
}

/// What a lottery may do to `s`, returning `r`: for some admitted draws, the
/// state becomes the one those draws settle, and the error comes exactly
/// when the continuation draw failed.
pub open spec fn lottery_effect<F: Fn(usize) -> Ratio>(
    s: GameState,
    t: GameState,
    config: BallsConfig,
    p: Probability<F>,
    r: Result<(), ProbabilityError>,
) -> bool {
    exists|first: LotteryResult, continued: Option<Result<LotteryResult, ProbabilityError>>|
        #[trigger] draws_admitted(s, p, first, continued) && t == s.settled(config, first, continued)
            && (r is Err <==> continued matches Some(Err(_)))
}

/// The continuation draw after `n` rounds wins for certain, whatever value
/// the decay function gives.
pub open spec fn continuation_certain<F: Fn(usize) -> Ratio>(p: Probability<F>, n: usize) -> bool {
    forall|m: Ratio|
        #[trigger] call_ensures(p.rush_continue_fn, (n,), m) ==> m.denominator > 0
            && p.rush_continue.win.numerator * m.numerator == p.rush_continue.win.denominator
            * m.denominator
}

/// The continuation draw after `n` rounds loses for certain, whatever value
/// the decay function gives.
pub open spec fn continuation_impossible<F: Fn(usize) -> Ratio>(p: Probability<F>, n: usize) -> bool {
    forall|m: Ratio|
        #[trigger] call_ensures(p.rush_continue_fn, (n,), m) ==> m.denominator > 0
            && p.rush_continue.win.numerator * m.numerator == 0
}

/// A game: the state machine, its lottery and settings, and the source and
/// sink of a session.
pub struct Game<I, O, F: Fn(usize) -> Ratio> {
    before_state: Option<GameState>,
    state: GameState,
    lottery: Lottery<F>,
    config: BallsConfig,
    input: I,
    output: O,
    queue: VecDeque<Command>,
}

impl<I: UserInput, O: UserOutput, F: Fn(usize) -> Ratio> Game<I, O, F> {
    /// The current state.
    pub closed spec fn current(&self) -> GameState {
        self.state
    }

    /// The state before the last command, absent before the first.
    pub closed spec fn before(&self) -> Option<GameState> {
        self.before_state
    }

    /// The ball settings.
    pub closed spec fn balls_config(&self) -> BallsConfig {
        self.config
    }

    /// The probabilities of the lottery.
    pub closed spec fn probability(&self) -> Probability<F> {
        self.lottery.probability()
    }

    /// Commands received and not yet run, oldest first.
    pub closed spec fn pending(&self) -> Seq<Command> {
        self.queue@
    }

    /// The lottery's probabilities are valid and its decay function callable.
    pub closed spec fn wf(&self) -> bool {
        self.lottery.wf()
    }

    /// Same settings, and still well formed.
    pub open spec fn keeps_setup(&self, other: &Self) -> bool {
        &&& other.wf()
        &&& other.balls_config() == self.balls_config()
        &&& other.probability() == self.probability()
    }

    /// A game over `config`, which must pass validation: otherwise every
    /// problem comes back in the error and nothing is built.
    pub fn new(config: Config<F>, input: I, output: O) -> (r: Result<Self, ConfigError>)
        requires
            config.probability.decay_callable(),
        ensures
            match r {
                Ok(game) => {
                    &&& config_errors(
                        config.balls,
                        config.probability.normal,
                        config.probability.rush,
                        config.probability.rush_continue,
                    ).len() == 0
                    &&& game.wf()
                    &&& game.current() == GameState::Uninitialized
                    &&& game.before() is None
                    &&& game.pending().len() == 0
                    &&& game.balls_config() == config.balls
                    &&& game.probability() == config.probability
                },
                Err(e) => {
                    &&& e@ == config_errors(
                        config.balls,
                        config.probability.normal,
                        config.probability.rush,
                        config.probability.rush_continue,
                    )
                    &&& e@.len() > 0
                },
            },
    {
        match config.validate() {
            Err(e) => Err(e),
            Ok(()) => {
                let Config { balls, probability } = config;
                Ok(Game {
                    before_state: None,
                    state: GameState::Uninitialized,
                    lottery: Lottery::new(probability),
                    config: balls,
                    input,
                    output,
                    queue: VecDeque::new(),
                })
            },
        }
    }

    /// The transition reported at the start of a cycle.
    pub fn transition(&self) -> (r: Transition)
        ensures
            r == (Transition { before: self.before(), after: self.current() }),
    {
        Transition { before: self.before_state, after: self.state }
    }

    /// One cycle of the control loop. It reports the last transition, asks
    /// the input source for commands when none is pending, and runs the
    /// oldest pending command.
    pub fn run_step(&mut self) -> (r: ControlFlow<(), Result<(), ProbabilityError>>)
        requires
            old(self).wf(),
        ensures
            old(self).keeps_setup(final(self)),
            exists|batch: Seq<Command>|
                (old(self).pending().len() > 0 ==> batch.len() == 0) && #[trigger] Self::step_outcome(
                    old(self),
                    final(self),
                    batch,
                    r,
                ),
    {
        let transition = self.transition();
        self.output.default(transition);
        let batch = if self.queue.len() == 0 {
            self.input.wait_for_input()
        } else {
            Vec::new()
        };
        let ghost polled = batch@;
        assert(self.current() == old(self).current() && self.before() == old(self).before());
        assert(self.pending() == old(self).pending());
        let r = self.step_with(batch);
        assert(Self::step_outcome(old(self), self, polled, r));
        r
    }

    /// Queues `batch` behind the pending commands, then runs the oldest
    /// pending command, if there is one.
    pub fn step_with(&mut self, batch: Vec<Command>) -> (r: ControlFlow<
        (),
        Result<(), ProbabilityError>,
    >)
        requires
            old(self).wf(),
        ensures
            old(self).keeps_setup(final(self)),
            Self::step_outcome(old(self), final(self), batch@, r),
    {
        let mut i: usize = 0;
        while i < batch.len()
            invariant
                i <= batch@.len(),
                self.queue@ == old(self).queue@ + batch@.subrange(0, i as int),
                self.wf(),
                self.config == old(self).config,
                self.lottery == old(self).lottery,
                self.state == old(self).state,
                self.before_state == old(self).before_state,
            decreases batch@.len() - i,
        {
            self.queue.push_back(batch[i]);
            i += 1;
        }
        assert(self.queue@ == old(self).pending() + batch@);
        match self.queue.pop_front() {
            None => ControlFlow::Continue(Ok(())),
            Some(Command::FinishGame) => {
                if !self.state.is_uninitialized() {
                    let _ = self.finish();
                }
                ControlFlow::Break(())
            },
            Some(Command::Control(command)) => {
                self.before_state = Some(self.state);
                let result = command.execute(self);
                ControlFlow::Continue(result)
            },
        }
    }

    /// What a cycle did with the commands `batch` it received: with nothing
    /// pending and nothing received it does nothing; otherwise the oldest of
    /// the pending commands followed by `batch` runs and the rest stay
    /// pending, in order.
    pub open spec fn step_outcome(
        before: &Self,
        after: &Self,
        batch: Seq<Command>,
        r: ControlFlow<(), Result<(), ProbabilityError>>,
    ) -> bool {
        let all = before.pending() + batch;
        if all.len() == 0 {
            &&& r == ControlFlow::<(), Result<(), ProbabilityError>>::Continue(Ok(()))
            &&& after.current() == before.current()
            &&& after.before() == before.before()
            &&& after.pending() == all
        } else {
            &&& after.pending() == all.drop_first()
            &&& Self::cycle_outcome(before, after, all[0], r)
        }
    }

    /// What running `command` did. The end-of-game command leaves no session
    /// running and stops the loop; any other records the state before it,
    /// has its effect, and hands back its result.
    pub open spec fn cycle_outcome(
        before: &Self,
        after: &Self,
        command: Command,
        r: ControlFlow<(), Result<(), ProbabilityError>>,
    ) -> bool {
        match command {
            Command::FinishGame => {
                &&& r is Break
                &&& after.current() is Uninitialized
                &&& before.current() is Uninitialized ==> after.before() == before.before()
            },
            Command::Control(c) => {
                &&& r matches ControlFlow::Continue(res) && c.effect(
                    before.current(),
                    after.current(),
                    before.balls_config(),
                    before.probability(),
                    res,
                )
                &&& after.before() == Some(before.current())
            },
        }
    }

    /// Starts a session; fails while one runs.
    pub fn start(&mut self) -> (r: Result<(), AlreadyStartedError>)
        requires
            old(self).wf(),
        ensures
            old(self).keeps_setup(final(self)),
            final(self).before() == old(self).before(),
            final(self).pending() == old(self).pending(),
            match old(self).current().started(old(self).balls_config()) {
                Some(s) => r is Ok && final(self).current() == s,
                None => r is Err && final(self).current() == old(self).current(),
            },
    {
        self.state.init(&self.config)
    }

    /// Reports the final state and ends the session; fails when none runs.
    pub fn finish(&mut self) -> (r: Result<(), UninitializedError>)
        requires
            old(self).wf(),
        ensures
            old(self).keeps_setup(final(self)),
            final(self).before() == old(self).before(),
            final(self).pending() == old(self).pending(),
            r is Err <==> old(self).current() is Uninitialized,
            final(self).current() == GameState::Uninitialized,
    {
        if self.state.is_uninitialized() {
            return Err(UninitializedError);
        }
        self.output.finish_game(&self.state);
        self.state = GameState::Uninitialized;
        Ok(())
    }

    /// Launches a ball; fails when no session runs.
    pub fn launch_ball(&mut self) -> (r: Result<(), UninitializedError>)
        requires
            old(self).wf(),
        ensures
            old(self).keeps_setup(final(self)),
            final(self).before() == old(self).before(),
            final(self).pending() == old(self).pending(),
            r is Err <==> old(self).current() is Uninitialized,
            final(self).current() == old(self).current().launched(),
    {
        self.state.launch_ball()
    }

    /// Draws the lottery of the current mode and reports it. A win in Normal
    /// mode enters a rush. A win in Rush mode is followed by the continuation
    /// draw for the current round count: its win extends the rush, its loss
    /// awards balls, and its failure leaves everything as it was and is
    /// returned. Without a session a win changes nothing.
    pub fn cause_lottery(&mut self) -> (r: Result<(), ProbabilityError>)
        requires
            old(self).wf(),
        ensures
            old(self).keeps_setup(final(self)),
            final(self).before() == old(self).before(),
            final(self).pending() == old(self).pending(),
            lottery_effect(
                old(self).current(),
                final(self).current(),
                old(self).balls_config(),
                old(self).probability(),
                r,
            ),
            r is Err ==> {
                &&& old(self).current() is Rush
                &&& final(self).current() == old(self).current()
                &&& exists|m: Ratio|
                    call_ensures(old(self).probability().rush_continue_fn, (old(self).current().rush_n(),), m)
                        && #[trigger] exceeds_one(old(self).probability().rush_continue.win, m)
            },
            Self::certain_outcomes(old(self), final(self), r),
    {
        let s0 = self.state;
        let first;
        if self.state.is_rush() {
            first = self.lottery.lottery_rush();
            self.output.lottery_rush(first);
        } else {
            first = self.lottery.lottery_normal();
            self.output.lottery_normal(first);
        }
        let continued = match s0 {
            GameState::Rush { n, .. } => {
                if first.is_win() {
                    let c = self.lottery.lottery_rush_continue(n);
                    if let Ok(res) = c {
                        self.output.lottery_rush_continue(res);
                    }
                    Some(c)
                } else {
                    None
                }
            },
            _ => None,
        };
        self.state = s0.after_draws(&self.config, first, continued);
        let r = match continued {
            Some(Err(e)) => Err(e),
            _ => Ok(()),
        };
        proof {
            assert(draws_admitted(s0, old(self).probability(), first, continued));
            lemma_certain_draws(s0, self.state, self.config, old(self).probability(), r);
        }
        r
    }

    /// What certain and impossible draws force. An impossible first win
    /// changes nothing; a certain one in Normal mode enters a rush. In Rush
    /// mode a certain win followed by a certain continuation extends the
    /// rush, and followed by an impossible one awards balls.
    pub open spec fn certain_outcomes(before: &Self, after: &Self, r: Result<(), ProbabilityError>) -> bool {
        let s = before.current();
        let t = after.current();
        let c = before.balls_config();
        let p = before.probability();
        &&& s is Normal && p.normal.win.numerator == 0 ==> t == s && r is Ok
        &&& s is Normal && p.normal.win.numerator == p.normal.win.denominator ==> t == s.rushed(c)
        &&& s is Rush && p.rush.win.numerator == 0 ==> t == s && r is Ok
        &&& s is Rush && p.rush.win.numerator == p.rush.win.denominator && continuation_certain(
            p,
            s.rush_n(),
        ) ==> t == s.rushed(c) && r is Ok
        &&& s is Rush && p.rush.win.numerator == p.rush.win.denominator && continuation_impossible(
            p,
            s.rush_n(),
        ) ==> t == s.awarded(c) && r is Ok
    }

    /// The current state.
    pub fn state(&self) -> (r: &GameState)
        ensures
            *r == self.current(),
    {
        &self.state
    }

    /// The output sink.
    pub closed spec fn sink(&self) -> O {
        self.output
    }

    /// The output sink.
    pub fn output(&self) -> (r: &O)
        ensures
            *r == self.sink(),
    {
        &self.output
    }
}

/// A session starts exactly once: from Uninitialized a start succeeds and
/// gives Normal mode with the configured balls, after which another start
/// fails, and goes on failing through launches that leave balls, rushes and
/// prizes, until the session ends.
pub proof fn lemma_start_once(config: BallsConfig, s: GameState)
    ensures
        GameState::Uninitialized.started(config) == Some(normal_with(config.init_balls)),
        normal_with(config.init_balls).started(config) is None,
        !(s is Uninitialized) ==> (s.started(config) is None),
        !(s is Uninitialized) ==> !(s.rushed(config) is Uninitialized),
        !(s is Uninitialized) ==> !(s.awarded(config) is Uninitialized),
        !(s.launched() is Uninitialized) ==> (s.launched().started(config) is None),
{
}

/// Normal mode with `balls` balls.
pub open spec fn normal_with(balls: usize) -> GameState {
    GameState::Normal { balls }
}

/// Rush mode with the given counts.
pub open spec fn rush_with(balls: usize, rush_balls: usize, n: usize) -> GameState {
    GameState::Rush { balls, rush_balls, n }
}

/// The launches that end something or not: the last ball of Normal mode
/// ends the session, one of two leaves one, and the last rush ball returns
/// to Normal mode with the balls kept.
pub proof fn lemma_launch_cases(balls: usize, n: usize)
    ensures
        normal_with(1).launched() == GameState::Uninitialized,
        normal_with(2).launched() == normal_with(1),
        rush_with(balls, 1, n).launched() == normal_with(balls),
{
}

/// What certain and impossible draws force on a lottery from `s`.
proof fn lemma_certain_draws<F: Fn(usize) -> Ratio>(
    s: GameState,
    t: GameState,
    config: BallsConfig,
    p: Probability<F>,
    r: Result<(), ProbabilityError>,
)
    requires
        lottery_effect(s, t, config, p, r),
    ensures
        s is Normal && p.normal.win.numerator == 0 ==> t == s && r is Ok,
        s is Normal && p.normal.win.numerator == p.normal.win.denominator ==> t == s.rushed(config),
        s is Rush && p.rush.win.numerator == 0 ==> t == s && r is Ok,
        s is Rush && p.rush.win.numerator == p.rush.win.denominator && continuation_certain(
            p,
            s.rush_n(),
        ) ==> t == s.rushed(config) && r is Ok,
        s is Rush && p.rush.win.numerator == p.rush.win.denominator && continuation_impossible(
            p,
            s.rush_n(),
        ) ==> t == s.awarded(config) && r is Ok,
        r is Err ==> s is Rush && t == s && exists|m: Ratio|
            call_ensures(p.rush_continue_fn, (s.rush_n(),), m) && #[trigger] exceeds_one(
                p.rush_continue.win,
                m,
            ),
{
    let (first, continued) = choose|
        first: LotteryResult,
        continued: Option<Result<LotteryResult, ProbabilityError>>,
    |
        #[trigger] draws_admitted(s, p, first, continued) && t == s.settled(config, first, continued)
            && (r is Err <==> continued matches Some(Err(_)));
    if let Some(c) = continued {
        let m = choose|m: Ratio|
            call_ensures(p.rush_continue_fn, (s.rush_n(),), m) && #[trigger] continuation_admits(
                p.rush_continue,
                m,
                c,
            );
        let w = p.rush_continue.win;
        if continuation_certain(p, s.rush_n()) {
            assert(m.denominator > 0 && w.numerator * m.numerator == w.denominator * m.denominator);
            assert(c is Ok);
        }
        if continuation_impossible(p, s.rush_n()) {
            assert(m.denominator > 0 && w.numerator * m.numerator == 0);
            assert(w.denominator * m.denominator >= 0) by (nonlinear_arith);
            assert(c is Ok);
        }
        if r is Err {
            assert(exceeds_one(w, m));
        }
    }
}

/// Rush accounting of a lottery, by its draws. A win outside a rush enters
/// round one, adding `incremental_balls` and granting `incremental_rush`
/// rush balls, and makes no continuation draw. In a rush, a continuation
/// win adds one round and takes no ball or rush ball away; a continuation
/// loss adds exactly `incremental_balls` and keeps the round count and the
/// rush balls; a failed continuation and a lost first draw change nothing.
/// (Exact where the counts stay below the largest `usize`.)
pub proof fn lemma_rush_accounting<F: Fn(usize) -> Ratio>(
    s: GameState,
    config: BallsConfig,
    p: Probability<F>,
    first: LotteryResult,
    continued: Option<Result<LotteryResult, ProbabilityError>>,
)
    requires
        draws_admitted(s, p, first, continued),
    ensures
        first is Lose ==> s.settled(config, first, continued) == s && continued is None,
        s is Normal && first is Win ==> continued is None && s.settled(config, first, continued)
            == rush_with(
            s.balls_or_zero().saturating_add(config.incremental_balls),
            config.incremental_rush,
            1,
        ),
        s is Rush && first is Win && (continued matches Some(Ok(c)) && c is Win) && s.rush_n()
            < usize::MAX ==> {
            let t = s.settled(config, first, continued);
            &&& t is Rush
            &&& t.rush_n() == s.rush_n() + 1
            &&& t.balls_or_zero() >= s.balls_or_zero()
            &&& t.rush_balls_or_zero() >= s.rush_balls_or_zero()
        },
        s is Rush && first is Win && (continued matches Some(Ok(c)) && c is Lose)
            && s.balls_or_zero() + config.incremental_balls <= usize::MAX ==> s.settled(
            config,
            first,
            continued,
        ) == rush_with(
            (s.balls_or_zero() + config.incremental_balls) as usize,
            s.rush_balls_or_zero(),
            s.rush_n(),
        ),
        continued matches Some(Err(_)) ==> s.settled(config, first, continued) == s,
{
}

} // verus!
