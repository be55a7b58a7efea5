use pachislo::command::{
    CauseLottery, Command, ControlCommand, FinishGame, LaunchBall, LaunchBallFlow,
    LaunchBallFlowProducer, StartGame,
};
use pachislo::config::{BallsConfig, Config, Probability, Ratio, SlotProbability};
use pachislo::game::{AlreadyStartedError, GameState, Transition, UninitializedError};
use pachislo::interface::{UserInput, UserOutput};
use pachislo::lottery::{Lose, LotteryResult, ProbabilityError, Win};
use pachislo::Game;
use std::collections::VecDeque;
use std::ops::ControlFlow;

fn ratio(numerator: u32, denominator: u32) -> Ratio {
    Ratio { numerator, denominator }
}

fn certain(win: bool) -> SlotProbability {
    SlotProbability {
        win: if win { ratio(1, 1) } else { ratio(0, 1) },
        fake_win: ratio(0, 1),
        fake_lose: ratio(0, 1),
    }
}

fn flat(_: usize) -> Ratio {
    ratio(1, 1)
}

fn overshoot(_: usize) -> Ratio {
    ratio(2, 1)
}

struct Script {
    batches: VecDeque<Vec<Command>>,
}

impl UserInput for Script {
    fn wait_for_input(&mut self) -> Vec<Command> {
        self.batches.pop_front().unwrap_or_else(|| vec![Command::FinishGame])
    }
}

fn script(batches: Vec<Vec<Command>>) -> Script {
    Script { batches: batches.into() }
}

struct Recorder {
    transitions: Vec<Transition>,
    finals: Vec<GameState>,
    normal: Vec<LotteryResult>,
    rush: Vec<LotteryResult>,
    continued: Vec<LotteryResult>,
}

impl Recorder {
    fn new() -> Self {
        Recorder {
            transitions: Vec::new(),
            finals: Vec::new(),
            normal: Vec::new(),
            rush: Vec::new(),
            continued: Vec::new(),
        }
    }
}

impl UserOutput for Recorder {
    fn default(&mut self, state: Transition) {
        self.transitions.push(state);
    }
    fn finish_game(&mut self, state: &GameState) {
        self.finals.push(*state);
    }
    fn lottery_normal(&mut self, result: LotteryResult) {
        self.normal.push(result);
    }
    fn lottery_rush(&mut self, result: LotteryResult) {
        self.rush.push(result);
    }
    fn lottery_rush_continue(&mut self, result: LotteryResult) {
        self.continued.push(result);
    }
}

fn game(
    normal_win: bool,
    rush_win: bool,
    continue_win: bool,
    decay: fn(usize) -> Ratio,
    input: Script,
) -> Game<Script, Recorder, fn(usize) -> Ratio> {
    let config = Config {
        balls: BallsConfig { init_balls: 10, incremental_balls: 5, incremental_rush: 20 },
        probability: Probability {
            normal: certain(normal_win),
            rush: certain(rush_win),
            rush_continue: certain(continue_win),
            rush_continue_fn: decay,
        },
    };
    match Game::new(config, input, Recorder::new()) {
        Ok(g) => g,
        Err(e) => panic!("invalid configuration: {:?}", e.errors()),
    }
}

#[test]
fn guaranteed_win_enters_rush() {
    let mut g = game(true, false, false, flat, script(vec![]));
    assert_eq!(*g.state(), GameState::Uninitialized);
    assert_eq!(g.start(), Ok(()));
    assert_eq!(*g.state(), GameState::Normal { balls: 10 });
    assert_eq!(g.cause_lottery(), Ok(()));
    assert_eq!(*g.state(), GameState::Rush { balls: 15, rush_balls: 20, n: 1 });
    assert_eq!(g.output().normal.len(), 1);
    assert!(g.output().normal[0].is_win());
}

#[test]
fn second_start_fails() {
    let mut g = game(false, false, false, flat, script(vec![]));
    assert_eq!(g.start(), Ok(()));
    assert_eq!(g.start(), Err(AlreadyStartedError));
    assert_eq!(*g.state(), GameState::Normal { balls: 10 });
    assert_eq!(g.finish(), Ok(()));
    assert_eq!(g.start(), Ok(()));
}

#[test]
fn start_again_after_balls_run_out() {
    let mut g = game(false, false, false, flat, script(vec![]));
    g.start().unwrap();
    for _ in 0..9 {
        assert_eq!(g.launch_ball(), Ok(()));
        assert_eq!(g.start(), Err(AlreadyStartedError));
    }
    assert_eq!(*g.state(), GameState::Normal { balls: 1 });
    assert_eq!(g.launch_ball(), Ok(()));
    assert_eq!(*g.state(), GameState::Uninitialized);
    assert_eq!(g.launch_ball(), Err(UninitializedError));
    assert_eq!(g.start(), Ok(()));
}

#[test]
fn launch_ball_transitions() {
    let mut s = GameState::Normal { balls: 1 };
    assert_eq!(s.launch_ball(), Ok(()));
    assert_eq!(s, GameState::Uninitialized);

    let mut s = GameState::Normal { balls: 2 };
    s.launch_ball().unwrap();
    assert_eq!(s, GameState::Normal { balls: 1 });

    let mut s = GameState::Rush { balls: 37, rush_balls: 1, n: 4 };
    s.launch_ball().unwrap();
    assert_eq!(s, GameState::Normal { balls: 37 });

    let mut s = GameState::Rush { balls: 37, rush_balls: 3, n: 4 };
    s.launch_ball().unwrap();
    assert_eq!(s, GameState::Rush { balls: 37, rush_balls: 2, n: 4 });

    let mut s = GameState::Uninitialized;
    assert_eq!(s.launch_ball(), Err(UninitializedError));
    assert_eq!(s, GameState::Uninitialized);
}

#[test]
fn continuation_win_adds_a_round() {
    let mut g = game(true, true, true, flat, script(vec![]));
    g.start().unwrap();
    assert_eq!(g.cause_lottery(), Ok(()));
    assert_eq!(*g.state(), GameState::Rush { balls: 15, rush_balls: 20, n: 1 });
    assert_eq!(g.cause_lottery(), Ok(()));
    assert_eq!(*g.state(), GameState::Rush { balls: 20, rush_balls: 40, n: 2 });
    assert_eq!(g.output().rush.len(), 1);
    assert_eq!(g.output().continued.len(), 1);
    assert!(g.output().continued[0].is_win());
}

#[test]
fn continuation_loss_awards_balls() {
    let mut g = game(true, true, false, flat, script(vec![]));
    g.start().unwrap();
    assert_eq!(g.cause_lottery(), Ok(()));
    g.launch_ball().unwrap();
    assert_eq!(*g.state(), GameState::Rush { balls: 15, rush_balls: 19, n: 1 });
    assert_eq!(g.cause_lottery(), Ok(()));
    assert_eq!(*g.state(), GameState::Rush { balls: 20, rush_balls: 19, n: 1 });
    assert!(!g.output().continued[0].is_win());
}

#[test]
fn failed_continuation_changes_nothing() {
    let mut g = game(true, true, true, overshoot, script(vec![]));
    g.start().unwrap();
    assert_eq!(g.cause_lottery(), Ok(()));
    let before = *g.state();
    assert_eq!(g.cause_lottery(), Err(ProbabilityError));
    assert_eq!(*g.state(), before);
    assert!(g.output().continued.is_empty());
}

#[test]
fn lost_rush_lottery_changes_nothing() {
    let mut g = game(true, false, true, flat, script(vec![]));
    g.start().unwrap();
    assert_eq!(g.cause_lottery(), Ok(()));
    let before = *g.state();
    assert_eq!(g.cause_lottery(), Ok(()));
    assert_eq!(*g.state(), before);
    assert_eq!(g.output().rush.len(), 1);
    assert!(!g.output().rush[0].is_win());
}

#[test]
fn lottery_without_session_changes_nothing() {
    let mut g = game(true, true, true, flat, script(vec![]));
    assert_eq!(g.cause_lottery(), Ok(()));
    assert_eq!(*g.state(), GameState::Uninitialized);
}

#[test]
fn finish_reports_and_resets() {
    let mut g = game(true, false, false, flat, script(vec![]));
    assert_eq!(g.finish(), Err(UninitializedError));
    g.start().unwrap();
    assert_eq!(g.cause_lottery(), Ok(()));
    assert_eq!(g.finish(), Ok(()));
    assert_eq!(*g.state(), GameState::Uninitialized);
    assert_eq!(g.output().finals, vec![GameState::Rush { balls: 15, rush_balls: 20, n: 1 }]);
}

#[test]
fn state_helpers() {
    let config = BallsConfig { init_balls: 3, incremental_balls: 5, incremental_rush: 20 };
    let mut s = GameState::Uninitialized;
    assert!(s.is_uninitialized());
    assert!(!s.is_rush());
    assert_eq!(s.init(&config), Ok(()));
    assert_eq!(s, GameState::Normal { balls: 3 });
    assert_eq!(s.init(&config), Err(AlreadyStartedError));
    s.increment_balls(&config);
    assert_eq!(s, GameState::Normal { balls: 8 });
    s.trigger_rush(&config);
    assert!(s.is_rush());
    assert_eq!(s, GameState::Rush { balls: 13, rush_balls: 20, n: 1 });
    s.trigger_rush(&config);
    assert_eq!(s, GameState::Rush { balls: 18, rush_balls: 40, n: 2 });
    s.increment_balls(&config);
    assert_eq!(s, GameState::Rush { balls: 23, rush_balls: 40, n: 2 });
}

#[test]
fn counts_stop_at_the_largest_value() {
    let config = BallsConfig { init_balls: 3, incremental_balls: 5, incremental_rush: 20 };
    let mut s = GameState::Rush { balls: usize::MAX - 1, rush_balls: usize::MAX, n: usize::MAX };
    s.trigger_rush(&config);
    assert_eq!(s, GameState::Rush { balls: usize::MAX, rush_balls: usize::MAX, n: usize::MAX });
}

#[test]
fn invalid_configuration_is_refused() {
    let config = Config {
        balls: BallsConfig { init_balls: 0, incremental_balls: 5, incremental_rush: 20 },
        probability: Probability {
            normal: certain(true),
            rush: SlotProbability { win: ratio(3, 2), fake_win: ratio(0, 1), fake_lose: ratio(0, 1) },
            rush_continue: certain(true),
            rush_continue_fn: flat as fn(usize) -> Ratio,
        },
    };
    match Game::new(config, script(vec![]), Recorder::new()) {
        Ok(_) => panic!("accepted an invalid configuration"),
        Err(e) => assert_eq!(
            e.errors().clone(),
            vec![
                "initial balls must be greater than 0",
                "win probability must be between 0.0 and 1.0"
            ]
        ),
    }
}

#[test]
fn control_loop_runs_batches_in_order() {
    let input = script(vec![
        vec![Command::control(ControlCommand::StartGame(StartGame))],
        vec![
            Command::Control(ControlCommand::LaunchBall(LaunchBall)),
            Command::Control(ControlCommand::CauseLottery(CauseLottery)),
        ],
        vec![],
        vec![Command::FinishGame],
    ]);
    let mut g = game(true, false, false, flat, input);
    let mut cycles = 0;
    while let ControlFlow::Continue(_) = g.run_step() {
        cycles += 1;
        assert!(cycles < 20);
    }
    // start, launch, lottery, empty poll
    assert_eq!(cycles, 4);
    assert_eq!(*g.state(), GameState::Uninitialized);
    let t = &g.output().transitions;
    assert_eq!(t.len(), 5);
    assert_eq!(t[0], Transition { before: None, after: GameState::Uninitialized });
    assert_eq!(
        t[1],
        Transition { before: Some(GameState::Uninitialized), after: GameState::Normal { balls: 10 } }
    );
    assert_eq!(
        t[2],
        Transition { before: Some(GameState::Normal { balls: 10 }), after: GameState::Normal { balls: 9 } }
    );
    assert_eq!(
        t[3],
        Transition {
            before: Some(GameState::Normal { balls: 9 }),
            after: GameState::Rush { balls: 14, rush_balls: 20, n: 1 }
        }
    );
    assert_eq!(t[4], t[3]);
    assert_eq!(g.output().finals, vec![GameState::Rush { balls: 14, rush_balls: 20, n: 1 }]);
}

#[test]
fn finish_sentinel_on_idle_game_just_stops() {
    let mut g = game(false, false, false, flat, script(vec![vec![Command::FinishGame]]));
    assert_eq!(g.run_step(), ControlFlow::Break(()));
    assert!(g.output().finals.is_empty());
}

#[test]
fn finish_command_keeps_the_loop_running() {
    let input = script(vec![vec![
        Command::control(ControlCommand::StartGame(StartGame)),
        Command::control(ControlCommand::FinishGame(FinishGame)),
        Command::FinishGame,
    ]]);
    let mut g = game(false, false, false, flat, input);
    assert_eq!(g.run_step(), ControlFlow::Continue(Ok(())));
    assert_eq!(g.run_step(), ControlFlow::Continue(Ok(())));
    assert_eq!(*g.state(), GameState::Uninitialized);
    assert_eq!(g.output().finals, vec![GameState::Normal { balls: 10 }]);
    assert_eq!(g.run_step(), ControlFlow::Break(()));
    assert_eq!(g.output().finals.len(), 1);
}

#[test]
fn launch_ball_flow_with_and_without_lottery() {
    let mut g = game(true, false, false, flat, script(vec![]));
    g.start().unwrap();
    assert_eq!(LaunchBallFlow::new(false).execute(&mut g), Ok(()));
    assert_eq!(*g.state(), GameState::Normal { balls: 9 });
    assert_eq!(LaunchBallFlow::new(true).execute(&mut g), Ok(()));
    assert_eq!(*g.state(), GameState::Rush { balls: 13, rush_balls: 20, n: 1 });
}

#[test]
fn start_hole_probability_decides_the_lottery() {
    let mut always = LaunchBallFlowProducer::new(ratio(1, 1));
    let mut never = LaunchBallFlowProducer::new(ratio(0, 1));
    for _ in 0..100 {
        assert_eq!(always.produce(), LaunchBallFlow::new(true));
        assert_eq!(never.produce(), LaunchBallFlow::new(false));
    }
    let mut sometimes = LaunchBallFlowProducer::new(ratio(12, 100));
    let hits = (0..5000)
        .filter(|_| sometimes.produce() == LaunchBallFlow::new(true))
        .count();
    assert!(hits > 400 && hits < 800, "hits: {hits}");
}

#[test]
fn transition_reports_before_and_after() {
    let mut g = game(false, false, false, flat, script(vec![]));
    assert_eq!(g.transition(), Transition { before: None, after: GameState::Uninitialized });
    assert_eq!(
        g.step_with(vec![Command::control(ControlCommand::StartGame(StartGame))]),
        ControlFlow::Continue(Ok(()))
    );
    assert_eq!(
        g.transition(),
        Transition { before: Some(GameState::Uninitialized), after: GameState::Normal { balls: 10 } }
    );
}

#[test]
fn step_with_keeps_the_rest_of_a_batch_in_order() {
    let mut g = game(false, false, false, flat, script(vec![]));
    let batch = vec![
        Command::control(ControlCommand::StartGame(StartGame)),
        Command::control(ControlCommand::LaunchBall(LaunchBall)),
        Command::control(ControlCommand::LaunchBall(LaunchBall)),
        Command::FinishGame,
    ];
    assert_eq!(g.step_with(batch), ControlFlow::Continue(Ok(())));
    assert_eq!(*g.state(), GameState::Normal { balls: 10 });
    assert_eq!(g.step_with(vec![]), ControlFlow::Continue(Ok(())));
    assert_eq!(*g.state(), GameState::Normal { balls: 9 });
    assert_eq!(g.step_with(vec![]), ControlFlow::Continue(Ok(())));
    assert_eq!(*g.state(), GameState::Normal { balls: 8 });
    assert_eq!(g.step_with(vec![]), ControlFlow::Break(()));
    assert_eq!(*g.state(), GameState::Uninitialized);
    assert_eq!(g.output().finals, vec![GameState::Normal { balls: 8 }]);
    // nothing pending and nothing received: nothing happens
    assert_eq!(g.step_with(vec![]), ControlFlow::Continue(Ok(())));
    assert_eq!(*g.state(), GameState::Uninitialized);
}

#[test]
fn failed_continuation_reaches_the_loop() {
    let input = script(vec![
        vec![Command::control(ControlCommand::StartGame(StartGame))],
        vec![Command::control(ControlCommand::CauseLottery(CauseLottery))],
        vec![Command::control(ControlCommand::CauseLottery(CauseLottery))],
    ]);
    let mut g = game(true, true, true, overshoot, input);
    assert_eq!(g.run_step(), ControlFlow::Continue(Ok(())));
    assert_eq!(g.run_step(), ControlFlow::Continue(Ok(())));
    let rush = *g.state();
    assert_eq!(g.run_step(), ControlFlow::Continue(Err(ProbabilityError)));
    assert_eq!(*g.state(), rush);
    assert_eq!(g.run_step(), ControlFlow::Break(()));
}

#[test]
fn draws_settle_the_state() {
    let config = BallsConfig { init_balls: 10, incremental_balls: 5, incremental_rush: 20 };
    let win = LotteryResult::Win(Win::Default);
    let fake_win = LotteryResult::Win(Win::FakeWin);
    let lose = LotteryResult::Lose(Lose::Default);
    let normal = GameState::Normal { balls: 10 };
    let rush = GameState::Rush { balls: 15, rush_balls: 7, n: 2 };

    assert_eq!(normal.after_draws(&config, lose, None), normal);
    assert_eq!(
        normal.after_draws(&config, fake_win, None),
        GameState::Rush { balls: 15, rush_balls: 20, n: 1 }
    );
    assert_eq!(rush.after_draws(&config, lose, None), rush);
    assert_eq!(
        rush.after_draws(&config, win, Some(Ok(win))),
        GameState::Rush { balls: 20, rush_balls: 27, n: 3 }
    );
    assert_eq!(
        rush.after_draws(&config, win, Some(Ok(LotteryResult::Lose(Lose::FakeLose)))),
        GameState::Rush { balls: 20, rush_balls: 7, n: 2 }
    );
    assert_eq!(rush.after_draws(&config, win, Some(Err(ProbabilityError))), rush);
    assert_eq!(GameState::Uninitialized.after_draws(&config, win, None), GameState::Uninitialized);
}
