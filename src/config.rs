//! Game settings: ball counts, the probability of each lottery, and their
//! validation.
use vstd::prelude::*;

verus! {

/// An exact fraction `numerator / denominator`.
///
/// Used for probabilities, which lie in [0, 1], and for the rush
/// continuation multiplier, which a misconfigured decay function may push
/// past 1.
#[derive(Clone, Copy, Debug, PartialEq, Eq, Structural)]
pub struct Ratio {
    pub numerator: u32,
    pub denominator: u32,
}

impl Ratio {
    /// The fraction is a probability: a positive denominator and a value of
    /// at most one.
    pub open spec fn is_probability(self) -> bool {
        self.denominator > 0 && self.numerator <= self.denominator
    }

    /// Tests whether the fraction is a probability.
    pub fn in_unit_range(&self) -> (r: bool)
        ensures
            r == self.is_probability(),
    {
        self.denominator > 0 && self.numerator <= self.denominator
    }
}

/// How many balls a session starts with and how many it earns.
#[derive(Clone, Copy, Debug, PartialEq, Eq, Structural)]
pub struct BallsConfig {
    /// Balls at the start of a session; at least one.
    pub init_balls: usize,
    /// Balls awarded for a lottery win.
    pub incremental_balls: usize,
    /// Rush balls granted on entering or extending a rush.
    pub incremental_rush: usize,
}

/// The probabilities of one kind of lottery.
#[derive(Clone, Copy, Debug, PartialEq, Eq, Structural)]
pub struct SlotProbability {
    /// Chance of a real win.
    pub win: Ratio,
    /// Chance that a win is first shown as a loss.
    pub fake_win: Ratio,
    /// Chance that a loss is first shown as a win.
    pub fake_lose: Ratio,
}

/// The lottery probabilities of every mode.
pub struct Probability<F: Fn(usize) -> Ratio> {
    /// Lottery in Normal mode.
    pub normal: SlotProbability,
    /// Lottery in Rush mode.
    pub rush: SlotProbability,
    /// Base of the lottery that decides whether a rush goes on.
    pub rush_continue: SlotProbability,
    /// Multiplier applied to `rush_continue.win` after `n` consecutive rush
    /// rounds. Meant to give one at `n == 1` and not to grow with `n`.
    pub rush_continue_fn: F,
}

/// Complete settings of a game.
pub struct Config<F: Fn(usize) -> Ratio> {
    pub balls: BallsConfig,
    pub probability: Probability<F>,
}

/// Every problem that validation found, one message each.
#[derive(Clone, Debug)]
pub struct ConfigError {
    errors: Vec<String>,
}

/// The message for a session that would start without balls.
pub open spec fn init_balls_message() -> Seq<char> {
    "initial balls must be greater than 0"@
}

/// The messages for each field of a slot probability outside [0, 1].
pub open spec fn win_message() -> Seq<char> {
    "win probability must be between 0.0 and 1.0"@
}

pub open spec fn fake_win_message() -> Seq<char> {
    "fake_win probability must be between 0.0 and 1.0"@
}

pub open spec fn fake_lose_message() -> Seq<char> {
    "fake_lose probability must be between 0.0 and 1.0"@
}

/// `message` alone when the check failed, nothing when it held.
pub open spec fn report(ok: bool, message: Seq<char>) -> Seq<Seq<char>> {
    if ok {
        Seq::empty()
    } else {
        seq![message]
    }
}

/// The messages of a ball configuration, in the order they are reported.
pub open spec fn balls_errors(b: BallsConfig) -> Seq<Seq<char>> {
    report(b.init_balls >= 1, init_balls_message())
}

/// The messages of a slot probability, in the order they are reported.
pub open spec fn slot_errors(p: SlotProbability) -> Seq<Seq<char>> {
    report(p.win.is_probability(), win_message()) + report(
        p.fake_win.is_probability(),
        fake_win_message(),
    ) + report(p.fake_lose.is_probability(), fake_lose_message())
}

/// The messages of the three lotteries, in the order they are reported.
pub open spec fn probability_errors(
    normal: SlotProbability,
    rush: SlotProbability,
    rush_continue: SlotProbability,
) -> Seq<Seq<char>> {
    slot_errors(normal) + slot_errors(rush) + slot_errors(rush_continue)
}

/// The messages of a whole configuration, in the order they are reported.
pub open spec fn config_errors(
    balls: BallsConfig,
    normal: SlotProbability,
    rush: SlotProbability,
    rush_continue: SlotProbability,
) -> Seq<Seq<char>> {
    balls_errors(balls) + probability_errors(normal, rush, rush_continue)
}

/// Number of fields of a slot probability that lie outside [0, 1].
pub open spec fn offending_fields(p: SlotProbability) -> nat {
    (if p.win.is_probability() { 0nat } else { 1nat }) + (if p.fake_win.is_probability() {
        0nat
    } else {
        1nat
    }) + (if p.fake_lose.is_probability() { 0nat } else { 1nat })
}

/// What a validation returns for the messages it gathered.
pub open spec fn outcome_matches(r: Result<(), ConfigError>, expected: Seq<Seq<char>>) -> bool {
    match r {
        Ok(_) => expected.len() == 0,
        Err(e) => e@ == expected && expected.len() > 0,
    }
}

impl View for ConfigError {
    type V = Seq<Seq<char>>;

    closed spec fn view(&self) -> Seq<Seq<char>> {
        self.errors@.map_values(|s: String| s@)
    }
}

impl ConfigError {
    /// No problem found yet.
    pub fn new() -> (r: ConfigError)
        ensures
            r@ == Seq::<Seq<char>>::empty(),
    {
        let r = ConfigError { errors: Vec::new() };
        assert(r@ =~= Seq::<Seq<char>>::empty());
        r
    }

    /// Moves every message of `error` to the end of this one.
    pub fn append(&mut self, error: &mut ConfigError)
        ensures
            final(self)@ == old(self)@ + old(error)@,
            final(error)@ == Seq::<Seq<char>>::empty(),
    {
        let ghost a = self.errors@;
        let ghost b = error.errors@;
        self.errors.append(&mut error.errors);
        assert(self@ =~= a.map_values(|s: String| s@) + b.map_values(|s: String| s@));
        assert(error@ =~= Seq::<Seq<char>>::empty());
    }

    /// Records one more problem.
    pub fn push(&mut self, error: String)
        ensures
            final(self)@ == old(self)@.push(error@),
    {
        let ghost a = self.errors@;
        self.errors.push(error);
        assert(self@ =~= a.map_values(|s: String| s@).push(error@));
    }

    /// No problem was found.
    pub fn is_empty(&self) -> (r: bool)
        ensures
            r == (self@.len() == 0),
    {
        self.errors.len() == 0
    }

    /// The messages, in the order they were found.
    pub fn errors(&self) -> (r: &Vec<String>)
        ensures
            r@.map_values(|s: String| s@) == self@,
    {
        &self.errors
    }

    /// Turns a gathered list into the result of a validation.
    fn into_result(self) -> (r: Result<(), ConfigError>)
        ensures
            outcome_matches(r, self@),
    {
        if self.is_empty() {
            Ok(())
        } else {
            Err(self)
        }
    }

    /// Adds the messages of a failed validation.
    fn absorb(&mut self, r: Result<(), ConfigError>)
        ensures
            r is Ok ==> final(self)@ == old(self)@,
            r matches Err(e) ==> final(self)@ == old(self)@ + e@,
    {
        if let Err(mut err) = r {
            self.append(&mut err);
        }
    }
}

impl BallsConfig {
    /// Checks that a session starts with at least one ball.
    pub fn validate(&self) -> (r: Result<(), ConfigError>)
        ensures
            outcome_matches(r, balls_errors(*self)),
    {
        let mut error = ConfigError::new();
        if self.init_balls < 1 {
            error.push("initial balls must be greater than 0".to_owned());
        }
        assert(error@ =~= balls_errors(*self));
        error.into_result()
    }
}

impl SlotProbability {
    /// Checks that each of the three probabilities lies in [0, 1], reporting
    /// every field that does not.
    pub fn validate(&self) -> (r: Result<(), ConfigError>)
        ensures
            outcome_matches(r, slot_errors(*self)),
    {
        let mut error = ConfigError::new();
        if !self.win.in_unit_range() {
            error.push("win probability must be between 0.0 and 1.0".to_owned());
        }
        assert(error@ =~= report(self.win.is_probability(), win_message()));
        let ghost first = error@;
        if !self.fake_win.in_unit_range() {
            error.push("fake_win probability must be between 0.0 and 1.0".to_owned());
        }
        assert(error@ =~= first + report(self.fake_win.is_probability(), fake_win_message()));
        let ghost second = error@;
        if !self.fake_lose.in_unit_range() {
            error.push("fake_lose probability must be between 0.0 and 1.0".to_owned());
        }
        assert(error@ =~= second + report(self.fake_lose.is_probability(), fake_lose_message()));
        error.into_result()
    }
}

impl<F: Fn(usize) -> Ratio> Probability<F> {
    /// The three lotteries are made of probabilities.
    pub open spec fn is_valid(&self) -> bool {
        slot_errors(self.normal).len() == 0 && slot_errors(self.rush).len() == 0 && slot_errors(
            self.rush_continue,
        ).len() == 0
    }

    /// The decay function accepts every round count.
    pub open spec fn decay_callable(&self) -> bool {
        forall|n: usize| #[trigger] self.rush_continue_fn.requires((n,))
    }

    /// Checks the three lotteries, reporting every offending field of each.
    pub fn validate(&self) -> (r: Result<(), ConfigError>)
        ensures
            outcome_matches(r, probability_errors(self.normal, self.rush, self.rush_continue)),
    {
        let mut error = ConfigError::new();
        error.absorb(self.normal.validate());
        error.absorb(self.rush.validate());
        error.absorb(self.rush_continue.validate());
        assert(error@ =~= probability_errors(self.normal, self.rush, self.rush_continue));
        error.into_result()
    }
}

impl<F: Fn(usize) -> Ratio> Config<F> {
    /// Checks the whole configuration, reporting every problem at once.
    pub fn validate(&self) -> (r: Result<(), ConfigError>)
        ensures
            outcome_matches(
                r,
                config_errors(
                    self.balls,
                    self.probability.normal,
                    self.probability.rush,
                    self.probability.rush_continue,
                ),
            ),
    {
        let mut error = ConfigError::new();
        error.absorb(self.balls.validate());
        error.absorb(self.probability.validate());
        assert(error@ =~= config_errors(
            self.balls,
            self.probability.normal,
            self.probability.rush,
            self.probability.rush_continue,
        ));
        error.into_result()
    }
}

/// Validation of a slot probability gathers one message per offending field,
/// never stopping at the first: the list is as long as the number of fields
/// outside [0, 1], holds the message of each of them, and is empty exactly
/// when all three are probabilities.
pub proof fn lemma_every_offending_field_reported(p: SlotProbability)
    ensures
        slot_errors(p).len() == offending_fields(p),
        !p.win.is_probability() ==> slot_errors(p).contains(win_message()),
        !p.fake_win.is_probability() ==> slot_errors(p).contains(fake_win_message()),
        !p.fake_lose.is_probability() ==> slot_errors(p).contains(fake_lose_message()),
        slot_errors(p).len() == 0 <==> (p.win.is_probability() && p.fake_win.is_probability()
            && p.fake_lose.is_probability()),
{
    let a = report(p.win.is_probability(), win_message());
    let b = report(p.fake_win.is_probability(), fake_win_message());
    let c = report(p.fake_lose.is_probability(), fake_lose_message());
    assert(slot_errors(p) == a + b + c);
    if !p.win.is_probability() {
        assert((a + b + c)[0] == win_message());
    }
    if !p.fake_win.is_probability() {
        assert((a + b + c)[a.len() as int] == fake_win_message());
    }
    if !p.fake_lose.is_probability() {
        assert((a + b + c)[(a.len() + b.len()) as int] == fake_lose_message());
    }
}

/// Validation of a whole configuration keeps every message of every part: the
/// ball check first, then the normal, rush and rush continuation lotteries,
/// so that an offending field of any lottery is reported.
pub proof fn lemma_config_errors_aggregate(
    balls: BallsConfig,
    normal: SlotProbability,
    rush: SlotProbability,
    rush_continue: SlotProbability,
)
    ensures
        config_errors(balls, normal, rush, rush_continue).len() == balls_errors(balls).len()
            + offending_fields(normal) + offending_fields(rush) + offending_fields(rush_continue),
        forall|m: Seq<char>|
            slot_errors(normal).contains(m) || slot_errors(rush).contains(m) || slot_errors(
                rush_continue,
            ).contains(m) ==> #[trigger] config_errors(balls, normal, rush, rush_continue).contains(
                m,
            ),
{
    lemma_every_offending_field_reported(normal);
    lemma_every_offending_field_reported(rush);
    lemma_every_offending_field_reported(rush_continue);
    let all = config_errors(balls, normal, rush, rush_continue);
    let b = balls_errors(balls);
    let n = slot_errors(normal);
    let r = slot_errors(rush);
    let c = slot_errors(rush_continue);
    assert(all == b + (n + r + c));
    assert forall|m: Seq<char>| n.contains(m) || r.contains(m) || c.contains(m) implies #[trigger] all.contains(m) by {
        if n.contains(m) {
            let i = choose|i: int| 0 <= i < n.len() && n[i] == m;
            assert(all[b.len() + i] == m);
        } else if r.contains(m) {
            let i = choose|i: int| 0 <= i < r.len() && r[i] == m;
            assert(all[b.len() + n.len() + i] == m);
        } else {
            let i = choose|i: int| 0 <= i < c.len() && c[i] == m;
            assert(all[b.len() + n.len() + r.len() + i] == m);
        }
    }
}

} // verus!
