//! Weighted lottery draws: a real win or loss, each possibly shown fake.
use crate::config::{Probability, Ratio, SlotProbability};
use crate::random::{chance, os_seeded_rng};
use rand::rngs::SmallRng;
use vstd::prelude::*;

verus! {

/// Outcome of a lottery.
#[derive(Clone, Copy, Debug, PartialEq, Eq, Structural)]
pub enum LotteryResult {
    Win(Win),
    Lose(Lose),
}

/// How a win is presented.
#[derive(Clone, Copy, Debug, PartialEq, Eq, Structural)]
pub enum Win {
    /// Shown as a win.
    Default,
    /// Shown as a loss first, then revealed as a win.
    FakeWin,
}

/// How a loss is presented.
#[derive(Clone, Copy, Debug, PartialEq, Eq, Structural)]
pub enum Lose {
    /// Shown as a loss.
    Default,
    /// Shown as a win first, then revealed as a loss.
    FakeLose,
}

/// The rush continuation probability came out above one.
#[derive(Clone, Copy, Debug, Default, PartialEq, Eq, Structural)]
pub struct ProbabilityError;

impl LotteryResult {
    /// True for both kinds of win.
    pub fn is_win(&self) -> (r: bool)
        ensures
            r == (*self is Win),
    {
        matches!(self, LotteryResult::Win(_))
    }
}

/// The outcomes that a draw may give when a win has probability
/// `win_numerator / win_denominator`: a certain event always happens, an
/// impossible one never does.
pub open spec fn admits(
    win_numerator: int,
    win_denominator: int,
    fake_win: Ratio,
    fake_lose: Ratio,
    r: LotteryResult,
) -> bool {
    &&& win_numerator == 0 ==> r is Lose
    &&& win_numerator == win_denominator ==> r is Win
    &&& fake_win.numerator == 0 ==> r != LotteryResult::Win(Win::FakeWin)
    &&& fake_win.numerator == fake_win.denominator ==> r != LotteryResult::Win(Win::Default)
    &&& fake_lose.numerator == 0 ==> r != LotteryResult::Lose(Lose::FakeLose)
    &&& fake_lose.numerator == fake_lose.denominator ==> r != LotteryResult::Lose(Lose::Default)
}

/// The outcomes that a draw with the probabilities `p` may give.
pub open spec fn admits_slot(p: SlotProbability, r: LotteryResult) -> bool {
    admits(p.win.numerator as int, p.win.denominator as int, p.fake_win, p.fake_lose, r)
}

/// The win chance `win` scaled by `multiplier` is no probability: the
/// multiplier is undefined or the product exceeds one.
pub open spec fn exceeds_one(win: Ratio, multiplier: Ratio) -> bool {
    multiplier.denominator == 0 || win.numerator * multiplier.numerator > win.denominator
        * multiplier.denominator
}

/// Draws that hand out lottery outcomes with the configured probabilities.
pub struct Lottery<F: Fn(usize) -> Ratio> {
    rng: SmallRng,
    probability: Probability<F>,
}

/// The results that a continuation draw with the probabilities `p` and the
/// decay value `multiplier` may give: an error exactly when the scaled win
/// chance exceeds one, otherwise an outcome drawn with that chance.
pub open spec fn continuation_admits(
    p: SlotProbability,
    multiplier: Ratio,
    r: Result<LotteryResult, ProbabilityError>,
) -> bool {
    &&& r is Err <==> exceeds_one(p.win, multiplier)
    &&& r matches Ok(res) ==> admits(
        p.win.numerator * multiplier.numerator,
        p.win.denominator * multiplier.denominator,
        p.fake_win,
        p.fake_lose,
        res,
    )
}

/// What a rush continuation draw with the decay value `multiplier` does:
/// it fails, touching nothing, exactly when the scaled win chance exceeds
/// one, and otherwise draws with that chance.
pub open spec fn continuation_outcome<F: Fn(usize) -> Ratio>(
    before: Lottery<F>,
    after: Lottery<F>,
    multiplier: Ratio,
    r: Result<LotteryResult, ProbabilityError>,
) -> bool {
    &&& continuation_admits(before.probability().rush_continue, multiplier, r)
    &&& r is Err ==> after == before
    &&& after.probability() == before.probability()
}

/// The result that the two draws of a lottery name: whether the outcome is
/// a real win, and whether it is shown fake.
pub open spec fn outcome(won: bool, shown_fake: bool) -> LotteryResult {
    if won {
        if shown_fake {
            LotteryResult::Win(Win::FakeWin)
        } else {
            LotteryResult::Win(Win::Default)
        }
    } else {
        if shown_fake {
            LotteryResult::Lose(Lose::FakeLose)
        } else {
            LotteryResult::Lose(Lose::Default)
        }
    }
}

/// Maps the real-outcome draw and the fake draw to the lottery result.
pub fn outcome_of(won: bool, shown_fake: bool) -> (r: LotteryResult)
    ensures
        r == outcome(won, shown_fake),
{
    if won {
        if shown_fake {
            LotteryResult::Win(Win::FakeWin)
        } else {
            LotteryResult::Win(Win::Default)
        }
    } else {
        if shown_fake {
            LotteryResult::Lose(Lose::FakeLose)
        } else {
            LotteryResult::Lose(Lose::Default)
        }
    }
}

impl<F: Fn(usize) -> Ratio> Lottery<F> {
    /// The probabilities this lottery draws with.
    pub closed spec fn probability(&self) -> Probability<F> {
        self.probability
    }

    /// The lotteries are made of probabilities and the decay function
    /// accepts every round count.
    pub open spec fn wf(&self) -> bool {
        self.probability().is_valid() && self.probability().decay_callable()
    }

    /// A lottery whose generator is seeded from the operating system.
    pub fn new(probability: Probability<F>) -> (r: Self)
        requires
            probability.is_valid(),
            probability.decay_callable(),
        ensures
            r.probability() == probability,
            r.wf(),
    {
        Lottery { rng: os_seeded_rng(), probability }
    }

    /// A lottery that draws from `rng`, for reproducible sessions.
    pub fn with_rng(probability: Probability<F>, rng: SmallRng) -> (r: Self)
        requires
            probability.is_valid(),
            probability.decay_callable(),
        ensures
            r.probability() == probability,
            r.wf(),
    {
        Lottery { rng, probability }
    }

    /// Draws the real outcome first, with chance
    /// `win_numerator / win_denominator` of a win, then whether it is shown
    /// fake: one more draw, with `fake_win` after a win and `fake_lose`
    /// after a loss.
    fn draw(
        &mut self,
        win_numerator: u64,
        win_denominator: u64,
        fake_win: Ratio,
        fake_lose: Ratio,
    ) -> (r: LotteryResult)
        requires
            0 < win_denominator,
            win_numerator <= win_denominator,
            fake_win.is_probability(),
            fake_lose.is_probability(),
        ensures
            admits(win_numerator as int, win_denominator as int, fake_win, fake_lose, r),
            final(self).probability() == old(self).probability(),
    {
        let won = chance(&mut self.rng, win_numerator, win_denominator);
        let shown_fake = if won {
            chance(&mut self.rng, fake_win.numerator as u64, fake_win.denominator as u64)
        } else {
            chance(&mut self.rng, fake_lose.numerator as u64, fake_lose.denominator as u64)
        };
        outcome_of(won, shown_fake)
    }

    /// One draw with the probabilities `probability`.
    pub fn lottery(&mut self, probability: SlotProbability) -> (r: LotteryResult)
        requires
            probability.win.is_probability(),
            probability.fake_win.is_probability(),
            probability.fake_lose.is_probability(),
        ensures
            admits_slot(probability, r),
            final(self).probability() == old(self).probability(),
    {
        self.draw(
            probability.win.numerator as u64,
            probability.win.denominator as u64,
            probability.fake_win,
            probability.fake_lose,
        )
    }

    /// A draw with the Normal mode probabilities.
    pub fn lottery_normal(&mut self) -> (r: LotteryResult)
        requires
            old(self).wf(),
        ensures
            admits_slot(old(self).probability().normal, r),
            final(self).probability() == old(self).probability(),
    {
        proof {
            crate::config::lemma_every_offending_field_reported(self.probability.normal);
        }
        self.lottery(self.probability.normal)
    }

    /// A draw with the Rush mode probabilities.
    pub fn lottery_rush(&mut self) -> (r: LotteryResult)
        requires
            old(self).wf(),
        ensures
            admits_slot(old(self).probability().rush, r),
            final(self).probability() == old(self).probability(),
    {
        proof {
            crate::config::lemma_every_offending_field_reported(self.probability.rush);
        }
        self.lottery(self.probability.rush)
    }

    /// The continuation draw with the decay value `multiplier`: the win
    /// chance of `rush_continue` is multiplied by it, and a product above
    /// one is an error rather than being clamped.
    pub fn lottery_scaled(&mut self, multiplier: Ratio) -> (r: Result<
        LotteryResult,
        ProbabilityError,
    >)
        requires
            old(self).wf(),
        ensures
            continuation_outcome(*old(self), *final(self), multiplier, r),
    {
        let p = self.probability.rush_continue;
        proof {
            crate::config::lemma_every_offending_field_reported(p);
        }
        if multiplier.denominator == 0 {
            return Err(ProbabilityError);
        }
        proof {
            lemma_product_fits(p.win.numerator, multiplier.numerator);
            lemma_product_fits(p.win.denominator, multiplier.denominator);
        }
        let numerator = p.win.numerator as u64 * multiplier.numerator as u64;
        let denominator = p.win.denominator as u64 * multiplier.denominator as u64;
        if numerator > denominator {
            return Err(ProbabilityError);
        }
        proof {
            assert(0 < denominator) by (nonlinear_arith)
                requires
                    denominator == p.win.denominator as u64 * multiplier.denominator as u64,
                    p.win.denominator > 0,
                    multiplier.denominator > 0,
            ;
        }
        Ok(self.draw(numerator, denominator, p.fake_win, p.fake_lose))
    }

    /// The draw that decides whether a rush goes on after `n` consecutive
    /// rounds: the win chance is scaled by the decay function's value at
    /// `n`, and fails when that exceeds one.
    pub fn lottery_rush_continue(&mut self, n: usize) -> (r: Result<
        LotteryResult,
        ProbabilityError,
    >)
        requires
            old(self).wf(),
        ensures
            exists|m: Ratio|
                call_ensures(old(self).probability().rush_continue_fn, (n,), m)
                    && continuation_outcome(*old(self), *final(self), m, r),
    {
        let multiplier = (self.probability.rush_continue_fn)(n);
        let r = self.lottery_scaled(multiplier);
        assert(continuation_outcome(*old(self), *self, multiplier, r));
        r
    }
}

proof fn lemma_product_fits(a: u32, b: u32)
    ensures
        a as int * b as int <= u64::MAX,
{
    assert(a as int * b as int <= u32::MAX as int * u32::MAX as int) by (nonlinear_arith)
        requires
            a <= u32::MAX,
            b <= u32::MAX,
    ;
}

/// A decay value above the reciprocal of the continuation win chance makes
/// the continuation draw fail and leaves the lottery as it was.
pub proof fn lemma_overshooting_decay_fails<F: Fn(usize) -> Ratio>(
    before: Lottery<F>,
    after: Lottery<F>,
    multiplier: Ratio,
    r: Result<LotteryResult, ProbabilityError>,
)
    requires
        continuation_outcome(before, after, multiplier, r),
        multiplier.denominator > 0,
        multiplier.numerator * before.probability().rush_continue.win.numerator
            > multiplier.denominator * before.probability().rush_continue.win.denominator,
    ensures
        r is Err,
        after == before,
{
    let w = before.probability().rush_continue.win;
    assert(w.numerator * multiplier.numerator == multiplier.numerator * w.numerator) by (nonlinear_arith);
    assert(w.denominator * multiplier.denominator == multiplier.denominator * w.denominator) by (nonlinear_arith);
    assert(exceeds_one(w, multiplier));
    assert(r is Err);
}

} // verus!
