//! Reel sequences that render a lottery outcome.
use crate::lottery::{Lose, LotteryResult, Win};
use crate::random::{choose_from, os_seeded_rng, random_in, shuffle};
use rand::rngs::SmallRng;
use vstd::prelude::*;

verus! {

broadcast use vstd::seq_lib::group_to_multiset_ensures;

/// Every element of `s` equals every other.
pub open spec fn all_same<T>(s: Seq<T>) -> bool {
    forall|i: int, j: int| 0 <= i < s.len() && 0 <= j < s.len() ==> s[i] == s[j]
}

/// Every element of `s` is one of `alphabet`.
pub open spec fn drawn_from<T>(s: Seq<T>, alphabet: Seq<T>) -> bool {
    forall|i: int| 0 <= i < s.len() ==> alphabet.contains(#[trigger] s[i])
}

/// A winning reel: `length` copies of one symbol of the alphabet.
pub open spec fn is_win_sequence<T>(s: Seq<T>, length: nat, alphabet: Seq<T>) -> bool {
    s.len() == length && all_same(s) && drawn_from(s, alphabet)
}

/// A losing reel: `length` symbols of the alphabet, not all the same when
/// the alphabet's symbols are distinct.
pub open spec fn is_lose_sequence<T>(s: Seq<T>, length: nat, alphabet: Seq<T>) -> bool {
    &&& s.len() == length
    &&& drawn_from(s, alphabet)
    &&& alphabet.no_duplicates() ==> !all_same(s)
}

/// What `produce` returns for `result`: the sequence shown first, and for a
/// fake outcome the sequence that reveals the real one.
pub open spec fn renders<T>(
    result: LotteryResult,
    shown: Seq<T>,
    revealed: Option<Seq<T>>,
    length: nat,
    alphabet: Seq<T>,
) -> bool {
    match result {
        LotteryResult::Win(Win::Default) => is_win_sequence(shown, length, alphabet)
            && revealed is None,
        LotteryResult::Win(Win::FakeWin) => is_lose_sequence(shown, length, alphabet) && (
        revealed matches Some(w) && is_win_sequence(w, length, alphabet)),
        LotteryResult::Lose(Lose::Default) => is_lose_sequence(shown, length, alphabet)
            && revealed is None,
        LotteryResult::Lose(Lose::FakeLose) => is_win_sequence(shown, length, alphabet) && (
        revealed matches Some(l) && is_lose_sequence(l, length, alphabet)),
    }
}

/// Makes the reel sequences that show lottery outcomes.
pub struct SlotProducer<T> {
    length: usize,
    choices: Vec<T>,
    rng: SmallRng,
}

impl<T: Copy> SlotProducer<T> {
    /// Number of symbols in each sequence.
    pub closed spec fn length(&self) -> nat {
        self.length as nat
    }

    /// The symbols a sequence is made of.
    pub closed spec fn choices(&self) -> Seq<T> {
        self.choices@
    }

    /// A producer whose generator is seeded from the operating system. It
    /// needs at least two symbols.
    pub fn new(length: usize, choices: Vec<T>) -> (r: Self)
        requires
            choices@.len() > 1,
        ensures
            r.length() == length,
            r.choices() == choices@,
    {
        SlotProducer { length, choices, rng: os_seeded_rng() }
    }

    /// A producer that draws from `rng`, for reproducible sessions.
    pub fn with_rng(length: usize, choices: Vec<T>, rng: SmallRng) -> (r: Self)
        ensures
            r.length() == length,
            r.choices() == choices@,
    {
        SlotProducer { length, choices, rng }
    }

    /// `length` copies of one symbol picked at random.
    pub fn produce_win(&mut self) -> (r: Vec<T>)
        requires
            old(self).choices().len() > 0,
        ensures
            is_win_sequence(r@, old(self).length(), old(self).choices()),
            final(self).length() == old(self).length(),
            final(self).choices() == old(self).choices(),
    {
        let choice = choose_from(&mut self.rng, &self.choices);
        let mut result: Vec<T> = Vec::new();
        let mut i: usize = 0;
        while i < self.length
            invariant
                i <= self.length,
                result@.len() == i,
                forall|k: int| 0 <= k < i ==> result@[k] == choice,
            decreases self.length - i,
        {
            result.push(choice);
            i += 1;
        }
        proof {
            assert(self.choices@.contains(choice));
        }
        result
    }

    /// `count` symbols, each picked at random from `group`, appended to
    /// `out`.
    fn fill_from(&mut self, group: &Vec<T>, count: usize, out: &mut Vec<T>)
        requires
            group@.len() > 0,
        ensures
            final(out)@.len() == old(out)@.len() + count,
            forall|k: int| 0 <= k < old(out)@.len() ==> final(out)@[k] == old(out)@[k],
            forall|k: int|
                old(out)@.len() <= k < final(out)@.len() ==> group@.contains(
                    #[trigger] final(out)@[k],
                ),
            final(self).length() == old(self).length(),
            final(self).choices() == old(self).choices(),
    {
        let mut i: usize = 0;
        while i < count
            invariant
                i <= count,
                group@.len() > 0,
                out@.len() == old(out)@.len() + i,
                forall|k: int| 0 <= k < old(out)@.len() ==> out@[k] == old(out)@[k],
                forall|k: int|
                    old(out)@.len() <= k < out@.len() ==> group@.contains(#[trigger] out@[k]),
                self.length() == old(self).length(),
                self.choices() == old(self).choices(),
            decreases count - i,
        {
            let symbol = choose_from(&mut self.rng, group);
            out.push(symbol);
            i += 1;
        }
    }

    /// A sequence with symbols of two disjoint groups of the alphabet, so
    /// that it cannot be a win: the shuffled alphabet is split into two
    /// non-empty groups, `cnt1` symbols are picked from the first and the
    /// rest from the second, and the positions are shuffled.
    pub fn produce_lose(&mut self) -> (r: Vec<T>)
        requires
            old(self).choices().len() > 1,
            old(self).length() > 1,
        ensures
            is_lose_sequence(r@, old(self).length(), old(self).choices()),
            final(self).length() == old(self).length(),
            final(self).choices() == old(self).choices(),
    {
        let mut pool: Vec<T> = Vec::new();
        let mut i: usize = 0;
        while i < self.choices.len()
            invariant
                i <= self.choices@.len(),
                pool@ == self.choices@.subrange(0, i as int),
            decreases self.choices@.len() - i,
        {
            pool.push(self.choices[i]);
            i += 1;
        }
        assert(pool@ == self.choices@);
        shuffle(&mut self.rng, &mut pool);
        let ghost shuffled = pool@;
        assert(shuffled.len() == self.choices@.len()) by {
            assert(shuffled.to_multiset().len() == self.choices@.to_multiset().len());
        }

        let partition = random_in(&mut self.rng, 1, pool.len() as u64) as usize;
        let second = pool.split_off(partition);
        let first = pool;

        let cnt1 = random_in(&mut self.rng, 1, self.length as u64) as usize;
        let cnt2 = self.length - cnt1;

        let mut result: Vec<T> = Vec::new();
        self.fill_from(&first, cnt1, &mut result);
        self.fill_from(&second, cnt2, &mut result);
        let ghost unshuffled = result@;
        shuffle(&mut self.rng, &mut result);

        proof {
            assert(shuffled =~= first@ + second@);
            // every symbol drawn is one of the alphabet
            assert forall|k: int| 0 <= k < result@.len() implies self.choices@.contains(
                #[trigger] result@[k],
            ) by {
                assert(result@.to_multiset().count(result@[k]) > 0);
                assert(unshuffled.contains(result@[k]));
                let j = choose|j: int| 0 <= j < unshuffled.len() && unshuffled[j] == result@[k];
                if j < cnt1 {
                    assert(first@.contains(unshuffled[j]));
                    let m = choose|m: int| 0 <= m < first@.len() && first@[m] == unshuffled[j];
                    assert(shuffled[m] == result@[k]);
                } else {
                    assert(second@.contains(unshuffled[j]));
                    let m = choose|m: int| 0 <= m < second@.len() && second@[m] == unshuffled[j];
                    assert(shuffled[first@.len() + m] == result@[k]);
                }
                assert(shuffled.contains(result@[k]));
                assert(shuffled.to_multiset().count(result@[k]) > 0);
            }
            if self.choices@.no_duplicates() {
                self.choices@.lemma_multiset_has_no_duplicates();
                shuffled.lemma_multiset_has_no_duplicates_conv();
                let a = unshuffled[0];
                let b = unshuffled[cnt1 as int];
                assert(first@.contains(a));
                assert(second@.contains(b));
                let ia = choose|m: int| 0 <= m < first@.len() && first@[m] == a;
                let ib = choose|m: int| 0 <= m < second@.len() && second@[m] == b;
                assert(shuffled[ia] == a);
                assert(shuffled[first@.len() + ib] == b);
                assert(a != b);
                assert(unshuffled.contains(a));
                assert(unshuffled.contains(b));
                assert(result@.to_multiset().count(a) > 0);
                assert(result@.to_multiset().count(b) > 0);
                let ra = choose|m: int| 0 <= m < result@.len() && result@[m] == a;
                let rb = choose|m: int| 0 <= m < result@.len() && result@[m] == b;
                assert(result@[ra] != result@[rb]);
                assert(!all_same(result@));
            }
            assert(result@.len() == self.length) by {
                assert(result@.to_multiset().len() == unshuffled.to_multiset().len());
            }
            assert(drawn_from(result@, self.choices@));
        }
        result
    }

    /// The sequences that show `result`: a win or loss alone, and for a fake
    /// outcome the misleading sequence first, then the one that reveals the
    /// real outcome.
    pub fn produce(&mut self, result: &LotteryResult) -> (r: (Vec<T>, Option<Vec<T>>))
        requires
            old(self).choices().len() > 0,
            *result != LotteryResult::Win(Win::Default) ==> old(self).choices().len() > 1
                && old(self).length() > 1,
        ensures
            renders(
                *result,
                r.0@,
                match r.1 {
                    Some(v) => Some(v@),
                    None => None,
                },
                old(self).length(),
                old(self).choices(),
            ),
            final(self).length() == old(self).length(),
            final(self).choices() == old(self).choices(),
    {
        match result {
            LotteryResult::Win(Win::Default) => (self.produce_win(), None),
            LotteryResult::Win(Win::FakeWin) => {
                let shown = self.produce_lose();
                (shown, Some(self.produce_win()))
            },
            LotteryResult::Lose(Lose::Default) => (self.produce_lose(), None),
            LotteryResult::Lose(Lose::FakeLose) => {
                let shown = self.produce_win();
                (shown, Some(self.produce_lose()))
            },
        }
    }
}

/// A fake win is shown as a loss and then revealed as a win: over an
/// alphabet of distinct symbols and a length of at least two, the first
/// sequence is not all one symbol and the second is.
pub proof fn lemma_fake_win_round_trip<T>(
    shown: Seq<T>,
    revealed: Option<Seq<T>>,
    length: nat,
    alphabet: Seq<T>,
)
    requires
        renders(LotteryResult::Win(Win::FakeWin), shown, revealed, length, alphabet),
        alphabet.no_duplicates(),
        length > 1,
    ensures
        shown.len() == length,
        !all_same(shown),
        revealed matches Some(w) && w.len() == length && all_same(w),
{
}

} // verus!
