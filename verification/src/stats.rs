//! The six ability scores of a character.
use vstd::prelude::*;

use crate::ratio::{add_clamped, clamp_i64, Ratio, POINT};
use crate::text::str_equal;

verus! {

/// Character ability scores, in billionths of a point.
#[derive(Debug, Clone, Copy, PartialEq, Eq, Structural)]
pub struct Stats {
    /// Intent extraction quality.
    pub perception: i64,
    /// Execution speed.
    pub dexterity: i64,
    /// Embedding quality.
    pub intelligence: i64,
    /// Trust calibration.
    pub wisdom: i64,
    /// Output quality.
    pub charisma: i64,
    /// Reliability.
    pub constitution: i64,
}

/// Number of scores in a [`Stats`].
pub const STAT_COUNT: usize = 6;

/// Baseline score of a fresh character: 10 points.
pub const BASELINE: i64 = 10 * POINT;

/// The name of the score at position `k` (perception first, constitution last).
pub open spec fn stat_label(k: int) -> Seq<char> {
    if k == 0 {
        "perception"@
    } else if k == 1 {
        "dexterity"@
    } else if k == 2 {
        "intelligence"@
    } else if k == 3 {
        "wisdom"@
    } else if k == 4 {
        "charisma"@
    } else {
        "constitution"@
    }
}

/// Position of the score called `name`, or -1 where no score has that name.
pub open spec fn stat_index(name: Seq<char>) -> int {
    if name == stat_label(0) {
        0
    } else if name == stat_label(1) {
        1
    } else if name == stat_label(2) {
        2
    } else if name == stat_label(3) {
        3
    } else if name == stat_label(4) {
        4
    } else if name == stat_label(5) {
        5
    } else {
        -1
    }
}

/// Scores of a fresh character: 10 points each.
pub open spec fn baseline_stats() -> Stats {
    Stats {
        perception: BASELINE,
        dexterity: BASELINE,
        intelligence: BASELINE,
        wisdom: BASELINE,
        charisma: BASELINE,
        constitution: BASELINE,
    }
}

impl Stats {
    /// The score at position `k`.
    pub open spec fn value(self, k: int) -> i64 {
        if k == 0 {
            self.perception
        } else if k == 1 {
            self.dexterity
        } else if k == 2 {
            self.intelligence
        } else if k == 3 {
            self.wisdom
        } else if k == 4 {
            self.charisma
        } else {
            self.constitution
        }
    }

    /// These scores with the one at position `k` replaced by `v`.
    pub open spec fn with_value(self, k: int, v: i64) -> Stats {
        Stats {
            perception: if k == 0 { v } else { self.perception },
            dexterity: if k == 1 { v } else { self.dexterity },
            intelligence: if k == 2 { v } else { self.intelligence },
            wisdom: if k == 3 { v } else { self.wisdom },
            charisma: if k == 4 { v } else { self.charisma },
            constitution: if k == 5 { v } else { self.constitution },
        }
    }

    /// These scores with `amount` added to the one at position `k`
    /// (the sum clamped to the range of `i64`).
    pub open spec fn grown(self, k: int, amount: int) -> Stats {
        self.with_value(k, clamp_i64(self.value(k) + amount))
    }

    /// Sum of the six scores.
    pub open spec fn sum(self) -> int {
        self.perception + self.dexterity + self.intelligence + self.wisdom + self.charisma
            + self.constitution
    }

    /// Position of the best score among positions `0..=n`: the first one
    /// that no earlier score beats, scanning from perception.
    pub open spec fn best_upto(self, n: int) -> int
        decreases n,
    {
        if n <= 0 {
            0
        } else {
            let b = self.best_upto(n - 1);
            if self.value(n) > self.value(b) {
                n
            } else {
                b
            }
        }
    }

    /// Position of the highest score; ties go to the earlier score.
    pub open spec fn best(self) -> int {
        self.best_upto(5)
    }

    /// Creates scores from six values in billionths of a point.
    pub fn new(
        perception: i64,
        dexterity: i64,
        intelligence: i64,
        wisdom: i64,
        charisma: i64,
        constitution: i64,
    ) -> (s: Self)
        ensures
            s == (Stats { perception, dexterity, intelligence, wisdom, charisma, constitution }),
    {
        Stats { perception, dexterity, intelligence, wisdom, charisma, constitution }
    }

    /// Default starting scores: 10 points each.
    pub fn level_one() -> (s: Self)
        ensures
            s == baseline_stats(),
            s.sum() == 6 * BASELINE,
    {
        Stats {
            perception: BASELINE,
            dexterity: BASELINE,
            intelligence: BASELINE,
            wisdom: BASELINE,
            charisma: BASELINE,
            constitution: BASELINE,
        }
    }

    /// Total of all six scores.
    pub fn total(&self) -> (t: i128)
        ensures
            t == self.sum(),
    {
        self.perception as i128 + self.dexterity as i128 + self.intelligence as i128
            + self.wisdom as i128 + self.charisma as i128 + self.constitution as i128
    }

    /// Average of the six scores in points, as the exact fraction
    /// `total / (6 * POINT)`.
    pub fn average(&self) -> (a: Ratio)
        ensures
            a == (Ratio { numerator: self.sum() as i128, denominator: (6 * POINT) as i128 }),
    {
        Ratio { numerator: self.total(), denominator: (6 * POINT) as i128 }
    }

    /// The highest score and its name; on a tie the earlier score wins,
    /// scanning perception, dexterity, intelligence, wisdom, charisma,
    /// constitution.
    pub fn highest(&self) -> (r: (&'static str, i64))
        ensures
            r.0@ == stat_label(self.best()),
            r.1 == self.value(self.best()),
    {
        let mut best_name: &'static str = "perception";
        let mut best_val: i64 = self.perception;
        let ghost mut b: int = 0;
        assert(b == self.best_upto(0));
        if self.dexterity > best_val {
            best_name = "dexterity";
            best_val = self.dexterity;
            proof { b = 1; }
        }
        assert(b == self.best_upto(1));
        if self.intelligence > best_val {
            best_name = "intelligence";
            best_val = self.intelligence;
            proof { b = 2; }
        }
        assert(b == self.best_upto(2));
        if self.wisdom > best_val {
            best_name = "wisdom";
            best_val = self.wisdom;
            proof { b = 3; }
        }
        assert(b == self.best_upto(3));
        if self.charisma > best_val {
            best_name = "charisma";
            best_val = self.charisma;
            proof { b = 4; }
        }
        assert(b == self.best_upto(4));
        if self.constitution > best_val {
            best_name = "constitution";
            best_val = self.constitution;
            proof { b = 5; }
        }
        assert(b == self.best_upto(5));
        (best_name, best_val)
    }

    /// Adds `amount` to the score at position `k`, clamped to the range of `i64`.
    pub fn grow(&mut self, k: usize, amount: i64)
        requires
            k < STAT_COUNT,
        ensures
            *final(self) == old(self).grown(k as int, amount as int),
    {
        if k == 0 {
            self.perception = add_clamped(self.perception, amount);
        } else if k == 1 {
            self.dexterity = add_clamped(self.dexterity, amount);
        } else if k == 2 {
            self.intelligence = add_clamped(self.intelligence, amount);
        } else if k == 3 {
            self.wisdom = add_clamped(self.wisdom, amount);
        } else if k == 4 {
            self.charisma = add_clamped(self.charisma, amount);
        } else {
            self.constitution = add_clamped(self.constitution, amount);
        }
    }

    /// Applies experience to the score named `stat` ("perception",
    /// "dexterity", "intelligence", "wisdom", "charisma" or "constitution");
    /// any other name changes nothing.
    pub fn gain_xp(&mut self, stat: &str, amount: i64)
        ensures
            stat_index(stat@) >= 0 ==> *final(self) == old(self).grown(
                stat_index(stat@),
                amount as int,
            ),
            stat_index(stat@) < 0 ==> *final(self) == *old(self),
    {
        if str_equal(stat, "perception") {
            self.grow(0, amount);
        } else if str_equal(stat, "dexterity") {
            self.grow(1, amount);
        } else if str_equal(stat, "intelligence") {
            self.grow(2, amount);
        } else if str_equal(stat, "wisdom") {
            self.grow(3, amount);
        } else if str_equal(stat, "charisma") {
            self.grow(4, amount);
        } else if str_equal(stat, "constitution") {
            self.grow(5, amount);
        }
    }
}

/// Each score name names exactly one score: `stat_index` finds position
/// `k` again from the name of the score at position `k`.
pub proof fn lemma_stat_labels_distinct(k: int)
    requires
        0 <= k < 6,
    ensures
        stat_index(stat_label(k)) == k,
{
    reveal_strlit("perception");
    reveal_strlit("dexterity");
    reveal_strlit("intelligence");
    reveal_strlit("wisdom");
    reveal_strlit("charisma");
    reveal_strlit("constitution");
    assert forall|j: int| 0 <= j < 6 && j != k implies #[trigger] stat_label(j) != stat_label(k) by {
        if stat_label(j) == stat_label(k) {
            assert(stat_label(j).len() == stat_label(k).len());
            assert(stat_label(j)[0] == stat_label(k)[0]);
        }
    }
}

/// The best score is the first maximal one: no score beats it, and every
/// earlier score is strictly lower.
pub proof fn lemma_best_is_first_maximum(s: Stats, n: int)
    requires
        0 <= n <= 5,
    ensures
        0 <= s.best_upto(n) <= n,
        forall|j: int| 0 <= j <= n ==> #[trigger] s.value(j) <= s.value(s.best_upto(n)),
        forall|j: int| 0 <= j < s.best_upto(n) ==> #[trigger] s.value(j) < s.value(s.best_upto(n)),
    decreases n,
{
    if n > 0 {
        lemma_best_is_first_maximum(s, n - 1);
    }
}

} // verus!
