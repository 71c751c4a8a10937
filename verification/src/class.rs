//! Character classes, which emerge from the distribution of the scores.
use vstd::prelude::*;

use crate::ratio::POINT;
use crate::stats::Stats;

verus! {

/// A character class that emerges from the score distribution.
#[derive(Debug, Clone, Copy, PartialEq, Eq, Structural)]
pub enum CharacterClass {
    /// Has not found a niche yet.
    Undefined,
    /// High perception.
    Scout,
    /// High dexterity.
    Speedster,
    /// High intelligence.
    Scholar,
    /// High wisdom.
    Sage,
    /// High charisma.
    Diplomat,
    /// High constitution.
    Guardian,
    /// High charisma and intelligence.
    Bard,
    /// High intelligence and dexterity.
    Artificer,
    /// High perception and charisma.
    JazzMusician,
    /// High wisdom and constitution.
    FleetCommander,
    /// Balanced scores above the baseline.
    Wildcard,
}

/// A score above this (15 points) counts as high.
pub const CLASS_THRESHOLD: i64 = 15 * POINT;

/// Squared difference of two scores.
pub open spec fn sq_diff(a: i64, b: i64) -> int {
    (a - b) * (a - b)
}

/// Six times the sum of squared deviations of the scores from their mean,
/// written as the sum of the squared differences over all fifteen pairs of
/// scores (the two are equal), in squared billionths of a point.
pub open spec fn scaled_spread(s: Stats) -> int {
    let (p, d, i, w, c, k) = (
        s.perception,
        s.dexterity,
        s.intelligence,
        s.wisdom,
        s.charisma,
        s.constitution,
    );
    sq_diff(p, d) + sq_diff(p, i) + sq_diff(p, w) + sq_diff(p, c) + sq_diff(p, k) + sq_diff(d, i)
        + sq_diff(d, w) + sq_diff(d, c) + sq_diff(d, k) + sq_diff(i, w) + sq_diff(i, c) + sq_diff(
        i,
        k,
    ) + sq_diff(w, c) + sq_diff(w, k) + sq_diff(c, k)
}

/// The bound on the scaled spread: variance 20 square points, times 6.
pub open spec fn spread_bound() -> int {
    6 * 20 * (POINT as int) * (POINT as int)
}

/// The scores are balanced: their variance (sum of squared deviations from
/// the mean) is below 20 square points, and their mean is above 10 points.
pub open spec fn is_balanced(s: Stats) -> bool {
    scaled_spread(s) < spread_bound() && s.sum() > 6 * 10 * POINT
}

/// The single-score class for the score at position `k`.
pub open spec fn single_class(k: int) -> CharacterClass {
    if k == 0 {
        CharacterClass::Scout
    } else if k == 1 {
        CharacterClass::Speedster
    } else if k == 2 {
        CharacterClass::Scholar
    } else if k == 3 {
        CharacterClass::Sage
    } else if k == 4 {
        CharacterClass::Diplomat
    } else {
        CharacterClass::Guardian
    }
}

/// The class that emerges from scores `s`: balanced scores make a Wildcard;
/// then the composite classes in the order Bard, Jazz Musician, Fleet
/// Commander, Artificer; then the class of the highest score if it is high;
/// otherwise Undefined.
pub open spec fn class_for(s: Stats) -> CharacterClass {
    let t = CLASS_THRESHOLD;
    if is_balanced(s) {
        CharacterClass::Wildcard
    } else if s.charisma > t && s.intelligence > t {
        CharacterClass::Bard
    } else if s.perception > t && s.charisma > t {
        CharacterClass::JazzMusician
    } else if s.wisdom > t && s.constitution > t {
        CharacterClass::FleetCommander
    } else if s.intelligence > t && s.dexterity > t {
        CharacterClass::Artificer
    } else if s.value(s.best()) > t {
        single_class(s.best())
    } else {
        CharacterClass::Undefined
    }
}

/// The display name of class `c`.
pub open spec fn class_label(c: CharacterClass) -> Seq<char> {
    match c {
        CharacterClass::Undefined => "Undefined"@,
        CharacterClass::Scout => "Scout"@,
        CharacterClass::Speedster => "Speedster"@,
        CharacterClass::Scholar => "Scholar"@,
        CharacterClass::Sage => "Sage"@,
        CharacterClass::Diplomat => "Diplomat"@,
        CharacterClass::Guardian => "Guardian"@,
        CharacterClass::Bard => "Bard"@,
        CharacterClass::Artificer => "Artificer"@,
        CharacterClass::JazzMusician => "Jazz Musician"@,
        CharacterClass::FleetCommander => "Fleet Commander"@,
        CharacterClass::Wildcard => "Wildcard"@,
    }
}

/// A pair difference at least this large alone puts the spread over its bound.
const DIFF_LIMIT: i128 = 11_000_000_000;

/// The squared difference of `a` and `b` where `|a - b| < DIFF_LIMIT`;
/// `None` where the difference is that large or larger.
fn small_square(a: i64, b: i64) -> (r: Option<i128>)
    ensures
        match r {
            Some(x) => x == sq_diff(a, b) && 0 <= x < DIFF_LIMIT * DIFF_LIMIT,
            None => sq_diff(a, b) >= DIFF_LIMIT * DIFF_LIMIT,
        },
{
    let d: i128 = a as i128 - b as i128;
    if d >= DIFF_LIMIT || d <= -DIFF_LIMIT {
        assert(d * d >= DIFF_LIMIT * DIFF_LIMIT) by (nonlinear_arith)
            requires
                d >= DIFF_LIMIT || d <= -DIFF_LIMIT,
                DIFF_LIMIT > 0,
        ;
        None
    } else {
        assert(0 <= d * d < DIFF_LIMIT * DIFF_LIMIT) by (nonlinear_arith)
            requires
                -DIFF_LIMIT < d < DIFF_LIMIT,
                DIFF_LIMIT > 0,
        ;
        Some(d * d)
    }
}

/// Squared differences are never negative.
proof fn lemma_sq_diff_nonneg(a: i64, b: i64)
    ensures
        sq_diff(a, b) >= 0,
{
    let d = a - b;
    assert(d * d >= 0) by (nonlinear_arith);
}

/// The spread is at least each of its terms.
proof fn lemma_spread_terms(s: Stats)
    ensures
        sq_diff(s.perception, s.dexterity) >= 0,
        sq_diff(s.perception, s.intelligence) >= 0,
        sq_diff(s.perception, s.wisdom) >= 0,
        sq_diff(s.perception, s.charisma) >= 0,
        sq_diff(s.perception, s.constitution) >= 0,
        sq_diff(s.dexterity, s.intelligence) >= 0,
        sq_diff(s.dexterity, s.wisdom) >= 0,
        sq_diff(s.dexterity, s.charisma) >= 0,
        sq_diff(s.dexterity, s.constitution) >= 0,
        sq_diff(s.intelligence, s.wisdom) >= 0,
        sq_diff(s.intelligence, s.charisma) >= 0,
        sq_diff(s.intelligence, s.constitution) >= 0,
        sq_diff(s.wisdom, s.charisma) >= 0,
        sq_diff(s.wisdom, s.constitution) >= 0,
        sq_diff(s.charisma, s.constitution) >= 0,
{
    lemma_sq_diff_nonneg(s.perception, s.dexterity);
    lemma_sq_diff_nonneg(s.perception, s.intelligence);
    lemma_sq_diff_nonneg(s.perception, s.wisdom);
    lemma_sq_diff_nonneg(s.perception, s.charisma);
    lemma_sq_diff_nonneg(s.perception, s.constitution);
    lemma_sq_diff_nonneg(s.dexterity, s.intelligence);
    lemma_sq_diff_nonneg(s.dexterity, s.wisdom);
    lemma_sq_diff_nonneg(s.dexterity, s.charisma);
    lemma_sq_diff_nonneg(s.dexterity, s.constitution);
    lemma_sq_diff_nonneg(s.intelligence, s.wisdom);
    lemma_sq_diff_nonneg(s.intelligence, s.charisma);
    lemma_sq_diff_nonneg(s.intelligence, s.constitution);
    lemma_sq_diff_nonneg(s.wisdom, s.charisma);
    lemma_sq_diff_nonneg(s.wisdom, s.constitution);
    lemma_sq_diff_nonneg(s.charisma, s.constitution);
}

/// Whether the scaled spread of `s` is below its bound, computed without
/// overflow: one large pair difference settles it; otherwise every term is
/// small and the sum is computed.
fn spread_below_bound(s: &Stats) -> (r: bool)
    ensures
        r == (scaled_spread(*s) < spread_bound()),
{
    proof {
        lemma_spread_terms(*s);
        assert(DIFF_LIMIT * DIFF_LIMIT >= spread_bound());
    }
    let (p, d, i, w, c, k) = (
        s.perception,
        s.dexterity,
        s.intelligence,
        s.wisdom,
        s.charisma,
        s.constitution,
    );
    let t01 = match small_square(p, d) { Some(x) => x, None => return false };
    let t02 = match small_square(p, i) { Some(x) => x, None => return false };
    let t03 = match small_square(p, w) { Some(x) => x, None => return false };
    let t04 = match small_square(p, c) { Some(x) => x, None => return false };
    let t05 = match small_square(p, k) { Some(x) => x, None => return false };
    let t12 = match small_square(d, i) { Some(x) => x, None => return false };
    let t13 = match small_square(d, w) { Some(x) => x, None => return false };
    let t14 = match small_square(d, c) { Some(x) => x, None => return false };
    let t15 = match small_square(d, k) { Some(x) => x, None => return false };
    let t23 = match small_square(i, w) { Some(x) => x, None => return false };
    let t24 = match small_square(i, c) { Some(x) => x, None => return false };
    let t25 = match small_square(i, k) { Some(x) => x, None => return false };
    let t34 = match small_square(w, c) { Some(x) => x, None => return false };
    let t35 = match small_square(w, k) { Some(x) => x, None => return false };
    let t45 = match small_square(c, k) { Some(x) => x, None => return false };
    let total = t01 + t02 + t03 + t04 + t05 + t12 + t13 + t14 + t15 + t23 + t24 + t25 + t34 + t35
        + t45;
    total < 6 * 20 * (POINT as i128) * (POINT as i128)
}

impl CharacterClass {
    /// Determines the class that emerges from `stats`.
    pub fn from_stats(stats: &Stats) -> (c: Self)
        ensures
            c == class_for(*stats),
    {
        let t = CLASS_THRESHOLD;
        let (highest_name, highest_val) = stats.highest();
        if spread_below_bound(stats) && stats.total() > 6 * 10 * (POINT as i128) {
            return CharacterClass::Wildcard;
        }
        if stats.charisma > t && stats.intelligence > t {
            return CharacterClass::Bard;
        }
        if stats.perception > t && stats.charisma > t {
            return CharacterClass::JazzMusician;
        }
        if stats.wisdom > t && stats.constitution > t {
            return CharacterClass::FleetCommander;
        }
        if stats.intelligence > t && stats.dexterity > t {
            return CharacterClass::Artificer;
        }
        if highest_val <= t {
            return CharacterClass::Undefined;
        }
        proof {
            crate::stats::lemma_best_is_first_maximum(*stats, 5);
            crate::stats::lemma_stat_labels_distinct(stats.best());
        }
        if crate::text::str_equal(highest_name, "perception") {
            CharacterClass::Scout
        } else if crate::text::str_equal(highest_name, "dexterity") {
            CharacterClass::Speedster
        } else if crate::text::str_equal(highest_name, "intelligence") {
            CharacterClass::Scholar
        } else if crate::text::str_equal(highest_name, "wisdom") {
            CharacterClass::Sage
        } else if crate::text::str_equal(highest_name, "charisma") {
            CharacterClass::Diplomat
        } else {
            CharacterClass::Guardian
        }
    }

    /// The display name of this class.
    pub fn name(&self) -> (n: &'static str)
        ensures
            n@ == class_label(*self),
    {
        match self {
            CharacterClass::Undefined => "Undefined",
            CharacterClass::Scout => "Scout",
            CharacterClass::Speedster => "Speedster",
            CharacterClass::Scholar => "Scholar",
            CharacterClass::Sage => "Sage",
            CharacterClass::Diplomat => "Diplomat",
            CharacterClass::Guardian => "Guardian",
            CharacterClass::Bard => "Bard",
            CharacterClass::Artificer => "Artificer",
            CharacterClass::JazzMusician => "Jazz Musician",
            CharacterClass::FleetCommander => "Fleet Commander",
            CharacterClass::Wildcard => "Wildcard",
        }
    }
}

/// Different classes have different names.
pub proof fn lemma_class_names_distinct(a: CharacterClass, b: CharacterClass)
    requires
        a != b,
    ensures
        class_label(a) != class_label(b),
{
    reveal_strlit("Undefined");
    reveal_strlit("Scout");
    reveal_strlit("Speedster");
    reveal_strlit("Scholar");
    reveal_strlit("Sage");
    reveal_strlit("Diplomat");
    reveal_strlit("Guardian");
    reveal_strlit("Bard");
    reveal_strlit("Artificer");
    reveal_strlit("Jazz Musician");
    reveal_strlit("Fleet Commander");
    reveal_strlit("Wildcard");
    if class_label(a) == class_label(b) {
        assert(class_label(a).len() == class_label(b).len());
        assert(class_label(a)[0] == class_label(b)[0]);
    }
}

} // verus!
