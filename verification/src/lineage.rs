//! Bootstrapping child characters from a parent.
use vstd::prelude::*;

use crate::ability::{AbilityView, MASTERY_TRUST};
use crate::class::{class_for, CharacterClass};
use crate::sheet::{count_mastered, fresh_sheet, CharacterSheet, SheetView};
use crate::ratio::POINT;
use crate::stats::{Stats, BASELINE};

verus! {

/// Trust an inherited ability starts with: 60 points (good, but short of mastery).
pub const INHERITED_TRUST: i64 = 60 * POINT;

/// Use count an inherited ability starts with.
pub const INHERITED_USES: u32 = 5;

/// Level an inherited ability starts with.
pub const INHERITED_LEVEL: u32 = 1;

/// A child's score: 70% of the parent's score plus 30% of the 10-point
/// baseline, `(7 * v + 3 * BASELINE) / 10`, rounded to the nearest
/// billionth of a point (a half rounds up). No rounding happens when the
/// parent's score has at most eight decimals (a multiple of ten billionths).
pub open spec fn blend(v: i64) -> i64 {
    ((7 * v + 3 * BASELINE + 5) / 10) as i64
}

/// A child's scores, each blended from the parent's.
pub open spec fn blended(s: Stats) -> Stats {
    Stats {
        perception: blend(s.perception),
        dexterity: blend(s.dexterity),
        intelligence: blend(s.intelligence),
        wisdom: blend(s.wisdom),
        charisma: blend(s.charisma),
        constitution: blend(s.constitution),
    }
}

/// The copy of an ability that a child inherits.
pub open spec fn inherit(a: AbilityView) -> AbilityView {
    AbilityView { trust: INHERITED_TRUST, invoke_count: INHERITED_USES, level: INHERITED_LEVEL, ..a }
}

/// The abilities a child inherits: a copy of each mastered ability, in order.
pub open spec fn inherited(s: Seq<AbilityView>) -> Seq<AbilityView>
    decreases s.len(),
{
    if s.len() == 0 {
        Seq::empty()
    } else {
        let r = inherited(s.drop_last());
        if s.last().mastered() {
            r.push(inherit(s.last()))
        } else {
            r
        }
    }
}

/// The child called `name` of parent `p`: a new character of the next
/// generation, with `p` as parent, the inherited abilities, blended scores
/// and the class that emerges from them.
pub open spec fn child_of(p: SheetView, name: Seq<char>) -> SheetView {
    let stats = blended(p.stats);
    SheetView {
        generation: (p.generation + 1) as u32,
        parent: Some(p.name),
        abilities: inherited(p.abilities),
        stats,
        class: class_for(stats),
        ..fresh_sheet(name)
    }
}

/// The blended score of a parent score `v`, computed.
fn blend_exec(v: i64) -> (b: i64)
    ensures
        b == blend(v),
{
    let n: i128 = 7 * (v as i128) + 3 * (BASELINE as i128) + 5;
    proof {
        lemma_blend_between(v);
    }
    if n >= 0 {
        (n / 10) as i64
    } else {
        let c: i128 = (-n + 9) / 10;
        proof {
            lemma_floor_of_negative(n as int, c as int);
        }
        (-c) as i64
    }
}

/// Rounding down a negative quotient: `t / 10` is `-((-t + 9) / 10)`.
proof fn lemma_floor_of_negative(t: int, c: int)
    requires
        t < 0,
        c == (-t + 9) / 10,
    ensures
        -c == t / 10,
{
    let m = -t;
    assert(10 * c <= m + 9 < 10 * c + 10) by (nonlinear_arith)
        requires
            c == (m + 9) / 10,
            m > 0,
    ;
    assert(t / 10 == -c) by (nonlinear_arith)
        requires
            10 * c <= m + 9,
            m + 9 < 10 * c + 10,
            t == -m,
    ;
}

impl CharacterSheet {
    /// Bootstraps a child character: next generation, this character as
    /// parent, copies of the mastered abilities (trust 60 points, 5 uses,
    /// level 1), and scores blended 70% from this character and 30% from
    /// the baseline.
    pub fn bootstrap_child(&self, child_name: &str) -> (child: CharacterSheet)
        requires
            self.generation < u32::MAX,
        ensures
            child@ == child_of(self@, child_name@),
    {
        let mut child = CharacterSheet::new(child_name);
        child.generation = self.generation + 1;
        child.parent = Some(self.name.clone());
        let ghost s = self@.abilities;
        let n = self.abilities.len();
        let mut i: usize = 0;
        assert(s.take(0) =~= Seq::<AbilityView>::empty());
        while i < n
            invariant
                n == s.len(),
                s == self@.abilities,
                0 <= i <= n,
                self.generation < u32::MAX,
                child@ == (SheetView {
                    generation: (self.generation + 1) as u32,
                    parent: Some(self@.name),
                    abilities: inherited(s.take(i as int)),
                    ..fresh_sheet(child_name@)
                }),
            decreases n - i,
        {
            assert(s.take(i + 1).drop_last() =~= s.take(i as int));
            if self.abilities[i].is_mastered() {
                let mut copy = self.abilities[i].clone();
                copy.trust = INHERITED_TRUST;
                copy.invoke_count = INHERITED_USES;
                copy.level = INHERITED_LEVEL;
                let ghost before = child@.abilities;
                child.abilities.push(copy);
                assert(child@.abilities =~= before.push(inherit(s[i as int])));
            }
            i = i + 1;
        }
        assert(s.take(n as int) =~= s);
        child.stats = Stats::new(
            blend_exec(self.stats.perception),
            blend_exec(self.stats.dexterity),
            blend_exec(self.stats.intelligence),
            blend_exec(self.stats.wisdom),
            blend_exec(self.stats.charisma),
            blend_exec(self.stats.constitution),
        );
        child.class = CharacterClass::from_stats(&child.stats);
        child
    }
}

/// A blended score lies between the parent's score and the 10-point
/// baseline (inclusive).
pub proof fn lemma_blend_between(v: i64)
    ensures
        v <= BASELINE ==> v <= blend(v) <= BASELINE,
        v >= BASELINE ==> BASELINE <= blend(v) <= v,
        i64::MIN <= (7 * v + 3 * BASELINE + 5) / 10 <= i64::MAX,
{
    let x = v as int;
    let q = (7 * x + 3 * BASELINE + 5) / 10;
    assert(10 * q <= 7 * x + 3 * BASELINE + 5 < 10 * q + 10) by (nonlinear_arith)
        requires
            q == (7 * x + 3 * BASELINE + 5) / 10,
    ;
}

/// The blend is the exact 70/30 mix whenever that mix is a whole number of
/// billionths of a point.
pub proof fn lemma_blend_exact(v: i64)
    requires
        (7 * v + 3 * BASELINE) % 10 == 0,
    ensures
        10 * blend(v) == 7 * v + 3 * BASELINE,
{
    lemma_blend_between(v);
    let n = 7 * v + 3 * BASELINE;
    let q = n / 10;
    assert(n == 10 * q) by (nonlinear_arith)
        requires
            n % 10 == 0,
            q == n / 10,
    ;
    assert((n + 5) / 10 == q) by (nonlinear_arith)
        requires
            n == 10 * q,
    ;
}

/// A child's scores each lie between the parent's score and the baseline.
pub proof fn lemma_child_stats_between(p: Stats, k: int)
    requires
        0 <= k < 6,
    ensures
        p.value(k) <= BASELINE ==> p.value(k) <= blended(p).value(k) <= BASELINE,
        p.value(k) >= BASELINE ==> BASELINE <= blended(p).value(k) <= p.value(k),
{
    lemma_blend_between(p.value(k));
}

/// A child inherits exactly one ability per mastered ability of the parent,
/// and none of them is mastered yet.
pub proof fn lemma_inherited_abilities(s: Seq<AbilityView>)
    ensures
        inherited(s).len() == count_mastered(s),
        forall|j: int| 0 <= j < inherited(s).len() ==> !(#[trigger] inherited(s)[j]).mastered(),
        forall|j: int|
            0 <= j < inherited(s).len() ==> (#[trigger] inherited(s)[j]).trust == INHERITED_TRUST,
    decreases s.len(),
{
    if s.len() > 0 {
        lemma_inherited_abilities(s.drop_last());
    }
    assert(INHERITED_TRUST <= MASTERY_TRUST);
}

} // verus!
