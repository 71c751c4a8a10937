//! What each operation is for, stated from its inputs and results.
use vstd::prelude::*;

use crate::ability::{fresh_ability, AbilityType, AbilityView};
use crate::class::{class_for, class_label, scaled_spread, CharacterClass};
use crate::lineage::{blend, child_of, inherit, inherited};
use crate::named::{inserted, name_position, names_unique};
use crate::party::{count_with, distinct_in_order, has_ability, party_label, start_synergy, PartyView};
use crate::save::save_of;
use crate::ratio::{clamp_i64, Ratio};
use crate::sheet::{count_evolved, count_mastered, first_named, fresh_sheet, level_for, SheetView};
use crate::stats::{stat_index, stat_label, Stats};
use crate::template::{sheet_from_template, TemplateView};

verus! {

/// The mean of the scores, times six.
pub open spec fn six_means(s: Stats) -> int {
    s.perception + s.dexterity + s.intelligence + s.wisdom + s.charisma + s.constitution
}

/// 36 times the variance of the scores (the sum of squared deviations from
/// their mean), in squared billionths of a point.
pub open spec fn variance_times_36(s: Stats) -> int {
    let t = six_means(s);
    (6 * s.perception - t) * (6 * s.perception - t) + (6 * s.dexterity - t) * (6 * s.dexterity - t)
        + (6 * s.intelligence - t) * (6 * s.intelligence - t) + (6 * s.wisdom - t) * (6 * s.wisdom
        - t) + (6 * s.charisma - t) * (6 * s.charisma - t) + (6 * s.constitution - t) * (6
        * s.constitution - t)
}

/// `(6x - t)^2 = 36 x^2 - 12 x t + t^2`.
proof fn lemma_dev_square(x: int, t: int)
    ensures
        (6 * x - t) * (6 * x - t) == 36 * (x * x) - 12 * (x * t) + t * t,
{
    assert((6 * x - t) * (6 * x - t) == 36 * (x * x) - 12 * (x * t) + t * t) by (nonlinear_arith);
}

/// `(x - y)^2 = x^2 - 2 x y + y^2`.
proof fn lemma_diff_square(x: int, y: int)
    ensures
        (x - y) * (x - y) == x * x - 2 * (x * y) + y * y,
{
    assert((x - y) * (x - y) == x * x - 2 * (x * y) + y * y) by (nonlinear_arith);
}

/// `x t` summed over the six scores is `t^2`.
proof fn lemma_sum_times(p: int, d: int, i: int, w: int, c: int, k: int, t: int)
    requires
        t == p + d + i + w + c + k,
    ensures
        p * t + d * t + i * t + w * t + c * t + k * t == t * t,
{
    assert(p * t + d * t + i * t + w * t + c * t + k * t == (p + d + i + w + c + k) * t)
        by (nonlinear_arith);
}

/// `t^2` is the sum of squares plus twice the sum of pair products.
proof fn lemma_square_of_sum(p: int, d: int, i: int, w: int, c: int, k: int, t: int)
    requires
        t == p + d + i + w + c + k,
    ensures
        t * t == p * p + d * d + i * i + w * w + c * c + k * k + 2 * (p * d + p * i + p * w + p
            * c + p * k + d * i + d * w + d * c + d * k + i * w + i * c + i * k + w * c + w * k
            + c * k),
{
    let u = d + i + w + c + k;
    assert(t * t == p * p + 2 * (p * u) + u * u) by (nonlinear_arith)
        requires
            t == p + u,
    ;
    assert(p * u == p * d + p * i + p * w + p * c + p * k) by (nonlinear_arith)
        requires
            u == d + i + w + c + k,
    ;
    let v = i + w + c + k;
    assert(u * u == d * d + 2 * (d * v) + v * v) by (nonlinear_arith)
        requires
            u == d + v,
    ;
    assert(d * v == d * i + d * w + d * c + d * k) by (nonlinear_arith)
        requires
            v == i + w + c + k,
    ;
    let x = w + c + k;
    assert(v * v == i * i + 2 * (i * x) + x * x) by (nonlinear_arith)
        requires
            v == i + x,
    ;
    assert(i * x == i * w + i * c + i * k) by (nonlinear_arith)
        requires
            x == w + c + k,
    ;
    let y = c + k;
    assert(x * x == w * w + 2 * (w * y) + y * y) by (nonlinear_arith)
        requires
            x == w + y,
    ;
    assert(w * y == w * c + w * k) by (nonlinear_arith)
        requires
            y == c + k,
    ;
    assert(y * y == c * c + 2 * (c * k) + k * k) by (nonlinear_arith)
        requires
            y == c + k,
    ;
}

/// Thirty-six times the variance is six times the sum of squared pair
/// differences.
proof fn lemma_variance_pairs(s: Stats)
    ensures
        variance_times_36(s) == 6 * scaled_spread(s),
{
    let (p, d, i, w, c, k) = (
        s.perception as int,
        s.dexterity as int,
        s.intelligence as int,
        s.wisdom as int,
        s.charisma as int,
        s.constitution as int,
    );
    let t = p + d + i + w + c + k;
    lemma_dev_square(p, t);
    lemma_dev_square(d, t);
    lemma_dev_square(i, t);
    lemma_dev_square(w, t);
    lemma_dev_square(c, t);
    lemma_dev_square(k, t);
    lemma_sum_times(p, d, i, w, c, k, t);
    lemma_square_of_sum(p, d, i, w, c, k, t);
    lemma_diff_square(p, d);
    lemma_diff_square(p, i);
    lemma_diff_square(p, w);
    lemma_diff_square(p, c);
    lemma_diff_square(p, k);
    lemma_diff_square(d, i);
    lemma_diff_square(d, w);
    lemma_diff_square(d, c);
    lemma_diff_square(d, k);
    lemma_diff_square(i, w);
    lemma_diff_square(i, c);
    lemma_diff_square(i, k);
    lemma_diff_square(w, c);
    lemma_diff_square(w, k);
    lemma_diff_square(c, k);
}

/// Balanced scores make a Wildcard before anything else is considered:
/// where the variance of the scores is below 20 square points and their mean
/// is above 10 points, the class is Wildcard, whichever scores are high.
pub proof fn law_balanced_scores_make_wildcard(s: Stats)
    requires
        variance_times_36(s) < 36 * 20 * 1_000_000_000_000_000_000,
        six_means(s) > 6 * 10_000_000_000,
    ensures
        class_for(s) == CharacterClass::Wildcard,
{
    lemma_variance_pairs(s);
}

/// Wildcard comes only from balanced scores.
pub proof fn law_wildcard_only_when_balanced(s: Stats)
    requires
        class_for(s) == CharacterClass::Wildcard,
    ensures
        variance_times_36(s) < 36 * 20 * 1_000_000_000_000_000_000,
        six_means(s) > 6 * 10_000_000_000,
{
    lemma_variance_pairs(s);
    crate::stats::lemma_best_is_first_maximum(s, 5);
}

/// An invocation counts one more use; a success raises the level by one and
/// trust by 5 points up to 100; a failure keeps the level and lowers trust
/// by 10 points down to 0; nothing else changes.
pub proof fn law_invoke(a: AbilityView, success: bool)
    requires
        a.invoke_count < u32::MAX,
        success ==> a.level < u32::MAX,
    ensures
        a.invoked(success).invoke_count == a.invoke_count + 1,
        success ==> a.invoked(success).level == a.level + 1,
        !success ==> a.invoked(success).level == a.level,
        success ==> a.invoked(success).trust == if a.trust + 5_000_000_000 > 100_000_000_000 {
            100_000_000_000
        } else {
            a.trust + 5_000_000_000
        },
        !success ==> a.invoked(success).trust == if a.trust - 10_000_000_000 < 0 {
            0
        } else {
            a.trust - 10_000_000_000
        },
        a.invoked(success).name == a.name,
        a.invoked(success).intent == a.intent,
        a.invoked(success).action == a.action,
        a.invoked(success).ability_type == a.ability_type,
        a.invoked(success).embedding == a.embedding,
{
}


/// `count_evolved` counts the abilities whose level is above 0.
proof fn lemma_count_evolved_filter(s: Seq<AbilityView>, pred: spec_fn(AbilityView) -> bool)
    requires
        forall|a: AbilityView| #[trigger] pred(a) == (a.level > 0),
    ensures
        count_evolved(s) == s.filter(pred).len(),
    decreases s.len(),
{
    reveal(Seq::filter);
    if s.len() > 0 {
        lemma_count_evolved_filter(s.drop_last(), pred);
        assert(pred(s.last()) == (s.last().level > 0));
    }
}

/// After an ability is used, the soul percentage is 100 times the number of
/// abilities whose level is above 0, over the number of abilities.
pub proof fn law_soul_counts_evolved_abilities(s: SheetView, name: Seq<char>, success: bool)
    requires
        first_named(s.abilities, name) >= 0,
        s.abilities.len() <= usize::MAX,
    ensures
        ({
            let u = s.used(name, success);
            &&& u.abilities.len() == s.abilities.len()
            &&& u.soul_percentage == (Ratio {
                numerator: (100 * u.abilities.filter(|a: AbilityView| a.level > 0).len()) as i128,
                denominator: u.abilities.len() as i128,
            })
        }),
{
    let u = s.used(name, success);
    lemma_count_evolved_filter(u.abilities, |a: AbilityView| a.level > 0);
}

/// `count_with` counts the members that have an ability of that name.
proof fn lemma_count_with_filter(
    ms: Seq<SheetView>,
    name: Seq<char>,
    pred: spec_fn(SheetView) -> bool,
)
    requires
        forall|m: SheetView| #[trigger] pred(m) == (first_named(m.abilities, name) >= 0),
    ensures
        count_with(ms, name) == ms.filter(pred).len(),
    decreases ms.len(),
{
    reveal(Seq::filter);
    if ms.len() > 0 {
        lemma_count_with_filter(ms.drop_last(), name, pred);
        assert(pred(ms.last()) == has_ability(ms.last(), name));
    }
}

/// A quest for `name` where `k` of the `n` members have an ability of that
/// name: every member uses it (successfully) where it has it; the 5-point
/// bonus goes to every member exactly when more than 70% of the members had
/// the ability (`10 k > 7 n`, counting an empty party as one), and otherwise
/// each member is exactly as after its own use; the synergy is `k / n`;
/// the quest counts as completed exactly when `k > 0`; each member's result
/// is its name with 2 points and `true`, or 0 and `false`.
pub proof fn law_quest(p: PartyView, name: Seq<char>, i: int)
    requires
        0 <= i < p.members.len(),
        p.members.len() <= usize::MAX,
    ensures
        ({
            let k = p.members.filter(|m: SheetView| first_named(m.abilities, name) >= 0).len();
            let n = if p.members.len() == 0 {
                1
            } else {
                p.members.len()
            };
            let u = p.members[i].used(name, true);
            let a = p.after_quest(name).members[i];
            let has = first_named(p.members[i].abilities, name) >= 0;
            &&& p.after_quest(name).members.len() == p.members.len()
            &&& 10 * k <= 7 * n ==> a == u
            &&& 10 * k > 7 * n ==> a == SheetView {
                xp: clamp_i64(u.xp + 5_000_000_000),
                level: level_for(u.level, clamp_i64(u.xp + 5_000_000_000)),
                ..u
            }
            &&& p.after_quest(name).synergy == (Ratio { numerator: k as i128, denominator: n as i128 })
            &&& p.quest_result(name).synergy == p.after_quest(name).synergy
            &&& p.quest_result(name).completed == (k > 0)
            &&& p.after_quest(name).quests_completed == if k > 0 {
                (p.quests_completed + 1) as u32
            } else {
                p.quests_completed
            }
            &&& p.quest_result(name).character_results.len() == p.members.len()
            &&& p.quest_result(name).character_results[i] == if has {
                (p.members[i].name, 2_000_000_000i64, true)
            } else {
                (p.members[i].name, 0i64, false)
            }
        }),
{
    lemma_count_with_filter(p.members, name, |m: SheetView| first_named(m.abilities, name) >= 0);
}

/// `inherited` copies the abilities whose trust is above 80 points and which
/// were used more than 20 times.
proof fn lemma_inherited_filter(s: Seq<AbilityView>, pred: spec_fn(AbilityView) -> bool)
    requires
        forall|a: AbilityView|
            #[trigger] pred(a) == (a.trust > 80_000_000_000 && a.invoke_count > 20),
    ensures
        inherited(s) == s.filter(pred).map_values(|a: AbilityView| inherit(a)),
    decreases s.len(),
{
    reveal(Seq::filter);
    if s.len() > 0 {
        lemma_inherited_filter(s.drop_last(), pred);
        assert(pred(s.last()) == s.last().mastered());
        let f = s.drop_last().filter(pred);
        if pred(s.last()) {
            assert(f.push(s.last()).map_values(|a: AbilityView| inherit(a)) =~= f.map_values(
                |a: AbilityView| inherit(a),
            ).push(inherit(s.last())));
        }
    } else {
        assert(s.filter(pred).map_values(|a: AbilityView| inherit(a)) =~= Seq::<
            AbilityView,
        >::empty());
    }
}

/// A child inherits one copy of each mastered ability of the parent (trust
/// above 80 points and used more than 20 times), in order; each copy keeps
/// the name, intent, action, type and embedding, and starts with trust 60
/// points, 5 uses and level 1. Each child score is 70% of the parent's plus
/// 3 points, to within half a billionth. The child is a new level-1
/// character of the next generation, with the parent's name as parent and
/// the class that emerges from its own scores.
pub proof fn law_child(p: SheetView, child_name: Seq<char>)
    ensures
        ({
            let m = p.abilities.filter(
                |a: AbilityView| a.trust > 80_000_000_000 && a.invoke_count > 20,
            );
            let c = child_of(p, child_name).abilities;
            &&& c.len() == m.len()
            &&& forall|j: int|
                0 <= j < c.len() ==> {
                    &&& (#[trigger] c[j]).name == m[j].name
                    &&& c[j].intent == m[j].intent
                    &&& c[j].action == m[j].action
                    &&& c[j].ability_type == m[j].ability_type
                    &&& c[j].embedding == m[j].embedding
                    &&& c[j].trust == 60_000_000_000
                    &&& c[j].invoke_count == 5
                    &&& c[j].level == 1
                }
        }),
        forall|k: int|
            0 <= k < 6 ==> 7 * p.stats.value(k) + 30_000_000_000 - 4 <= 10 * (#[trigger] child_of(
                p,
                child_name,
            ).stats.value(k)) <= 7 * p.stats.value(k) + 30_000_000_000 + 5,
        child_of(p, child_name).generation == p.generation + 1 || p.generation == u32::MAX,
        child_of(p, child_name).parent == Some(p.name),
        child_of(p, child_name).name == child_name,
        child_of(p, child_name).class == class_for(child_of(p, child_name).stats),
        child_of(p, child_name).level == 1,
        child_of(p, child_name).xp == 0,
        child_of(p, child_name).identity.len() == 0,
        child_of(p, child_name).config.len() == 0,
        child_of(p, child_name).soul_percentage.numerator == 0,
{
    lemma_inherited_filter(
        p.abilities,
        |a: AbilityView| a.trust > 80_000_000_000 && a.invoke_count > 20,
    );
    assert forall|k: int| 0 <= k < 6 implies 7 * p.stats.value(k) + 30_000_000_000 - 4 <= 10 * (
    #[trigger] child_of(p, child_name).stats.value(k)) <= 7 * p.stats.value(k) + 30_000_000_000
        + 5 by {
        let v = p.stats.value(k);
        crate::lineage::lemma_blend_between(v);
        let q = (7 * v + 30_000_000_000 + 5) / 10;
        assert(10 * q <= 7 * v + 30_000_000_000 + 5 < 10 * q + 10) by (nonlinear_arith)
            requires
                q == (7 * v + 30_000_000_000 + 5) / 10,
        ;
        assert(child_of(p, child_name).stats.value(k) == blend(v));
    }
}

/// Where the scores are not balanced, the class goes by this priority: Bard
/// (charisma and intelligence above 15 points), Jazz Musician (perception and
/// charisma), Fleet Commander (wisdom and constitution), Artificer
/// (intelligence and dexterity); then the class of the highest score, the
/// earliest of equal highest scores winning, where it is above 15 points;
/// otherwise Undefined.
pub proof fn law_class_order(s: Stats)
    requires
        !(variance_times_36(s) < 36 * 20 * 1_000_000_000_000_000_000 && six_means(s) > 6
            * 10_000_000_000),
    ensures
        ({
            let t = 15_000_000_000i64;
            let (p, d, i, w, c, k) = (
                s.perception,
                s.dexterity,
                s.intelligence,
                s.wisdom,
                s.charisma,
                s.constitution,
            );
            let none = !(c > t && i > t) && !(p > t && c > t) && !(w > t && k > t) && !(i > t
                && d > t);
            &&& c > t && i > t ==> class_for(s) == CharacterClass::Bard
            &&& !(c > t && i > t) && p > t && c > t ==> class_for(s) == CharacterClass::JazzMusician
            &&& !(c > t && i > t) && !(p > t && c > t) && w > t && k > t ==> class_for(s)
                == CharacterClass::FleetCommander
            &&& !(c > t && i > t) && !(p > t && c > t) && !(w > t && k > t) && i > t && d > t
                ==> class_for(s) == CharacterClass::Artificer
            &&& none && p > t && p >= d && p >= i && p >= w && p >= c && p >= k ==> class_for(s)
                == CharacterClass::Scout
            &&& none && d > t && d > p && d >= i && d >= w && d >= c && d >= k ==> class_for(s)
                == CharacterClass::Speedster
            &&& none && i > t && i > p && i > d && i >= w && i >= c && i >= k ==> class_for(s)
                == CharacterClass::Scholar
            &&& none && w > t && w > p && w > d && w > i && w >= c && w >= k ==> class_for(s)
                == CharacterClass::Sage
            &&& none && c > t && c > p && c > d && c > i && c > w && c >= k ==> class_for(s)
                == CharacterClass::Diplomat
            &&& none && k > t && k > p && k > d && k > i && k > w && k > c ==> class_for(s)
                == CharacterClass::Guardian
            &&& p <= t && d <= t && i <= t && w <= t && c <= t && k <= t ==> class_for(s)
                == CharacterClass::Undefined
        }),
{
    lemma_variance_pairs(s);
    crate::stats::lemma_best_is_first_maximum(s, 5);
    let b = s.best();
    assert(s.value(0) <= s.value(b));
    assert(s.value(1) <= s.value(b));
    assert(s.value(2) <= s.value(b));
    assert(s.value(3) <= s.value(b));
    assert(s.value(4) <= s.value(b));
    assert(s.value(5) <= s.value(b));
    if b > 0 { assert(s.value(0) < s.value(b)); }
    if b > 1 { assert(s.value(1) < s.value(b)); }
    if b > 2 { assert(s.value(2) < s.value(b)); }
    if b > 3 { assert(s.value(3) < s.value(b)); }
    if b > 4 { assert(s.value(4) < s.value(b)); }
}

/// The ability used is the first one of that name.
proof fn lemma_first_is(s: Seq<AbilityView>, name: Seq<char>, i: int)
    requires
        0 <= i < s.len(),
        s[i].name == name,
        forall|j: int| 0 <= j < i ==> #[trigger] s[j].name != name,
    ensures
        first_named(s, name) == i,
{
    crate::sheet::lemma_first_named(s, name);
    let k = first_named(s, name);
    if k < 0 {
        assert(s[i].name != name);
    } else {
        if k < i {
            assert(s[k].name != name);
        }
        if i < k {
            assert(s[i].name != name);
        }
    }
}

/// Using the first ability called `name` (at position `i`): that ability is
/// invoked and no other changes; experience grows by 2 points on success and
/// 0.5 on failure; the score of the ability's type (dexterity for hardcoded,
/// intelligence for learned, wisdom for hybrid, perception for model
/// abilities) grows by 0.5 points on success and shrinks by 0.1 on failure;
/// the class is recomputed from the new scores; the level becomes one per
/// whole 100 experience points plus one where that is higher; name,
/// identity, configuration, generation and parent stay.
pub proof fn law_use(s: SheetView, name: Seq<char>, success: bool, i: int)
    requires
        0 <= i < s.abilities.len(),
        s.abilities[i].name == name,
        forall|j: int| 0 <= j < i ==> #[trigger] s.abilities[j].name != name,
    ensures
        ({
            let u = s.used(name, success);
            let a = s.abilities[i];
            let gain: int = if success { 2_000_000_000 } else { 500_000_000 };
            let g: int = if success { 500_000_000 } else { -100_000_000 };
            let e: int = if u.xp < 0 { 1 } else { u.xp / 100_000_000_000 + 1 };
            &&& u.abilities == s.abilities.update(i, a.invoked(success))
            &&& s.xp + gain <= i64::MAX ==> u.xp == s.xp + gain
            &&& s.xp + gain > i64::MAX ==> u.xp == i64::MAX
            &&& u.level == if e > s.level { e } else { s.level as int }
            &&& a.ability_type == AbilityType::Hardcoded && i64::MIN <= s.stats.dexterity + g
                <= i64::MAX ==> u.stats == Stats { dexterity: (s.stats.dexterity + g) as i64, ..s.stats }
            &&& a.ability_type == AbilityType::Learned && i64::MIN <= s.stats.intelligence + g
                <= i64::MAX ==> u.stats == Stats {
                intelligence: (s.stats.intelligence + g) as i64,
                ..s.stats
            }
            &&& a.ability_type == AbilityType::Hybrid && i64::MIN <= s.stats.wisdom + g
                <= i64::MAX ==> u.stats == Stats { wisdom: (s.stats.wisdom + g) as i64, ..s.stats }
            &&& a.ability_type == AbilityType::Model && i64::MIN <= s.stats.perception + g
                <= i64::MAX ==> u.stats == Stats {
                perception: (s.stats.perception + g) as i64,
                ..s.stats
            }
            &&& u.class == class_for(u.stats)
            &&& u.name == s.name
            &&& u.identity == s.identity
            &&& u.config == s.config
            &&& u.generation == s.generation
            &&& u.parent == s.parent
        }),
{
    lemma_first_is(s.abilities, name, i);
}

/// Using an ability the character does not have changes nothing.
pub proof fn law_use_unknown(s: SheetView, name: Seq<char>, success: bool)
    requires
        forall|j: int| 0 <= j < s.abilities.len() ==> #[trigger] s.abilities[j].name != name,
    ensures
        s.used(name, success) == s,
{
    crate::sheet::lemma_first_named(s.abilities, name);
    if first_named(s.abilities, name) >= 0 {
        let k = first_named(s.abilities, name);
        assert(s.abilities[k].name != name);
    }
}

/// A new ability starts at level 0 with 50 points of trust and no uses.
pub proof fn law_fresh_ability(
    name: Seq<char>,
    intent: Seq<char>,
    action: Seq<char>,
    t: AbilityType,
    embedding: Seq<i64>,
)
    ensures
        fresh_ability(name, intent, action, t, embedding) == (AbilityView {
            name,
            intent,
            action,
            ability_type: t,
            level: 0,
            trust: 50_000_000_000,
            invoke_count: 0,
            embedding,
        }),
{
}

/// An ability is mastered exactly when its trust is above 80 points and it
/// was used more than 20 times.
pub proof fn law_mastery(a: AbilityView)
    ensures
        a.mastered() == (a.trust > 80_000_000_000 && a.invoke_count > 20),
{
}

/// The mastered count is the number of abilities with trust above 80
/// points and more than 20 uses.
pub proof fn law_mastered_count(s: Seq<AbilityView>)
    ensures
        count_mastered(s) == s.filter(
            |a: AbilityView| a.trust > 80_000_000_000 && a.invoke_count > 20,
        ).len(),
    decreases s.len(),
{
    reveal(Seq::filter);
    if s.len() > 0 {
        law_mastered_count(s.drop_last());
    }
}

/// A new character: level 1, no experience, every score 10 points, class
/// Undefined, no abilities, no identity or configuration fields, generation
/// 1, no parent, soul percentage 0.
pub proof fn law_fresh_sheet(name: Seq<char>)
    ensures
        ({
            let f = fresh_sheet(name);
            &&& f.name == name
            &&& f.level == 1
            &&& f.xp == 0
            &&& f.stats == Stats {
                perception: 10_000_000_000,
                dexterity: 10_000_000_000,
                intelligence: 10_000_000_000,
                wisdom: 10_000_000_000,
                charisma: 10_000_000_000,
                constitution: 10_000_000_000,
            }
            &&& f.class == CharacterClass::Undefined
            &&& f.abilities.len() == 0
            &&& f.identity.len() == 0
            &&& f.config.len() == 0
            &&& f.generation == 1
            &&& f.parent == None::<Seq<char>>
            &&& f.soul_percentage.numerator == 0
        }),
{
}

/// A level check sets the level to one per whole 100 experience points plus
/// one (1 for negative experience) where that is higher, and changes nothing
/// else.
pub proof fn law_level_check(s: SheetView)
    ensures
        ({
            let e: int = if s.xp < 0 { 1 } else { s.xp / 100_000_000_000 + 1 };
            &&& s.leveled().level == if e > s.level { e } else { s.level as int }
            &&& s.leveled() == SheetView { level: s.leveled().level, ..s }
        }),
{
}

/// Learning an ability appends it, earns 10 experience points, checks the
/// level, and changes nothing else (the class and soul percentage stay).
pub proof fn law_learn(s: SheetView, a: AbilityView)
    ensures
        ({
            let l = s.learned(a);
            let e: int = if l.xp < 0 { 1 } else { l.xp / 100_000_000_000 + 1 };
            &&& l.abilities == s.abilities.push(a)
            &&& s.xp + 10_000_000_000 <= i64::MAX ==> l.xp == s.xp + 10_000_000_000
            &&& s.xp + 10_000_000_000 > i64::MAX ==> l.xp == i64::MAX
            &&& l.level == if e > s.level { e } else { s.level as int }
            &&& l == SheetView { abilities: l.abilities, xp: l.xp, level: l.level, ..s }
        }),
{
}

/// The total is the sum of the six scores.
pub proof fn law_total(s: Stats)
    ensures
        s.sum() == six_means(s),
{
}

/// The score names, in order: perception, dexterity, intelligence, wisdom,
/// charisma, constitution; each name finds its own score.
pub proof fn law_stat_names()
    ensures
        stat_label(0) == "perception"@,
        stat_label(1) == "dexterity"@,
        stat_label(2) == "intelligence"@,
        stat_label(3) == "wisdom"@,
        stat_label(4) == "charisma"@,
        stat_label(5) == "constitution"@,
        stat_index("perception"@) == 0,
        stat_index("dexterity"@) == 1,
        stat_index("intelligence"@) == 2,
        stat_index("wisdom"@) == 3,
        stat_index("charisma"@) == 4,
        stat_index("constitution"@) == 5,
{
    crate::stats::lemma_stat_labels_distinct(0);
    crate::stats::lemma_stat_labels_distinct(1);
    crate::stats::lemma_stat_labels_distinct(2);
    crate::stats::lemma_stat_labels_distinct(3);
    crate::stats::lemma_stat_labels_distinct(4);
    crate::stats::lemma_stat_labels_distinct(5);
}

/// The display names of the classes.
pub proof fn law_class_names()
    ensures
        class_label(CharacterClass::Undefined) == "Undefined"@,
        class_label(CharacterClass::Scout) == "Scout"@,
        class_label(CharacterClass::Speedster) == "Speedster"@,
        class_label(CharacterClass::Scholar) == "Scholar"@,
        class_label(CharacterClass::Sage) == "Sage"@,
        class_label(CharacterClass::Diplomat) == "Diplomat"@,
        class_label(CharacterClass::Guardian) == "Guardian"@,
        class_label(CharacterClass::Bard) == "Bard"@,
        class_label(CharacterClass::Artificer) == "Artificer"@,
        class_label(CharacterClass::JazzMusician) == "Jazz Musician"@,
        class_label(CharacterClass::FleetCommander) == "Fleet Commander"@,
        class_label(CharacterClass::Wildcard) == "Wildcard"@,
{
}

/// The save data copies name, level, scores, generation, parent and soul
/// percentage, names the class, and summarises each ability in order: its
/// name, trust and level, whether it is mastered (trust above 80 points and
/// more than 20 uses) and its type as "hardcoded", "learned", "hybrid" or
/// "model".
pub proof fn law_save(s: SheetView)
    ensures
        ({
            let v = save_of(s);
            &&& v.name == s.name
            &&& v.level == s.level
            &&& v.class == class_label(s.class)
            &&& v.stats == s.stats
            &&& v.generation == s.generation
            &&& v.parent == s.parent
            &&& v.soul_percentage == s.soul_percentage
            &&& v.abilities.len() == s.abilities.len()
            &&& forall|j: int|
                0 <= j < s.abilities.len() ==> {
                    let a = s.abilities[j];
                    let e = #[trigger] v.abilities[j];
                    &&& e.name == a.name
                    &&& e.trust == a.trust
                    &&& e.level == a.level
                    &&& e.mastered == (a.trust > 80_000_000_000 && a.invoke_count > 20)
                    &&& a.ability_type == AbilityType::Hardcoded ==> e.ability_type == "hardcoded"@
                    &&& a.ability_type == AbilityType::Learned ==> e.ability_type == "learned"@
                    &&& a.ability_type == AbilityType::Hybrid ==> e.ability_type == "hybrid"@
                    &&& a.ability_type == AbilityType::Model ==> e.ability_type == "model"@
                }
        }),
{
}

/// Inserting a value under a name: afterwards the name holds that value,
/// every other name keeps its entry and position, the names stay unique, and
/// the map grows by one entry exactly when the name was new.
pub proof fn law_named_insert<V>(s: Seq<(Seq<char>, V)>, name: Seq<char>, value: V)
    requires
        names_unique(s),
    ensures
        ({
            let r = inserted(s, name, value);
            &&& names_unique(r)
            &&& r.contains((name, value))
            &&& forall|j: int| 0 <= j < r.len() && #[trigger] r[j].0 == name ==> r[j].1 == value
            &&& forall|j: int| 0 <= j < s.len() && #[trigger] s[j].0 != name ==> r[j] == s[j]
            &&& (exists|j: int| 0 <= j < s.len() && #[trigger] s[j].0 == name) ==> r.len()
                == s.len()
            &&& (forall|j: int| 0 <= j < s.len() ==> #[trigger] s[j].0 != name) ==> r.len()
                == s.len() + 1
        }),
{
    let r = inserted(s, name, value);
    let p = name_position(s, name);
    if p >= 0 {
        assert(r[p] == (name, value));
        assert forall|a: int, b: int|
            0 <= a < r.len() && 0 <= b < r.len() && a != b implies #[trigger] r[a].0
            != #[trigger] r[b].0 by {
            if a != p && b != p {
                assert(r[a] == s[a] && r[b] == s[b]);
            } else if a == p {
                assert(r[b] == s[b]);
                assert(s[p].0 != s[b].0);
            } else {
                assert(r[a] == s[a]);
                assert(s[a].0 != s[p].0);
            }
        }
    } else {
        assert(r[s.len() as int] == (name, value));
        assert forall|a: int, b: int|
            0 <= a < r.len() && 0 <= b < r.len() && a != b implies #[trigger] r[a].0
            != #[trigger] r[b].0 by {
            if a < s.len() && b < s.len() {
                assert(r[a] == s[a] && r[b] == s[b]);
            } else if a < s.len() {
                assert(r[a] == s[a]);
                assert(s[a].0 != name);
            } else {
                assert(r[b] == s[b]);
                assert(s[b].0 != name);
            }
        }
    }
    assert forall|j: int| 0 <= j < r.len() && #[trigger] r[j].0 == name implies r[j].1 == value by {
        if p >= 0 {
            if j != p {
                assert(r[j] == s[j]);
            }
        } else {
            if j < s.len() {
                assert(r[j] == s[j]);
            }
        }
    }
}

/// A new party has synergy one half and no completed quests.
pub proof fn law_start_synergy()
    ensures
        start_synergy() == (Ratio { numerator: 1, denominator: 2 }),
{
}

/// In the party's combined class each member's class name appears once, in
/// order of first appearance, and nothing else does; where every member has
/// the same class, it reads "All <name>s".
pub proof fn law_party_label(names: Seq<Seq<char>>)
    ensures
        ({
            let d = distinct_in_order(names);
            &&& forall|j: int| 0 <= j < names.len() ==> d.contains(#[trigger] names[j])
            &&& forall|a: int| 0 <= a < d.len() ==> names.contains(#[trigger] d[a])
            &&& forall|a: int, b: int| 0 <= a < b < d.len() ==> #[trigger] d[a] != #[trigger] d[b]
        }),
        names.len() > 0 && (forall|j: int| 0 <= j < names.len() ==> #[trigger] names[j]
            == names[0]) ==> party_label(names) == "All "@ + names[0] + "s"@,
    decreases names.len(),
{
    if names.len() > 0 {
        let init = names.drop_last();
        law_party_label(init);
        let d0 = distinct_in_order(init);
        let d = distinct_in_order(names);
        assert forall|j: int| 0 <= j < names.len() implies d.contains(#[trigger] names[j]) by {
            if j < init.len() {
                assert(init[j] == names[j]);
                assert(d0.contains(init[j]));
                if !d0.contains(names.last()) {
                    let k = choose|k: int| 0 <= k < d0.len() && d0[k] == init[j];
                    assert(d[k] == d0[k]);
                }
            } else {
                if !d0.contains(names.last()) {
                    assert(d[d0.len() as int] == names.last());
                }
            }
        }
        assert forall|a: int| 0 <= a < d.len() implies names.contains(#[trigger] d[a]) by {
            if a < d0.len() {
                assert(d[a] == d0[a]);
                assert(init.contains(d0[a]));
                let k = choose|k: int| 0 <= k < init.len() && init[k] == d0[a];
                assert(names[k] == init[k]);
            } else {
                assert(d[a] == names[names.len() - 1]);
            }
        }
        assert forall|a: int, b: int| 0 <= a < b < d.len() implies #[trigger] d[a] != #[trigger] d[b] by {
            if b < d0.len() {
                assert(d[a] == d0[a] && d[b] == d0[b]);
            } else {
                assert(d[a] == d0[a]);
                assert(d[b] == names.last());
            }
        }
        if forall|j: int| 0 <= j < names.len() ==> #[trigger] names[j] == names[0] {
            assert(d.contains(names[0]));
            assert forall|a: int| 0 <= a < d.len() implies d[a] == names[0] by {
                assert(names.contains(d[a]));
                let k = choose|k: int| 0 <= k < names.len() && names[k] == d[a];
                assert(names[k] == names[0]);
            }
            if d.len() > 1 {
                assert(d[0] == names[0] && d[1] == names[0]);
            }
            assert(d.len() == 1);
            assert(d[0] == names[0]);
        }
    }
}

/// A character made from a kit is a new level-1 character with the kit's
/// scores and the class they give, a copy of each of the kit's abilities in
/// kit order, and one identity field per ability, mapping its key to its
/// action.
pub proof fn law_from_template(name: Seq<char>, t: TemplateView)
    ensures
        ({
            let c = sheet_from_template(name, t);
            &&& c.name == name
            &&& c.level == 1
            &&& c.xp == 0
            &&& c.stats == t.starting_stats
            &&& c.class == class_for(t.starting_stats)
            &&& c.abilities.len() == t.starting_abilities.len()
            &&& c.identity.len() == t.starting_abilities.len()
            &&& forall|j: int|
                0 <= j < t.starting_abilities.len() ==> {
                    &&& #[trigger] c.abilities[j] == t.starting_abilities[j].1
                    &&& c.identity[j] == (t.starting_abilities[j].0, t.starting_abilities[j].1.action)
                }
            &&& c.config.len() == 0
            &&& c.generation == 1
            &&& c.parent == None::<Seq<char>>
            &&& c.soul_percentage.numerator == 0
        }),
{
}

/// Growing the score at position `k` (perception 0 to constitution 5) adds
/// the amount to that score, where the sum fits, and leaves the other scores.
pub proof fn law_grow(s: Stats, k: int, amount: int)
    requires
        0 <= k < 6,
        i64::MIN <= s.value(k) + amount <= i64::MAX,
    ensures
        s.grown(k, amount).value(k) == s.value(k) + amount,
        forall|j: int| 0 <= j < 6 && j != k ==> #[trigger] s.grown(k, amount).value(j) == s.value(j),
        k == 0 ==> s.grown(k, amount) == (Stats { perception: (s.perception + amount) as i64, ..s }),
        k == 1 ==> s.grown(k, amount) == (Stats { dexterity: (s.dexterity + amount) as i64, ..s }),
        k == 2 ==> s.grown(k, amount) == (Stats {
            intelligence: (s.intelligence + amount) as i64,
            ..s
        }),
        k == 3 ==> s.grown(k, amount) == (Stats { wisdom: (s.wisdom + amount) as i64, ..s }),
        k == 4 ==> s.grown(k, amount) == (Stats { charisma: (s.charisma + amount) as i64, ..s }),
        k == 5 ==> s.grown(k, amount) == (Stats {
            constitution: (s.constitution + amount) as i64,
            ..s
        }),
{
}

} // verus!
