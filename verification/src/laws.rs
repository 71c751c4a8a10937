//! Properties that hold across the operations of the library.
use vstd::prelude::*;

use crate::ability::{AbilityType, AbilityView};
use crate::class::{class_for, CharacterClass};
use crate::lineage::{child_of, lemma_child_stats_between, lemma_inherited_abilities};
use crate::party::{count_with, has_ability, PartyView};
use crate::sheet::{
    count_mastered, first_named, fresh_sheet, grown_stat, lemma_first_named, SheetView,
    xp_levels, FAILURE_STAT_GROWTH, SUCCESS_STAT_GROWTH,
};
use crate::stats::{baseline_stats, BASELINE};
use crate::template::{sheet_from_template, TemplateView};

verus! {

/// A fresh character's class is Undefined, which is also the class its
/// baseline scores give.
pub proof fn lemma_fresh_class_matches_scores(name: Seq<char>)
    ensures
        fresh_sheet(name).class == class_for(fresh_sheet(name).stats),
        class_for(baseline_stats()) == CharacterClass::Undefined,
{
    let s = baseline_stats();
    crate::stats::lemma_best_is_first_maximum(s, 5);
}

/// The class always reflects the scores: characters created new, from a
/// kit, or as a child start with the class their scores give, and learning,
/// using abilities and level checks keep it so.
pub proof fn lemma_class_reflects_scores(
    s: SheetView,
    a: AbilityView,
    ability_name: Seq<char>,
    success: bool,
    name: Seq<char>,
    t: TemplateView,
)
    requires
        s.class == class_for(s.stats),
    ensures
        s.learned(a).class == class_for(s.learned(a).stats),
        s.used(ability_name, success).class == class_for(s.used(ability_name, success).stats),
        s.leveled().class == class_for(s.leveled().stats),
        sheet_from_template(name, t).class == class_for(sheet_from_template(name, t).stats),
        child_of(s, name).class == class_for(child_of(s, name).stats),
        fresh_sheet(name).class == class_for(fresh_sheet(name).stats),
{
    lemma_fresh_class_matches_scores(name);
}

/// Progress is never lost: learning, using abilities and level checks never
/// lower experience or level, and afterwards the level is at least one more
/// than the whole hundreds of experience points (or 1 with negative
/// experience).
pub proof fn lemma_progress_never_lost(
    s: SheetView,
    a: AbilityView,
    ability_name: Seq<char>,
    success: bool,
)
    ensures
        s.learned(a).xp >= s.xp,
        s.learned(a).level >= s.level,
        s.learned(a).level >= xp_levels(s.learned(a).xp) + 1,
        s.used(ability_name, success).xp >= s.xp,
        s.used(ability_name, success).level >= s.level,
        first_named(s.abilities, ability_name) >= 0 ==> s.used(ability_name, success).level
            >= xp_levels(s.used(ability_name, success).xp) + 1,
        s.leveled().level >= s.level,
        s.leveled().level >= xp_levels(s.xp) + 1,
{
}

/// Using an ability grows exactly one score, the one of its type, by 0.5
/// points on success and -0.1 points on failure (clamped to the range of
/// `i32`), and each type grows a different score.
pub proof fn lemma_use_grows_one_score(s: SheetView, ability_name: Seq<char>, success: bool)
    ensures
        ({
            let i = first_named(s.abilities, ability_name);
            let k = grown_stat(s.abilities[i].ability_type);
            let after = s.used(ability_name, success).stats;
            i >= 0 ==> {
                &&& after == s.stats.grown(k, if success { SUCCESS_STAT_GROWTH as int } else { FAILURE_STAT_GROWTH as int })
                &&& forall|j: int| 0 <= j < 6 && j != k ==> #[trigger] after.value(j) == s.stats.value(j)
            }
        }),
        grown_stat(AbilityType::Hardcoded) != grown_stat(AbilityType::Learned),
        grown_stat(AbilityType::Hardcoded) != grown_stat(AbilityType::Hybrid),
        grown_stat(AbilityType::Hardcoded) != grown_stat(AbilityType::Model),
        grown_stat(AbilityType::Learned) != grown_stat(AbilityType::Hybrid),
        grown_stat(AbilityType::Learned) != grown_stat(AbilityType::Model),
        grown_stat(AbilityType::Hybrid) != grown_stat(AbilityType::Model),
{
}

/// Using an ability changes only that ability (the first of that name), and
/// keeps the number and order of abilities; using a missing one changes
/// nothing.
pub proof fn lemma_use_touches_one_ability(s: SheetView, ability_name: Seq<char>, success: bool)
    ensures
        s.used(ability_name, success).abilities.len() == s.abilities.len(),
        forall|j: int|
            0 <= j < s.abilities.len() && j != first_named(s.abilities, ability_name)
                ==> #[trigger] s.used(ability_name, success).abilities[j] == s.abilities[j],
        first_named(s.abilities, ability_name) >= 0 ==> s.used(ability_name, success).abilities[
            first_named(s.abilities, ability_name)] == s.abilities[first_named(
            s.abilities,
            ability_name,
        )].invoked(success),
        first_named(s.abilities, ability_name) < 0 ==> s.used(ability_name, success) == s,
{
    lemma_first_named(s.abilities, ability_name);
}

/// A child whose parent's scores are all at least the baseline starts at
/// least as strong as a fresh character: every score at least 10 points, and
/// one inherited ability per mastered ability of the parent.
pub proof fn lemma_child_starts_at_least_fresh(p: SheetView, name: Seq<char>)
    requires
        forall|k: int| 0 <= k < 6 ==> #[trigger] p.stats.value(k) >= BASELINE,
    ensures
        forall|k: int| 0 <= k < 6 ==> #[trigger] child_of(p, name).stats.value(k) >= BASELINE,
        child_of(p, name).abilities.len() == count_mastered(p.abilities),
        child_of(p, name).generation == p.generation + 1 || p.generation == u32::MAX,
{
    assert forall|k: int| 0 <= k < 6 implies #[trigger] child_of(p, name).stats.value(k)
        >= BASELINE by {
        lemma_child_stats_between(p.stats, k);
        assert(p.stats.value(k) >= BASELINE);
    }
    lemma_inherited_abilities(p.abilities);
}

/// A quest reports one result per member, keeps the members, gives a
/// synergy between 0 and 1, and is completed exactly when some
/// member has the ability.
pub proof fn lemma_quest_shape(p: PartyView, ability_name: Seq<char>)
    requires
        p.members.len() <= usize::MAX,
    ensures
        p.quest_result(ability_name).character_results.len() == p.members.len(),
        p.after_quest(ability_name).members.len() == p.members.len(),
        p.quest_result(ability_name).synergy.denominator > 0,
        0 <= p.quest_result(ability_name).synergy.numerator <= p.quest_result(
            ability_name,
        ).synergy.denominator,
        p.quest_result(ability_name).completed <==> exists|i: int|
            0 <= i < p.members.len() && has_ability(#[trigger] p.members[i], ability_name),
{
    lemma_count_with_positive(p.members, ability_name);
    let k = count_with(p.members, ability_name);
    let n = p.members.len();
    lemma_count_with_at_most(p.members, ability_name);
}

/// Some member has the ability exactly when the count of such members is positive.
proof fn lemma_count_with_positive(ms: Seq<SheetView>, name: Seq<char>)
    ensures
        count_with(ms, name) > 0 <==> exists|i: int|
            0 <= i < ms.len() && has_ability(#[trigger] ms[i], name),
    decreases ms.len(),
{
    if ms.len() > 0 {
        let init = ms.drop_last();
        lemma_count_with_positive(init, name);
        if exists|i: int| 0 <= i < init.len() && has_ability(#[trigger] init[i], name) {
            let i = choose|i: int| 0 <= i < init.len() && has_ability(#[trigger] init[i], name);
            assert(ms[i] == init[i]);
        }
        if exists|i: int| 0 <= i < ms.len() && has_ability(#[trigger] ms[i], name) {
            let i = choose|i: int| 0 <= i < ms.len() && has_ability(#[trigger] ms[i], name);
            if i < ms.len() - 1 {
                assert(init[i] == ms[i]);
            }
        }
    }
}

/// The count of members with the ability is at most the party size.
proof fn lemma_count_with_at_most(ms: Seq<SheetView>, name: Seq<char>)
    ensures
        count_with(ms, name) <= ms.len(),
    decreases ms.len(),
{
    if ms.len() > 0 {
        lemma_count_with_at_most(ms.drop_last(), name);
    }
}

} // verus!
