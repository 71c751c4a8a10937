//! Character sheets: a character's scores, class, abilities and progress.
use vstd::prelude::*;

use crate::ability::{Ability, AbilityType, AbilityView};
use crate::class::{class_for, CharacterClass};
use crate::named::NamedMap;
use crate::ratio::{add_clamped, clamp_i64, Ratio, POINT};
use crate::stats::{baseline_stats, stat_label, Stats};

verus! {

/// Experience for learning an ability: 10 points.
pub const LEARN_XP: i64 = 10 * POINT;

/// Experience for a successful use of an ability: 2 points.
pub const SUCCESS_XP: i64 = 2 * POINT;

/// Experience for a failed use of an ability: 0.5 points.
pub const FAILURE_XP: i64 = 500_000_000;

/// Experience per character level: 100 points.
pub const XP_PER_LEVEL: i64 = 100 * POINT;

/// Score growth from a successful use: 0.5 points.
pub const SUCCESS_STAT_GROWTH: i64 = 500_000_000;

/// Score growth from a failed use: -0.1 points.
pub const FAILURE_STAT_GROWTH: i64 = -100_000_000;

/// A complete character.
#[derive(Debug, Clone)]
pub struct CharacterSheet {
    /// Name of the character.
    pub name: String,
    /// Character level, starting at 1.
    pub level: u32,
    /// Experience, in billionths of a point.
    pub xp: i64,
    /// The six scores.
    pub stats: Stats,
    /// The class that emerged from the scores.
    pub class: CharacterClass,
    /// Abilities, in the order they were acquired.
    pub abilities: Vec<Ability>,
    /// Identity fields.
    pub identity: NamedMap<String>,
    /// Configuration fields.
    pub config: NamedMap<String>,
    /// Bootstrap generation, starting at 1.
    pub generation: u32,
    /// Name of the parent character, if any.
    pub parent: Option<String>,
    /// Share of abilities that have been used successfully at least once,
    /// in percent, as an exact fraction.
    pub soul_percentage: Ratio,
}

/// The mathematical content of a [`CharacterSheet`].
pub struct SheetView {
    pub name: Seq<char>,
    pub level: u32,
    pub xp: i64,
    pub stats: Stats,
    pub class: CharacterClass,
    pub abilities: Seq<AbilityView>,
    pub identity: Seq<(Seq<char>, Seq<char>)>,
    pub config: Seq<(Seq<char>, Seq<char>)>,
    pub generation: u32,
    pub parent: Option<Seq<char>>,
    pub soul_percentage: Ratio,
}

/// The views of a list of abilities.
pub open spec fn ability_views(v: Seq<Ability>) -> Seq<AbilityView> {
    v.map_values(|a: Ability| a@)
}

/// The view of an optional string.
pub open spec fn opt_view(o: Option<String>) -> Option<Seq<char>> {
    match o {
        Some(s) => Some(s@),
        None => None,
    }
}

impl View for CharacterSheet {
    type V = SheetView;

    open spec fn view(&self) -> SheetView {
        SheetView {
            name: self.name@,
            level: self.level,
            xp: self.xp,
            stats: self.stats,
            class: self.class,
            abilities: ability_views(self.abilities@),
            identity: self.identity@,
            config: self.config@,
            generation: self.generation,
            parent: opt_view(self.parent),
            soul_percentage: self.soul_percentage,
        }
    }
}

/// Whole hundreds of experience points (0 for negative experience).
pub open spec fn xp_levels(xp: i64) -> int {
    if xp < 0 {
        0
    } else {
        xp / XP_PER_LEVEL
    }
}

/// The level after a level check: one level per whole 100 experience
/// points, plus one, but never lower than the current level.
pub open spec fn level_for(level: u32, xp: i64) -> u32 {
    let earned = xp_levels(xp) + 1;
    if earned > level {
        earned as u32
    } else {
        level
    }
}

/// Position of the score that grows when an ability of type `t` is used:
/// dexterity for hardcoded, intelligence for learned, wisdom for hybrid,
/// perception for model abilities.
pub open spec fn grown_stat(t: AbilityType) -> int {
    match t {
        AbilityType::Hardcoded => 1,
        AbilityType::Learned => 2,
        AbilityType::Hybrid => 3,
        AbilityType::Model => 0,
    }
}

/// Number of abilities that have been used successfully at least once.
pub open spec fn count_evolved(s: Seq<AbilityView>) -> nat
    decreases s.len(),
{
    if s.len() == 0 {
        0
    } else {
        count_evolved(s.drop_last()) + if s.last().level > 0 {
            1nat
        } else {
            0nat
        }
    }
}

/// Number of mastered abilities.
pub open spec fn count_mastered(s: Seq<AbilityView>) -> nat
    decreases s.len(),
{
    if s.len() == 0 {
        0
    } else {
        count_mastered(s.drop_last()) + if s.last().mastered() {
            1nat
        } else {
            0nat
        }
    }
}

/// Share of evolved abilities in percent, as the exact fraction
/// `100 * evolved / abilities` (0 without abilities).
pub open spec fn soul_of(s: Seq<AbilityView>) -> Ratio {
    if s.len() == 0 {
        Ratio { numerator: 0, denominator: 1 }
    } else {
        Ratio { numerator: (100 * count_evolved(s)) as i128, denominator: s.len() as i128 }
    }
}

/// Position `i` holds the first ability called `name`.
pub open spec fn is_first_named(s: Seq<AbilityView>, name: Seq<char>, i: int) -> bool {
    &&& 0 <= i < s.len()
    &&& s[i].name == name
    &&& forall|j: int| 0 <= j < i ==> #[trigger] s[j].name != name
}

/// Position of the first ability called `name`, or -1 where there is none.
pub open spec fn first_named(s: Seq<AbilityView>, name: Seq<char>) -> int {
    if exists|i: int| is_first_named(s, name, i) {
        choose|i: int| is_first_named(s, name, i)
    } else {
        -1
    }
}

/// Experience a use earns: 2 points on success, 0.5 on failure.
pub open spec fn use_xp(success: bool) -> i64 {
    if success {
        SUCCESS_XP
    } else {
        FAILURE_XP
    }
}

/// A new level-1 character called `name`.
pub open spec fn fresh_sheet(name: Seq<char>) -> SheetView {
    SheetView {
        name,
        level: 1,
        xp: 0,
        stats: baseline_stats(),
        class: CharacterClass::Undefined,
        abilities: Seq::empty(),
        identity: Seq::empty(),
        config: Seq::empty(),
        generation: 1,
        parent: None,
        soul_percentage: Ratio { numerator: 0, denominator: 1 },
    }
}

impl SheetView {
    /// The sheet after a level check.
    pub open spec fn leveled(self) -> SheetView {
        SheetView { level: level_for(self.level, self.xp), ..self }
    }

    /// The sheet after gaining `amount` experience and a level check.
    pub open spec fn with_xp(self, amount: i64) -> SheetView {
        SheetView { xp: clamp_i64(self.xp + amount), ..self }.leveled()
    }

    /// The sheet after learning ability `a`.
    pub open spec fn learned(self, a: AbilityView) -> SheetView {
        SheetView { abilities: self.abilities.push(a), ..self }.with_xp(LEARN_XP)
    }

    /// The sheet after using the ability at position `i`: the ability is
    /// invoked, experience is earned, the score of its type grows, the class
    /// and soul percentage are recomputed, and the level is checked.
    pub open spec fn after_use(self, i: int, success: bool) -> SheetView {
        let a = self.abilities[i];
        let abilities = self.abilities.update(i, a.invoked(success));
        let growth = if success {
            SUCCESS_STAT_GROWTH
        } else {
            FAILURE_STAT_GROWTH
        };
        let stats = self.stats.grown(grown_stat(a.ability_type), growth as int);
        SheetView {
            abilities,
            stats,
            class: class_for(stats),
            soul_percentage: soul_of(abilities),
            ..self
        }.with_xp(use_xp(success))
    }

    /// The sheet after using the ability called `name`; unchanged where the
    /// character has no such ability.
    pub open spec fn used(self, name: Seq<char>, success: bool) -> SheetView {
        let i = first_named(self.abilities, name);
        if i >= 0 {
            self.after_use(i, success)
        } else {
            self
        }
    }

    /// The character can use the ability called `name` with outcome
    /// `success` without any of its counters overflowing.
    pub open spec fn can_use(self, name: Seq<char>, success: bool) -> bool {
        let i = first_named(self.abilities, name);
        i >= 0 ==> self.abilities[i].can_invoke(success)
    }
}

/// `first_named` finds the first ability of that name.
pub proof fn lemma_first_named(s: Seq<AbilityView>, name: Seq<char>)
    ensures
        first_named(s, name) >= 0 ==> is_first_named(s, name, first_named(s, name)),
        first_named(s, name) < 0 ==> forall|j: int| 0 <= j < s.len() ==> #[trigger] s[j].name != name,
        first_named(s, name) >= -1,
{
    if first_named(s, name) < 0 {
        assert forall|j: int| 0 <= j < s.len() implies #[trigger] s[j].name != name by {
            if s[j].name == name {
                lemma_first_named_exists(s, name, j);
            }
        }
    }
}

/// Where some ability is called `name`, a first one exists.
proof fn lemma_first_named_exists(s: Seq<AbilityView>, name: Seq<char>, j: int)
    requires
        0 <= j < s.len(),
        s[j].name == name,
    ensures
        exists|i: int| is_first_named(s, name, i),
    decreases j,
{
    if exists|k: int| 0 <= k < j && #[trigger] s[k].name == name {
        let k = choose|k: int| 0 <= k < j && #[trigger] s[k].name == name;
        lemma_first_named_exists(s, name, k);
    } else {
        assert(is_first_named(s, name, j));
    }
}

/// A position satisfying `is_first_named` is the one `first_named` picks.
proof fn lemma_first_named_unique(s: Seq<AbilityView>, name: Seq<char>, i: int)
    requires
        is_first_named(s, name, i),
    ensures
        first_named(s, name) == i,
{
    let k = first_named(s, name);
    assert(is_first_named(s, name, k));
    if k < i {
        assert(s[k].name != name);
    }
    if i < k {
        assert(s[i].name != name);
    }
}

/// At most every ability is evolved.
proof fn lemma_count_evolved_bound(s: Seq<AbilityView>)
    ensures
        count_evolved(s) <= s.len(),
    decreases s.len(),
{
    if s.len() > 0 {
        lemma_count_evolved_bound(s.drop_last());
    }
}

/// The soul percentage lies between 0 and 100 percent.
pub proof fn lemma_soul_at_most_full(s: Seq<AbilityView>)
    requires
        s.len() <= usize::MAX,
    ensures
        soul_of(s).denominator > 0,
        0 <= soul_of(s).numerator <= 100 * soul_of(s).denominator,
{
    lemma_count_evolved_bound(s);
}

impl CharacterSheet {
    /// Creates a new level-1 character.
    pub fn new(name: &str) -> (s: Self)
        ensures
            s@ == fresh_sheet(name@),
    {
        let s = CharacterSheet {
            name: name.to_owned(),
            level: 1,
            xp: 0,
            stats: Stats::level_one(),
            class: CharacterClass::Undefined,
            abilities: Vec::new(),
            identity: NamedMap::new(),
            config: NamedMap::new(),
            generation: 1,
            parent: None,
            soul_percentage: Ratio { numerator: 0, denominator: 1 },
        };
        assert(ability_views(s.abilities@) =~= Seq::<AbilityView>::empty());
        s
    }

    /// Raises the level to match the experience: one level per 100 points,
    /// plus one; the level never goes down.
    pub fn check_level_up(&mut self)
        ensures
            final(self)@ == old(self)@.leveled(),
    {
        let earned: i64 = if self.xp < 0 {
            0
        } else {
            self.xp / XP_PER_LEVEL
        };
        let new_level: u32 = earned as u32 + 1;
        if new_level > self.level {
            self.level = new_level;
        }
    }

    /// Adds an ability (learned through experience or imported); earns
    /// 10 experience points.
    pub fn learn_ability(&mut self, ability: Ability)
        ensures
            final(self)@ == old(self)@.learned(ability@),
    {
        let ghost a = ability@;
        self.abilities.push(ability);
        assert(ability_views(self.abilities@) =~= ability_views(old(self).abilities@).push(a));
        self.xp = add_clamped(self.xp, LEARN_XP);
        self.check_level_up();
    }

    /// Position of the first ability called `ability_name`, if any.
    fn find_ability(&self, ability_name: &str) -> (r: Option<usize>)
        ensures
            match r {
                Some(i) => is_first_named(self@.abilities, ability_name@, i as int),
                None => forall|j: int|
                    0 <= j < self@.abilities.len() ==> #[trigger] self@.abilities[j].name
                        != ability_name@,
            },
    {
        let n = self.abilities.len();
        let mut i: usize = 0;
        while i < n
            invariant
                n == self.abilities@.len(),
                0 <= i <= n,
                forall|j: int| 0 <= j < i ==> #[trigger] self@.abilities[j].name != ability_name@,
            decreases n - i,
        {
            if crate::text::str_equal(self.abilities[i].name.as_str(), ability_name) {
                return Some(i);
            }
            i = i + 1;
        }
        None
    }

    /// Number of abilities that have been used successfully at least once.
    fn evolved_count(&self) -> (c: usize)
        ensures
            c == count_evolved(self@.abilities),
    {
        let n = self.abilities.len();
        let ghost s = self@.abilities;
        let mut c: usize = 0;
        let mut i: usize = 0;
        while i < n
            invariant
                n == s.len(),
                s == self@.abilities,
                0 <= i <= n,
                c == count_evolved(s.take(i as int)),
                c <= i,
            decreases n - i,
        {
            assert(s.take(i + 1).drop_last() =~= s.take(i as int));
            if self.abilities[i].level > 0 {
                c = c + 1;
            }
            i = i + 1;
        }
        assert(s.take(n as int) =~= s);
        c
    }

    /// Uses the ability called `ability_name`: it is invoked, the character
    /// earns experience (2 points on success, 0.5 on failure), the score of
    /// the ability's type grows (0.5 points on success, -0.1 on failure), and
    /// class, soul percentage and level are recomputed. Returns the
    /// experience earned, or `None` (and changes nothing) where the character
    /// has no ability of that name.
    pub fn use_ability(&mut self, ability_name: &str, success: bool) -> (r: Option<i64>)
        requires
            old(self)@.can_use(ability_name@, success),
        ensures
            final(self)@ == old(self)@.used(ability_name@, success),
            r == (if first_named(old(self)@.abilities, ability_name@) >= 0 {
                Some(use_xp(success))
            } else {
                None::<i64>
            }),
    {
        proof {
            lemma_first_named(self@.abilities, ability_name@);
        }
        match self.find_ability(ability_name) {
            None => {
                assert(first_named(self@.abilities, ability_name@) < 0) by {
                    if first_named(self@.abilities, ability_name@) >= 0 {
                        let k = first_named(self@.abilities, ability_name@);
                        assert(self@.abilities[k].name == ability_name@);
                    }
                }
                None
            },
            Some(i) => {
                proof {
                    lemma_first_named_unique(self@.abilities, ability_name@, i as int);
                }
                let ghost pre = self@;
                let xp_gain: i64 = if success {
                    SUCCESS_XP
                } else {
                    FAILURE_XP
                };
                self.abilities[i].invoke(success);
                let stat: &str = match self.abilities[i].ability_type {
                    AbilityType::Hardcoded => "dexterity",
                    AbilityType::Learned => "intelligence",
                    AbilityType::Hybrid => "wisdom",
                    AbilityType::Model => "perception",
                };
                proof {
                    crate::stats::lemma_stat_labels_distinct(
                        grown_stat(pre.abilities[i as int].ability_type),
                    );
                }
                assert(stat@ == stat_label(grown_stat(pre.abilities[i as int].ability_type)));
                let growth: i64 = if success {
                    SUCCESS_STAT_GROWTH
                } else {
                    FAILURE_STAT_GROWTH
                };
                self.stats.gain_xp(stat, growth);
                self.class = CharacterClass::from_stats(&self.stats);
                let ghost abilities = pre.abilities.update(
                    i as int,
                    pre.abilities[i as int].invoked(success),
                );
                assert(self@.abilities =~= abilities);
                let evolved = self.evolved_count();
                let n = self.abilities.len();
                proof {
                    lemma_count_evolved_bound(abilities);
                }
                self.soul_percentage = Ratio {
                    numerator: evolved as i128 * 100,
                    denominator: n as i128,
                };
                self.xp = add_clamped(self.xp, xp_gain);
                self.check_level_up();
                Some(xp_gain)
            },
        }
    }

    /// Number of mastered abilities.
    pub fn mastered_count(&self) -> (c: usize)
        ensures
            c == count_mastered(self@.abilities),
    {
        let n = self.abilities.len();
        let ghost s = self@.abilities;
        let mut c: usize = 0;
        let mut i: usize = 0;
        while i < n
            invariant
                n == s.len(),
                s == self@.abilities,
                0 <= i <= n,
                c == count_mastered(s.take(i as int)),
                c <= i,
            decreases n - i,
        {
            assert(s.take(i + 1).drop_last() =~= s.take(i as int));
            if self.abilities[i].is_mastered() {
                c = c + 1;
            }
            i = i + 1;
        }
        assert(s.take(n as int) =~= s);
        c
    }
}

} // verus!
