//! Parties of characters questing together.
use vstd::prelude::*;

use crate::class::class_label;
use crate::ratio::{add_clamped, Ratio, POINT};
use crate::sheet::{first_named, CharacterSheet, SheetView, SUCCESS_XP};
use crate::text::str_equal;

verus! {

/// Synergy of a new party: one half.
pub open spec fn start_synergy() -> Ratio {
    Ratio { numerator: 1, denominator: 2 }
}

/// Extra experience for every member when a quest goes well: 5 points.
pub const PARTY_BONUS_XP: i64 = 5 * POINT;

/// A party of characters adventuring together.
#[derive(Debug, Clone)]
pub struct Party {
    /// The members, in order.
    pub members: Vec<CharacterSheet>,
    /// Share of members that succeeded in the last quest, as an exact fraction.
    pub synergy: Ratio,
    /// Number of quests in which some member succeeded.
    pub quests_completed: u32,
}

/// What a quest gave each member and the party.
#[derive(Debug, Clone)]
pub struct QuestResult {
    /// Per member, in order: name, experience earned (billionths of a
    /// point) and whether the member had the ability.
    pub character_results: Vec<(String, i64, bool)>,
    /// The party's synergy after the quest, as an exact fraction.
    pub synergy: Ratio,
    /// Whether some member succeeded.
    pub completed: bool,
}

/// The mathematical content of a [`Party`].
pub struct PartyView {
    pub members: Seq<SheetView>,
    pub synergy: Ratio,
    pub quests_completed: u32,
}

/// The mathematical content of a [`QuestResult`].
pub struct QuestResultView {
    pub character_results: Seq<(Seq<char>, i64, bool)>,
    pub synergy: Ratio,
    pub completed: bool,
}

/// The views of a list of characters.
pub open spec fn sheet_views(v: Seq<CharacterSheet>) -> Seq<SheetView> {
    v.map_values(|m: CharacterSheet| m@)
}

/// The views of a list of per-member quest results.
pub open spec fn outcome_views(v: Seq<(String, i64, bool)>) -> Seq<(Seq<char>, i64, bool)> {
    v.map_values(|t: (String, i64, bool)| (t.0@, t.1, t.2))
}

impl View for Party {
    type V = PartyView;

    open spec fn view(&self) -> PartyView {
        PartyView {
            members: sheet_views(self.members@),
            synergy: self.synergy,
            quests_completed: self.quests_completed,
        }
    }
}

impl View for QuestResult {
    type V = QuestResultView;

    open spec fn view(&self) -> QuestResultView {
        QuestResultView {
            character_results: outcome_views(self.character_results@),
            synergy: self.synergy,
            completed: self.completed,
        }
    }
}

/// Character `m` has an ability called `name`.
pub open spec fn has_ability(m: SheetView, name: Seq<char>) -> bool {
    first_named(m.abilities, name) >= 0
}

/// Number of characters that have an ability called `name`.
pub open spec fn count_with(ms: Seq<SheetView>, name: Seq<char>) -> nat
    decreases ms.len(),
{
    if ms.len() == 0 {
        0
    } else {
        count_with(ms.drop_last(), name) + if has_ability(ms.last(), name) {
            1nat
        } else {
            0nat
        }
    }
}

/// What a quest for `name` gives member `m`: its name, the experience for a
/// success (or 0) and whether it had the ability.
pub open spec fn quest_outcome(m: SheetView, name: Seq<char>) -> (Seq<char>, i64, bool) {
    if has_ability(m, name) {
        (m.name, SUCCESS_XP, true)
    } else {
        (m.name, 0, false)
    }
}

/// `n`, but at least 1.
pub open spec fn at_least_one(n: nat) -> nat {
    if n == 0 {
        1
    } else {
        n
    }
}

/// Synergy when `k` of `n` members succeed: the exact fraction `k / n`
/// (`k / 1` for an empty party).
pub open spec fn synergy_of(k: nat, n: nat) -> Ratio {
    Ratio { numerator: k as i128, denominator: at_least_one(n) as i128 }
}

/// More than 70% of the members succeeded.
pub open spec fn earns_bonus(k: nat, n: nat) -> bool {
    10 * k > 7 * at_least_one(n)
}

impl PartyView {
    /// The party after a quest for `name`: every member uses the ability
    /// called `name` successfully where it has one; where more than 70% of
    /// the members had it, every member gains 5 experience points; the
    /// synergy becomes the share of members that had it; a quest with some
    /// success counts as completed.
    pub open spec fn after_quest(self, name: Seq<char>) -> PartyView {
        let k = count_with(self.members, name);
        let n = self.members.len();
        let used = self.members.map_values(|m: SheetView| m.used(name, true));
        PartyView {
            members: if earns_bonus(k, n) {
                used.map_values(|m: SheetView| m.with_xp(PARTY_BONUS_XP))
            } else {
                used
            },
            synergy: synergy_of(k, n),
            quests_completed: if k > 0 {
                (self.quests_completed + 1) as u32
            } else {
                self.quests_completed
            },
        }
    }

    /// The result of a quest for `name`.
    pub open spec fn quest_result(self, name: Seq<char>) -> QuestResultView {
        let k = count_with(self.members, name);
        QuestResultView {
            character_results: self.members.map_values(|m: SheetView| quest_outcome(m, name)),
            synergy: synergy_of(k, self.members.len()),
            completed: k > 0,
        }
    }

    /// Every member can use the ability called `name` successfully, and the
    /// quest counter has room for one more completed quest.
    pub open spec fn can_quest(self, name: Seq<char>) -> bool {
        &&& forall|i: int| 0 <= i < self.members.len() ==> #[trigger] self.members[i].can_use(name, true)
        &&& count_with(self.members, name) > 0 ==> self.quests_completed < u32::MAX
    }
}

impl Party {
    /// Creates a party with synergy one half and no completed quests.
    pub fn new(members: Vec<CharacterSheet>) -> (p: Self)
        ensures
            p@ == (PartyView {
                members: sheet_views(members@),
                synergy: start_synergy(),
                quests_completed: 0,
            }),
    {
        Party { members, synergy: Ratio { numerator: 1, denominator: 2 }, quests_completed: 0 }
    }

    /// Runs a quest: each member uses the ability called `ability_name`
    /// successfully where it has one.
    pub fn quest(&mut self, ability_name: &str) -> (r: QuestResult)
        requires
            old(self)@.can_quest(ability_name@),
        ensures
            final(self)@ == old(self)@.after_quest(ability_name@),
            r@ == old(self)@.quest_result(ability_name@),
    {
        let ghost name = ability_name@;
        let ghost start = self@.members;
        let n = self.members.len();
        let mut results: Vec<(String, i64, bool)> = Vec::new();
        let mut successes: usize = 0;
        let mut i: usize = 0;
        assert(start.take(0) =~= Seq::<SheetView>::empty());
        while i < n
            invariant
                n == start.len(),
                n == self.members@.len(),
                name == ability_name@,
                start == old(self)@.members,
                0 <= i <= n,
                forall|j: int| 0 <= j < n ==> #[trigger] start[j].can_use(name, true),
                forall|j: int|
                    0 <= j < i ==> #[trigger] self@.members[j] == start[j].used(name, true),
                forall|j: int| i <= j < n ==> #[trigger] self@.members[j] == start[j],
                outcome_views(results@) == start.take(i as int).map_values(
                    |m: SheetView| quest_outcome(m, name),
                ),
                successes == count_with(start.take(i as int), name),
                successes <= i,
                self.synergy == old(self).synergy,
                self.quests_completed == old(self).quests_completed,
            decreases n - i,
        {
            assert(start.take(i + 1).drop_last() =~= start.take(i as int));
            assert(self@.members[i as int] == start[i as int]);
            assert(self.members@[i as int]@ == start[i as int]);
            let ghost before = results@;
            let ghost pre_members = self.members@;
            assert(pre_members[i as int]@.can_use(ability_name@, true));
            let member = &mut self.members[i];
            let outcome = member.use_ability(ability_name, true);
            assert(self.members@ == pre_members.update(i as int, self.members@[i as int]));
            assert(self.members@[i as int]@ == start[i as int].used(name, true));
            assert forall|j: int| 0 <= j < n && j != i implies #[trigger] self@.members[j] == sheet_views(pre_members)[j] by {
                assert(self.members@[j] == pre_members[j]);
            }
            match outcome {
                Some(xp) => {
                    successes = successes + 1;
                    results.push((self.members[i].name.clone(), xp, true));
                },
                None => {
                    results.push((self.members[i].name.clone(), 0, false));
                },
            }
            assert(outcome_views(results@) =~= outcome_views(before).push(
                quest_outcome(start[i as int], name),
            ));
            assert(start.take(i + 1).map_values(|m: SheetView| quest_outcome(m, name)) =~= start.take(
                i as int,
            ).map_values(|m: SheetView| quest_outcome(m, name)).push(
                quest_outcome(start[i as int], name),
            ));
            i = i + 1;
        }
        assert(start.take(n as int) =~= start);
        assert forall|j: int| 0 <= j < n implies #[trigger] self@.members[j] == start.map_values(
            |m: SheetView| m.used(name, true),
        )[j] by {
            assert(self@.members[j] == start[j].used(name, true));
        }
        assert(self@.members =~= start.map_values(|m: SheetView| m.used(name, true)));
        if successes > 0 {
            self.quests_completed = self.quests_completed + 1;
        }
        let size: usize = if n == 0 {
            1
        } else {
            n
        };
        self.synergy = Ratio { numerator: successes as i128, denominator: size as i128 };
        let ghost used = self@.members;
        let ghost synergy = self.synergy;
        let ghost quests = self.quests_completed;
        if (successes as u128) * 10 > (size as u128) * 7 {
            let mut j: usize = 0;
            while j < n
                invariant
                    n == self.members@.len(),
                    n == used.len(),
                    0 <= j <= n,
                    self.synergy == synergy,
                    self.quests_completed == quests,
                    forall|k: int|
                        0 <= k < j ==> #[trigger] self@.members[k] == used[k].with_xp(
                            PARTY_BONUS_XP,
                        ),
                    forall|k: int| j <= k < n ==> #[trigger] self@.members[k] == used[k],
                decreases n - j,
            {
                let ghost pre_members = self.members@;
                assert(self@.members[j as int] == used[j as int]);
                assert(self.members@[j as int]@ == used[j as int]);
                let member = &mut self.members[j];
                member.xp = add_clamped(member.xp, PARTY_BONUS_XP);
                member.check_level_up();
                assert(self.members@ == pre_members.update(j as int, self.members@[j as int]));
                assert forall|k: int| 0 <= k < n && k != j implies #[trigger] self@.members[k] == sheet_views(pre_members)[k] by {
                    assert(self.members@[k] == pre_members[k]);
                }
                j = j + 1;
            }
            assert(self@.members =~= used.map_values(|m: SheetView| m.with_xp(PARTY_BONUS_XP)));
        }
        QuestResult {
            character_results: results,
            synergy: self.synergy,
            completed: successes > 0,
        }
    }
}


/// The distinct entries of `s`, each at its first occurrence.
pub open spec fn distinct_in_order(s: Seq<Seq<char>>) -> Seq<Seq<char>>
    decreases s.len(),
{
    if s.len() == 0 {
        Seq::empty()
    } else {
        let d = distinct_in_order(s.drop_last());
        if d.contains(s.last()) {
            d
        } else {
            d.push(s.last())
        }
    }
}

/// `parts` joined with `sep` between neighbours.
pub open spec fn joined(parts: Seq<Seq<char>>, sep: Seq<char>) -> Seq<char>
    decreases parts.len(),
{
    if parts.len() == 0 {
        Seq::empty()
    } else if parts.len() == 1 {
        parts[0]
    } else {
        joined(parts.drop_last(), sep) + sep + parts.last()
    }
}

/// `s` between double quotes.
pub open spec fn quoted(s: Seq<char>) -> Seq<char> {
    "\""@ + s + "\""@
}

/// The party's combined class from the members' class names: "All <name>s"
/// where all members share one class; otherwise the distinct names, quoted,
/// separated by ", " and enclosed in braces (in order of first appearance).
pub open spec fn party_label(names: Seq<Seq<char>>) -> Seq<char> {
    let u = distinct_in_order(names);
    if u.len() == 1 {
        "All "@ + u[0] + "s"@
    } else {
        "{"@ + joined(u.map_values(|n: Seq<char>| quoted(n)), ", "@) + "}"@
    }
}

/// Whether `name` is among `names`.
fn contains_name(names: &Vec<&'static str>, name: &str) -> (r: bool)
    ensures
        r == names@.map_values(|s: &str| s@).contains(name@),
{
    let ghost v = names@.map_values(|s: &str| s@);
    let n = names.len();
    let mut i: usize = 0;
    while i < n
        invariant
            n == names@.len(),
            v == names@.map_values(|s: &str| s@),
            0 <= i <= n,
            forall|j: int| 0 <= j < i ==> #[trigger] v[j] != name@,
        decreases n - i,
    {
        if str_equal(names[i], name) {
            assert(v[i as int] == name@);
            return true;
        }
        i = i + 1;
    }
    false
}

impl Party {
    /// The party's combined class: which role this group fills.
    pub fn party_class(&self) -> (s: String)
        ensures
            s@ == party_label(self@.members.map_values(|m: SheetView| class_label(m.class))),
    {
        let ghost names = self@.members.map_values(|m: SheetView| class_label(m.class));
        let n = self.members.len();
        let mut unique: Vec<&'static str> = Vec::new();
        let mut i: usize = 0;
        assert(names.take(0) =~= Seq::<Seq<char>>::empty());
        assert(unique@.map_values(|s: &str| s@) =~= Seq::<Seq<char>>::empty());
        while i < n
            invariant
                n == self.members@.len(),
                names == self@.members.map_values(|m: SheetView| class_label(m.class)),
                0 <= i <= n,
                unique@.map_values(|s: &str| s@) == distinct_in_order(names.take(i as int)),
            decreases n - i,
        {
            assert(names.take(i + 1).drop_last() =~= names.take(i as int));
            let name = self.members[i].class.name();
            assert(name@ == names[i as int]);
            if !contains_name(&unique, name) {
                let ghost before = unique@;
                unique.push(name);
                assert(unique@.map_values(|s: &str| s@) =~= before.map_values(|s: &str| s@).push(
                    name@,
                ));
            }
            i = i + 1;
        }
        assert(names.take(n as int) =~= names);
        let ghost u = unique@.map_values(|s: &str| s@);
        if unique.len() == 1 {
            let mut s = String::from_str("All ");
            s.append(unique[0]);
            s.append("s");
            return s;
        }
        let ghost parts = u.map_values(|x: Seq<char>| quoted(x));
        let mut s = String::from_str("{");
        let m = unique.len();
        let mut j: usize = 0;
        assert(parts.take(0) =~= Seq::<Seq<char>>::empty());
        assert(s@ =~= "{"@ + joined(parts.take(0), ", "@));
        while j < m
            invariant
                m == unique@.len(),
                u == unique@.map_values(|s: &str| s@),
                parts == u.map_values(|x: Seq<char>| quoted(x)),
                0 <= j <= m,
                s@ == "{"@ + joined(parts.take(j as int), ", "@),
            decreases m - j,
        {
            let ghost prev = s@;
            if j > 0 {
                s.append(", ");
            }
            s.append("\"");
            s.append(unique[j]);
            s.append("\"");
            assert(parts.take(j + 1).drop_last() =~= parts.take(j as int));
            assert(parts[j as int] == quoted(u[j as int]));
            if j == 0 {
                assert(s@ =~= "{"@ + joined(parts.take(j + 1), ", "@));
            } else {
                assert(s@ =~= "{"@ + joined(parts.take(j + 1), ", "@));
            }
            j = j + 1;
        }
        assert(parts.take(m as int) =~= parts);
        s.append("}");
        s
    }
}

} // verus!
