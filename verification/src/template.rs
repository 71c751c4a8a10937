//! Starting class kits and creating characters from them.
use vstd::prelude::*;

use crate::ability::{fresh_ability, Ability, AbilityType, AbilityView};
use crate::class::{class_for, CharacterClass};
use crate::named::{lemma_insert_new_name, names_unique, NamedMap};
use crate::sheet::{fresh_sheet, CharacterSheet, SheetView};
use crate::stats::{baseline_stats, Stats};

verus! {

/// Length of the embeddings of the starting learned abilities.
pub const EMBEDDING_LEN: usize = 32;

/// A starting class kit.
#[derive(Debug, Clone)]
pub struct CharacterTemplate {
    /// Name of the kit.
    pub name: String,
    /// Scores a character of this kit starts with.
    pub starting_stats: Stats,
    /// Abilities a character of this kit starts with, by name.
    pub starting_abilities: NamedMap<Ability>,
}

/// The mathematical content of a [`CharacterTemplate`].
pub struct TemplateView {
    pub name: Seq<char>,
    pub starting_stats: Stats,
    pub starting_abilities: Seq<(Seq<char>, AbilityView)>,
}

impl View for CharacterTemplate {
    type V = TemplateView;

    open spec fn view(&self) -> TemplateView {
        TemplateView {
            name: self.name@,
            starting_stats: self.starting_stats,
            starting_abilities: self.starting_abilities@,
        }
    }
}

/// An embedding of `EMBEDDING_LEN` equal components.
pub open spec fn flat_embedding(v: i64) -> Seq<i64> {
    Seq::new(EMBEDDING_LEN as nat, |i: int| v)
}

/// A hardcoded starting ability, keyed by its name.
pub open spec fn hardcoded_entry(name: Seq<char>, intent: Seq<char>, action: Seq<char>) -> (
    Seq<char>,
    AbilityView,
) {
    (name, fresh_ability(name, intent, action, AbilityType::Hardcoded, Seq::empty()))
}

/// A learned starting ability with a flat embedding, keyed by its name.
pub open spec fn learned_entry(
    name: Seq<char>,
    intent: Seq<char>,
    action: Seq<char>,
    v: i64,
) -> (Seq<char>, AbilityView) {
    (name, fresh_ability(name, intent, action, AbilityType::Learned, flat_embedding(v)))
}

/// A character called `name` created from kit `t`: a new level-1 character
/// with the kit's scores, the kit's abilities in kit order, an identity
/// field per ability (its name mapped to its action), and the class that
/// emerges from the kit's scores.
pub open spec fn sheet_from_template(name: Seq<char>, t: TemplateView) -> SheetView {
    SheetView {
        stats: t.starting_stats,
        class: class_for(t.starting_stats),
        abilities: t.starting_abilities.map_values(|e: (Seq<char>, AbilityView)| e.1),
        identity: t.starting_abilities.map_values(
            |e: (Seq<char>, AbilityView)| (e.0, e.1.action),
        ),
        ..fresh_sheet(name)
    }
}

/// A vector of `EMBEDDING_LEN` copies of `v`.
fn flat_vec(v: i64) -> (e: Vec<i64>)
    ensures
        e@ == flat_embedding(v),
{
    let mut e: Vec<i64> = Vec::new();
    let mut i: usize = 0;
    while i < EMBEDDING_LEN
        invariant
            0 <= i <= EMBEDDING_LEN,
            e@ == Seq::new(i as nat, |j: int| v),
        decreases EMBEDDING_LEN - i,
    {
        e.push(v);
        i = i + 1;
        assert(e@ =~= Seq::new(i as nat, |j: int| v));
    }
    e
}

impl CharacterTemplate {
    /// DevOps kit: baseline scores, hardcoded push, commit and status.
    pub fn lever_runner_default() -> (t: Self)
        ensures
            t@ == (TemplateView {
                name: "DevOps Starter"@,
                starting_stats: baseline_stats(),
                starting_abilities: seq![
                    hardcoded_entry("push"@, "push to {branch}"@, "git push origin {branch}"@),
                    hardcoded_entry("commit"@, "commit with {message}"@, "git commit -m {message}"@),
                    hardcoded_entry("status"@, "show git status"@, "git status"@),
                ],
            }),
    {
        proof {
            reveal_strlit("push");
            reveal_strlit("commit");
            reveal_strlit("status");
        }
        let mut abilities: NamedMap<Ability> = NamedMap::new();
        let ghost s0 = abilities@;
        proof { lemma_insert_new_name(s0, "push"@, hardcoded_entry("push"@, "push to {branch}"@, "git push origin {branch}"@).1); }
        abilities.insert(
            "push".to_owned(),
            Ability::hardcoded("push", "push to {branch}", "git push origin {branch}"),
        );
        let ghost s1 = abilities@;
        assert("commit"@[0] != "push"@[0]);
        proof { lemma_insert_new_name(s1, "commit"@, hardcoded_entry("commit"@, "commit with {message}"@, "git commit -m {message}"@).1); }
        abilities.insert(
            "commit".to_owned(),
            Ability::hardcoded("commit", "commit with {message}", "git commit -m {message}"),
        );
        let ghost s2 = abilities@;
        assert("status"@[0] != "push"@[0]);
        assert("status"@[0] != "commit"@[0]);
        proof { lemma_insert_new_name(s2, "status"@, hardcoded_entry("status"@, "show git status"@, "git status"@).1); }
        abilities.insert(
            "status".to_owned(),
            Ability::hardcoded("status", "show git status", "git status"),
        );
        let t = CharacterTemplate {
            name: "DevOps Starter".to_owned(),
            starting_stats: Stats::level_one(),
            starting_abilities: abilities,
        };
        assert(t@.starting_abilities =~= seq![
            hardcoded_entry("push"@, "push to {branch}"@, "git push origin {branch}"@),
            hardcoded_entry("commit"@, "commit with {message}"@, "git commit -m {message}"@),
            hardcoded_entry("status"@, "show git status"@, "git status"@),
        ]);
        t
    }

    /// Musician kit: perception 15, dexterity 10, intelligence 12, wisdom 8,
    /// charisma 14, constitution 10; learned jam and listen.
    pub fn musician_starter() -> (t: Self)
        ensures
            t@ == (TemplateView {
                name: "Musician Starter"@,
                starting_stats: Stats {
                    perception: 15_000_000_000,
                    dexterity: 10_000_000_000,
                    intelligence: 12_000_000_000,
                    wisdom: 8_000_000_000,
                    charisma: 14_000_000_000,
                    constitution: 10_000_000_000,
                },
                starting_abilities: seq![
                    learned_entry("jam"@, "jam in {key}"@, "improvise over {key}"@, 500_000_000),
                    learned_entry("listen"@, "listen to {player}"@, "absorb patterns from {player}"@, 300_000_000),
                ],
            }),
    {
        proof {
            reveal_strlit("jam");
            reveal_strlit("listen");
        }
        let mut abilities: NamedMap<Ability> = NamedMap::new();
        let ghost s0 = abilities@;
        proof { lemma_insert_new_name(s0, "jam"@, learned_entry("jam"@, "jam in {key}"@, "improvise over {key}"@, 500_000_000).1); }
        abilities.insert(
            "jam".to_owned(),
            Ability::learned("jam", "jam in {key}", "improvise over {key}", flat_vec(500_000_000)),
        );
        let ghost s1 = abilities@;
        assert("listen"@[0] != "jam"@[0]);
        proof { lemma_insert_new_name(s1, "listen"@, learned_entry("listen"@, "listen to {player}"@, "absorb patterns from {player}"@, 300_000_000).1); }
        abilities.insert(
            "listen".to_owned(),
            Ability::learned(
                "listen",
                "listen to {player}",
                "absorb patterns from {player}",
                flat_vec(300_000_000),
            ),
        );
        let t = CharacterTemplate {
            name: "Musician Starter".to_owned(),
            starting_stats: Stats::new(15_000_000_000, 10_000_000_000, 12_000_000_000, 8_000_000_000, 14_000_000_000, 10_000_000_000),
            starting_abilities: abilities,
        };
        assert(t@.starting_abilities =~= seq![
            learned_entry("jam"@, "jam in {key}"@, "improvise over {key}"@, 500_000_000),
            learned_entry("listen"@, "listen to {player}"@, "absorb patterns from {player}"@, 300_000_000),
        ]);
        t
    }

    /// Fleet kit: perception 12, dexterity 8, intelligence 10, wisdom 16,
    /// charisma 8, constitution 16; hardcoded dispatch and learned discover.
    pub fn fleet_agent_starter() -> (t: Self)
        ensures
            t@ == (TemplateView {
                name: "Fleet Agent Starter"@,
                starting_stats: Stats {
                    perception: 12_000_000_000,
                    dexterity: 8_000_000_000,
                    intelligence: 10_000_000_000,
                    wisdom: 16_000_000_000,
                    charisma: 8_000_000_000,
                    constitution: 16_000_000_000,
                },
                starting_abilities: seq![
                    hardcoded_entry("dispatch"@, "dispatch to {agent}"@, "i2i-send {agent} {message}"@),
                    learned_entry("discover"@, "find agents that can {intent}"@, "nebula-query {intent}"@, 600_000_000),
                ],
            }),
    {
        proof {
            reveal_strlit("dispatch");
            reveal_strlit("discover");
        }
        let mut abilities: NamedMap<Ability> = NamedMap::new();
        let ghost s0 = abilities@;
        proof { lemma_insert_new_name(s0, "dispatch"@, hardcoded_entry("dispatch"@, "dispatch to {agent}"@, "i2i-send {agent} {message}"@).1); }
        abilities.insert(
            "dispatch".to_owned(),
            Ability::hardcoded("dispatch", "dispatch to {agent}", "i2i-send {agent} {message}"),
        );
        let ghost s1 = abilities@;
        assert("discover"@[3] != "dispatch"@[3]);
        proof { lemma_insert_new_name(s1, "discover"@, learned_entry("discover"@, "find agents that can {intent}"@, "nebula-query {intent}"@, 600_000_000).1); }
        abilities.insert(
            "discover".to_owned(),
            Ability::learned(
                "discover",
                "find agents that can {intent}",
                "nebula-query {intent}",
                flat_vec(600_000_000),
            ),
        );
        let t = CharacterTemplate {
            name: "Fleet Agent Starter".to_owned(),
            starting_stats: Stats::new(12_000_000_000, 8_000_000_000, 10_000_000_000, 16_000_000_000, 8_000_000_000, 16_000_000_000),
            starting_abilities: abilities,
        };
        assert(t@.starting_abilities =~= seq![
            hardcoded_entry("dispatch"@, "dispatch to {agent}"@, "i2i-send {agent} {message}"@),
            learned_entry("discover"@, "find agents that can {intent}"@, "nebula-query {intent}"@, 600_000_000),
        ]);
        t
    }
}

impl CharacterSheet {
    /// Creates a character from a starting kit.
    pub fn from_template(name: &str, template: &CharacterTemplate) -> (s: Self)
        ensures
            s@ == sheet_from_template(name@, template@),
    {
        let mut sheet = CharacterSheet::new(name);
        sheet.stats = template.starting_stats;
        let ghost entries = template@.starting_abilities;
        let n = template.starting_abilities.len();
        let mut i: usize = 0;
        assert(entries.take(0).map_values(|e: (Seq<char>, AbilityView)| e.1) =~= Seq::<
            AbilityView,
        >::empty());
        assert(entries.take(0).map_values(|e: (Seq<char>, AbilityView)| (e.0, e.1.action))
            =~= Seq::<(Seq<char>, Seq<char>)>::empty());
        while i < n
            invariant
                n == entries.len(),
                entries == template@.starting_abilities,
                names_unique(entries),
                names_unique(sheet@.identity),
                0 <= i <= n,
                sheet@ == (SheetView {
                    stats: template.starting_stats,
                    abilities: entries.take(i as int).map_values(
                        |e: (Seq<char>, AbilityView)| e.1,
                    ),
                    identity: entries.take(i as int).map_values(
                        |e: (Seq<char>, AbilityView)| (e.0, e.1.action),
                    ),
                    ..fresh_sheet(name@)
                }),
            decreases n - i,
        {
            let ability_name = template.starting_abilities.name_at(i);
            let ability = template.starting_abilities.value_at(i);
            let ghost old_sheet = sheet@;
            let copy = ability.clone();
            sheet.abilities.push(copy);
            assert(sheet@.abilities =~= old_sheet.abilities.push(entries[i as int].1));
            assert forall|j: int| 0 <= j < old_sheet.identity.len() implies #[trigger] old_sheet.identity[j].0 != entries[i as int].0 by {
                assert(old_sheet.identity[j].0 == entries[j].0);
            }
            proof {
                lemma_insert_new_name(old_sheet.identity, entries[i as int].0, entries[i as int].1.action);
            }
            sheet.identity.insert(ability_name.clone(), ability.action.clone());
            i = i + 1;
            assert(entries.take(i as int).drop_last() =~= entries.take(i - 1));
            assert(sheet@.abilities =~= entries.take(i as int).map_values(
                |e: (Seq<char>, AbilityView)| e.1,
            ));
            assert(sheet@.identity =~= entries.take(i as int).map_values(
                |e: (Seq<char>, AbilityView)| (e.0, e.1.action),
            ));
        }
        assert(entries.take(n as int) =~= entries);
        sheet.class = CharacterClass::from_stats(&sheet.stats);
        sheet
    }
}

} // verus!
