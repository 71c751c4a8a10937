//! Save data: the exportable summary of a character.
use vstd::prelude::*;

use crate::ability::{AbilityType, AbilityView};
use crate::class::class_label;
use crate::sheet::{opt_view, CharacterSheet, SheetView};
use crate::ratio::Ratio;
use crate::stats::Stats;

verus! {

/// The saved summary of one ability.
#[derive(Debug, Clone)]
pub struct SaveAbility {
    pub name: String,
    /// Trust in billionths of a point.
    pub trust: i64,
    pub level: u32,
    pub mastered: bool,
    /// "hardcoded", "learned", "hybrid" or "model".
    pub ability_type: String,
}

/// The saved summary of a character.
#[derive(Debug, Clone)]
pub struct CharacterSave {
    pub name: String,
    pub level: u32,
    /// Display name of the class.
    pub class: String,
    pub stats: Stats,
    pub abilities: Vec<SaveAbility>,
    pub generation: u32,
    pub parent: Option<String>,
    /// In percent, as an exact fraction.
    pub soul_percentage: Ratio,
}

/// The mathematical content of a [`SaveAbility`].
pub struct SaveAbilityView {
    pub name: Seq<char>,
    pub trust: i64,
    pub level: u32,
    pub mastered: bool,
    pub ability_type: Seq<char>,
}

/// The mathematical content of a [`CharacterSave`].
pub struct SaveView {
    pub name: Seq<char>,
    pub level: u32,
    pub class: Seq<char>,
    pub stats: Stats,
    pub abilities: Seq<SaveAbilityView>,
    pub generation: u32,
    pub parent: Option<Seq<char>>,
    pub soul_percentage: Ratio,
}

impl View for SaveAbility {
    type V = SaveAbilityView;

    open spec fn view(&self) -> SaveAbilityView {
        SaveAbilityView {
            name: self.name@,
            trust: self.trust,
            level: self.level,
            mastered: self.mastered,
            ability_type: self.ability_type@,
        }
    }
}

impl View for CharacterSave {
    type V = SaveView;

    open spec fn view(&self) -> SaveView {
        SaveView {
            name: self.name@,
            level: self.level,
            class: self.class@,
            stats: self.stats,
            abilities: self.abilities@.map_values(|a: SaveAbility| a@),
            generation: self.generation,
            parent: opt_view(self.parent),
            soul_percentage: self.soul_percentage,
        }
    }
}

/// The saved name of an ability type.
pub open spec fn type_label(t: AbilityType) -> Seq<char> {
    match t {
        AbilityType::Hardcoded => "hardcoded"@,
        AbilityType::Learned => "learned"@,
        AbilityType::Hybrid => "hybrid"@,
        AbilityType::Model => "model"@,
    }
}

/// The saved summary of ability `a`.
pub open spec fn save_ability(a: AbilityView) -> SaveAbilityView {
    SaveAbilityView {
        name: a.name,
        trust: a.trust,
        level: a.level,
        mastered: a.mastered(),
        ability_type: type_label(a.ability_type),
    }
}

/// The saved summary of character `s`.
pub open spec fn save_of(s: SheetView) -> SaveView {
    SaveView {
        name: s.name,
        level: s.level,
        class: class_label(s.class),
        stats: s.stats,
        abilities: s.abilities.map_values(|a: AbilityView| save_ability(a)),
        generation: s.generation,
        parent: s.parent,
        soul_percentage: s.soul_percentage,
    }
}

/// The saved name of ability type `t`.
fn ability_type_name(t: AbilityType) -> (n: &'static str)
    ensures
        n@ == type_label(t),
{
    match t {
        AbilityType::Hardcoded => "hardcoded",
        AbilityType::Learned => "learned",
        AbilityType::Hybrid => "hybrid",
        AbilityType::Model => "model",
    }
}

impl CharacterSheet {
    /// Exports the character's save data.
    pub fn to_save_data(&self) -> (save: CharacterSave)
        ensures
            save@ == save_of(self@),
    {
        let ghost s = self@.abilities;
        let n = self.abilities.len();
        let mut abilities: Vec<SaveAbility> = Vec::new();
        let mut i: usize = 0;
        while i < n
            invariant
                n == s.len(),
                s == self@.abilities,
                0 <= i <= n,
                abilities@.map_values(|a: SaveAbility| a@) == s.take(i as int).map_values(
                    |a: AbilityView| save_ability(a),
                ),
            decreases n - i,
        {
            let a = &self.abilities[i];
            let entry = SaveAbility {
                name: a.name.clone(),
                trust: a.trust,
                level: a.level,
                mastered: a.is_mastered(),
                ability_type: ability_type_name(a.ability_type).to_owned(),
            };
            let ghost before = abilities@;
            abilities.push(entry);
            assert(abilities@.map_values(|a: SaveAbility| a@) =~= s.take(i + 1).map_values(
                |a: AbilityView| save_ability(a),
            )) by {
                assert(a@ == s[i as int]);
                assert(entry@ == save_ability(s[i as int]));
                assert(abilities@ == before.push(entry));
                assert(abilities@.map_values(|a: SaveAbility| a@) =~= before.map_values(
                    |a: SaveAbility| a@,
                ).push(entry@));
                assert(s.take(i + 1) =~= s.take(i as int).push(s[i as int]));
                assert(s.take(i + 1).map_values(|a: AbilityView| save_ability(a)) =~= s.take(
                    i as int,
                ).map_values(|a: AbilityView| save_ability(a)).push(save_ability(s[i as int])));
            }
            i = i + 1;
        }
        assert(s.take(n as int) =~= s);
        let parent = match &self.parent {
            Some(p) => Some(p.clone()),
            None => None,
        };
        CharacterSave {
            name: self.name.clone(),
            level: self.level,
            class: self.class.name().to_owned(),
            stats: self.stats,
            abilities,
            generation: self.generation,
            parent,
            soul_percentage: self.soul_percentage,
        }
    }
}

} // verus!
