//! Character building for agent "reflex bundles": scores, abilities that
//! gain trust with use, classes that emerge from the scores, character
//! sheets with levels and lineage, starting kits, save data and parties.
//!
//! Scores, trust, experience and embedding components are fixed-point
//! integers counting billionths of a point (10 points is `10_000_000_000`).
//! Quotients (the average score, reliability, soul percentage, synergy) are
//! exact fractions ([`Ratio`]).
pub mod ability;
pub mod class;
pub mod laws;
pub mod lineage;
pub mod named;
pub mod party;
pub mod purpose;
pub mod ratio;
pub mod save;
pub mod sheet;
pub mod stats;
pub mod template;
pub mod text;

pub use ability::{Ability, AbilityType};
pub use class::CharacterClass;
pub use named::NamedMap;
pub use party::{Party, QuestResult};
pub use ratio::{Ratio, POINT};
pub use save::{CharacterSave, SaveAbility};
pub use sheet::CharacterSheet;
pub use stats::Stats;
pub use template::CharacterTemplate;
