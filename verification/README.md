# character_build (verified)

Character sheets for agent "reflex bundles", written in Verus: scores,
abilities that gain trust with use, classes that emerge from the scores,
levels, starting kits, child characters, save data and parties.

Scores, trust, experience and embedding components are fixed-point
integers counting billionths of a point: 10 points of a score is
`10_000_000_000`. Quotients are exact fractions (`Ratio`): the average
score is `total / (6 * POINT)` points, reliability is `trust / (100 * POINT)`,
the soul percentage is `100 * evolved / abilities`, and synergy is
`successes / members` (one half for a new party).

Layout:

- `src/ratio.rs` – the unit `POINT`, exact fractions, clamped addition.
- `src/stats.rs` – the six scores, their total, average, highest score and growth.
- `src/class.rs` – the emergent character classes and their names.
- `src/ability.rs` – abilities, trust, mastery.
- `src/named.rs` – a name-keyed map in insertion order (identity, config, kits).
- `src/sheet.rs` – character sheets: learning and using abilities, levels, soul.
- `src/template.rs` – the three starting kits and creating characters from them.
- `src/lineage.rs` – bootstrapping child characters.
- `src/save.rs` – save data.
- `src/party.rs` – parties, quests and the party's combined class.
- `src/laws.rs` – properties that hold across the operations.
- `app/lib.rs` – conversions between `f32` values and the library's integers and fractions for callers that hold floats.
