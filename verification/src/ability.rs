//! Abilities: learned intent-to-action reflexes that gain trust with use.
use vstd::prelude::*;

use crate::ratio::{Ratio, POINT};

verus! {

/// How an ability is carried out.
#[derive(Debug, Clone, Copy, PartialEq, Eq, Structural)]
pub enum AbilityType {
    /// Pattern extraction: always works, zero latency.
    Hardcoded,
    /// Embedding match: pattern recognition by similarity.
    Learned,
    /// Pattern extraction with an embedding fallback.
    Hybrid,
    /// A model call: heavy, slow, handles novel situations.
    Model,
}

/// Trust of a newly created ability: 50 points.
pub const START_TRUST: i64 = 50 * POINT;

/// Highest trust a successful use can reach: 100 points.
pub const MAX_TRUST: i64 = 100 * POINT;

/// Trust gained by a successful use: 5 points.
pub const SUCCESS_TRUST_GAIN: i64 = 5 * POINT;

/// Trust lost by a failed use: 10 points.
pub const FAILURE_TRUST_LOSS: i64 = 10 * POINT;

/// An ability is mastered when its trust is above this (80 points) ...
pub const MASTERY_TRUST: i64 = 80 * POINT;

/// ... and it has been invoked more than this many times.
pub const MASTERY_USES: u32 = 20;

/// A learned ability: an intent-to-action pair with its track record.
#[derive(Debug)]
pub struct Ability {
    /// Name of the ability.
    pub name: String,
    /// Intent pattern it answers.
    pub intent: String,
    /// Action it performs.
    pub action: String,
    /// How it is carried out.
    pub ability_type: AbilityType,
    /// Number of successful uses.
    pub level: u32,
    /// Trust in billionths of a point (0 to 100 points in normal use).
    pub trust: i64,
    /// Number of uses.
    pub invoke_count: u32,
    /// The reflex vector, each component in billionths.
    pub embedding: Vec<i64>,
}

/// The mathematical content of an [`Ability`].
pub struct AbilityView {
    pub name: Seq<char>,
    pub intent: Seq<char>,
    pub action: Seq<char>,
    pub ability_type: AbilityType,
    pub level: u32,
    pub trust: i64,
    pub invoke_count: u32,
    pub embedding: Seq<i64>,
}

impl View for Ability {
    type V = AbilityView;

    open spec fn view(&self) -> AbilityView {
        AbilityView {
            name: self.name@,
            intent: self.intent@,
            action: self.action@,
            ability_type: self.ability_type,
            level: self.level,
            trust: self.trust,
            invoke_count: self.invoke_count,
            embedding: self.embedding@,
        }
    }
}

/// A fresh ability of the given kind: level 0, starting trust, never invoked.
pub open spec fn fresh_ability(
    name: Seq<char>,
    intent: Seq<char>,
    action: Seq<char>,
    ability_type: AbilityType,
    embedding: Seq<i64>,
) -> AbilityView {
    AbilityView {
        name,
        intent,
        action,
        ability_type,
        level: 0,
        trust: START_TRUST,
        invoke_count: 0,
        embedding,
    }
}

impl AbilityView {
    /// Trust after one more use: up by 5 points (capped at 100) on success,
    /// down by 10 points (floored at 0) on failure.
    pub open spec fn trust_after(self, success: bool) -> i64 {
        if success {
            if self.trust + SUCCESS_TRUST_GAIN > MAX_TRUST {
                MAX_TRUST
            } else {
                (self.trust + SUCCESS_TRUST_GAIN) as i64
            }
        } else {
            if self.trust - FAILURE_TRUST_LOSS < 0 {
                0
            } else {
                (self.trust - FAILURE_TRUST_LOSS) as i64
            }
        }
    }

    /// The ability after one more use.
    pub open spec fn invoked(self, success: bool) -> AbilityView {
        AbilityView {
            trust: self.trust_after(success),
            level: if success {
                (self.level + 1) as u32
            } else {
                self.level
            },
            invoke_count: (self.invoke_count + 1) as u32,
            ..self
        }
    }

    /// The ability after `n` more uses, all with the same outcome.
    pub open spec fn invoked_times(self, n: nat, success: bool) -> AbilityView
        decreases n,
    {
        if n == 0 {
            self
        } else {
            self.invoked_times((n - 1) as nat, success).invoked(success)
        }
    }

    /// Its counters leave room for one more use with outcome `success`.
    pub open spec fn can_invoke(self, success: bool) -> bool {
        &&& self.invoke_count < u32::MAX
        &&& success ==> self.level < u32::MAX
    }

    /// Mastered: trust above 80 points and invoked more than 20 times.
    pub open spec fn mastered(self) -> bool {
        self.trust > MASTERY_TRUST && self.invoke_count > MASTERY_USES
    }
}

impl Clone for Ability {
    fn clone(&self) -> (c: Self)
        ensures
            c@ == self@,
    {
        let embedding = self.embedding.clone();
        assert(embedding@ =~= self.embedding@);
        Ability {
            name: self.name.clone(),
            intent: self.intent.clone(),
            action: self.action.clone(),
            ability_type: self.ability_type,
            level: self.level,
            trust: self.trust,
            invoke_count: self.invoke_count,
            embedding,
        }
    }
}

impl Ability {
    /// Creates a hardcoded ability with no embedding.
    pub fn hardcoded(name: &str, intent: &str, action: &str) -> (a: Self)
        ensures
            a@ == fresh_ability(name@, intent@, action@, AbilityType::Hardcoded, Seq::empty()),
    {
        Ability {
            name: name.to_owned(),
            intent: intent.to_owned(),
            action: action.to_owned(),
            ability_type: AbilityType::Hardcoded,
            level: 0,
            trust: START_TRUST,
            invoke_count: 0,
            embedding: Vec::new(),
        }
    }

    /// Creates a learned ability with an embedding.
    pub fn learned(name: &str, intent: &str, action: &str, embedding: Vec<i64>) -> (a: Self)
        ensures
            a@ == fresh_ability(name@, intent@, action@, AbilityType::Learned, embedding@),
    {
        Ability {
            name: name.to_owned(),
            intent: intent.to_owned(),
            action: action.to_owned(),
            ability_type: AbilityType::Learned,
            level: 0,
            trust: START_TRUST,
            invoke_count: 0,
            embedding,
        }
    }

    /// Invokes this ability: it gains trust and a level if it works, and
    /// loses trust if it does not.
    pub fn invoke(&mut self, success: bool)
        requires
            old(self)@.can_invoke(success),
        ensures
            final(self)@ == old(self)@.invoked(success),
    {
        self.invoke_count = self.invoke_count + 1;
        if success {
            self.trust = if self.trust > MAX_TRUST - SUCCESS_TRUST_GAIN {
                MAX_TRUST
            } else {
                self.trust + SUCCESS_TRUST_GAIN
            };
            self.level = self.level + 1;
        } else {
            self.trust = if self.trust < FAILURE_TRUST_LOSS {
                0
            } else {
                self.trust - FAILURE_TRUST_LOSS
            };
        }
    }

    /// How reliable this ability is: trust divided by 100 points, as the
    /// exact fraction `trust / (100 * POINT)`.
    pub fn reliability(&self) -> (r: Ratio)
        ensures
            r == (Ratio { numerator: self.trust as i128, denominator: (100 * POINT) as i128 }),
    {
        Ratio { numerator: self.trust as i128, denominator: (100 * POINT) as i128 }
    }

    /// Whether this ability is mastered (trust above 80 points, invoked more
    /// than 20 times).
    pub fn is_mastered(&self) -> (m: bool)
        ensures
            m == self@.mastered(),
    {
        self.trust > MASTERY_TRUST && self.invoke_count > MASTERY_USES
    }
}

/// Trust never leaves the range 0..=100 points once inside it, and a
/// failure never takes it below 0.
pub proof fn lemma_trust_stays_in_range(a: AbilityView, success: bool)
    requires
        0 <= a.trust <= MAX_TRUST,
    ensures
        0 <= a.invoked(success).trust <= MAX_TRUST,
{
}

/// Trust goes up (or stays at the cap) on success, and down (or stays at
/// 0) on failure where it was not negative.
pub proof fn lemma_trust_moves_with_outcome(a: AbilityView)
    ensures
        a.invoked(true).trust >= a.trust || a.invoked(true).trust == MAX_TRUST,
        a.trust >= 0 ==> a.invoked(false).trust <= a.trust,
{
}

/// A fresh ability used `n` times with success has level `n`, `n` uses,
/// and trust `min(50 + 5n, 100)` points.
pub proof fn lemma_fresh_successes(a: AbilityView, n: nat)
    requires
        a.level == 0,
        a.invoke_count == 0,
        a.trust == START_TRUST,
        n < u32::MAX,
    ensures
        a.invoked_times(n, true).level == n,
        a.invoked_times(n, true).invoke_count == n,
        a.invoked_times(n, true).trust == if START_TRUST + SUCCESS_TRUST_GAIN * n > MAX_TRUST {
            MAX_TRUST as int
        } else {
            START_TRUST + SUCCESS_TRUST_GAIN * n
        },
        a.invoked_times(n, true).name == a.name,
        a.invoked_times(n, true).ability_type == a.ability_type,
    decreases n,
{
    if n > 0 {
        lemma_fresh_successes(a, (n - 1) as nat);
    }
}

/// A fresh ability becomes mastered through successes exactly when it has
/// been used more than 20 times.
pub proof fn lemma_mastery_after_successes(a: AbilityView, n: nat)
    requires
        a.level == 0,
        a.invoke_count == 0,
        a.trust == START_TRUST,
        n < u32::MAX,
    ensures
        a.invoked_times(n, true).mastered() <==> n > MASTERY_USES,
{
    lemma_fresh_successes(a, n);
}

} // verus!
