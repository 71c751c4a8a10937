use character_build::{
    Ability, CharacterClass, CharacterSheet, CharacterTemplate, Party, Ratio, Stats,
};

/// Points as stored by the library: billionths of a point.
fn pts(x: f64) -> i64 {
    (x * 1e9).round() as i64
}

/// The value of an exact fraction.
fn val(r: Ratio) -> f64 {
    r.numerator as f64 / r.denominator as f64
}

/// A flat embedding of `n` components.
fn embed(x: f64, n: usize) -> Vec<i64> {
    vec![pts(x); n]
}

#[test]
fn stats_level_one() {
    let s = Stats::level_one();
    assert_eq!(val(s.average()), 10.0);
    assert_eq!(s.total(), pts(60.0) as i128);
}

#[test]
fn stats_highest() {
    let s = Stats::new(pts(10.0), pts(20.0), pts(10.0), pts(10.0), pts(10.0), pts(10.0));
    assert_eq!(s.highest(), ("dexterity", pts(20.0)));
}

#[test]
fn stats_gain_xp() {
    let mut s = Stats::level_one();
    s.gain_xp("perception", pts(5.0));
    assert_eq!(s.perception, pts(15.0));
}

#[test]
fn class_emerges_from_stats() {
    let scout = Stats::new(pts(20.0), pts(10.0), pts(10.0), pts(10.0), pts(10.0), pts(10.0));
    assert_eq!(CharacterClass::from_stats(&scout), CharacterClass::Scout);

    let bard = Stats::new(pts(10.0), pts(10.0), pts(18.0), pts(10.0), pts(18.0), pts(10.0));
    assert_eq!(CharacterClass::from_stats(&bard), CharacterClass::Bard);

    let scholar = Stats::new(pts(10.0), pts(10.0), pts(20.0), pts(10.0), pts(10.0), pts(10.0));
    assert_eq!(CharacterClass::from_stats(&scholar), CharacterClass::Scholar);

    let jazz = Stats::new(pts(18.0), pts(10.0), pts(10.0), pts(10.0), pts(18.0), pts(10.0));
    assert_eq!(CharacterClass::from_stats(&jazz), CharacterClass::JazzMusician);

    let balanced = Stats::new(pts(12.0), pts(11.0), pts(13.0), pts(12.0), pts(11.0), pts(13.0));
    assert_eq!(CharacterClass::from_stats(&balanced), CharacterClass::Wildcard);
}

#[test]
fn ability_trust_on_success() {
    let mut a = Ability::hardcoded("test", "do thing", "thing");
    assert_eq!(a.trust, pts(50.0));
    a.invoke(true);
    assert_eq!(a.trust, pts(55.0));
    assert_eq!(a.level, 1);
}

#[test]
fn ability_trust_on_failure() {
    let mut a = Ability::hardcoded("test", "do thing", "thing");
    a.invoke(false);
    assert_eq!(a.trust, pts(40.0));
}

#[test]
fn ability_mastery() {
    let mut a = Ability::hardcoded("test", "do thing", "thing");
    for _ in 0..21 {
        a.invoke(true);
    }
    assert!(a.is_mastered());
}

#[test]
fn character_level_up() {
    let mut c = CharacterSheet::new("TestHero");
    assert_eq!(c.level, 1);
    c.xp = pts(150.0);
    c.check_level_up();
    assert_eq!(c.level, 2);
}

#[test]
fn character_learns_and_uses() {
    let mut c = CharacterSheet::new("TestHero");
    let ability = Ability::hardcoded("push", "push to {branch}", "git push origin {branch}");
    c.learn_ability(ability);
    assert_eq!(c.abilities.len(), 1);

    c.use_ability("push", true);
    assert!(c.xp > 0);
    assert_eq!(c.abilities[0].trust, pts(55.0));
}

#[test]
fn character_class_evolution() {
    let mut c = CharacterSheet::new("TestHero");
    assert_eq!(c.class, CharacterClass::Undefined);

    let listen = Ability::learned("listen", "understand {input}", "parse {input}", embed(0.5, 32));
    c.learn_ability(listen);
    for _ in 0..20 {
        c.use_ability("listen", true);
    }

    // Learned abilities grow intelligence.
    assert!(c.stats.intelligence > pts(10.0));
}

#[test]
fn template_creation() {
    let template = CharacterTemplate::musician_starter();
    let c = CharacterSheet::from_template("Miles AI", &template);
    assert_eq!(c.abilities.len(), 2);
    assert!(c.stats.charisma > pts(10.0));
}

#[test]
fn bootstrap_child_inherits() {
    let mut parent =
        CharacterSheet::from_template("Parent", &CharacterTemplate::lever_runner_default());
    for _ in 0..25 {
        parent.use_ability("push", true);
    }
    assert!(parent.mastered_count() > 0);

    let child = parent.bootstrap_child("Child");
    assert_eq!(child.generation, 2);
    assert_eq!(child.parent, Some("Parent".to_string()));
    assert!(child.abilities.len() > 0);
    // Inherited from a parent who used push (hardcoded, so dexterity).
    assert!(child.stats.dexterity > pts(10.0));
}

#[test]
fn save_data() {
    let mut c = CharacterSheet::from_template("Hero", &CharacterTemplate::lever_runner_default());
    c.use_ability("push", true);
    let save = c.to_save_data();
    assert_eq!(save.name, "Hero");
    assert_eq!(save.abilities.len(), 3);
}

#[test]
fn party_quest() {
    let mut party = Party::new(vec![
        CharacterSheet::from_template("Tank", &CharacterTemplate::lever_runner_default()),
        CharacterSheet::from_template("Healer", &CharacterTemplate::musician_starter()),
        CharacterSheet::from_template("DPS", &CharacterTemplate::fleet_agent_starter()),
    ]);
    let result = party.quest("push");
    assert_eq!(result.character_results.len(), 3);
}

#[test]
fn party_synergy_bonus() {
    let mut party = Party::new(vec![
        CharacterSheet::from_template("A", &CharacterTemplate::lever_runner_default()),
        CharacterSheet::from_template("B", &CharacterTemplate::lever_runner_default()),
    ]);
    let _ = party.quest("push");
    assert!(val(party.synergy) > 0.0);
}

#[test]
fn three_generation_bootstrap() {
    let mut gen1 =
        CharacterSheet::from_template("Gen1", &CharacterTemplate::lever_runner_default());
    for _ in 0..25 {
        gen1.use_ability("push", true);
    }
    for _ in 0..10 {
        gen1.use_ability("commit", true);
    }

    let gen2 = gen1.bootstrap_child("Gen2");
    assert_eq!(gen2.generation, 2);
    assert!(gen2.abilities.len() > 0);

    let mut gen2_active = gen2;
    for _ in 0..15 {
        gen2_active.use_ability("push", true);
    }

    let gen3 = gen2_active.bootstrap_child("Gen3");
    assert_eq!(gen3.generation, 3);
    assert_eq!(gen3.parent, Some("Gen2".to_string()));
}

#[test]
fn full_character_lifecycle() {
    let mut hero = CharacterSheet::from_template("Hero", &CharacterTemplate::musician_starter());
    assert_eq!(hero.level, 1);

    let solo = Ability::learned("solo", "improvise over {chords}", "play solo in {key}", embed(0.8, 32));
    hero.learn_ability(solo);

    for _ in 0..30 {
        hero.use_ability("jam", true);
        hero.use_ability("solo", true);
    }

    assert_ne!(hero.class, CharacterClass::Undefined);
    assert!(hero.mastered_count() > 0);
    assert!(val(hero.soul_percentage) > 0.0);

    let save = hero.to_save_data();
    assert!(save.level > 1);

    let child = hero.bootstrap_child("Hero Jr");
    assert_eq!(child.generation, 2);
}
