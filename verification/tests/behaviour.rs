use character_build::{
    Ability, AbilityType, CharacterClass, CharacterSheet, CharacterTemplate, NamedMap, Party,
    Ratio, Stats, POINT,
};

/// Points as stored by the library: billionths of a point.
fn pts(x: f64) -> i64 {
    (x * 1e9).round() as i64
}

fn ratio(numerator: i128, denominator: i128) -> Ratio {
    Ratio { numerator, denominator }
}

fn all_classes() -> Vec<CharacterClass> {
    vec![
        CharacterClass::Undefined,
        CharacterClass::Scout,
        CharacterClass::Speedster,
        CharacterClass::Scholar,
        CharacterClass::Sage,
        CharacterClass::Diplomat,
        CharacterClass::Guardian,
        CharacterClass::Bard,
        CharacterClass::Artificer,
        CharacterClass::JazzMusician,
        CharacterClass::FleetCommander,
        CharacterClass::Wildcard,
    ]
}

#[test]
fn class_names_are_distinct_and_readable() {
    assert_eq!(CharacterClass::JazzMusician.name(), "Jazz Musician");
    assert_eq!(CharacterClass::FleetCommander.name(), "Fleet Commander");
    assert_eq!(CharacterClass::Undefined.name(), "Undefined");
    let classes = all_classes();
    for (i, a) in classes.iter().enumerate() {
        for (j, b) in classes.iter().enumerate() {
            if i != j {
                assert_ne!(a.name(), b.name());
            }
        }
    }
}

#[test]
fn average_is_exact() {
    let s = Stats::new(-1, 0, 0, 0, 0, 0);
    assert_eq!(s.total(), -1);
    assert_eq!(s.average(), ratio(-1, 6 * POINT as i128));
    let s = Stats::new(pts(10.0), pts(10.0), pts(10.0), pts(10.0), pts(10.0), pts(10.01));
    assert_eq!(s.average(), ratio(60_010_000_000, 6_000_000_000));
}

#[test]
fn highest_prefers_earlier_on_tie() {
    let s = Stats::new(pts(12.0), pts(12.0), pts(12.0), pts(12.0), pts(12.0), pts(12.0));
    assert_eq!(s.highest(), ("perception", pts(12.0)));
    let s = Stats::new(pts(9.0), pts(10.0), pts(11.0), pts(11.0), pts(10.0), pts(9.0));
    assert_eq!(s.highest(), ("intelligence", pts(11.0)));
    let s = Stats::new(pts(9.0), pts(10.0), pts(11.0), pts(11.0), pts(10.0), pts(13.0));
    assert_eq!(s.highest(), ("constitution", pts(13.0)));
}

#[test]
fn gain_xp_ignores_unknown_names_and_clamps() {
    let mut s = Stats::level_one();
    s.gain_xp("luck", pts(5.0));
    assert_eq!(s, Stats::level_one());
    s.gain_xp("wisdom", pts(-2.5));
    assert_eq!(s.wisdom, pts(7.5));
    s.gain_xp("intelligence", pts(0.001));
    assert_eq!(s.intelligence, pts(10.001));
    s.gain_xp("charisma", i64::MAX);
    assert_eq!(s.charisma, i64::MAX);
    s.gain_xp("constitution", i64::MIN);
    assert_eq!(s.constitution, i64::MIN + pts(10.0));
}

#[test]
fn class_thresholds_are_strict() {
    // A score of exactly 15 points is not high.
    let s = Stats::new(pts(15.0), pts(10.0), pts(10.0), pts(10.0), pts(10.0), pts(10.0));
    assert_eq!(CharacterClass::from_stats(&s), CharacterClass::Undefined);
    let s = Stats::new(pts(15.01), pts(10.0), pts(10.0), pts(10.0), pts(10.0), pts(10.0));
    assert_eq!(CharacterClass::from_stats(&s), CharacterClass::Scout);
    // Balanced but not above the baseline on average: no Wildcard.
    assert_eq!(CharacterClass::from_stats(&Stats::level_one()), CharacterClass::Undefined);
    // Balanced and above the baseline.
    let s = Stats::new(pts(11.0), pts(11.0), pts(11.0), pts(11.0), pts(11.0), pts(11.0));
    assert_eq!(CharacterClass::from_stats(&s), CharacterClass::Wildcard);
    // Variance exactly 20 square points is not balanced; just below is.
    let s = Stats::new(pts(14.0), pts(8.0), pts(12.0), pts(10.0), pts(11.0), pts(11.0));
    assert_eq!(CharacterClass::from_stats(&s), CharacterClass::Undefined);
    let s = Stats::new(pts(13.99), pts(8.0), pts(12.0), pts(10.0), pts(11.0), pts(11.01));
    assert_eq!(CharacterClass::from_stats(&s), CharacterClass::Wildcard);
    // Huge scores do not overflow the variance test.
    let s = Stats::new(i64::MAX, i64::MIN, 0, 0, 0, 0);
    assert_eq!(CharacterClass::from_stats(&s), CharacterClass::Scout);
}

#[test]
fn composite_classes_in_order() {
    let s = Stats::new(pts(10.0), pts(16.0), pts(16.0), pts(10.0), pts(10.0), pts(10.0));
    assert_eq!(CharacterClass::from_stats(&s), CharacterClass::Artificer);
    let s = Stats::new(pts(10.0), pts(10.0), pts(10.0), pts(16.0), pts(10.0), pts(16.0));
    assert_eq!(CharacterClass::from_stats(&s), CharacterClass::FleetCommander);
    // Bard wins over Jazz Musician when both apply.
    let s = Stats::new(pts(16.0), pts(10.0), pts(16.0), pts(10.0), pts(16.0), pts(10.0));
    assert_eq!(CharacterClass::from_stats(&s), CharacterClass::Bard);
    let s = Stats::new(pts(10.0), pts(10.0), pts(10.0), pts(10.0), pts(10.0), pts(17.0));
    assert_eq!(CharacterClass::from_stats(&s), CharacterClass::Guardian);
    let s = Stats::new(pts(10.0), pts(10.0), pts(10.0), pts(17.0), pts(10.0), pts(10.0));
    assert_eq!(CharacterClass::from_stats(&s), CharacterClass::Sage);
    let s = Stats::new(pts(10.0), pts(10.0), pts(10.0), pts(10.0), pts(17.0), pts(10.0));
    assert_eq!(CharacterClass::from_stats(&s), CharacterClass::Diplomat);
    let s = Stats::new(pts(10.0), pts(17.0), pts(10.0), pts(10.0), pts(10.0), pts(10.0));
    assert_eq!(CharacterClass::from_stats(&s), CharacterClass::Speedster);
}

#[test]
fn trust_is_capped_and_floored() {
    let mut a = Ability::hardcoded("x", "do x", "x");
    for _ in 0..12 {
        a.invoke(true);
    }
    assert_eq!(a.trust, pts(100.0));
    assert_eq!(a.level, 12);
    let mut b = Ability::hardcoded("y", "do y", "y");
    for _ in 0..7 {
        b.invoke(false);
    }
    assert_eq!(b.trust, 0);
    assert_eq!(b.level, 0);
    assert_eq!(b.invoke_count, 7);
    // A negative trust fails up to 0, as `max(trust - 10, 0)` does.
    b.trust = pts(-3.0);
    b.invoke(false);
    assert_eq!(b.trust, 0);
    b.trust = pts(-3.0);
    b.invoke(true);
    assert_eq!(b.trust, pts(2.0));
}

#[test]
fn reliability_is_trust_over_hundred() {
    let mut a = Ability::hardcoded("x", "do x", "x");
    assert_eq!(a.reliability(), ratio(pts(50.0) as i128, pts(100.0) as i128));
    a.invoke(true);
    assert_eq!(a.reliability(), ratio(pts(55.0) as i128, pts(100.0) as i128));
    a.trust = pts(55.99);
    let r = a.reliability();
    assert_eq!(r.numerator * 10000, 5599 * r.denominator);
}

#[test]
fn mastery_needs_more_than_twenty_uses() {
    let mut a = Ability::learned("x", "do x", "x", vec![1, 2, 3]);
    for _ in 0..20 {
        a.invoke(true);
    }
    assert!(!a.is_mastered());
    a.invoke(true);
    assert!(a.is_mastered());
    assert_eq!(a.embedding, vec![1, 2, 3]);
}

#[test]
fn using_a_missing_ability_changes_nothing() {
    let mut c = CharacterSheet::from_template("Hero", &CharacterTemplate::lever_runner_default());
    assert_eq!(c.use_ability("fly", true), None);
    assert_eq!(c.xp, 0);
    assert_eq!(c.level, 1);
    assert_eq!(c.stats, Stats::level_one());
    assert_eq!(c.soul_percentage, ratio(0, 1));
    assert!(c.abilities.iter().all(|a| a.invoke_count == 0));
}

#[test]
fn using_an_ability_updates_the_sheet() {
    let mut c = CharacterSheet::from_template("Hero", &CharacterTemplate::lever_runner_default());
    assert_eq!(c.use_ability("commit", true), Some(pts(2.0)));
    assert_eq!(c.xp, pts(2.0));
    assert_eq!(c.stats.dexterity, pts(10.5));
    assert_eq!(c.abilities[1].name, "commit");
    assert_eq!(c.abilities[1].trust, pts(55.0));
    assert_eq!(c.abilities[0].invoke_count, 0);
    // One evolved ability out of three: exactly 100/3 percent.
    assert_eq!(c.soul_percentage, ratio(100, 3));
    assert_eq!(c.use_ability("commit", false), Some(pts(0.5)));
    assert_eq!(c.xp, pts(2.5));
    assert_eq!(c.stats.dexterity, pts(10.4));
    assert_eq!(c.abilities[1].trust, pts(45.0));
}

#[test]
fn failed_hybrid_use_lowers_wisdom() {
    let mut c = CharacterSheet::new("Hero");
    let mut a = Ability::hardcoded("blend", "blend {x}", "mix {x}");
    a.ability_type = AbilityType::Hybrid;
    c.learn_ability(a);
    let mut m = Ability::hardcoded("ask", "ask {x}", "model {x}");
    m.ability_type = AbilityType::Model;
    c.learn_ability(m);
    assert_eq!(c.xp, pts(20.0));
    assert_eq!(c.use_ability("blend", false), Some(pts(0.5)));
    assert_eq!(c.stats.wisdom, pts(9.9));
    assert_eq!(c.soul_percentage, ratio(0, 2));
    assert_eq!(c.use_ability("ask", true), Some(pts(2.0)));
    assert_eq!(c.stats.perception, pts(10.5));
    assert_eq!(c.soul_percentage, ratio(100, 2));
}

#[test]
fn learning_levels_up_every_hundred_points() {
    let mut c = CharacterSheet::new("Hero");
    for i in 0..10 {
        c.learn_ability(Ability::hardcoded(&format!("a{}", i), "x", "y"));
    }
    assert_eq!(c.xp, pts(100.0));
    assert_eq!(c.level, 2);
    // The level never goes down.
    c.xp = 0;
    c.check_level_up();
    assert_eq!(c.level, 2);
}

#[test]
fn experience_saturates_and_negative_counts_as_none() {
    let mut c = CharacterSheet::new("Hero");
    c.xp = i64::MAX - 10;
    c.learn_ability(Ability::hardcoded("a", "x", "y"));
    assert_eq!(c.xp, i64::MAX);
    assert_eq!(c.level, (i64::MAX / pts(100.0)) as u32 + 1);
    let mut d = CharacterSheet::new("Low");
    d.xp = pts(-250.0);
    d.check_level_up();
    assert_eq!(d.level, 1);
    d.xp = pts(199.999);
    d.check_level_up();
    assert_eq!(d.level, 2);
}

#[test]
fn templates_hold_their_kits() {
    let t = CharacterTemplate::lever_runner_default();
    assert_eq!(t.name, "DevOps Starter");
    assert_eq!(t.starting_abilities.len(), 3);
    assert_eq!(t.starting_abilities.name_at(0), "push");
    assert_eq!(t.starting_abilities.value_at(2).action, "git status");
    let m = CharacterTemplate::musician_starter();
    assert_eq!(
        m.starting_stats,
        Stats::new(pts(15.0), pts(10.0), pts(12.0), pts(8.0), pts(14.0), pts(10.0))
    );
    assert_eq!(m.starting_abilities.value_at(0).embedding, vec![pts(0.5); 32]);
    let f = CharacterTemplate::fleet_agent_starter();
    assert_eq!(f.starting_abilities.value_at(0).ability_type, AbilityType::Hardcoded);
    assert_eq!(f.starting_abilities.value_at(1).ability_type, AbilityType::Learned);
    assert_eq!(f.starting_abilities.value_at(1).embedding, vec![pts(0.6); 32]);
}

#[test]
fn from_template_builds_identity_and_class() {
    let c = CharacterSheet::from_template("Fleet", &CharacterTemplate::fleet_agent_starter());
    assert_eq!(c.class, CharacterClass::FleetCommander);
    assert_eq!(c.identity.len(), 2);
    assert_eq!(c.identity.name_at(1), "discover");
    assert_eq!(c.identity.value_at(1), "nebula-query {intent}");
    assert_eq!(c.config.len(), 0);
    assert_eq!(c.generation, 1);
    assert_eq!(c.parent, None);
    assert_eq!(c.abilities[0].name, "dispatch");
}

#[test]
fn named_map_replaces_in_place() {
    let mut m: NamedMap<String> = NamedMap::new();
    m.insert("a".to_string(), "1".to_string());
    m.insert("b".to_string(), "2".to_string());
    m.insert("a".to_string(), "3".to_string());
    assert_eq!(m.len(), 2);
    assert_eq!(m.name_at(0), "a");
    assert_eq!(m.value_at(0), "3");
    assert_eq!(m.value_at(1), "2");
    let copy = m.clone();
    assert_eq!(copy.len(), 2);
    assert_eq!(copy.name_at(1), "b");
}

#[test]
fn child_blends_scores_and_inherits_mastered_abilities() {
    let mut parent =
        CharacterSheet::from_template("Parent", &CharacterTemplate::lever_runner_default());
    for _ in 0..25 {
        parent.use_ability("push", true);
    }
    assert_eq!(parent.stats.dexterity, pts(22.5));
    assert_eq!(parent.class, CharacterClass::Speedster);
    let child = parent.bootstrap_child("Child");
    assert_eq!(child.stats.dexterity, pts(18.75));
    assert_eq!(child.stats.perception, pts(10.0));
    assert_eq!(child.abilities.len(), 1);
    assert_eq!(child.abilities[0].name, "push");
    assert_eq!(child.abilities[0].trust, pts(60.0));
    assert_eq!(child.abilities[0].invoke_count, 5);
    assert_eq!(child.abilities[0].level, 1);
    assert!(!child.abilities[0].is_mastered());
    assert_eq!(child.class, CharacterClass::Speedster);
    assert_eq!(child.level, 1);
    assert_eq!(child.xp, 0);
}

#[test]
fn child_scores_lie_between_parent_and_baseline() {
    let mut parent = CharacterSheet::new("P");
    parent.stats = Stats::new(pts(8.0), pts(10.0), pts(30.0), pts(-5.0), pts(9.99), pts(10.01));
    let child = parent.bootstrap_child("C");
    assert_eq!(
        child.stats,
        Stats::new(pts(8.6), pts(10.0), pts(24.0), pts(-0.5), pts(9.993), pts(10.007))
    );
    // Below a billionth the mix rounds to the nearest billionth, halves up.
    parent.stats = Stats::new(1, -1, 5, -5, 15, 0);
    let child = parent.bootstrap_child("D");
    assert_eq!(
        child.stats,
        Stats::new(pts(3.0) + 1, pts(3.0) - 1, pts(3.0) + 4, pts(3.0) - 3, pts(3.0) + 11, pts(3.0))
    );
}

#[test]
fn save_data_summarises_the_sheet() {
    let mut c = CharacterSheet::from_template("Hero", &CharacterTemplate::fleet_agent_starter());
    for _ in 0..21 {
        c.use_ability("discover", true);
    }
    let save = c.to_save_data();
    assert_eq!(save.class, "Fleet Commander");
    assert_eq!(save.abilities[0].ability_type, "hardcoded");
    assert_eq!(save.abilities[1].ability_type, "learned");
    assert!(save.abilities[1].mastered);
    assert!(!save.abilities[0].mastered);
    assert_eq!(save.abilities[1].trust, pts(100.0));
    assert_eq!(save.abilities[1].level, 21);
    assert_eq!(save.soul_percentage, ratio(100, 2));
    assert_eq!(save.stats, c.stats);
    assert_eq!(save.parent, None);
}

#[test]
fn quest_reports_each_member() {
    let mut party = Party::new(vec![
        CharacterSheet::from_template("Tank", &CharacterTemplate::lever_runner_default()),
        CharacterSheet::from_template("Healer", &CharacterTemplate::musician_starter()),
        CharacterSheet::from_template("DPS", &CharacterTemplate::fleet_agent_starter()),
    ]);
    assert_eq!(party.synergy, ratio(1, 2));
    let result = party.quest("push");
    assert_eq!(
        result.character_results,
        vec![
            ("Tank".to_string(), pts(2.0), true),
            ("Healer".to_string(), 0, false),
            ("DPS".to_string(), 0, false),
        ]
    );
    // Exactly one third.
    assert_eq!(result.synergy, ratio(1, 3));
    assert_eq!(party.synergy, ratio(1, 3));
    assert!(result.completed);
    assert_eq!(party.quests_completed, 1);
    // One success in three earns no bonus.
    assert_eq!(party.members[0].xp, pts(2.0));
    assert_eq!(party.members[1].xp, 0);
}

#[test]
fn quest_bonus_when_most_succeed() {
    let mut party = Party::new(vec![
        CharacterSheet::from_template("A", &CharacterTemplate::lever_runner_default()),
        CharacterSheet::from_template("B", &CharacterTemplate::lever_runner_default()),
    ]);
    let result = party.quest("push");
    assert_eq!(result.synergy, ratio(2, 2));
    assert_eq!(party.members[0].xp, pts(7.0));
    assert_eq!(party.members[1].xp, pts(7.0));
    let result = party.quest("fly");
    assert!(!result.completed);
    assert_eq!(result.synergy, ratio(0, 2));
    assert_eq!(party.quests_completed, 1);
    assert_eq!(party.members[0].xp, pts(7.0));
}

#[test]
fn empty_party_quest() {
    let mut party = Party::new(Vec::new());
    let result = party.quest("push");
    assert_eq!(result.character_results.len(), 0);
    assert_eq!(result.synergy, ratio(0, 1));
    assert!(!result.completed);
    assert_eq!(party.party_class(), "{}");
}

#[test]
fn party_class_names_the_roles() {
    let same = Party::new(vec![
        CharacterSheet::from_template("A", &CharacterTemplate::lever_runner_default()),
        CharacterSheet::from_template("B", &CharacterTemplate::lever_runner_default()),
    ]);
    assert_eq!(same.party_class(), "All Undefineds");
    let mixed = Party::new(vec![
        CharacterSheet::from_template("A", &CharacterTemplate::lever_runner_default()),
        CharacterSheet::from_template("B", &CharacterTemplate::fleet_agent_starter()),
        CharacterSheet::from_template("C", &CharacterTemplate::lever_runner_default()),
    ]);
    assert_eq!(mixed.party_class(), "{\"Undefined\", \"Fleet Commander\"}");
}

#[test]
fn class_tracks_scores_through_play() {
    let mut c = CharacterSheet::from_template("Hero", &CharacterTemplate::musician_starter());
    assert_eq!(c.class, CharacterClass::from_stats(&c.stats));
    let mut last_level = c.level;
    let mut last_xp = c.xp;
    for round in 0..40 {
        let before = c.stats;
        c.use_ability("listen", round % 3 != 0);
        assert_eq!(c.class, CharacterClass::from_stats(&c.stats));
        // Only intelligence (the score of learned abilities) moves.
        assert_eq!(c.stats.perception, before.perception);
        assert_eq!(c.stats.dexterity, before.dexterity);
        assert_eq!(c.stats.wisdom, before.wisdom);
        assert_eq!(c.stats.charisma, before.charisma);
        assert_eq!(c.stats.constitution, before.constitution);
        assert!(c.level >= last_level && c.xp >= last_xp);
        assert!(c.level as i64 >= c.xp / pts(100.0) + 1);
        last_level = c.level;
        last_xp = c.xp;
    }
    let child = c.bootstrap_child("Kid");
    assert_eq!(child.class, CharacterClass::from_stats(&child.stats));
}
