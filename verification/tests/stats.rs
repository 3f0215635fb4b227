use starstruck::entity_components::stats::{Stats, DEFENSE_AMOUNT};

#[test]
fn max_health_is_five_and_a_half_times_the_stat() {
    assert_eq!(Stats::new(10, 10, 10, 10, 10, 0).calculate_max_health(), 55);
    assert_eq!(Stats::new(3, 0, 0, 0, 0, 0).calculate_max_health(), 16);
    assert_eq!(Stats::new(5, 0, 0, 0, 0, 0).calculate_max_health(), 27);
    assert_eq!(Stats::new(0, 0, 0, 0, 0, 0).calculate_max_health(), 0);
}

#[test]
fn max_mana_is_two_and_a_half_times_the_stat() {
    assert_eq!(Stats::new(10, 10, 10, 10, 10, 0).calculate_max_mana(), 25);
    assert_eq!(Stats::new(0, 3, 0, 0, 0, 0).calculate_max_mana(), 7);
    assert_eq!(Stats::new(0, 100, 0, 0, 0, 0).calculate_max_mana(), 250);
}

#[test]
fn maxima_stop_at_the_largest_u32() {
    let stats = Stats::new(u32::MAX, u32::MAX, 0, 0, 0, 0);
    assert_eq!(stats.calculate_max_health(), u32::MAX);
    assert_eq!(stats.calculate_max_mana(), u32::MAX);
    assert_eq!(Stats::new(780_903_144, 0, 0, 0, 0, 0).calculate_max_health(), 4_294_967_292);
    assert_eq!(Stats::new(780_903_145, 0, 0, 0, 0, 0).calculate_max_health(), u32::MAX);
}

#[test]
fn default_stats_are_ten_everywhere() {
    let stats = Stats::default();
    assert_eq!(stats.get_health(), 10);
    assert_eq!(stats.get_mana(), 10);
    assert_eq!(stats.get_speed(), 10);
    assert_eq!(stats.get_strength(), 10);
    assert_eq!(stats.get_magic_strength(), 10);
    assert_eq!(stats.get_defense(), 0);
    assert!(!stats.is_defending());
    assert!(stats.is_well_formed());
}

#[test]
fn attack_damage_adds_part_of_the_roll_below_half_the_strength() {
    let stats = Stats::new(10, 10, 10, 10, 10, 0);
    assert_eq!(stats.attack_dmg_from_roll(0), 10);
    assert_eq!(stats.attack_dmg_from_roll(4), 14);
    assert_eq!(stats.attack_dmg_from_roll(5), 10);
    assert_eq!(stats.attack_dmg_from_roll(7), 12);
    assert_eq!(stats.attack_dmg_from_roll(u32::MAX), 10);
}

#[test]
fn attack_damage_of_a_strength_under_two_is_the_strength() {
    let weak = Stats::new(10, 10, 10, 1, 10, 0);
    let none = Stats::new(10, 10, 10, 0, 10, 0);
    for roll in [0, 1, 2, 77, u32::MAX] {
        assert_eq!(weak.attack_dmg_from_roll(roll), 1);
        assert_eq!(none.attack_dmg_from_roll(roll), 0);
    }
    assert_eq!(weak.generate_random_attack_dmg(), 1);
}

#[test]
fn random_attack_damage_stays_in_its_range() {
    let stats = Stats::new(10, 10, 10, 10, 10, 0);
    for _ in 0..500 {
        let damage = stats.generate_random_attack_dmg();
        assert!((10..=14).contains(&damage));
    }
}

#[test]
fn defense_takes_its_percentage_rounded_down() {
    assert_eq!(Stats::new(1, 1, 1, 1, 1, 0).calc_damage_taken(37), 37);
    assert_eq!(Stats::new(1, 1, 1, 1, 1, 50).calc_damage_taken(101), 50);
    assert_eq!(Stats::new(1, 1, 1, 1, 1, 7).calc_damage_taken(100), 93);
    assert_eq!(Stats::new(1, 1, 1, 1, 1, 10).calc_damage_taken(10), 9);
    assert_eq!(Stats::new(1, 1, 1, 1, 1, 99).calc_damage_taken(99), 0);
    assert_eq!(Stats::new(1, 1, 1, 1, 1, 0).calc_damage_taken(u32::MAX), u32::MAX);
    assert_eq!(Stats::new(1, 1, 1, 1, 1, 1).calc_damage_taken(u32::MAX), 4_252_017_622);
}

#[test]
fn defense_of_a_hundred_or_more_leaves_nothing() {
    assert_eq!(Stats::new(1, 1, 1, 1, 1, 100).calc_damage_taken(500), 0);
    assert_eq!(Stats::new(1, 1, 1, 1, 1, 150).calc_damage_taken(500), 0);
    assert_eq!(Stats::new(1, 1, 1, 1, 1, u32::MAX).calc_damage_taken(u32::MAX), 0);
}

#[test]
fn starting_to_defend_twice_adds_the_bonus_once() {
    let mut stats = Stats::new(10, 10, 10, 10, 10, 5);
    stats.start_defending();
    assert_eq!(stats.get_defense(), 5 + DEFENSE_AMOUNT);
    assert!(stats.is_defending());
    stats.start_defending();
    assert_eq!(stats.get_defense(), 55);
    assert!(stats.is_defending());
}

#[test]
fn stopping_to_defend_twice_takes_the_bonus_away_once() {
    let mut stats = Stats::new(10, 10, 10, 10, 10, 5);
    stats.stop_defending();
    assert_eq!(stats.get_defense(), 5);
    stats.start_defending();
    stats.stop_defending();
    assert_eq!(stats.get_defense(), 5);
    assert!(!stats.is_defending());
    stats.stop_defending();
    assert_eq!(stats.get_defense(), 5);
}

#[test]
fn growth_raises_one_stat_by_one() {
    let mut stats = Stats::default();
    stats.increase_physical();
    assert_eq!(stats.get_strength(), 11);
    assert_eq!(stats.get_magic_strength(), 10);
    stats.increase_magic();
    assert_eq!(stats.get_mana(), 10);
    assert_eq!(stats.calculate_max_mana(), 25);
    assert_eq!(stats.get_magic_strength(), 11);
    assert_eq!(stats.get_speed(), 10);
    assert_eq!(stats.get_defense(), 0);
    assert_eq!(stats.get_health(), 10);
    stats.increase_health();
    assert_eq!(stats.get_health(), 11);
    assert_eq!(stats.get_strength(), 11);
    assert_eq!(stats.get_speed(), 10);
}

#[test]
fn stats_too_large_for_the_formulas_are_told_apart() {
    assert!(!Stats::new(1, 1, 1, 1, 1, u32::MAX - 49).is_well_formed());
    assert!(Stats::new(1, 1, 1, 1, 1, u32::MAX - 50).is_well_formed());
    assert!(Stats::new(1, 1, 1, 2_863_311_530, 1, 0).attack_fits());
    assert!(!Stats::new(1, 1, 1, 2_863_311_532, 1, 0).attack_fits());
}
