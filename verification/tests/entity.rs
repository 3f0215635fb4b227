use starstruck::entity_components::enemy::Enemy;
use starstruck::entity_components::entity::{attack_entity, Entity};
use starstruck::entity_components::player::Player;
use starstruck::entity_components::stats::Stats;
use starstruck::entity_components::status::Status;
use std::collections::VecDeque;

fn quiet(name: &str, turns: u32) -> Status {
    Status::new(String::from(name), 0, false, 0, turns)
}

#[test]
fn take_damage_returns_what_got_through_and_stops_at_zero() {
    let mut player = Player::new(String::from("Guard"), Stats::new(10, 10, 10, 10, 10, 50), 1, 0, false);
    assert_eq!(player.health(), 55);
    assert_eq!(player.take_damage(21), 10);
    assert_eq!(player.health(), 45);
    assert_eq!(player.take_damage(1000), 500);
    assert_eq!(player.health(), 0);
    assert!(player.is_dead());
    assert_eq!(player.take_damage(10), 5);
    assert_eq!(player.health(), 0);
}

#[test]
fn take_damage_of_exactly_the_health_kills() {
    let mut enemy = Enemy::new(String::from("Rat"), Stats::new(2, 0, 1, 1, 1, 0), 1, false);
    assert_eq!(enemy.health(), 11);
    assert!(!enemy.is_dead());
    assert_eq!(enemy.take_damage(11), 11);
    assert_eq!(enemy.health(), 0);
    assert!(enemy.is_dead());
}

#[test]
fn heal_adds_without_regard_to_the_maximum() {
    let mut player = Player::default();
    player.take_damage(20);
    player.heal(5);
    assert_eq!(player.health(), 40);
    player.heal(100);
    assert_eq!(player.health(), 140);
    assert_eq!(player.max_health(), 55);
}

#[test]
fn use_mana_stops_at_zero() {
    let mut player = Player::default();
    assert_eq!(player.mana(), 25);
    player.use_mana(7);
    assert_eq!(player.mana(), 18);
    player.use_mana(18);
    assert_eq!(player.mana(), 0);
    player.use_mana(1);
    assert_eq!(player.mana(), 0);
    let mut other = Player::default();
    other.use_mana(u32::MAX);
    assert_eq!(other.mana(), 0);
    assert_eq!(other.max_mana(), 25);
}

#[test]
fn accessors_read_the_body() {
    let enemy = Enemy::new(String::from("Dragon"), Stats::new(20, 100, 9, 8, 7, 10), 8, true);
    assert_eq!(enemy.name(), "Dragon");
    assert_eq!(enemy.speed(), 9);
    assert_eq!(enemy.level(), 8);
    assert_eq!(enemy.magic_strength(), 7);
    assert_eq!(enemy.health(), 110);
    assert_eq!(enemy.max_health(), 110);
    assert_eq!(enemy.mana(), 250);
    assert_eq!(enemy.max_mana(), 250);
    assert!(enemy.has_gone());
    assert!(enemy.gone_this_turn());
    assert!(!enemy.is_dead());
    assert_eq!(enemy.status_count(), 0);
}

#[test]
fn allow_move_clears_the_flag() {
    let mut enemy = Enemy::new(String::from("Rat"), Stats::default(), 1, true);
    enemy.allow_move();
    assert!(!enemy.has_gone());
    enemy.allow_move();
    assert!(!enemy.has_gone());
}

#[test]
fn attack_entity_deals_the_blow() {
    let mut enemy = Enemy::new(String::from("Rat"), Stats::new(10, 0, 1, 1, 1, 20), 1, false);
    assert_eq!(attack_entity(10, &mut enemy), 8);
    assert_eq!(enemy.health(), 47);
}

#[test]
fn entity_defending_is_idempotent() {
    let mut player = Player::default();
    player.start_defending();
    player.start_defending();
    assert_eq!(player.stats().get_defense(), 50);
    assert_eq!(player.take_damage(10), 5);
    player.stop_defending();
    player.stop_defending();
    assert_eq!(player.stats().get_defense(), 0);
    assert_eq!(player.take_damage(10), 10);
}

#[test]
fn apply_status_stacks_the_same_name() {
    let mut log: VecDeque<String> = VecDeque::new();
    let mut enemy = Enemy::new(String::from("Rat"), Stats::default(), 1, false);
    let burn = Status::new(String::from("Burn"), 10, false, 0, 5);
    enemy.apply_status(&burn, &mut log);
    enemy.apply_status(&burn, &mut log);
    assert_eq!(enemy.status_count(), 2);
    let statuses = enemy.statuses();
    assert_eq!(statuses[0].name(), "Burn");
    assert_eq!(statuses[1].name(), "Burn");
    assert_eq!(log.len(), 2);
    assert_eq!(log[0], "Burn applied to Rat");
    assert_eq!(log[1], "Burn applied to Rat");
    enemy.tick_statuses_with(&vec![0, 4], &mut log);
    assert_eq!(enemy.health(), 55 - 10 - 14);
    assert_eq!(enemy.statuses()[0].turns_left(), 4);
    assert_eq!(enemy.statuses()[1].turns_left(), 4);
}

#[test]
fn a_status_of_three_turns_acts_three_times_and_goes() {
    let mut log: VecDeque<String> = VecDeque::new();
    let mut player = Player::default();
    player.apply_status(&Status::new(String::from("Burn"), 10, false, 0, 3), &mut log);
    player.tick_statuses_with(&vec![0], &mut log);
    assert_eq!(player.health(), 45);
    assert_eq!(player.status_count(), 1);
    assert_eq!(player.statuses()[0].turns_left(), 2);
    player.tick_statuses_with(&vec![7], &mut log);
    assert_eq!(player.health(), 33);
    assert_eq!(player.statuses()[0].turns_left(), 1);
    player.tick_statuses_with(&vec![4], &mut log);
    assert_eq!(player.health(), 19);
    assert_eq!(player.status_count(), 0);
    player.tick_statuses_with(&vec![4], &mut log);
    assert_eq!(player.health(), 19);
    assert_eq!(log.len(), 4);
    assert_eq!(log[1], "Louie took 10 damage from Burn");
    assert_eq!(log[2], "Louie took 12 damage from Burn");
    assert_eq!(log[3], "Louie took 14 damage from Burn");
}

#[test]
fn a_status_of_one_turn_acts_once() {
    let mut log: VecDeque<String> = VecDeque::new();
    let mut enemy = Enemy::new(String::from("Rat"), Stats::default(), 1, false);
    enemy.apply_status(&Status::new(String::from("Sting"), 3, false, 0, 1), &mut log);
    enemy.tick_statuses_with(&vec![0], &mut log);
    assert_eq!(enemy.health(), 52);
    assert_eq!(enemy.status_count(), 0);
}

#[test]
fn expired_statuses_go_and_the_others_keep_their_order() {
    let mut log: VecDeque<String> = VecDeque::new();
    let mut player = Player::default();
    player.apply_status(&quiet("A", 1), &mut log);
    player.apply_status(&quiet("B", 3), &mut log);
    player.apply_status(&quiet("C", 1), &mut log);
    player.apply_status(&quiet("D", 1), &mut log);
    player.apply_status(&quiet("E", 2), &mut log);
    player.tick_statuses_with(&Vec::new(), &mut log);
    let left = player.statuses();
    assert_eq!(left.len(), 2);
    assert_eq!(left[0].name(), "B");
    assert_eq!(left[0].turns_left(), 2);
    assert_eq!(left[1].name(), "E");
    assert_eq!(left[1].turns_left(), 1);
    player.tick_statuses_with(&Vec::new(), &mut log);
    let left = player.statuses();
    assert_eq!(left.len(), 1);
    assert_eq!(left[0].name(), "B");
    player.tick_statuses_with(&Vec::new(), &mut log);
    assert_eq!(player.status_count(), 0);
    assert_eq!(player.health(), 55);
}

#[test]
fn a_healing_status_fills_up_to_the_maximum_only() {
    let mut log: VecDeque<String> = VecDeque::new();
    let mut player = Player::default();
    player.take_damage(20);
    player.apply_status(&Status::new(String::from("Regen"), 30, true, 0, 3), &mut log);
    player.tick_statuses_with(&vec![0], &mut log);
    assert_eq!(player.health(), 55);
    assert_eq!(log[1], "Louie healed 20 health from Regen");
    player.tick_statuses_with(&vec![3], &mut log);
    assert_eq!(player.health(), 55);
    assert_eq!(log[2], "Louie healed 0 health from Regen");
    player.take_damage(50);
    player.tick_statuses_with(&vec![3], &mut log);
    assert_eq!(player.health(), 38);
    assert_eq!(log[3], "Louie healed 33 health from Regen");
    assert_eq!(player.status_count(), 0);
}

#[test]
fn statuses_act_in_the_order_they_were_applied() {
    let mut log: VecDeque<String> = VecDeque::new();
    let mut player = Player::default();
    player.take_damage(50);
    player.apply_status(&Status::new(String::from("Sting"), 5, false, 0, 2), &mut log);
    player.apply_status(&Status::new(String::from("Regen"), 2, true, 0, 2), &mut log);
    player.tick_statuses_with(&vec![0, 0], &mut log);
    assert_eq!(player.health(), 2);
    assert!(!player.is_dead());
    let mut other = Player::default();
    other.take_damage(50);
    other.apply_status(&Status::new(String::from("Regen"), 2, true, 0, 2), &mut log);
    other.apply_status(&Status::new(String::from("Sting"), 7, false, 0, 2), &mut log);
    other.tick_statuses_with(&vec![0, 0], &mut log);
    assert_eq!(other.health(), 0);
    assert!(other.is_dead());
}

#[test]
fn a_status_hurts_through_the_defense() {
    let mut log: VecDeque<String> = VecDeque::new();
    let mut enemy = Enemy::new(String::from("Shell"), Stats::new(10, 0, 1, 1, 1, 50), 1, false);
    enemy.apply_status(&Status::new(String::from("Burn"), 10, false, 0, 2), &mut log);
    enemy.tick_statuses_with(&vec![1], &mut log);
    assert_eq!(enemy.health(), 50);
    assert_eq!(log[1], "Shell took 5 damage from Burn!");
}

#[test]
fn a_status_without_a_roll_acts_with_roll_zero() {
    let mut log: VecDeque<String> = VecDeque::new();
    let mut enemy = Enemy::new(String::from("Rat"), Stats::default(), 1, false);
    enemy.apply_status(&Status::new(String::from("Burn"), 10, false, 0, 2), &mut log);
    enemy.apply_status(&Status::new(String::from("Burn"), 10, false, 0, 2), &mut log);
    enemy.tick_statuses_with(&vec![3], &mut log);
    assert_eq!(enemy.health(), 55 - 13 - 10);
}

#[test]
fn random_ticks_stay_in_range_and_wear_the_statuses() {
    let mut log: VecDeque<String> = VecDeque::new();
    let mut player = Player::new(String::from("Tank"), Stats::new(100, 0, 1, 1, 1, 0), 1, 0, false);
    player.apply_status(&Status::new(String::from("Burn"), 10, false, 0, 2), &mut log);
    player.apply_status(&Status::new(String::from("Frostburn"), 12, false, 0, 1), &mut log);
    player.tick_statuses(&mut log);
    let lost = 550 - player.health();
    assert!((22..=31).contains(&lost));
    assert_eq!(player.status_count(), 1);
    player.tick_statuses(&mut log);
    assert_eq!(player.status_count(), 0);
    assert_eq!(log.len(), 5);
}

#[test]
fn random_attack_damage_of_an_entity_stays_in_its_range() {
    let player = Player::default();
    for _ in 0..200 {
        assert!((10..=14).contains(&player.get_random_attack_dmg()));
    }
    let enemy = Enemy::new(String::from("Rat"), Stats::new(1, 1, 1, 4, 1, 0), 1, false);
    for _ in 0..200 {
        assert!((4..=5).contains(&enemy.get_random_attack_dmg()));
    }
}

#[test]
fn lines_about_a_status_on_an_enemy_end_with_a_mark() {
    let mut log: VecDeque<String> = VecDeque::new();
    let mut enemy = Enemy::new(String::from("Rat"), Stats::default(), 1, false);
    enemy.take_damage(30);
    enemy.apply_status(&Status::new(String::from("Regen"), 4, true, 0, 2), &mut log);
    enemy.apply_status(&Status::new(String::from("Burn"), 10, false, 0, 2), &mut log);
    enemy.tick_statuses_with(&vec![1, 2], &mut log);
    assert_eq!(log[2], "Rat healed 5 health from Regen!");
    assert_eq!(log[3], "Rat took 12 damage from Burn!");
    let mut player = Player::default();
    player.apply_status(&Status::new(String::from("Burn"), 10, false, 0, 2), &mut log);
    player.tick_statuses_with(&vec![2], &mut log);
    assert_eq!(log[5], "Louie took 12 damage from Burn");
}

#[test]
fn stopping_to_defend_needs_no_room_for_the_bonus() {
    let mut armoured = Enemy::new(
        String::from("Wall"),
        Stats::new(10, 0, 1, 1, 1, u32::MAX),
        1,
        false,
    );
    armoured.stop_defending();
    assert_eq!(armoured.stats().get_defense(), u32::MAX);
    assert!(!armoured.stats().is_defending());
    let mut log: VecDeque<String> = VecDeque::new();
    armoured.apply_status(&Status::new(String::from("Burn"), 10, false, 0, 1), &mut log);
    armoured.tick_statuses_with(&vec![0], &mut log);
    assert_eq!(armoured.health(), 55);
    assert_eq!(armoured.status_count(), 0);
    assert_eq!(log[1], "Wall took 0 damage from Burn!");
}
