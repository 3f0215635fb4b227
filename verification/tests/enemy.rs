use starstruck::entity_components::enemy::{move_type_from_roll, Enemy, BASE_XP};
use starstruck::entity_components::entity::Entity;
use starstruck::entity_components::moves::{ElementType, Move, MoveType};
use starstruck::entity_components::player::Player;
use starstruck::entity_components::stats::Stats;
use starstruck::entity_components::status::Status;
use std::collections::VecDeque;

fn spider() -> Enemy {
    Enemy::new(String::from("Spider"), Stats::new(5, 0, 4, 2, 1, 0), 1, false)
}

fn at_level(level: u32) -> Enemy {
    Enemy::new(String::from("Foe"), Stats::default(), level, false)
}

#[test]
fn a_new_enemy_starts_at_its_maxima_with_nothing_planned() {
    let enemy = spider();
    assert_eq!(enemy.name(), "Spider");
    assert_eq!(enemy.health(), 27);
    assert_eq!(enemy.max_health(), 27);
    assert_eq!(enemy.mana(), 0);
    assert_eq!(enemy.level(), 1);
    assert!(!enemy.has_gone());
    assert!(enemy.upcoming_moves().is_empty());
    assert_eq!(enemy.status_count(), 0);
}

#[test]
fn the_enemy_list_holds_spider_skeleton_and_dragon() {
    let list = Enemy::create_enemy_list();
    assert_eq!(list.len(), 3);
    assert_eq!(list[0].name(), "Spider");
    assert_eq!(list[0].level(), 1);
    assert_eq!(list[0].health(), 27);
    assert_eq!(list[0].speed(), 4);
    assert_eq!(list[0].stats().get_strength(), 2);
    assert_eq!(list[1].name(), "Skeleton");
    assert_eq!(list[1].level(), 1);
    assert_eq!(list[1].health(), 16);
    assert_eq!(list[1].magic_strength(), 4);
    assert_eq!(list[2].name(), "Dragon");
    assert_eq!(list[2].level(), 8);
    assert_eq!(list[2].health(), 110);
    assert_eq!(list[2].mana(), 250);
    assert_eq!(list[2].stats().get_defense(), 10);
    for enemy in list.iter() {
        assert!(!enemy.has_gone());
        assert!(!enemy.is_dead());
        assert!(enemy.is_fresh());
    }
    let mut hurt = list[0].clone();
    hurt.take_damage(1);
    assert!(!hurt.is_fresh());
    let stillborn = Enemy::new(String::from("Husk"), Stats::new(0, 0, 1, 1, 1, 0), 1, false);
    assert!(!stillborn.is_fresh());
    let tired = Enemy::new(String::from("Slug"), Stats::default(), 1, true);
    assert!(!tired.is_fresh());
}

#[test]
fn xp_dropped_doubles_with_every_level_above_the_player() {
    let mut log: VecDeque<String> = VecDeque::new();
    assert_eq!(BASE_XP, 20);
    assert_eq!(at_level(1).drop_xp(1, &mut log), 20);
    assert_eq!(at_level(2).drop_xp(1, &mut log), 40);
    assert_eq!(at_level(3).drop_xp(1, &mut log), 80);
    assert_eq!(at_level(8).drop_xp(1, &mut log), 2560);
    assert_eq!(at_level(28).drop_xp(1, &mut log), 2_684_354_560);
    assert_eq!(log.len(), 5);
    assert_eq!(log[0], "Foe dropped 20 xp!");
    assert_eq!(log[3], "Foe dropped 2560 xp!");
}

#[test]
fn xp_dropped_to_a_player_at_or_above_the_level_is_the_base() {
    let mut log: VecDeque<String> = VecDeque::new();
    assert_eq!(at_level(1).drop_xp(5, &mut log), 20);
    assert_eq!(at_level(5).drop_xp(5, &mut log), 20);
    assert_eq!(at_level(0).drop_xp(u32::MAX, &mut log), 20);
}

#[test]
fn xp_fits_up_to_twenty_seven_levels_above() {
    assert!(at_level(28).xp_fits(1));
    assert!(!at_level(29).xp_fits(1));
    assert!(!at_level(u32::MAX).xp_fits(0));
    assert!(at_level(u32::MAX).xp_fits(u32::MAX - 27));
    assert!(at_level(3).xp_fits(9));
}

#[test]
fn rolls_stand_for_kinds_of_move() {
    assert_eq!(move_type_from_roll(0), MoveType::AttackMove);
    assert_eq!(move_type_from_roll(1), MoveType::MagicMove);
    assert_eq!(move_type_from_roll(2), MoveType::DefendMove);
    assert_eq!(move_type_from_roll(3), MoveType::AttackMove);
    assert_eq!(move_type_from_roll(u32::MAX), MoveType::AttackMove);
    assert_eq!(move_type_from_roll(u32::MAX - 1), MoveType::DefendMove);
}

#[test]
fn the_queue_is_filled_when_empty_and_used_up_in_order() {
    let mut enemy = spider();
    assert_eq!(enemy.turn_type_with([2, 0, 1]), Some(MoveType::DefendMove));
    assert_eq!(enemy.upcoming_moves(), vec![MoveType::AttackMove, MoveType::MagicMove]);
    assert_eq!(enemy.turn_type_with([2, 2, 2]), Some(MoveType::AttackMove));
    assert_eq!(enemy.upcoming_moves(), vec![MoveType::MagicMove]);
    assert_eq!(enemy.turn_type_with([2, 2, 2]), Some(MoveType::MagicMove));
    assert!(enemy.upcoming_moves().is_empty());
    assert_eq!(enemy.turn_type_with([4, 5, 6]), Some(MoveType::MagicMove));
    assert_eq!(enemy.upcoming_moves(), vec![MoveType::DefendMove, MoveType::AttackMove]);
    assert_eq!(enemy.health(), 27);
    assert!(!enemy.has_gone());
}

#[test]
fn a_random_queue_is_refilled_every_third_turn() {
    let mut enemy = spider();
    for turn in 0..30 {
        assert!(enemy.get_turn_type().is_some());
        assert_eq!(enemy.upcoming_moves().len(), 2 - turn % 3);
    }
}

#[test]
fn an_enemy_attack_hurts_the_target_and_takes_the_turn() {
    let mut log: VecDeque<String> = VecDeque::new();
    let mut enemy = Enemy::new(String::from("Ogre"), Stats::new(10, 0, 5, 8, 1, 0), 1, false);
    let mut player = Player::default();
    assert!(enemy.attack_with(&mut player, 7, &mut log));
    assert_eq!(player.health(), 55 - 11);
    assert!(enemy.has_gone());
    assert!(!player.has_gone());
    assert_eq!(log[0], "Ogre did 11 damage to Louie");
    assert!(!enemy.attack_with(&mut player, 7, &mut log));
    assert!(!enemy.attack_move(&mut player, &mut log));
    assert!(!enemy.defend_move(&mut log));
    assert_eq!(player.health(), 44);
    assert_eq!(log.len(), 1);
}

#[test]
fn an_enemy_attack_on_a_defending_player_is_halved() {
    let mut log: VecDeque<String> = VecDeque::new();
    let mut enemy = Enemy::new(String::from("Ogre"), Stats::new(10, 0, 5, 8, 1, 0), 1, false);
    let mut player = Player::default();
    assert!(player.defend_move(&mut log));
    assert!(enemy.attack_with(&mut player, 3, &mut log));
    assert_eq!(player.health(), 55 - 5);
    assert_eq!(log[1], "Ogre did 5 damage to Louie");
}

#[test]
fn a_random_enemy_attack_lands_in_its_range() {
    let mut log: VecDeque<String> = VecDeque::new();
    let mut enemy = Enemy::new(String::from("Ogre"), Stats::new(10, 0, 5, 8, 1, 0), 1, false);
    let mut player = Player::default();
    assert!(enemy.attack_move(&mut player, &mut log));
    assert!((8..=11).contains(&(55 - player.health())));
}

#[test]
fn an_enemy_cast_spends_mana_and_may_leave_a_status() {
    let mut log: VecDeque<String> = VecDeque::new();
    let frost = Move::new(
        String::from("Frost"),
        8,
        3,
        1,
        ElementType::Water,
        Some(Status::new(String::from("Frostburn"), 12, false, 0, 5)),
    );
    let mut enemy = Enemy::new(String::from("Mage"), Stats::new(10, 4, 5, 1, 6, 0), 1, false);
    let mut player = Player::default();
    assert_eq!(enemy.mana(), 10);
    assert!(enemy.magic_with(&mut player, &frost, 13, 100, &mut log));
    assert_eq!(enemy.mana(), 7);
    assert!(enemy.has_gone());
    assert_eq!(player.health(), 55 - (6 + 8 + 3));
    assert_eq!(player.status_count(), 1);
    assert_eq!(player.statuses()[0].amount_from_roll(0), 18);
    assert_eq!(log[0], "Mage did 17 damage to Louie");
    assert_eq!(log[1], "Frostburn applied to Louie");
    enemy.allow_move();
    enemy.use_mana(5);
    assert!(!enemy.magic_with(&mut player, &frost, 0, 0, &mut log));
    assert!(!enemy.magic_move(&mut player, &frost, &mut log));
    assert!(!enemy.has_gone());
    assert_eq!(enemy.mana(), 2);
    assert_eq!(log.len(), 2);
}

#[test]
fn an_enemy_defends_and_takes_the_turn() {
    let mut log: VecDeque<String> = VecDeque::new();
    let mut enemy = spider();
    assert!(enemy.defend_move(&mut log));
    assert!(enemy.has_gone());
    assert_eq!(enemy.stats().get_defense(), 50);
    assert_eq!(log[0], "Spider began defending for 1 turn.");
}

#[test]
fn a_cloned_enemy_is_the_same() {
    let mut log: VecDeque<String> = VecDeque::new();
    let mut enemy = spider();
    enemy.take_damage(7);
    enemy.apply_status(&Status::new(String::from("Burn"), 10, false, 0, 5), &mut log);
    let _ = enemy.turn_type_with([0, 1, 2]);
    let copy = enemy.clone();
    assert_eq!(copy.name(), "Spider");
    assert_eq!(copy.health(), 20);
    assert_eq!(copy.status_count(), 1);
    assert_eq!(copy.statuses()[0].name(), "Burn");
    assert_eq!(copy.upcoming_moves(), vec![MoveType::MagicMove, MoveType::DefendMove]);
    enemy.take_damage(7);
    assert_eq!(copy.health(), 20);
}

#[test]
fn the_enemy_reports_its_blows() {
    let mut log: VecDeque<String> = VecDeque::new();
    spider().display_attack_text(String::from("Louie"), 2, &mut log);
    assert_eq!(log[0], "Spider did 2 damage to Louie");
}
