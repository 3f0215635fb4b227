use starstruck::entity_components::enemy::Enemy;
use starstruck::entity_components::entity::Entity;
use starstruck::entity_components::moves::{ElementType, Move};
use starstruck::entity_components::player::{LevelUpType, Player, DEFAULT_NAME};
use starstruck::entity_components::stats::Stats;
use starstruck::entity_components::status::Status;
use std::collections::VecDeque;

fn rat() -> Enemy {
    Enemy::new(String::from("Rat"), Stats::new(10, 0, 5, 2, 1, 0), 1, false)
}

fn fire_one() -> Move {
    Move::new(
        String::from("FireOne"),
        12,
        2,
        1,
        ElementType::Fire,
        Some(Status::new(String::from("Burn"), 10, false, 0, 5)),
    )
}

#[test]
fn the_default_player_is_louie_at_level_one() {
    let player = Player::default();
    assert_eq!(DEFAULT_NAME, "Louie");
    assert_eq!(player.name(), "Louie");
    assert_eq!(player.level(), 1);
    assert_eq!(player.experience(), 0);
    assert_eq!(player.max_experience(), 100);
    assert_eq!(player.health(), 55);
    assert_eq!(player.max_health(), 55);
    assert_eq!(player.mana(), 25);
    assert_eq!(player.max_mana(), 25);
    assert_eq!(player.speed(), 10);
    assert_eq!(player.magic_strength(), 10);
    assert!(!player.has_gone());
    assert_eq!(player.status_count(), 0);
}

#[test]
fn a_new_player_starts_at_its_maxima() {
    let player = Player::new(String::from("Ada"), Stats::new(3, 4, 5, 6, 7, 8), 9, 42, true);
    assert_eq!(player.name(), "Ada");
    assert_eq!(player.health(), 16);
    assert_eq!(player.max_health(), 16);
    assert_eq!(player.mana(), 10);
    assert_eq!(player.max_mana(), 10);
    assert_eq!(player.level(), 9);
    assert_eq!(player.experience(), 42);
    assert!(player.has_gone());
}

#[test]
fn xp_below_the_threshold_piles_up() {
    let mut player = Player::default();
    assert!(!player.gain_xp(99));
    assert_eq!(player.experience(), 99);
    assert!(!player.gain_xp(0));
    assert_eq!(player.experience(), 99);
}

#[test]
fn xp_across_one_threshold_signals_and_carries_over() {
    let mut player = Player::new(String::from("Ada"), Stats::default(), 1, 95, false);
    assert!(player.gain_xp(10));
    assert_eq!(player.experience(), 5);
    assert_eq!(player.level(), 1);
    assert_eq!(player.stats().get_strength(), 10);
    assert_eq!(player.max_health(), 55);
}

#[test]
fn xp_exactly_at_the_threshold_leaves_nothing_over() {
    let mut player = Player::default();
    assert!(player.gain_xp(100));
    assert_eq!(player.experience(), 0);
}

#[test]
fn xp_across_two_thresholds_signals_once_and_carries_over() {
    let mut player = Player::new(String::from("Ada"), Stats::default(), 1, 30, false);
    assert!(player.gain_xp(220));
    assert_eq!(player.experience(), 50);
    assert_eq!(player.level(), 1);
}

#[test]
fn the_largest_xp_grant_does_not_overflow() {
    let mut player = Player::new(String::from("Ada"), Stats::default(), 1, 99, false);
    assert!(player.gain_xp(u32::MAX));
    assert_eq!(player.experience(), 94);
}

#[test]
fn level_up_raises_the_chosen_stat_and_refills() {
    let mut strong = Player::default();
    strong.take_damage(30);
    strong.use_mana(10);
    assert!(strong.can_level_up(LevelUpType::Strength));
    strong.level_up(LevelUpType::Strength);
    assert_eq!(strong.level(), 2);
    assert_eq!(strong.stats().get_strength(), 11);
    assert_eq!(strong.health(), 55);
    assert_eq!(strong.mana(), 25);

    let mut wise = Player::default();
    wise.use_mana(25);
    wise.level_up(LevelUpType::Magic);
    assert_eq!(wise.level(), 2);
    assert_eq!(wise.magic_strength(), 11);
    assert_eq!(wise.stats().get_mana(), 10);
    assert_eq!(wise.max_mana(), 25);
    assert_eq!(wise.mana(), 25);
    assert_eq!(wise.stats().get_strength(), 10);
    assert_eq!(wise.stats().get_health(), 10);
    assert_eq!(wise.max_health(), 55);

    let mut hardy = Player::default();
    hardy.take_damage(54);
    hardy.level_up(LevelUpType::Health);
    assert_eq!(hardy.level(), 2);
    assert_eq!(hardy.stats().get_health(), 11);
    assert_eq!(hardy.max_health(), 60);
    assert_eq!(hardy.health(), 60);
    assert_eq!(hardy.experience(), 0);
}

#[test]
fn a_stat_at_the_top_cannot_grow() {
    let player = Player::new(String::from("Max"), Stats::new(1, 1, 1, u32::MAX, 1, 0), 1, 0, false);
    assert!(!player.can_level_up(LevelUpType::Strength));
    assert!(player.can_level_up(LevelUpType::Health));
    let brimming = Player::new(
        String::from("Brim"),
        Stats::new(1, u32::MAX, 1, 1, 1, 0),
        1,
        0,
        false,
    );
    assert!(brimming.can_level_up(LevelUpType::Magic));
    let wise = Player::new(String::from("Wise"), Stats::new(1, 1, 1, 1, u32::MAX, 0), 1, 0, false);
    assert!(!wise.can_level_up(LevelUpType::Magic));
    let old = Player::new(String::from("Old"), Stats::default(), u32::MAX, 0, false);
    assert!(!old.can_level_up(LevelUpType::Health));
}

#[test]
fn reset_stats_refills_health_and_mana() {
    let mut player = Player::default();
    player.take_damage(10);
    player.use_mana(10);
    player.heal(100);
    player.reset_stats();
    assert_eq!(player.health(), 55);
    assert_eq!(player.mana(), 25);
    assert_eq!(player.level(), 1);
}

#[test]
fn an_attack_hurts_the_target_and_takes_the_turn() {
    let mut log: VecDeque<String> = VecDeque::new();
    let mut player = Player::default();
    let mut enemy = rat();
    assert!(player.attack_with(&mut enemy, 3, &mut log));
    assert_eq!(enemy.health(), 55 - 13);
    assert!(player.has_gone());
    assert!(!enemy.has_gone());
    assert_eq!(player.health(), 55);
    assert_eq!(log.len(), 1);
    assert_eq!(log[0], "You did 13 damage to Rat");
}

#[test]
fn a_second_attack_in_the_same_turn_is_turned_down() {
    let mut log: VecDeque<String> = VecDeque::new();
    let mut player = Player::default();
    let mut enemy = rat();
    assert!(player.attack_with(&mut enemy, 0, &mut log));
    assert!(!player.attack_with(&mut enemy, 0, &mut log));
    assert!(!player.attack_move(&mut enemy, &mut log));
    assert!(!player.magic_with(&mut enemy, &fire_one(), 0, 0, &mut log));
    assert!(!player.defend_move(&mut log));
    assert_eq!(enemy.health(), 45);
    assert_eq!(enemy.status_count(), 0);
    assert_eq!(player.mana(), 25);
    assert_eq!(player.stats().get_defense(), 0);
    assert_eq!(log.len(), 1);
    player.allow_move();
    assert!(player.attack_with(&mut enemy, 0, &mut log));
    assert_eq!(enemy.health(), 35);
}

#[test]
fn an_attack_goes_through_the_defense_of_the_target() {
    let mut log: VecDeque<String> = VecDeque::new();
    let mut player = Player::default();
    let mut enemy = Enemy::new(String::from("Shell"), Stats::new(10, 0, 5, 2, 1, 30), 1, false);
    assert!(player.attack_with(&mut enemy, 4, &mut log));
    assert_eq!(enemy.health(), 55 - 9);
    assert_eq!(log[0], "You did 9 damage to Shell");
}

#[test]
fn a_random_attack_lands_in_its_range() {
    let mut log: VecDeque<String> = VecDeque::new();
    let mut player = Player::default();
    let mut enemy = rat();
    assert!(player.attack_move(&mut enemy, &mut log));
    let lost = 55 - enemy.health();
    assert!((10..=14).contains(&lost));
    assert!(player.has_gone());
    assert_eq!(log.len(), 1);
}

#[test]
fn a_cast_spends_mana_hurts_and_may_leave_a_status() {
    let mut log: VecDeque<String> = VecDeque::new();
    let mut player = Player::default();
    let mut enemy = rat();
    assert!(player.magic_with(&mut enemy, &fire_one(), 20, 19, &mut log));
    assert_eq!(player.mana(), 23);
    assert!(player.has_gone());
    assert_eq!(enemy.health(), 55 - 26);
    assert_eq!(enemy.status_count(), 1);
    let status = &enemy.statuses()[0];
    assert_eq!(status.name(), "Burn");
    assert_eq!(status.turns_left(), 5);
    assert_eq!(status.amount_from_roll(0), 20);
    assert_eq!(log.len(), 2);
    assert_eq!(log[0], "You did 26 damage to Rat");
    assert_eq!(log[1], "Burn applied to Rat");
}

#[test]
fn a_cast_whose_status_does_not_land_leaves_none() {
    let mut log: VecDeque<String> = VecDeque::new();
    let mut player = Player::default();
    let mut enemy = rat();
    assert!(player.magic_with(&mut enemy, &fire_one(), 0, 20, &mut log));
    assert_eq!(enemy.health(), 55 - 22);
    assert_eq!(enemy.status_count(), 0);
    assert_eq!(log.len(), 1);
}

#[test]
fn a_cast_without_the_mana_is_turned_down() {
    let mut log: VecDeque<String> = VecDeque::new();
    let mut player = Player::new(String::from("Dry"), Stats::new(10, 0, 10, 10, 10, 0), 1, 0, false);
    let mut enemy = rat();
    assert_eq!(player.mana(), 0);
    assert!(!player.magic_with(&mut enemy, &fire_one(), 0, 0, &mut log));
    assert!(!player.magic_move(&mut enemy, &fire_one(), &mut log));
    assert!(!player.has_gone());
    assert_eq!(enemy.health(), 55);
    assert_eq!(enemy.status_count(), 0);
    assert!(log.is_empty());
    assert!(player.attack_with(&mut enemy, 0, &mut log));
}

#[test]
fn a_cast_with_exactly_the_mana_goes_through() {
    let mut log: VecDeque<String> = VecDeque::new();
    let mut player = Player::default();
    player.use_mana(23);
    let mut enemy = rat();
    assert!(player.magic_with(&mut enemy, &fire_one(), 0, 50, &mut log));
    assert_eq!(player.mana(), 0);
}

#[test]
fn the_status_keeps_the_strength_it_was_cast_with() {
    let mut log: VecDeque<String> = VecDeque::new();
    let mut player = Player::default();
    let mut enemy = Enemy::new(String::from("Ox"), Stats::new(100, 0, 5, 2, 1, 0), 1, false);
    assert!(player.magic_with(&mut enemy, &fire_one(), 0, 0, &mut log));
    player.level_up(LevelUpType::Magic);
    player.level_up(LevelUpType::Magic);
    assert_eq!(player.magic_strength(), 12);
    let before = enemy.health();
    enemy.tick_statuses_with(&vec![0], &mut log);
    assert_eq!(before - enemy.health(), 20);
}

#[test]
fn a_random_cast_lands_in_its_range() {
    let mut log: VecDeque<String> = VecDeque::new();
    let mut player = Player::default();
    let mut enemy = rat();
    assert!(player.magic_move(&mut enemy, &fire_one(), &mut log));
    let lost = 55 - enemy.health();
    assert!((22..=37).contains(&lost));
    assert_eq!(player.mana(), 23);
    assert!(enemy.status_count() <= 1);
    assert_eq!(log.len(), 1 + enemy.status_count());
}

#[test]
fn defending_puts_the_bonus_on_and_takes_the_turn() {
    let mut log: VecDeque<String> = VecDeque::new();
    let mut player = Player::default();
    assert!(player.defend_move(&mut log));
    assert!(player.has_gone());
    assert!(player.stats().is_defending());
    assert_eq!(player.stats().get_defense(), 50);
    assert_eq!(log[0], "Louie began defending for 1 turn.");
    assert!(!player.defend_move(&mut log));
    assert_eq!(player.stats().get_defense(), 50);
    assert_eq!(log.len(), 1);
}

#[test]
fn the_player_reports_its_blows() {
    let mut log: VecDeque<String> = VecDeque::new();
    Player::default().display_attack_text(String::from("Bat"), 0, &mut log);
    assert_eq!(log[0], "You did 0 damage to Bat");
}

#[test]
fn the_default_player_is_ready_for_the_built_in_moves() {
    let moves = Move::create_move_list(&Status::create_status_list());
    assert!(Player::default().is_battle_ready(&moves));
    let wild = Player::new(String::from("Wild"), Stats::new(1, 1, 1, 1, u32::MAX, 0), 1, 0, false);
    assert!(!wild.is_battle_ready(&moves));
}
