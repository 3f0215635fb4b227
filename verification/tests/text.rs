use starstruck::text::{
    decimal_string, defend_text, enemy_attack_text, enemy_died_text, player_attack_text,
    push_line, status_applied_text, status_damage_text, status_heal_text, xp_drop_text,
};
use std::collections::VecDeque;

#[test]
fn numbers_are_written_in_decimal() {
    assert_eq!(decimal_string(0), "0");
    assert_eq!(decimal_string(7), "7");
    assert_eq!(decimal_string(10), "10");
    assert_eq!(decimal_string(109), "109");
    assert_eq!(decimal_string(4_294_967_295), "4294967295");
    for n in (0..100_000u32).step_by(37) {
        assert_eq!(decimal_string(n), format!("{}", n));
    }
}

#[test]
fn lines_read_as_expected() {
    assert_eq!(player_attack_text(13, "Spider"), "You did 13 damage to Spider");
    assert_eq!(enemy_attack_text("Spider", 2, "Louie"), "Spider did 2 damage to Louie");
    assert_eq!(defend_text("Louie"), "Louie began defending for 1 turn.");
    assert_eq!(status_applied_text("Burn", "Spider"), "Burn applied to Spider");
    assert_eq!(status_heal_text("Louie", 5, "Regen", ""), "Louie healed 5 health from Regen");
    assert_eq!(status_heal_text("Rat", 5, "Regen", "!"), "Rat healed 5 health from Regen!");
    assert_eq!(status_damage_text("Louie", 12, "Burn", ""), "Louie took 12 damage from Burn");
    assert_eq!(status_damage_text("Rat", 12, "Burn", "!"), "Rat took 12 damage from Burn!");
    assert_eq!(xp_drop_text("Spider", 20), "Spider dropped 20 xp!");
    assert_eq!(enemy_died_text(), "The enemy died!");
}

#[test]
fn lines_are_appended_at_the_end() {
    let mut log: VecDeque<String> = VecDeque::new();
    push_line(&mut log, String::from("first"));
    push_line(&mut log, String::from("second"));
    assert_eq!(log.len(), 2);
    assert_eq!(log[0], "first");
    assert_eq!(log[1], "second");
}
