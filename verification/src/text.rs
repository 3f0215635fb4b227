//! The lines the game reports, and how a number is written in them.

use std::collections::VecDeque;
use vstd::prelude::*;

verus! {

/// The character for one decimal digit.
pub open spec fn digit(d: nat) -> char {
    if d == 0 {
        '0'
    } else if d == 1 {
        '1'
    } else if d == 2 {
        '2'
    } else if d == 3 {
        '3'
    } else if d == 4 {
        '4'
    } else if d == 5 {
        '5'
    } else if d == 6 {
        '6'
    } else if d == 7 {
        '7'
    } else if d == 8 {
        '8'
    } else {
        '9'
    }
}

/// A number in decimal, most significant digit first, without leading zeros.
pub open spec fn decimal(n: nat) -> Seq<char>
    decreases n,
{
    if n < 10 {
        seq![digit(n)]
    } else {
        decimal(n / 10).push(digit(n % 10))
    }
}

/// "You did `damage` damage to `victim`"
pub open spec fn player_attack_line(damage: nat, victim: Seq<char>) -> Seq<char> {
    "You did "@ + decimal(damage) + " damage to "@ + victim
}

/// "`attacker` did `damage` damage to `victim`"
pub open spec fn enemy_attack_line(attacker: Seq<char>, damage: nat, victim: Seq<char>) -> Seq<
    char,
> {
    attacker + " did "@ + decimal(damage) + " damage to "@ + victim
}

/// "`who` began defending for 1 turn."
pub open spec fn defend_line(who: Seq<char>) -> Seq<char> {
    who + " began defending for 1 turn."@
}

/// "`status` applied to `who`"
pub open spec fn status_applied_line(status: Seq<char>, who: Seq<char>) -> Seq<char> {
    status + " applied to "@ + who
}

/// How a line about a status on the player ends: with nothing more.
pub open spec fn player_tick_ending() -> Seq<char> {
    ""@
}

/// How a line about a status on an enemy ends: with an exclamation mark.
pub open spec fn enemy_tick_ending() -> Seq<char> {
    "!"@
}

/// "`who` healed `amount` health from `status`", and the ending after it.
pub open spec fn status_heal_line(
    who: Seq<char>,
    amount: nat,
    status: Seq<char>,
    ending: Seq<char>,
) -> Seq<char> {
    who + " healed "@ + decimal(amount) + " health from "@ + status + ending
}

/// "`who` took `amount` damage from `status`", and the ending after it.
pub open spec fn status_damage_line(
    who: Seq<char>,
    amount: nat,
    status: Seq<char>,
    ending: Seq<char>,
) -> Seq<char> {
    who + " took "@ + decimal(amount) + " damage from "@ + status + ending
}

/// "`who` dropped `amount` xp!"
pub open spec fn xp_drop_line(who: Seq<char>, amount: nat) -> Seq<char> {
    who + " dropped "@ + decimal(amount) + " xp!"@
}

/// "The enemy died!"
pub open spec fn enemy_died_line() -> Seq<char> {
    "The enemy died!"@
}

fn digit_str(d: u32) -> (text: &'static str)
    requires
        d < 10,
    ensures
        text@ == seq![digit(d as nat)],
{
    proof {
        reveal_strlit("0");
        reveal_strlit("1");
        reveal_strlit("2");
        reveal_strlit("3");
        reveal_strlit("4");
        reveal_strlit("5");
        reveal_strlit("6");
        reveal_strlit("7");
        reveal_strlit("8");
        reveal_strlit("9");
    }
    let text = if d == 0 {
        "0"
    } else if d == 1 {
        "1"
    } else if d == 2 {
        "2"
    } else if d == 3 {
        "3"
    } else if d == 4 {
        "4"
    } else if d == 5 {
        "5"
    } else if d == 6 {
        "6"
    } else if d == 7 {
        "7"
    } else if d == 8 {
        "8"
    } else {
        "9"
    };
    text
}

/// Writes `n` in decimal.
pub fn decimal_string(n: u32) -> (text: String)
    ensures
        text@ == decimal(n as nat),
    decreases n,
{
    if n < 10 {
        String::from_str(digit_str(n))
    } else {
        let mut text = decimal_string(n / 10);
        text.append(digit_str(n % 10));
        text
    }
}

pub fn player_attack_text(damage: u32, victim: &str) -> (line: String)
    ensures
        line@ == player_attack_line(damage as nat, victim@),
{
    let mut line = String::from_str("You did ");
    let number = decimal_string(damage);
    line.append(number.as_str());
    line.append(" damage to ");
    line.append(victim);
    line
}

pub fn enemy_attack_text(attacker: &str, damage: u32, victim: &str) -> (line: String)
    ensures
        line@ == enemy_attack_line(attacker@, damage as nat, victim@),
{
    let mut line = String::from_str(attacker);
    let number = decimal_string(damage);
    line.append(" did ");
    line.append(number.as_str());
    line.append(" damage to ");
    line.append(victim);
    line
}

pub fn defend_text(who: &str) -> (line: String)
    ensures
        line@ == defend_line(who@),
{
    let mut line = String::from_str(who);
    line.append(" began defending for 1 turn.");
    line
}

pub fn status_applied_text(status: &str, who: &str) -> (line: String)
    ensures
        line@ == status_applied_line(status@, who@),
{
    let mut line = String::from_str(status);
    line.append(" applied to ");
    line.append(who);
    line
}

pub fn status_heal_text(who: &str, amount: u32, status: &str, ending: &str) -> (line: String)
    ensures
        line@ == status_heal_line(who@, amount as nat, status@, ending@),
{
    let mut line = String::from_str(who);
    let number = decimal_string(amount);
    line.append(" healed ");
    line.append(number.as_str());
    line.append(" health from ");
    line.append(status);
    line.append(ending);
    line
}

pub fn status_damage_text(who: &str, amount: u32, status: &str, ending: &str) -> (line: String)
    ensures
        line@ == status_damage_line(who@, amount as nat, status@, ending@),
{
    let mut line = String::from_str(who);
    let number = decimal_string(amount);
    line.append(" took ");
    line.append(number.as_str());
    line.append(" damage from ");
    line.append(status);
    line.append(ending);
    line
}

pub fn xp_drop_text(who: &str, amount: u32) -> (line: String)
    ensures
        line@ == xp_drop_line(who@, amount as nat),
{
    let mut line = String::from_str(who);
    let number = decimal_string(amount);
    line.append(" dropped ");
    line.append(number.as_str());
    line.append(" xp!");
    line
}

/// Appends one line to a log.
pub fn push_line(log: &mut VecDeque<String>, line: String)
    ensures
        final(log).deep_view() == old(log).deep_view().push(line@),
{
    log.push_back(line);
}

pub fn enemy_died_text() -> (line: String)
    ensures
        line@ == enemy_died_line(),
{
    String::from_str("The enemy died!")
}

} // verus!
