//! The encounter: who may act, what a turn does, and what follows a death.
//!
//! The game is driven from outside, one event at a time. A key is handed to
//! `handle_key`, which moves between screens and lets the player act; then
//! `advance` lets the enemy act and looks after deaths and the end of the
//! turn. Each of the two also comes in a form that takes its rolls as
//! arguments, and says exactly what the game looks like afterwards.

use crate::dice::{random_rolls, random_u32};
use crate::entity_components::enemy::{
    enemy_catalog, enemy_views, lemma_xp_reward_grows, xp_reward, Enemy, EnemyView,
};
use crate::entity_components::entity::{
    all_fit_caster, battle_ready, casters_fit, spell_lines, Entity,
};
use crate::entity_components::moves::{
    available_prefix, lemma_available_prefix, lemma_available_prefix_grows, move_catalog,
    move_views, Move, MoveType, MoveView,
};
use crate::entity_components::player::{LevelUpType, Player, PlayerView};
use crate::entity_components::status::{status_catalog, status_views, Status, StatusView};
use crate::text::{
    defend_line, enemy_attack_line, enemy_died_line, enemy_died_text, enemy_tick_ending,
    player_attack_line, player_tick_ending, push_line, xp_drop_line,
};
use std::collections::VecDeque;
use vstd::prelude::*;

verus! {

/// The number of lines the log keeps.
pub const MAX_ATTACK_STR_HISTORY: usize = 200;

/// The screen the game is on.
#[derive(Clone, Copy, Debug, PartialEq, Eq)]
pub enum CurrentScreen {
    /// The fight itself.
    Main,
    /// The player has filled a level and chooses a stat to raise.
    LevelingUp,
    /// The player chooses a magic move.
    Magic,
    /// A warning is shown.
    Warning,
    /// The player has died.
    Died,
    /// The player is asked whether to leave.
    Exiting,
}

/// A key, as far as the game tells keys apart.
#[derive(Clone, Copy, Debug, PartialEq, Eq)]
pub enum KeyInput {
    Char(char),
    Up,
    Down,
    Enter,
    Esc,
    Other,
}

/// What the player wants from one event.
#[derive(Clone, Copy, Debug, PartialEq, Eq)]
pub enum Intent {
    Attack,
    /// Cast the move at this place of the list of moves.
    Magic(usize),
    Defend,
    /// Go up the level that is waiting, with this stat.
    LevelUp(LevelUpType),
    /// Nothing but letting the game move on.
    Wait,
}

/// The rolls one look after deaths and the end of a turn may use.
pub struct CheckRolls {
    /// Picks the next enemy, should the present one be dead.
    pub pick: u32,
    /// One roll for each status on the player, in order.
    pub player: Vec<u32>,
    /// One roll for each status on the enemy, in order.
    pub enemy: Vec<u32>,
}

/// The rolls one `advance` may use.
pub struct StepRolls {
    /// For the look after deaths before the enemy acts.
    pub before: CheckRolls,
    /// For a new queue of enemy moves, should the old one have run out.
    pub queue: [u32; 3],
    /// For the amount of the enemy's blow.
    pub amount: u32,
    /// For the chance that the enemy's move applies its status.
    pub chance: u32,
    /// For the look after deaths once the enemy has acted.
    pub after: CheckRolls,
}

/// The state of a game.
pub struct GameState {
    player: Player,
    enemy: Enemy,
    is_playing: bool,
    enemy_list: Vec<Enemy>,
    status_list: Vec<Status>,
    move_list: Vec<Move>,
    move_list_available_len: usize,
    current_screen: CurrentScreen,
    cur_move_list_idx: usize,
    attack_text: VecDeque<String>,
    last_screen: CurrentScreen,
    warning_text: String,
}

/// The state of a game as plain values.
pub struct GameView {
    pub player: PlayerView,
    pub enemy: EnemyView,
    pub is_playing: bool,
    /// The enemies a new opponent is drawn from.
    pub enemies: Seq<EnemyView>,
    pub statuses: Seq<StatusView>,
    /// The moves of the game, in rising order of level.
    pub moves: Seq<MoveView>,
    /// How many of the moves, from the first on, the player may choose.
    pub available: nat,
    pub screen: CurrentScreen,
    /// The place of the move the player has chosen.
    pub selected: nat,
    /// The lines reported so far, the oldest first.
    pub log: Seq<Seq<char>>,
    /// The screen to go back to.
    pub last_screen: CurrentScreen,
    pub warning: Seq<char>,
}

/// The warning shown when a cast is turned down.
pub open spec fn magic_warning() -> Seq<char> {
    "Could not perform magic move! Have enough mana?"@
}

/// The enemies a player of the given level may meet: those at most two
/// levels above it, in their old order.
pub open spec fn fightable(enemies: Seq<EnemyView>, player_level: nat) -> Seq<EnemyView>
    decreases enemies.len(),
{
    if enemies.len() == 0 {
        enemies
    } else if enemies.last().body.level <= player_level + 2 {
        fightable(enemies.drop_last(), player_level).push(enemies.last())
    } else {
        fightable(enemies.drop_last(), player_level)
    }
}

/// The enemy a roll picks among those a player of the given level may meet.
pub open spec fn picked(enemies: Seq<EnemyView>, player_level: nat, pick: nat) -> EnemyView {
    let pool = fightable(enemies, player_level);
    pool[(pick % pool.len()) as int]
}

/// The log cut down to its newest `MAX_ATTACK_STR_HISTORY` lines.
pub open spec fn trimmed(log: Seq<Seq<char>>) -> Seq<Seq<char>> {
    if log.len() > MAX_ATTACK_STR_HISTORY {
        log.skip(log.len() - MAX_ATTACK_STR_HISTORY)
    } else {
        log
    }
}

/// The stat a key stands for on the level-up screen.
pub open spec fn level_up_choice(key: KeyInput) -> Option<LevelUpType> {
    match key {
        KeyInput::Char(c) => if c == '1' {
            Some(LevelUpType::Strength)
        } else if c == '2' {
            Some(LevelUpType::Magic)
        } else if c == '3' {
            Some(LevelUpType::Health)
        } else {
            None
        },
        _ => None,
    }
}

/// Whether the key is the character given.
pub open spec fn is_char(key: KeyInput, wanted: char) -> bool {
    match key {
        KeyInput::Char(c) => c == wanted,
        _ => false,
    }
}

impl GameView {
    /// A game at its start: the catalogs are the built-in ones, the log is
    /// empty, and the game is on unless the player is dead already.
    pub open spec fn opening(player: PlayerView, enemy: EnemyView) -> GameView {
        let statuses = status_catalog();
        let moves = move_catalog(statuses);
        GameView {
            player,
            enemy,
            is_playing: !player.body.is_dead(),
            enemies: enemy_catalog(),
            statuses,
            moves,
            available: available_prefix(moves, player.body.level),
            screen: CurrentScreen::Main,
            selected: 0,
            log: Seq::empty(),
            last_screen: CurrentScreen::Main,
            warning: Seq::empty(),
        }
    }

    /// What every step of the game takes for granted and leaves in place:
    /// both fighters and every enemy in the catalog are ready for battle,
    /// every enemy in the catalog is fresh, the experience the enemy would
    /// drop fits a `u32`, there is an enemy the player may meet, and the
    /// choice of moves is in line with the player's level.
    pub open spec fn wf(self) -> bool {
        &&& battle_ready(self.player.body, self.moves)
        &&& battle_ready(self.enemy.body, self.moves)
        &&& self.enemy.xp_drop(self.player.body.level) <= u32::MAX
        &&& forall|i: int|
            0 <= i < self.enemies.len() ==> {
                &&& battle_ready((#[trigger] self.enemies[i]).body, self.moves)
                &&& self.enemies[i].body.is_fresh()
            }
        &&& fightable(self.enemies, self.player.body.level).len() > 0
        &&& self.available == available_prefix(self.moves, self.player.body.level)
        &&& (self.selected < self.available || self.selected == 0)
    }

    /// On another screen, with the present one remembered.
    pub open spec fn screen_changed(self, screen: CurrentScreen) -> GameView {
        GameView { last_screen: self.screen, screen, ..self }
    }

    /// On another screen, with nothing remembered.
    pub open spec fn screen_set(self, screen: CurrentScreen) -> GameView {
        GameView { screen, ..self }
    }

    /// Showing a warning, with the present screen remembered.
    pub open spec fn warned(self, warning: Seq<char>) -> GameView {
        GameView { warning, ..self }.screen_changed(CurrentScreen::Warning)
    }

    /// With the log cut down to its newest lines.
    pub open spec fn log_trimmed(self) -> GameView {
        GameView { log: trimmed(self.log), ..self }
    }

    /// Whether the player may act: the game is on, the player has not had
    /// its turn, and it is at least as fast as the enemy or the enemy has
    /// had its turn.
    pub open spec fn player_may_act(self) -> bool {
        &&& self.is_playing
        &&& !self.player.body.has_gone
        &&& (self.player.body.stats.speed >= self.enemy.body.stats.speed
            || self.enemy.body.has_gone)
    }

    /// Whether the enemy may act: the game is on, the enemy is alive and
    /// has not had its turn, and it is faster than the player or the player
    /// has had its turn.
    pub open spec fn enemy_may_act(self) -> bool {
        &&& self.is_playing
        &&& !self.enemy.body.is_dead()
        &&& !self.enemy.body.has_gone
        &&& (self.enemy.body.stats.speed > self.player.body.stats.speed
            || self.player.body.has_gone)
    }

    /// The move the player has chosen.
    pub open spec fn selected_move(self) -> MoveView {
        self.moves[self.selected as int]
    }

    /// Whether a turn of the given kind is carried out for the player. A
    /// cast needs a chosen move within the player's choice and the mana to
    /// pay for it.
    pub open spec fn player_turn_succeeds(self, kind: MoveType) -> bool {
        &&& self.player_may_act()
        &&& match kind {
            MoveType::AttackMove => true,
            MoveType::MagicMove => self.selected < self.available && self.selected
                < self.moves.len() && self.player.body.can_cast(self.selected_move()),
            MoveType::DefendMove => true,
        }
    }

    /// The game after the player has attacked with the roll given.
    pub open spec fn player_attacked(self, roll: nat) -> GameView {
        GameView {
            player: self.player.with_body(self.player.body.gone()),
            enemy: self.enemy.with_body(self.enemy.body.struck(self.player.body, roll)),
            log: self.log.push(
                player_attack_line(
                    self.enemy.body.blow(self.player.body, roll),
                    self.enemy.body.name,
                ),
            ),
            ..self
        }
    }

    /// The game after the player has cast the chosen move with the rolls
    /// given.
    pub open spec fn player_cast(self, amount_roll: nat, chance_roll: nat) -> GameView {
        let the_move = self.selected_move();
        GameView {
            player: self.player.with_body(self.player.body.after_cast(the_move)),
            enemy: self.enemy.with_body(
                self.enemy.body.spellbound(self.player.body, the_move, amount_roll, chance_roll),
            ),
            log: self.log + spell_lines(
                player_attack_line(
                    self.enemy.body.spell_blow(self.player.body, the_move, amount_roll),
                    self.enemy.body.name,
                ),
                self.enemy.body.name,
                the_move,
                chance_roll,
            ),
            ..self
        }
    }

    /// The game after the player has started to defend.
    pub open spec fn player_defended(self) -> GameView {
        GameView {
            player: self.player.with_body(self.player.body.on_guard().gone()),
            log: self.log.push(defend_line(self.player.body.name)),
            ..self
        }
    }

    /// The game after the player has tried a turn of the given kind. A turn
    /// that is not carried out changes nothing.
    pub open spec fn player_turn(self, kind: MoveType, amount_roll: nat, chance_roll: nat) -> GameView {
        if !self.player_turn_succeeds(kind) {
            self
        } else {
            match kind {
                MoveType::AttackMove => self.player_attacked(amount_roll),
                MoveType::MagicMove => self.player_cast(amount_roll, chance_roll),
                MoveType::DefendMove => self.player_defended(),
            }
        }
    }

    /// How many of the moves, from the first on, the enemy may use.
    pub open spec fn enemy_move_count(self) -> nat {
        available_prefix(self.moves, self.enemy.body.level)
    }

    /// The move the enemy casts: the last one within its reach.
    pub open spec fn enemy_spell(self) -> MoveView {
        self.moves[self.enemy_move_count() - 1]
    }

    /// The game after the enemy has attacked with the roll given.
    pub open spec fn enemy_attacked(self, roll: nat) -> GameView {
        GameView {
            enemy: self.enemy.with_body(self.enemy.body.gone()),
            player: self.player.with_body(self.player.body.struck(self.enemy.body, roll)),
            log: self.log.push(
                enemy_attack_line(
                    self.enemy.body.name,
                    self.player.body.blow(self.enemy.body, roll),
                    self.player.body.name,
                ),
            ),
            ..self
        }
    }

    /// Whether the enemy has a move to cast and the mana for it.
    pub open spec fn enemy_can_cast(self) -> bool {
        self.enemy_move_count() > 0 && self.enemy.body.can_cast(self.enemy_spell())
    }

    /// The game after the enemy has tried to cast with the rolls given. An
    /// enemy without a move in reach, or without the mana, does nothing.
    pub open spec fn enemy_cast(self, amount_roll: nat, chance_roll: nat) -> GameView {
        if !self.enemy_can_cast() {
            self
        } else {
            let the_move = self.enemy_spell();
            GameView {
                enemy: self.enemy.with_body(self.enemy.body.after_cast(the_move)),
                player: self.player.with_body(
                    self.player.body.spellbound(
                        self.enemy.body,
                        the_move,
                        amount_roll,
                        chance_roll,
                    ),
                ),
                log: self.log + spell_lines(
                    enemy_attack_line(
                        self.enemy.body.name,
                        self.player.body.spell_blow(self.enemy.body, the_move, amount_roll),
                        self.player.body.name,
                    ),
                    self.player.body.name,
                    the_move,
                    chance_roll,
                ),
                ..self
            }
        }
    }

    /// The game after the enemy has started to defend.
    pub open spec fn enemy_defended(self) -> GameView {
        GameView {
            enemy: self.enemy.with_body(self.enemy.body.on_guard().gone()),
            log: self.log.push(defend_line(self.enemy.body.name)),
            ..self
        }
    }

    /// The game after the enemy has had its chance to act. An enemy that
    /// may act takes the next kind of move off its queue, filled anew from
    /// `queue_rolls` where it had run out, and tries that move.
    pub open spec fn enemy_turn(self, queue_rolls: Seq<u32>, amount_roll: nat, chance_roll: nat) -> GameView {
        if !self.enemy_may_act() {
            self
        } else {
            let ready = GameView { enemy: self.enemy.after_planning(queue_rolls), ..self };
            match self.enemy.next_move(queue_rolls) {
                MoveType::AttackMove => ready.enemy_attacked(amount_roll),
                MoveType::MagicMove => ready.enemy_cast(amount_roll, chance_roll),
                MoveType::DefendMove => ready.enemy_defended(),
            }
        }
    }

    /// The game after the end of a turn: both stop defending, the statuses
    /// act on the player and then on the enemy, and both may move again.
    pub open spec fn turn_ended(self, player_rolls: Seq<u32>, enemy_rolls: Seq<u32>) -> GameView {
        let player_body = self.player.body.off_guard();
        let enemy_body = self.enemy.body.off_guard();
        GameView {
            player: self.player.with_body(player_body.ticked(player_rolls).rested()),
            enemy: self.enemy.with_body(enemy_body.ticked(enemy_rolls).rested()),
            log: self.log + player_body.tick_lines(player_rolls, player_tick_ending())
                + enemy_body.tick_lines(enemy_rolls, enemy_tick_ending()),
            ..self
        }
    }

    /// Whether the player or the enemy is dead.
    pub open spec fn someone_died(self) -> bool {
        self.player.body.is_dead() || self.enemy.body.is_dead()
    }

    /// The enemy a roll picks among those the player may meet.
    pub open spec fn next_enemy(self, pick: nat) -> EnemyView {
        picked(self.enemies, self.player.body.level, pick)
    }

    /// The game after a look for the dead. A dead player ends the game. A
    /// dead enemy drops its experience to the player, which may call for a
    /// level-up, and gives way to the enemy that `pick` chooses.
    pub open spec fn entities_checked(self, pick: nat) -> GameView {
        if self.player.body.is_dead() {
            GameView { screen: CurrentScreen::Died, is_playing: false, ..self }
        } else if self.enemy.body.is_dead() {
            let xp = self.enemy.xp_drop(self.player.body.level);
            GameView {
                player: self.player.with_xp_gained(xp),
                enemy: self.next_enemy(pick),
                screen: if self.player.levels_with(xp) {
                    CurrentScreen::LevelingUp
                } else {
                    self.screen
                },
                log: self.log.push(enemy_died_line()).push(
                    xp_drop_line(self.enemy.body.name, xp),
                ),
                ..self
            }
        } else {
            self
        }
    }

    /// Whether the enemy lies dead before a living player.
    pub open spec fn enemy_was_killed(self) -> bool {
        !self.player.body.is_dead() && self.enemy.body.is_dead()
    }

    /// Whether `after` is this game with the killed enemy settled: the
    /// player has what the enemy dropped, once, and a fresh enemy of the
    /// catalog, within two levels of the player, stands in its place.
    pub open spec fn kill_settled(self, after: GameView) -> bool {
        &&& after.player.xp == self.player.xp_after(self.enemy.xp_drop(self.player.body.level))
        &&& self.enemies.contains(after.enemy)
        &&& after.enemy.body.is_fresh()
        &&& after.enemy.body.level <= self.player.body.level + 2
    }

    /// Whether a turn has just begun: both may move and neither defends.
    pub open spec fn turn_begins(self) -> bool {
        &&& !self.player.body.has_gone
        &&& !self.enemy.body.has_gone
        &&& !self.player.body.stats.is_defending
        &&& !self.enemy.body.stats.is_defending
    }

    /// Whether a look after the state of the fight ends the turn: both have
    /// had their turn, or one of them is dead.
    pub open spec fn turn_is_over(self) -> bool {
        (self.player.body.has_gone && self.enemy.body.has_gone) || self.someone_died()
    }

    /// The game after a look after the state of the fight: the dead are
    /// dealt with first; if the turn is over it is ended, and the dead are
    /// looked for once more, since a status may have finished someone off.
    pub open spec fn entity_check(self, rolls: CheckRolls) -> GameView {
        let checked = self.entities_checked(rolls.pick as nat);
        if self.turn_is_over() {
            checked.turn_ended(rolls.player@, rolls.enemy@).entities_checked(rolls.pick as nat)
        } else {
            checked
        }
    }

    /// The game after it has moved on by one event: while it is on, the
    /// state of the fight is looked after, the enemy gets its chance to
    /// act, the state of the fight is looked after again, and the log is cut
    /// down to size.
    pub open spec fn advanced(self, rolls: StepRolls) -> GameView {
        if !self.is_playing {
            self
        } else {
            self.entity_check(rolls.before).enemy_turn(
                rolls.queue@,
                rolls.amount as nat,
                rolls.chance as nat,
            ).entity_check(rolls.after).log_trimmed()
        }
    }

    /// The game with the enemy that `pick` chooses in place of the present
    /// one.
    pub open spec fn encounter_started(self, pick: nat) -> GameView {
        GameView { enemy: self.next_enemy(pick), ..self }
    }

    /// Whether the level and the chosen stat can grow, and the player is
    /// still ready for battle once they have.
    pub open spec fn can_grow(self, choice: LevelUpType) -> bool {
        &&& self.player.can_level_up(choice)
        &&& self.player.grown(choice).max_attack_damage() <= u32::MAX
        &&& casters_fit(self.moves, self.player.grown(choice).magic_strength)
    }

    /// The game after the player has gone up a level with the stat chosen:
    /// the choice of moves follows the new level, and the fight goes on.
    pub open spec fn leveled(self, choice: LevelUpType) -> GameView {
        GameView {
            player: self.player.leveled(choice),
            available: available_prefix(self.moves, self.player.body.level + 1),
            screen: CurrentScreen::Main,
            ..self
        }
    }

    /// The choice of move after one step up the list.
    pub open spec fn selection_up(self) -> GameView {
        if self.selected > 0 {
            GameView { selected: (self.selected - 1) as nat, ..self }
        } else {
            self
        }
    }

    /// The choice of move after one step down the list, which ends with the
    /// last move the player may choose.
    pub open spec fn selection_down(self) -> GameView {
        if self.selected + 1 < self.available {
            GameView { selected: self.selected + 1, ..self }
        } else {
            self
        }
    }

    /// The game with the move at `index` chosen.
    pub open spec fn with_selected(self, index: nat) -> GameView {
        GameView { selected: index, ..self }
    }

    /// Whether an intent is carried out. A turn in the fight is not, while a
    /// level-up is waiting, nor is a cast of a move beyond the player's
    /// choice; a level-up is only while one is waiting.
    pub open spec fn intent_succeeds(self, intent: Intent) -> bool {
        match intent {
            Intent::Attack => !(self.screen is LevelingUp) && self.player_turn_succeeds(
                MoveType::AttackMove,
            ),
            Intent::Magic(index) => !(self.screen is LevelingUp) && index < self.available
                && self.with_selected(index as nat).player_turn_succeeds(MoveType::MagicMove),
            Intent::Defend => !(self.screen is LevelingUp) && self.player_turn_succeeds(
                MoveType::DefendMove,
            ),
            Intent::LevelUp(choice) => self.screen is LevelingUp,
            Intent::Wait => true,
        }
    }

    /// The game after an intent, before it moves on. An intent that is not
    /// carried out changes nothing.
    pub open spec fn intent_applied(self, intent: Intent, amount_roll: nat, chance_roll: nat) -> GameView {
        if !self.intent_succeeds(intent) {
            self
        } else {
            match intent {
                Intent::Attack => self.player_turn(MoveType::AttackMove, amount_roll, chance_roll),
                Intent::Magic(index) => self.with_selected(index as nat).player_turn(
                    MoveType::MagicMove,
                    amount_roll,
                    chance_roll,
                ),
                Intent::Defend => self.player_turn(MoveType::DefendMove, amount_roll, chance_roll),
                Intent::LevelUp(choice) => self.leveled(choice),
                Intent::Wait => self,
            }
        }
    }

    /// What an intent asks of the machine: a level-up must have room to
    /// grow.
    pub open spec fn intent_fits(self, intent: Intent) -> bool {
        match intent {
            Intent::LevelUp(choice) => self.screen is LevelingUp ==> self.can_grow(choice),
            _ => true,
        }
    }

    /// The game after one event: the intent is applied, then the game moves
    /// on.
    pub open spec fn intent_processed(
        self,
        intent: Intent,
        amount_roll: nat,
        chance_roll: nat,
        rolls: StepRolls,
    ) -> GameView {
        self.intent_applied(intent, amount_roll, chance_roll).advanced(rolls)
    }

    /// Whether the key ends the game: it is the `y` that confirms leaving.
    pub open spec fn key_quits(self, key: KeyInput) -> bool {
        self.screen is Exiting && is_char(key, 'y')
    }

    /// The game after a key on the main screen.
    pub open spec fn main_key(self, key: KeyInput, amount_roll: nat, chance_roll: nat) -> GameView {
        if is_char(key, 'q') {
            self.screen_changed(CurrentScreen::Exiting)
        } else if is_char(key, '1') {
            self.player_turn(MoveType::AttackMove, amount_roll, chance_roll)
        } else if is_char(key, '2') {
            self.screen_changed(CurrentScreen::Magic)
        } else if is_char(key, '3') {
            self.player_turn(MoveType::DefendMove, amount_roll, chance_roll)
        } else {
            self
        }
    }

    /// The game after a key on the level-up screen. The level-up waits
    /// until one of the three stats is chosen.
    pub open spec fn level_up_key(self, key: KeyInput) -> GameView {
        if is_char(key, 'q') {
            self.screen_changed(CurrentScreen::Exiting)
        } else {
            match level_up_choice(key) {
                Some(choice) => self.leveled(choice),
                None => self,
            }
        }
    }

    /// The game after a key on the screen of magic moves.
    pub open spec fn magic_key(self, key: KeyInput, amount_roll: nat, chance_roll: nat) -> GameView {
        if is_char(key, 'q') || key is Esc {
            self.screen_changed(CurrentScreen::Main)
        } else if key is Up {
            self.selection_up()
        } else if key is Down {
            self.selection_down()
        } else if key is Enter {
            if self.player_turn_succeeds(MoveType::MagicMove) {
                self.player_turn(MoveType::MagicMove, amount_roll, chance_roll).screen_changed(
                    self.last_screen,
                )
            } else {
                self.warned(magic_warning())
            }
        } else {
            self
        }
    }

    /// The game after a key, with the rolls given for the case that the key
    /// makes the player act.
    pub open spec fn key_handled(self, key: KeyInput, amount_roll: nat, chance_roll: nat) -> GameView {
        match self.screen {
            CurrentScreen::Main => self.main_key(key, amount_roll, chance_roll),
            CurrentScreen::LevelingUp => self.level_up_key(key),
            CurrentScreen::Magic => self.magic_key(key, amount_roll, chance_roll),
            CurrentScreen::Warning => if is_char(key, 'q') || key is Esc || key is Enter {
                self.screen_set(self.last_screen)
            } else {
                self
            },
            CurrentScreen::Died => if is_char(key, 'q') {
                self.screen_changed(CurrentScreen::Exiting)
            } else {
                self
            },
            CurrentScreen::Exiting => if is_char(key, 'n') {
                self.screen_set(self.last_screen)
            } else {
                self
            },
        }
    }

    /// What a key asks of the machine: a level-up must have room to grow.
    pub open spec fn key_fits(self, key: KeyInput) -> bool {
        self.screen is LevelingUp && !is_char(key, 'q') ==> match level_up_choice(key) {
            Some(choice) => self.can_grow(choice),
            None => true,
        }
    }
}

/// What `fightable` keeps: nothing but enemies of the list that are within
/// two levels of the player, and every one of those.
pub proof fn lemma_fightable(enemies: Seq<EnemyView>, player_level: nat)
    ensures
        fightable(enemies, player_level).len() <= enemies.len(),
        forall|i: int|
            0 <= i < fightable(enemies, player_level).len() ==> {
                let enemy = #[trigger] fightable(enemies, player_level)[i];
                enemy.body.level <= player_level + 2 && enemies.contains(enemy)
            },
        forall|j: int|
            0 <= j < enemies.len() && (#[trigger] enemies[j]).body.level <= player_level + 2
                ==> fightable(enemies, player_level).contains(enemies[j]),
    decreases enemies.len(),
{
    if enemies.len() > 0 {
        let front = enemies.drop_last();
        let kept = fightable(enemies, player_level);
        let kept_front = fightable(front, player_level);
        lemma_fightable(front, player_level);
        assert forall|i: int| 0 <= i < kept.len() implies {
            let enemy = #[trigger] kept[i];
            enemy.body.level <= player_level + 2 && enemies.contains(enemy)
        } by {
            if i < kept_front.len() {
                let j = choose|j: int| 0 <= j < front.len() && front[j] == kept_front[i];
                assert(enemies[j] == kept[i]);
            }
        }
        assert forall|j: int|
            0 <= j < enemies.len() && (#[trigger] enemies[j]).body.level <= player_level
                + 2 implies kept.contains(enemies[j]) by {
            if j < front.len() {
                let i = choose|i: int| 0 <= i < kept_front.len() && kept_front[i] == front[j];
                assert(kept[i] == enemies[j]);
            } else {
                assert(kept[kept.len() - 1] == enemies[j]);
            }
        }
    }
}

/// A player that had someone to fight still has after a level-up.
pub proof fn lemma_fightable_grows(enemies: Seq<EnemyView>, lower: nat, higher: nat)
    requires
        lower <= higher,
        fightable(enemies, lower).len() > 0,
    ensures
        fightable(enemies, higher).len() > 0,
{
    lemma_fightable(enemies, lower);
    lemma_fightable(enemies, higher);
    let enemy = fightable(enemies, lower)[0];
    let j = choose|j: int| 0 <= j < enemies.len() && enemies[j] == enemy;
    assert(fightable(enemies, higher).contains(enemies[j]));
}

/// The enemy a roll picks is one of the list, within two levels of the
/// player, so that what it drops is at most 80.
pub proof fn lemma_picked(enemies: Seq<EnemyView>, player_level: nat, pick: nat)
    requires
        fightable(enemies, player_level).len() > 0,
    ensures
        enemies.contains(picked(enemies, player_level, pick)),
        picked(enemies, player_level, pick).body.level <= player_level + 2,
        picked(enemies, player_level, pick).xp_drop(player_level) <= 80,
{
    let pool = fightable(enemies, player_level);
    lemma_fightable(enemies, player_level);
    let at = (pick % pool.len()) as int;
    assert(0 <= at < pool.len()) by (nonlinear_arith)
        requires
            at == (pick % pool.len()) as int,
            pool.len() > 0,
    ;
    let enemy = pool[at];
    lemma_xp_reward_grows(enemy.levels_above(player_level), 2);
    assert(xp_reward(2) == 80) by {
        reveal_with_fuel(xp_reward, 3);
    }
}

/// The next enemy of a game is one of its catalog, within two levels of the
/// player.
pub proof fn lemma_next_enemy(game: GameView, pick: nat)
    requires
        fightable(game.enemies, game.player.body.level).len() > 0,
    ensures
        game.enemies.contains(game.next_enemy(pick)),
        game.next_enemy(pick).body.level <= game.player.body.level + 2,
        game.next_enemy(pick).xp_drop(game.player.body.level) <= 80,
{
    lemma_picked(game.enemies, game.player.body.level, pick);
}

/// In a well-formed game the next enemy is a fresh one of the catalog,
/// within two levels of the player and ready for battle.
pub proof fn lemma_next_enemy_fresh(game: GameView, pick: nat)
    requires
        game.wf(),
    ensures
        game.enemies.contains(game.next_enemy(pick)),
        game.next_enemy(pick).body.is_fresh(),
        game.next_enemy(pick).body.level <= game.player.body.level + 2,
        battle_ready(game.next_enemy(pick).body, game.moves),
{
    lemma_next_enemy(game, pick);
    let next = game.next_enemy(pick);
    let j = choose|j: int| 0 <= j < game.enemies.len() && game.enemies[j] == next;
    assert(battle_ready(game.enemies[j].body, game.moves));
}

/// A turn of the player leaves a well-formed game well formed.
pub proof fn lemma_player_turn_wf(game: GameView, kind: MoveType, amount_roll: nat, chance_roll: nat)
    requires
        game.wf(),
    ensures
        game.player_turn(kind, amount_roll, chance_roll).wf(),
{
}

/// A turn of the enemy leaves a well-formed game well formed.
pub proof fn lemma_enemy_turn_wf(
    game: GameView,
    queue_rolls: Seq<u32>,
    amount_roll: nat,
    chance_roll: nat,
)
    requires
        game.wf(),
    ensures
        game.enemy_turn(queue_rolls, amount_roll, chance_roll).wf(),
{
    if game.enemy_may_act() {
        let ready = GameView { enemy: game.enemy.after_planning(queue_rolls), ..game };
        lemma_available_prefix(ready.moves, ready.enemy.body.level);
    }
}

/// The end of a turn leaves a well-formed game well formed.
pub proof fn lemma_turn_ended_wf(game: GameView, player_rolls: Seq<u32>, enemy_rolls: Seq<u32>)
    requires
        game.wf(),
    ensures
        game.turn_ended(player_rolls, enemy_rolls).wf(),
{
    crate::entity_components::entity::lemma_ticked_frame(
        game.player.body.off_guard(),
        player_rolls,
    );
    crate::entity_components::entity::lemma_ticked_frame(game.enemy.body.off_guard(), enemy_rolls);
}

/// A look for the dead leaves a well-formed game well formed.
pub proof fn lemma_entities_checked_wf(game: GameView, pick: nat)
    requires
        game.wf(),
    ensures
        game.entities_checked(pick).wf(),
{
    if !game.player.body.is_dead() && game.enemy.body.is_dead() {
        lemma_next_enemy(game, pick);
        let next = game.next_enemy(pick);
        let j = choose|j: int| 0 <= j < game.enemies.len() && game.enemies[j] == next;
        assert(battle_ready(game.enemies[j].body, game.moves));
    }
}

/// A look after the state of the fight leaves a well-formed game well
/// formed.
pub proof fn lemma_entity_check_wf(game: GameView, rolls: CheckRolls)
    requires
        game.wf(),
    ensures
        game.entity_check(rolls).wf(),
{
    let checked = game.entities_checked(rolls.pick as nat);
    lemma_entities_checked_wf(game, rolls.pick as nat);
    if game.turn_is_over() {
        lemma_turn_ended_wf(checked, rolls.player@, rolls.enemy@);
        lemma_entities_checked_wf(
            checked.turn_ended(rolls.player@, rolls.enemy@),
            rolls.pick as nat,
        );
    }
}

/// A new encounter leaves a well-formed game well formed.
pub proof fn lemma_encounter_started_wf(game: GameView, pick: nat)
    requires
        game.wf(),
    ensures
        game.encounter_started(pick).wf(),
{
    lemma_next_enemy(game, pick);
    let next = game.next_enemy(pick);
    let j = choose|j: int| 0 <= j < game.enemies.len() && game.enemies[j] == next;
    assert(battle_ready(game.enemies[j].body, game.moves));
}

/// A level-up that has room to grow leaves a well-formed game well formed.
pub proof fn lemma_leveled_wf(game: GameView, choice: LevelUpType)
    requires
        game.wf(),
        game.can_grow(choice),
    ensures
        game.leveled(choice).wf(),
{
    let level = game.player.body.level;
    lemma_xp_reward_grows(game.enemy.levels_above(level + 1), game.enemy.levels_above(level));
    lemma_fightable_grows(game.enemies, level, level + 1);
    lemma_available_prefix_grows(game.moves, level, level + 1);
}

/// An intent leaves a well-formed game well formed, as long as a level-up it
/// brings about has room to grow.
pub proof fn lemma_intent_applied_wf(
    game: GameView,
    intent: Intent,
    amount_roll: nat,
    chance_roll: nat,
)
    requires
        game.wf(),
        game.intent_fits(intent),
    ensures
        game.intent_applied(intent, amount_roll, chance_roll).wf(),
{
    if game.intent_succeeds(intent) {
        match intent {
            Intent::Attack => {
                lemma_player_turn_wf(game, MoveType::AttackMove, amount_roll, chance_roll);
            },
            Intent::Magic(index) => {
                lemma_player_turn_wf(
                    game.with_selected(index as nat),
                    MoveType::MagicMove,
                    amount_roll,
                    chance_roll,
                );
            },
            Intent::Defend => {
                lemma_player_turn_wf(game, MoveType::DefendMove, amount_roll, chance_roll);
            },
            Intent::LevelUp(choice) => {
                lemma_leveled_wf(game, choice);
            },
            Intent::Wait => {},
        }
    }
}

/// A key leaves a well-formed game well formed, as long as a level-up it
/// brings about has room to grow.
pub proof fn lemma_key_handled_wf(game: GameView, key: KeyInput, amount_roll: nat, chance_roll: nat)
    requires
        game.wf(),
        game.key_fits(key),
    ensures
        game.key_handled(key, amount_roll, chance_roll).wf(),
{
    lemma_player_turn_wf(game, MoveType::AttackMove, amount_roll, chance_roll);
    lemma_player_turn_wf(game, MoveType::MagicMove, amount_roll, chance_roll);
    lemma_player_turn_wf(game, MoveType::DefendMove, amount_roll, chance_roll);
    if game.screen is LevelingUp && !is_char(key, 'q') {
        match level_up_choice(key) {
            Some(choice) => {
                lemma_leveled_wf(game, choice);
            },
            None => {},
        }
    }
}

impl View for GameState {
    type V = GameView;

    closed spec fn view(&self) -> GameView {
        GameView {
            player: self.player@,
            enemy: self.enemy@,
            is_playing: self.is_playing,
            enemies: enemy_views(self.enemy_list@),
            statuses: status_views(self.status_list@),
            moves: move_views(self.move_list@),
            available: self.move_list_available_len as nat,
            screen: self.current_screen,
            selected: self.cur_move_list_idx as nat,
            log: self.attack_text.deep_view(),
            last_screen: self.last_screen,
            warning: self.warning_text@,
        }
    }
}

/// The built-in enemies are ready for battle with the built-in moves, and
/// one of them can be met at any level.
pub proof fn lemma_catalogs_ready()
    ensures
        forall|i: int|
            0 <= i < enemy_catalog().len() ==> {
                &&& battle_ready(
                    (#[trigger] enemy_catalog()[i]).body,
                    move_catalog(status_catalog()),
                )
                &&& enemy_catalog()[i].body.is_fresh()
            },
        forall|level: nat| (#[trigger] fightable(enemy_catalog(), level)).len() > 0,
{
    let moves = move_catalog(status_catalog());
    lemma_catalog_moves_fit(1);
    lemma_catalog_moves_fit(4);
    lemma_catalog_moves_fit(10);
    assert forall|level: nat| (#[trigger] fightable(enemy_catalog(), level)).len() > 0 by {
        lemma_fightable(enemy_catalog(), level);
    }
}

/// The built-in moves fit any caster whose magic strength is not extreme.
pub proof fn lemma_catalog_moves_fit(magic_strength: nat)
    requires
        magic_strength <= 1_000_000_000,
    ensures
        casters_fit(move_catalog(status_catalog()), magic_strength),
{
    let statuses = status_catalog();
    let moves = move_catalog(statuses);
    assert(moves[0].status == Some(statuses[0]));
}

/// A game that starts from a player and an enemy that are ready for battle
/// with the built-in moves is well formed.
pub proof fn lemma_opening_wf(player: PlayerView, enemy: EnemyView)
    requires
        battle_ready(player.body, move_catalog(status_catalog())),
        battle_ready(enemy.body, move_catalog(status_catalog())),
        enemy.xp_drop(player.body.level) <= u32::MAX,
    ensures
        GameView::opening(player, enemy).wf(),
{
    lemma_catalogs_ready();
}

/// An enemy picked from the built-in catalog is ready for battle with the
/// built-in moves, and what it drops fits a `u32`.
pub proof fn lemma_picked_from_catalog_ready(player_level: nat, pick: nat)
    ensures
        battle_ready(
            picked(enemy_catalog(), player_level, pick).body,
            move_catalog(status_catalog()),
        ),
        picked(enemy_catalog(), player_level, pick).xp_drop(player_level) <= u32::MAX,
{
    lemma_catalogs_ready();
    lemma_picked(enemy_catalog(), player_level, pick);
    let next = picked(enemy_catalog(), player_level, pick);
    let j = choose|j: int| 0 <= j < enemy_catalog().len() && enemy_catalog()[j] == next;
    assert(battle_ready(enemy_catalog()[j].body, move_catalog(status_catalog())));
}

/// Copies of the enemies of `enemy_list` that a player of `player_level` may
/// meet: those at most two levels above it, in the order of the list.
pub fn possible_enemies(enemy_list: &Vec<Enemy>, player_level: u32) -> (result: Vec<Enemy>)
    ensures
        enemy_views(result@) == fightable(enemy_views(enemy_list@), player_level as nat),
{
    let mut result: Vec<Enemy> = Vec::new();
    let ghost all = enemy_views(enemy_list@);
    let ghost level = player_level as nat;
    let mut i: usize = 0;
    while i < enemy_list.len()
        invariant
            i <= enemy_list@.len(),
            all == enemy_views(enemy_list@),
            level == player_level,
            enemy_views(result@) == fightable(all.take(i as int), level),
        decreases enemy_list@.len() - i,
    {
        proof {
            assert(all.take(i + 1).drop_last() =~= all.take(i as int));
        }
        if enemy_list[i].level() as u64 <= player_level as u64 + 2 {
            result.push(enemy_list[i].clone());
        }
        i += 1;
    }
    assert(all.take(i as int) =~= all);
    result
}

/// A copy of the enemy the roll picks among those of `enemy_list` that a
/// player of `player_level` may meet. There must be one to meet.
pub fn pick_enemy(enemy_list: &Vec<Enemy>, player_level: u32, roll: u32) -> (enemy: Enemy)
    requires
        fightable(enemy_views(enemy_list@), player_level as nat).len() > 0,
    ensures
        enemy@ == picked(enemy_views(enemy_list@), player_level as nat, roll as nat),
{
    let possible = possible_enemies(enemy_list, player_level);
    let index = roll as usize % possible.len();
    possible[index].clone()
}

impl GameState {
    /// A game between `player` and `enemy`, with the built-in catalogs.
    /// Where no enemy is given, one is picked from the catalog, among those
    /// the player may meet, by a roll drawn here.
    pub fn new(player: Player, enemy: Option<Enemy>) -> (game: Self)
        ensures
            match enemy {
                Some(given) => game@ == GameView::opening(player@, given@),
                None => exists|pick: u32|
                    game@ == GameView::opening(
                        player@,
                        #[trigger] picked(enemy_catalog(), player@.body.level, pick as nat),
                    ),
            },
    {
        let is_playing = !player.is_dead();
        let enemy_list = Enemy::create_enemy_list();
        let the_enemy = match enemy {
            Some(given) => given,
            None => {
                proof {
                    lemma_catalogs_ready();
                }
                pick_enemy(&enemy_list, player.level(), random_u32())
            },
        };
        let status_list = Status::create_status_list();
        let move_list = Move::create_move_list(&status_list);
        let move_list_available_len = Move::get_move_list(&move_list, player.level());
        let attack_text: VecDeque<String> = VecDeque::new();
        assert(attack_text.deep_view() =~= Seq::empty());
        GameState {
            player,
            enemy: the_enemy,
            is_playing,
            enemy_list,
            status_list,
            move_list,
            move_list_available_len,
            current_screen: CurrentScreen::Main,
            cur_move_list_idx: 0,
            attack_text,
            last_screen: CurrentScreen::Main,
            warning_text: String::new(),
        }
    }

    /// A game between `player` and `enemy` as `new` makes it, if that game
    /// is well formed; otherwise nothing. It is well formed as soon as both
    /// are ready for battle with the built-in moves and what the enemy
    /// drops fits a `u32`.
    pub fn try_new(player: Player, enemy: Option<Enemy>) -> (made: Option<Self>)
        ensures
            match made {
                Some(game) => {
                    &&& game@.wf()
                    &&& match enemy {
                        Some(given) => game@ == GameView::opening(player@, given@),
                        None => exists|pick: u32|
                            game@ == GameView::opening(
                                player@,
                                #[trigger] picked(
                                    enemy_catalog(),
                                    player@.body.level,
                                    pick as nat,
                                ),
                            ),
                    }
                },
                None => {
                    ||| !battle_ready(player@.body, move_catalog(status_catalog()))
                    ||| match enemy {
                        Some(given) => !battle_ready(given@.body, move_catalog(status_catalog()))
                            || given@.xp_drop(player@.body.level) > u32::MAX,
                        None => false,
                    }
                },
            },
    {
        let ghost hero = player@;
        let ghost wanted = enemy;
        let game = GameState::new(player, enemy);
        proof {
            if battle_ready(hero.body, move_catalog(status_catalog())) {
                match wanted {
                    Some(given) => {
                        if battle_ready(given@.body, move_catalog(status_catalog()))
                            && given@.xp_drop(hero.body.level) <= u32::MAX {
                            lemma_opening_wf(hero, given@);
                        }
                    },
                    None => {
                        let pick = choose|pick: u32|
                            game@ == GameView::opening(
                                hero,
                                #[trigger] picked(enemy_catalog(), hero.body.level, pick as nat),
                            );
                        lemma_picked_from_catalog_ready(hero.body.level, pick as nat);
                        lemma_opening_wf(
                            hero,
                            picked(enemy_catalog(), hero.body.level, pick as nat),
                        );
                    },
                }
            }
        }
        if game.is_well_formed() {
            Some(game)
        } else {
            None
        }
    }

    /// Whether the game is well formed: see `GameView::wf`.
    pub fn is_well_formed(&self) -> (ok: bool)
        ensures
            ok == self@.wf(),
    {
        if !self.player.is_battle_ready(&self.move_list) {
            return false;
        }
        if !self.enemy.is_battle_ready(&self.move_list) {
            return false;
        }
        if !self.enemy.xp_fits(self.player.level()) {
            return false;
        }
        let mut i: usize = 0;
        while i < self.enemy_list.len()
            invariant
                i <= self.enemy_list@.len(),
                forall|j: int|
                    0 <= j < i ==> {
                        &&& battle_ready((#[trigger] self@.enemies[j]).body, self@.moves)
                        &&& self@.enemies[j].body.is_fresh()
                    },
            decreases self.enemy_list@.len() - i,
        {
            if !self.enemy_list[i].is_battle_ready(&self.move_list)
                || !self.enemy_list[i].is_fresh() {
                assert(!(battle_ready(self@.enemies[i as int].body, self@.moves)
                    && self@.enemies[i as int].body.is_fresh()));
                return false;
            }
            i += 1;
        }
        let possible = self.get_possible_enemies();
        if possible.len() == 0 {
            return false;
        }
        if self.move_list_available_len != Move::get_move_list(
            &self.move_list,
            self.player.level(),
        ) {
            return false;
        }
        self.cur_move_list_idx < self.move_list_available_len || self.cur_move_list_idx == 0
    }

    /// Whether the player can go up a level with the stat chosen and still
    /// be ready for battle.
    pub fn can_grow(&self, choice: LevelUpType) -> (ok: bool)
        ensures
            ok == self@.can_grow(choice),
    {
        if !self.player.can_level_up(choice) {
            return false;
        }
        let mut stats = self.player.stats();
        match choice {
            LevelUpType::Strength => stats.increase_physical(),
            LevelUpType::Magic => stats.increase_magic(),
            LevelUpType::Health => stats.increase_health(),
        }
        stats.attack_fits() && all_fit_caster(&self.move_list, stats.get_magic_strength())
    }

    /// Whether the key can be taken as things stand: a key that brings a
    /// level-up about needs room for it.
    pub fn key_fits(&self, key: KeyInput) -> (ok: bool)
        ensures
            ok == self@.key_fits(key),
    {
        match self.current_screen {
            CurrentScreen::LevelingUp => match key {
                KeyInput::Char(letter) => {
                    if letter == 'q' {
                        true
                    } else if letter == '1' {
                        self.can_grow(LevelUpType::Strength)
                    } else if letter == '2' {
                        self.can_grow(LevelUpType::Magic)
                    } else if letter == '3' {
                        self.can_grow(LevelUpType::Health)
                    } else {
                        true
                    }
                },
                _ => true,
            },
            _ => true,
        }
    }

    pub fn player(&self) -> (player: &Player)
        ensures
            player@ == self@.player,
    {
        &self.player
    }

    pub fn enemy(&self) -> (enemy: &Enemy)
        ensures
            enemy@ == self@.enemy,
    {
        &self.enemy
    }

    pub fn is_playing(&self) -> (playing: bool)
        ensures
            playing == self@.is_playing,
    {
        self.is_playing
    }

    pub fn current_screen(&self) -> (screen: CurrentScreen)
        ensures
            screen == self@.screen,
    {
        self.current_screen
    }

    pub fn last_screen(&self) -> (screen: CurrentScreen)
        ensures
            screen == self@.last_screen,
    {
        self.last_screen
    }

    /// The lines reported so far, the oldest first.
    pub fn attack_text(&self) -> (log: &VecDeque<String>)
        ensures
            log.deep_view() == self@.log,
    {
        &self.attack_text
    }

    pub fn warning_text(&self) -> (warning: &String)
        ensures
            warning@ == self@.warning,
    {
        &self.warning_text
    }

    /// The moves of the game.
    pub fn move_list(&self) -> (moves: &Vec<Move>)
        ensures
            move_views(moves@) == self@.moves,
    {
        &self.move_list
    }

    /// How many of the moves, from the first on, the player may choose.
    pub fn available_moves(&self) -> (count: usize)
        ensures
            count == self@.available,
    {
        self.move_list_available_len
    }

    /// The place of the move the player has chosen.
    pub fn selected_move_index(&self) -> (index: usize)
        ensures
            index == self@.selected,
    {
        self.cur_move_list_idx
    }

    /// Goes to another screen and remembers the present one.
    pub fn change_screen(&mut self, new_screen: CurrentScreen)
        ensures
            final(self)@ == old(self)@.screen_changed(new_screen),
    {
        self.last_screen = self.current_screen;
        self.current_screen = new_screen;
    }

    /// Goes to another screen without remembering the present one.
    pub fn change_screen_no_save(&mut self, new_screen: CurrentScreen)
        ensures
            final(self)@ == old(self)@.screen_set(new_screen),
    {
        self.current_screen = new_screen;
    }

    /// Shows a warning and remembers the present screen.
    pub fn display_warning(&mut self, warning_text: &str)
        ensures
            final(self)@ == old(self)@.warned(warning_text@),
    {
        self.warning_text = String::from_str(warning_text);
        self.change_screen(CurrentScreen::Warning);
    }

    /// Cuts the log down to its newest `MAX_ATTACK_STR_HISTORY` lines.
    pub fn truncate_attack_text(&mut self)
        ensures
            final(self)@ == old(self)@.log_trimmed(),
            final(self)@.log.len() <= MAX_ATTACK_STR_HISTORY,
    {
        let ghost start = self@;
        while self.attack_text.len() > MAX_ATTACK_STR_HISTORY
            invariant
                self@ == (GameView { log: self@.log, ..start }),
                self@.log.len() <= start.log.len(),
                self@.log == start.log.skip(start.log.len() - self@.log.len()),
                start.log.len() <= MAX_ATTACK_STR_HISTORY ==> self@.log == start.log,
                start.log.len() > MAX_ATTACK_STR_HISTORY ==> self@.log.len()
                    >= MAX_ATTACK_STR_HISTORY,
            decreases self@.log.len(),
        {
            let ghost before = self.attack_text.deep_view();
            let _oldest = self.attack_text.pop_front();
            assert(self.attack_text.deep_view() =~= before.skip(1));
        }
    }

    /// Copies of the enemies the player may meet: those at most two levels
    /// above it, in the order of the catalog.
    pub fn get_possible_enemies(&self) -> (result: Vec<Enemy>)
        ensures
            enemy_views(result@) == fightable(self@.enemies, self@.player.body.level),
    {
        possible_enemies(&self.enemy_list, self.player.level())
    }

    /// A copy of the enemy the roll picks among those the player may meet.
    pub fn enemy_for_roll(&self, roll: u32) -> (enemy: Enemy)
        requires
            fightable(self@.enemies, self@.player.body.level).len() > 0,
        ensures
            enemy@ == self@.next_enemy(roll as nat),
    {
        pick_enemy(&self.enemy_list, self.player.level(), roll)
    }

    /// A copy of an enemy picked among those the player may meet, by a roll
    /// drawn here.
    pub fn create_random_enemy(&self) -> (enemy: Enemy)
        requires
            fightable(self@.enemies, self@.player.body.level).len() > 0,
        ensures
            exists|roll: u32| enemy@ == #[trigger] self@.next_enemy(roll as nat),
    {
        self.enemy_for_roll(random_u32())
    }

    /// Ends the turn: both stop defending, the statuses act on the player
    /// and then on the enemy, each status with the roll at its place in the
    /// list given for its bearer, and both may move again.
    pub fn end_turn_with(&mut self, player_rolls: &Vec<u32>, enemy_rolls: &Vec<u32>)
        requires
            old(self)@.wf(),
        ensures
            final(self)@ == old(self)@.turn_ended(player_rolls@, enemy_rolls@),
            final(self)@.wf(),
    {
        proof {
            lemma_turn_ended_wf(self@, player_rolls@, enemy_rolls@);
        }
        self.player.stop_defending();
        self.enemy.stop_defending();
        self.player.tick_statuses_with(player_rolls, &mut self.attack_text);
        self.enemy.tick_statuses_with(enemy_rolls, &mut self.attack_text);
        self.player.allow_move();
        self.enemy.allow_move();
    }

    /// Ends the turn as `end_turn_with` does, with the rolls drawn here.
    pub fn end_turn(&mut self)
        requires
            old(self)@.wf(),
        ensures
            exists|player_rolls: Seq<u32>, enemy_rolls: Seq<u32>|
                final(self)@ == #[trigger] old(self)@.turn_ended(player_rolls, enemy_rolls),
            final(self)@.wf(),
    {
        let player_rolls = random_rolls(self.player.status_count());
        let enemy_rolls = random_rolls(self.enemy.status_count());
        self.end_turn_with(&player_rolls, &enemy_rolls);
    }

    /// Looks for the dead. A dead player ends the game. A dead enemy is
    /// reported, drops its experience to the player, which may call for a
    /// level-up, and gives way to the enemy that `pick` chooses. Returns
    /// whether anyone was dead.
    pub fn check_entities_with(&mut self, pick: u32) -> (died: bool)
        requires
            old(self)@.wf(),
        ensures
            died == old(self)@.someone_died(),
            final(self)@ == old(self)@.entities_checked(pick as nat),
            final(self)@.wf(),
            final(self)@.enemies == old(self)@.enemies,
            old(self)@.player.body.is_dead() ==> !final(self)@.is_playing,
            old(self)@.enemy_was_killed() ==> old(self)@.kill_settled(final(self)@),
    {
        proof {
            lemma_entities_checked_wf(self@, pick as nat);
            crate::laws::lemma_death_is_resolved(self@, pick as nat);
        }
        if self.player.is_dead() {
            self.current_screen = CurrentScreen::Died;
            self.is_playing = false;
            true
        } else if self.enemy.is_dead() {
            push_line(&mut self.attack_text, enemy_died_text());
            let xp_dropped = self.enemy.drop_xp(self.player.level(), &mut self.attack_text);
            if self.player.gain_xp(xp_dropped) {
                self.current_screen = CurrentScreen::LevelingUp;
            }
            self.enemy = self.enemy_for_roll(pick);
            true
        } else {
            false
        }
    }

    /// Looks for the dead as `check_entities_with` does, with the roll
    /// drawn here.
    pub fn check_entities(&mut self) -> (died: bool)
        requires
            old(self)@.wf(),
        ensures
            died == old(self)@.someone_died(),
            exists|pick: u32| final(self)@ == #[trigger] old(self)@.entities_checked(pick as nat),
            final(self)@.wf(),
            final(self)@.enemies == old(self)@.enemies,
            old(self)@.player.body.is_dead() ==> !final(self)@.is_playing,
            old(self)@.enemy_was_killed() ==> old(self)@.kill_settled(final(self)@),
    {
        self.check_entities_with(random_u32())
    }

    /// Looks after the state of the fight: deals with the dead; if both
    /// have had their turn or someone was dead, ends the turn and looks for
    /// the dead once more.
    pub fn perform_entity_check_with(&mut self, rolls: &CheckRolls)
        requires
            old(self)@.wf(),
        ensures
            final(self)@ == old(self)@.entity_check(*rolls),
            final(self)@.wf(),
            final(self)@.is_playing ==> !final(self)@.someone_died(),
            old(self)@.enemy_was_killed() ==> old(self)@.kill_settled(final(self)@)
                && final(self)@.turn_begins(),
    {
        proof {
            crate::laws::lemma_entity_check_leaves_no_dead(self@, *rolls);
            if self@.enemy_was_killed() {
                crate::laws::lemma_kill_ends_the_turn(self@, *rolls);
                lemma_next_enemy_fresh(self@, rolls.pick as nat);
            }
        }
        let both_gone = self.player.has_gone() && self.enemy.has_gone();
        let died = self.check_entities_with(rolls.pick);
        if both_gone || died {
            self.end_turn_with(&rolls.player, &rolls.enemy);
            let _died_since = self.check_entities_with(rolls.pick);
        }
    }

    /// The rolls a look after the state of the fight may use right now,
    /// drawn here: one for each status at work, and one more for each
    /// status the player may yet come under.
    fn draw_check_rolls(&self, more_for_player: usize) -> (rolls: CheckRolls)
        ensures
            rolls.player@.len() >= self@.player.body.statuses.len(),
            rolls.enemy@.len() == self@.enemy.body.statuses.len(),
    {
        let on_player = self.player.status_count();
        let for_player = if on_player <= usize::MAX - more_for_player {
            on_player + more_for_player
        } else {
            on_player
        };
        CheckRolls {
            pick: random_u32(),
            player: random_rolls(for_player),
            enemy: random_rolls(self.enemy.status_count()),
        }
    }

    /// Looks after the state of the fight as `perform_entity_check_with`
    /// does, with the rolls drawn here.
    pub fn perform_entity_check(&mut self)
        requires
            old(self)@.wf(),
        ensures
            exists|rolls: CheckRolls| final(self)@ == #[trigger] old(self)@.entity_check(rolls),
            final(self)@.wf(),
            final(self)@.is_playing ==> !final(self)@.someone_died(),
            old(self)@.enemy_was_killed() ==> old(self)@.kill_settled(final(self)@)
                && final(self)@.turn_begins(),
    {
        let rolls = self.draw_check_rolls(0);
        self.perform_entity_check_with(&rolls);
    }

    /// Lets the player try a turn of the given kind, with the rolls given:
    /// the first for the amount of a blow, the second for the chance that a
    /// cast applies its status. Returns whether the turn was carried out; a
    /// turn that is not changes nothing.
    pub fn do_player_turn_with(&mut self, turn_type: MoveType, amount_roll: u32, chance_roll: u32) -> (done:
        bool)
        requires
            old(self)@.wf(),
        ensures
            done == old(self)@.player_turn_succeeds(turn_type),
            final(self)@ == old(self)@.player_turn(turn_type, amount_roll as nat, chance_roll as nat),
            final(self)@.wf(),
    {
        proof {
            lemma_player_turn_wf(self@, turn_type, amount_roll as nat, chance_roll as nat);
            crate::entity_components::stats::lemma_attack_damage_range(
                self@.player.body.stats,
                amount_roll as nat,
            );
        }
        if !self.is_playing {
            return false;
        }
        if self.player.has_gone() {
            return false;
        }
        if !(self.player.speed() >= self.enemy.speed() || self.enemy.has_gone()) {
            return false;
        }
        match turn_type {
            MoveType::AttackMove => self.player.attack_with(
                &mut self.enemy,
                amount_roll,
                &mut self.attack_text,
            ),
            MoveType::MagicMove => {
                let index = self.cur_move_list_idx;
                if index < self.move_list_available_len && index < self.move_list.len() {
                    proof {
                        let the_move = self@.selected_move();
                        crate::entity_components::moves::lemma_move_amount_range(
                            the_move,
                            self@.player.body.stats.magic_strength,
                            amount_roll as nat,
                        );
                    }
                    self.player.magic_with(
                        &mut self.enemy,
                        &self.move_list[index],
                        amount_roll,
                        chance_roll,
                        &mut self.attack_text,
                    )
                } else {
                    false
                }
            },
            MoveType::DefendMove => self.player.defend_move(&mut self.attack_text),
        }
    }

    /// Lets the player try a turn of the given kind, as
    /// `do_player_turn_with` does, with the rolls drawn here.
    pub fn do_player_turn(&mut self, turn_type: MoveType) -> (done: bool)
        requires
            old(self)@.wf(),
        ensures
            done == old(self)@.player_turn_succeeds(turn_type),
            exists|amount_roll: u32, chance_roll: u32|
                final(self)@ == #[trigger] old(self)@.player_turn(
                    turn_type,
                    amount_roll as nat,
                    chance_roll as nat,
                ),
            final(self)@.wf(),
    {
        let amount_roll = random_u32();
        let chance_roll = random_u32();
        self.do_player_turn_with(turn_type, amount_roll, chance_roll)
    }

    /// Gives the enemy its chance to act, with the rolls given: three for a
    /// new queue of moves should the old one have run out, one for the
    /// amount of a blow, one for the chance that a cast applies its status.
    /// An enemy that may not act does nothing.
    pub fn do_enemy_turn_with(&mut self, queue_rolls: [u32; 3], amount_roll: u32, chance_roll: u32)
        requires
            old(self)@.wf(),
        ensures
            final(self)@ == old(self)@.enemy_turn(
                queue_rolls@,
                amount_roll as nat,
                chance_roll as nat,
            ),
            final(self)@.wf(),
    {
        proof {
            lemma_enemy_turn_wf(self@, queue_rolls@, amount_roll as nat, chance_roll as nat);
            crate::entity_components::stats::lemma_attack_damage_range(
                self@.enemy.body.stats,
                amount_roll as nat,
            );
        }
        if !self.is_playing || self.enemy.is_dead() || self.enemy.has_gone() {
            return ;
        }
        if !(self.enemy.speed() > self.player.speed() || self.player.has_gone()) {
            return ;
        }
        match self.enemy.turn_type_with(queue_rolls) {
            Some(MoveType::AttackMove) => {
                let _done = self.enemy.attack_with(
                    &mut self.player,
                    amount_roll,
                    &mut self.attack_text,
                );
            },
            Some(MoveType::MagicMove) => {
                let count = Move::get_move_list(&self.move_list, self.enemy.level());
                if count > 0 {
                    proof {
                        let ready = (GameView {
                            enemy: old(self)@.enemy.after_planning(queue_rolls@),
                            ..old(self)@
                        });
                        let the_move = ready.enemy_spell();
                        crate::entity_components::moves::lemma_move_amount_range(
                            the_move,
                            ready.enemy.body.stats.magic_strength,
                            amount_roll as nat,
                        );
                    }
                    let _done = self.enemy.magic_with(
                        &mut self.player,
                        &self.move_list[count - 1],
                        amount_roll,
                        chance_roll,
                        &mut self.attack_text,
                    );
                }
            },
            Some(MoveType::DefendMove) => {
                let _done = self.enemy.defend_move(&mut self.attack_text);
            },
            None => {},
        }
    }

    /// Gives the enemy its chance to act, as `do_enemy_turn_with` does, with
    /// the rolls drawn here.
    pub fn do_enemy_turn(&mut self)
        requires
            old(self)@.wf(),
        ensures
            exists|queue_rolls: Seq<u32>, amount_roll: u32, chance_roll: u32|
                final(self)@ == #[trigger] old(self)@.enemy_turn(
                    queue_rolls,
                    amount_roll as nat,
                    chance_roll as nat,
                ),
            final(self)@.wf(),
    {
        let queue_rolls = [random_u32(), random_u32(), random_u32()];
        let amount_roll = random_u32();
        let chance_roll = random_u32();
        self.do_enemy_turn_with(queue_rolls, amount_roll, chance_roll);
    }

    /// Takes the player up a level with the stat chosen, brings the choice
    /// of moves in line with the new level, and goes back to the fight.
    pub fn level_up_player(&mut self, choice: LevelUpType)
        requires
            old(self)@.wf(),
            old(self)@.can_grow(choice),
        ensures
            final(self)@ == old(self)@.leveled(choice),
            final(self)@.wf(),
    {
        proof {
            lemma_leveled_wf(self@, choice);
        }
        self.player.level_up(choice);
        self.move_list_available_len = Move::get_move_list(&self.move_list, self.player.level());
        self.current_screen = CurrentScreen::Main;
    }

    /// Moves the game on by one event, with the rolls given: while the game
    /// is on, the state of the fight is looked after, the enemy gets its
    /// chance to act, the state of the fight is looked after again, and the
    /// log is cut down to size.
    pub fn advance_with(&mut self, rolls: &StepRolls)
        requires
            old(self)@.wf(),
        ensures
            final(self)@ == old(self)@.advanced(*rolls),
            final(self)@.wf(),
            old(self)@.is_playing ==> final(self)@.log.len() <= MAX_ATTACK_STR_HISTORY,
            old(self)@.is_playing && final(self)@.is_playing ==> !final(self)@.someone_died(),
            old(self)@.is_playing && old(self)@.enemy_was_killed() ==> final(self)@.player.xp
                == old(self)@.player.xp_after(
                old(self)@.enemy.xp_drop(old(self)@.player.body.level),
            ),
    {
        proof {
            if self@.is_playing {
                crate::laws::lemma_advance_leaves_no_dead(self@, *rolls);
                if self@.enemy_was_killed() {
                    crate::laws::lemma_kill_is_rewarded_once(self@, *rolls);
                }
            }
        }
        if self.is_playing {
            self.perform_entity_check_with(&rolls.before);
            self.do_enemy_turn_with(rolls.queue, rolls.amount, rolls.chance);
            self.perform_entity_check_with(&rolls.after);
            self.truncate_attack_text();
        }
    }

    /// Moves the game on by one event as `advance_with` does, with the
    /// rolls drawn here.
    pub fn advance(&mut self)
        requires
            old(self)@.wf(),
        ensures
            exists|rolls: StepRolls| final(self)@ == #[trigger] old(self)@.advanced(rolls),
            final(self)@.wf(),
            old(self)@.is_playing ==> final(self)@.log.len() <= MAX_ATTACK_STR_HISTORY,
            old(self)@.is_playing && final(self)@.is_playing ==> !final(self)@.someone_died(),
            old(self)@.is_playing && old(self)@.enemy_was_killed() ==> final(self)@.player.xp
                == old(self)@.player.xp_after(
                old(self)@.enemy.xp_drop(old(self)@.player.body.level),
            ),
    {
        let rolls = StepRolls {
            before: self.draw_check_rolls(0),
            queue: [random_u32(), random_u32(), random_u32()],
            amount: random_u32(),
            chance: random_u32(),
            after: self.draw_check_rolls(1),
        };
        self.advance_with(&rolls);
    }

    /// Puts the enemy that `pick` chooses in place of the present one.
    pub fn start_encounter_with(&mut self, pick: u32)
        requires
            old(self)@.wf(),
        ensures
            final(self)@ == old(self)@.encounter_started(pick as nat),
            final(self)@.wf(),
    {
        proof {
            lemma_encounter_started_wf(self@, pick as nat);
        }
        self.enemy = self.enemy_for_roll(pick);
    }

    /// Puts an enemy in place of the present one, chosen by a roll drawn
    /// here.
    pub fn start_encounter(&mut self)
        requires
            old(self)@.wf(),
        ensures
            exists|pick: u32| final(self)@ == #[trigger] old(self)@.encounter_started(pick as nat),
            final(self)@.wf(),
    {
        self.start_encounter_with(random_u32());
    }

    /// Takes a key, with the rolls given for the case that the key makes
    /// the player act. Returns whether the key ends the game.
    ///
    /// On the main screen `1` attacks, `2` opens the magic moves, `3`
    /// defends and `q` asks to leave. On the level-up screen `1`, `2` and
    /// `3` raise strength, magic and health; any other key leaves the
    /// level-up waiting. Among the magic moves the arrows move the choice,
    /// Enter casts it, or warns if the cast is turned down, and `q` or Esc
    /// go back. A warning is closed by `q`, Esc or Enter. Once the player
    /// has died only `q` is heard. Asked whether to leave, `y` ends the game
    /// and `n` goes back.
    pub fn handle_key_with(&mut self, key: KeyInput, amount_roll: u32, chance_roll: u32) -> (quit:
        bool)
        requires
            old(self)@.wf(),
            old(self)@.key_fits(key),
        ensures
            quit == old(self)@.key_quits(key),
            final(self)@ == old(self)@.key_handled(key, amount_roll as nat, chance_roll as nat),
            final(self)@.wf(),
    {
        proof {
            lemma_key_handled_wf(self@, key, amount_roll as nat, chance_roll as nat);
        }
        match self.current_screen {
            CurrentScreen::Main => match key {
                KeyInput::Char(letter) => {
                    if letter == 'q' {
                        self.change_screen(CurrentScreen::Exiting);
                    } else if letter == '1' {
                        let _done = self.do_player_turn_with(
                            MoveType::AttackMove,
                            amount_roll,
                            chance_roll,
                        );
                    } else if letter == '2' {
                        self.change_screen(CurrentScreen::Magic);
                    } else if letter == '3' {
                        let _done = self.do_player_turn_with(
                            MoveType::DefendMove,
                            amount_roll,
                            chance_roll,
                        );
                    }
                },
                _ => {},
            },
            CurrentScreen::LevelingUp => match key {
                KeyInput::Char(letter) => {
                    if letter == 'q' {
                        self.change_screen(CurrentScreen::Exiting);
                    } else if letter == '1' {
                        self.level_up_player(LevelUpType::Strength);
                    } else if letter == '2' {
                        self.level_up_player(LevelUpType::Magic);
                    } else if letter == '3' {
                        self.level_up_player(LevelUpType::Health);
                    }
                },
                _ => {},
            },
            CurrentScreen::Magic => match key {
                KeyInput::Char(letter) => {
                    if letter == 'q' {
                        self.change_screen(CurrentScreen::Main);
                    }
                },
                KeyInput::Esc => {
                    self.change_screen(CurrentScreen::Main);
                },
                KeyInput::Up => {
                    if self.cur_move_list_idx > 0 {
                        self.cur_move_list_idx -= 1;
                    }
                },
                KeyInput::Down => {
                    if self.cur_move_list_idx < self.move_list_available_len
                        && self.cur_move_list_idx + 1 < self.move_list_available_len {
                        self.cur_move_list_idx += 1;
                    }
                },
                KeyInput::Enter => {
                    if self.do_player_turn_with(MoveType::MagicMove, amount_roll, chance_roll) {
                        self.change_screen(self.last_screen);
                    } else {
                        self.display_warning("Could not perform magic move! Have enough mana?");
                    }
                },
                _ => {},
            },
            CurrentScreen::Warning => match key {
                KeyInput::Char(letter) => {
                    if letter == 'q' {
                        self.change_screen_no_save(self.last_screen);
                    }
                },
                KeyInput::Esc => {
                    self.change_screen_no_save(self.last_screen);
                },
                KeyInput::Enter => {
                    self.change_screen_no_save(self.last_screen);
                },
                _ => {},
            },
            CurrentScreen::Died => match key {
                KeyInput::Char(letter) => {
                    if letter == 'q' {
                        self.change_screen(CurrentScreen::Exiting);
                    }
                },
                _ => {},
            },
            CurrentScreen::Exiting => match key {
                KeyInput::Char(letter) => {
                    if letter == 'y' {
                        return true;
                    } else if letter == 'n' {
                        self.current_screen = self.last_screen;
                    }
                },
                _ => {},
            },
        }
        false
    }

    /// Takes a key as `handle_key_with` does, with the rolls drawn here.
    pub fn handle_key(&mut self, key: KeyInput) -> (quit: bool)
        requires
            old(self)@.wf(),
            old(self)@.key_fits(key),
        ensures
            quit == old(self)@.key_quits(key),
            exists|amount_roll: u32, chance_roll: u32|
                final(self)@ == #[trigger] old(self)@.key_handled(
                    key,
                    amount_roll as nat,
                    chance_roll as nat,
                ),
            final(self)@.wf(),
    {
        let amount_roll = random_u32();
        let chance_roll = random_u32();
        self.handle_key_with(key, amount_roll, chance_roll)
    }

    /// Whether the intent can be taken as things stand: a level-up that is
    /// waiting needs room for the stat chosen.
    pub fn intent_fits(&self, intent: Intent) -> (ok: bool)
        ensures
            ok == self@.intent_fits(intent),
    {
        match intent {
            Intent::LevelUp(choice) => match self.current_screen {
                CurrentScreen::LevelingUp => self.can_grow(choice),
                _ => true,
            },
            _ => true,
        }
    }

    /// Applies an intent, with the two rolls given for the player's move.
    /// Returns whether the intent was carried out; one that was not changes
    /// nothing.
    pub fn apply_intent_with(&mut self, intent: Intent, amount_roll: u32, chance_roll: u32) -> (done:
        bool)
        requires
            old(self)@.wf(),
            old(self)@.intent_fits(intent),
        ensures
            done == old(self)@.intent_succeeds(intent),
            final(self)@ == old(self)@.intent_applied(
                intent,
                amount_roll as nat,
                chance_roll as nat,
            ),
            final(self)@.wf(),
    {
        proof {
            lemma_intent_applied_wf(self@, intent, amount_roll as nat, chance_roll as nat);
        }
        let waiting = match self.current_screen {
            CurrentScreen::LevelingUp => true,
            _ => false,
        };
        match intent {
            Intent::Attack => !waiting && self.do_player_turn_with(
                MoveType::AttackMove,
                amount_roll,
                chance_roll,
            ),
            Intent::Magic(index) => {
                if !waiting && index < self.move_list_available_len {
                    let previous = self.cur_move_list_idx;
                    self.cur_move_list_idx = index;
                    let cast = self.do_player_turn_with(
                        MoveType::MagicMove,
                        amount_roll,
                        chance_roll,
                    );
                    if !cast {
                        self.cur_move_list_idx = previous;
                    }
                    cast
                } else {
                    false
                }
            },
            Intent::Defend => !waiting && self.do_player_turn_with(
                MoveType::DefendMove,
                amount_roll,
                chance_roll,
            ),
            Intent::LevelUp(choice) => {
                if waiting {
                    self.level_up_player(choice);
                }
                waiting
            },
            Intent::Wait => true,
        }
    }

    /// Takes one event: applies the intent with the two rolls given for the
    /// player's move, then moves the game on with `rolls`. Returns whether
    /// the intent was carried out; one that was not changes nothing, and the
    /// game still moves on. The lines to show are in `attack_text`.
    pub fn process_intent_with(
        &mut self,
        intent: Intent,
        amount_roll: u32,
        chance_roll: u32,
        rolls: &StepRolls,
    ) -> (done: bool)
        requires
            old(self)@.wf(),
            old(self)@.intent_fits(intent),
        ensures
            done == old(self)@.intent_succeeds(intent),
            final(self)@ == old(self)@.intent_processed(
                intent,
                amount_roll as nat,
                chance_roll as nat,
                *rolls,
            ),
            final(self)@.wf(),
    {
        let done = self.apply_intent_with(intent, amount_roll, chance_roll);
        self.advance_with(rolls);
        done
    }

    /// Takes one event as `process_intent_with` does, with all rolls drawn
    /// here.
    pub fn process_intent(&mut self, intent: Intent) -> (done: bool)
        requires
            old(self)@.wf(),
            old(self)@.intent_fits(intent),
        ensures
            done == old(self)@.intent_succeeds(intent),
            exists|amount_roll: u32, chance_roll: u32, rolls: StepRolls|
                final(self)@ == #[trigger] old(self)@.intent_processed(
                    intent,
                    amount_roll as nat,
                    chance_roll as nat,
                    rolls,
                ),
            final(self)@.wf(),
    {
        let amount_roll = random_u32();
        let chance_roll = random_u32();
        let done = self.apply_intent_with(intent, amount_roll, chance_roll);
        let ghost applied = self@;
        self.advance();
        proof {
            let rolls = choose|rolls: StepRolls| self@ == #[trigger] applied.advanced(rolls);
            assert(self@ == old(self)@.intent_processed(
                intent,
                amount_roll as nat,
                chance_roll as nat,
                rolls,
            ));
        }
        done
    }
}

} // verus!
