//! The player: a body, and the experience it has gathered.

use super::entity::{
    attack_entity, battle_ready, spell_lines, Combatant, CombatantView, Entity,
};
use super::moves::{move_views, Move};
use super::stats::{Stats, StatsView};
use super::status::{status_views, Status};
use crate::dice::random_u32;
use crate::text::{
    defend_line, defend_text, player_attack_line, player_attack_text, player_tick_ending,
    push_line,
};
use std::collections::VecDeque;
use vstd::prelude::*;

verus! {

/// The experience that makes a level.
pub const XP_TO_LEVEL_UP: u32 = 100;

pub const DEFAULT_PLAYER_LEVEL: u32 = 1;

pub const DEFAULT_PLAYER_XP: u32 = 0;

pub const DEFAULT_HAS_GONE_STATE: bool = false;

pub const DEFAULT_NAME: &'static str = "Louie";

/// The player.
pub struct Player {
    body: Combatant,
    xp: u32,
}

/// The stat a player chooses to raise on a level-up.
#[derive(Clone, Copy, Debug, PartialEq, Eq)]
pub enum LevelUpType {
    Strength,
    Magic,
    Health,
}

/// The player as plain values.
pub struct PlayerView {
    pub body: CombatantView,
    pub xp: nat,
}

impl PlayerView {
    /// The experience left over once `amount` has come in and every full
    /// level has been taken out of the sum.
    pub open spec fn xp_after(self, amount: nat) -> nat {
        (self.xp + amount) % (XP_TO_LEVEL_UP as nat)
    }

    /// Whether `amount` more experience fills at least one level.
    pub open spec fn levels_with(self, amount: nat) -> bool {
        self.xp + amount >= XP_TO_LEVEL_UP
    }

    /// How many levels `amount` more experience fills.
    pub open spec fn levels_filled(self, amount: nat) -> nat {
        (self.xp + amount) / (XP_TO_LEVEL_UP as nat)
    }

    /// The player after `amount` of experience has come in.
    pub open spec fn with_xp_gained(self, amount: nat) -> PlayerView {
        PlayerView { xp: self.xp_after(amount), ..self }
    }

    /// The stats after the chosen one has grown by a point.
    pub open spec fn grown(self, choice: LevelUpType) -> StatsView {
        match choice {
            LevelUpType::Strength => self.body.stats.stronger(),
            LevelUpType::Magic => self.body.stats.wiser(),
            LevelUpType::Health => self.body.stats.hardier(),
        }
    }

    /// Whether the level and the chosen stat can still grow in a `u32`.
    pub open spec fn can_level_up(self, choice: LevelUpType) -> bool {
        &&& self.body.level < u32::MAX
        &&& match choice {
            LevelUpType::Strength => self.body.stats.strength < u32::MAX,
            LevelUpType::Magic => self.body.stats.magic_strength < u32::MAX,
            LevelUpType::Health => self.body.stats.health < u32::MAX,
        }
    }

    /// The player one level up: the chosen stat has grown, the maxima follow
    /// from the new stats, and health and mana are full.
    pub open spec fn leveled(self, choice: LevelUpType) -> PlayerView {
        PlayerView {
            body: CombatantView {
                level: self.body.level + 1,
                ..self.body.restored(self.grown(choice))
            },
            ..self
        }
    }

    /// The player a new game starts with: level 1, all stats 10, no
    /// defense, no experience.
    pub open spec fn starting() -> PlayerView {
        PlayerView {
            body: CombatantView::fresh(
                DEFAULT_NAME@,
                StatsView {
                    health: 10,
                    mana: 10,
                    speed: 10,
                    strength: 10,
                    magic_strength: 10,
                    defense: 0,
                    is_defending: false,
                },
                DEFAULT_PLAYER_LEVEL as nat,
                DEFAULT_HAS_GONE_STATE,
            ),
            xp: DEFAULT_PLAYER_XP as nat,
        }
    }

    /// The player with another body and the same experience.
    pub open spec fn with_body(self, body: CombatantView) -> PlayerView {
        PlayerView { body, ..self }
    }
}

impl View for Player {
    type V = PlayerView;

    closed spec fn view(&self) -> PlayerView {
        PlayerView { body: self.body@, xp: self.xp as nat }
    }
}

impl Player {
    /// A player with the given stats, at full health and mana.
    pub fn new(name: String, stats: Stats, level: u32, xp: u32, has_gone: bool) -> (player: Self)
        ensures
            player@ == (PlayerView {
                body: CombatantView::fresh(name@, stats@, level as nat, has_gone),
                xp: xp as nat,
            }),
    {
        Self { body: Combatant::new(name, stats, level, has_gone), xp }
    }

    /// The player a new game starts with.
    pub fn default() -> (player: Self)
        ensures
            player@ == PlayerView::starting(),
    {
        Self {
            body: Combatant::new(
                String::from_str(DEFAULT_NAME),
                Stats::default(),
                DEFAULT_PLAYER_LEVEL,
                DEFAULT_HAS_GONE_STATE,
            ),
            xp: DEFAULT_PLAYER_XP,
        }
    }

    /// Takes in `amount` of experience. Every full level in the sum is taken
    /// out of it and what is left over is kept. Returns whether a level was
    /// filled, once, however many were: the level-up itself waits for
    /// `level_up`.
    pub fn gain_xp(&mut self, amount: u32) -> (is_leveling_up: bool)
        ensures
            final(self)@ == old(self)@.with_xp_gained(amount as nat),
            is_leveling_up == old(self)@.levels_with(amount as nat),
    {
        let total: u64 = self.xp as u64 + amount as u64;
        self.xp = (total % (XP_TO_LEVEL_UP as u64)) as u32;
        total >= XP_TO_LEVEL_UP as u64
    }

    /// Goes up a level: raises the chosen stat by one, then brings maxima,
    /// health and mana in line with the new stats.
    pub fn level_up(&mut self, level_type: LevelUpType)
        requires
            old(self)@.can_level_up(level_type),
        ensures
            final(self)@ == old(self)@.leveled(level_type),
    {
        self.body.raise_level();
        let mut stats = self.body.stats();
        match level_type {
            LevelUpType::Strength => stats.increase_physical(),
            LevelUpType::Magic => stats.increase_magic(),
            LevelUpType::Health => stats.increase_health(),
        }
        self.body.reset_stats(stats);
    }

    /// Recomputes the maxima from the stats and fills health and mana up.
    pub fn reset_stats(&mut self)
        ensures
            final(self)@ == old(self)@.with_body(old(self)@.body.restored(old(self)@.body.stats)),
    {
        let stats = self.body.stats();
        self.body.reset_stats(stats);
    }

    /// Reports a blow the player has dealt.
    pub fn display_attack_text(
        &self,
        victim_entity_name: String,
        damage_dealt: u32,
        text_vec: &mut VecDeque<String>,
    )
        ensures
            final(text_vec).deep_view() == old(text_vec).deep_view().push(
                player_attack_line(damage_dealt as nat, victim_entity_name@),
            ),
    {
        push_line(text_vec, player_attack_text(damage_dealt, victim_entity_name.as_str()));
    }

    /// A physical attack on `target` with the roll given. A player that has
    /// had its turn does nothing and returns `false`; otherwise the attack
    /// is dealt and reported, the turn is taken, and `true` comes back.
    pub fn attack_with<T: Entity>(
        &mut self,
        target: &mut T,
        roll: u32,
        text_vec: &mut VecDeque<String>,
    ) -> (done: bool)
        requires
            !old(self)@.body.has_gone ==> old(self)@.body.stats.attack_damage(roll as nat)
                <= u32::MAX,
        ensures
            done == !old(self)@.body.has_gone,
            done ==> final(self)@.body.has_gone,
            final(target).body().health <= old(target).body().health,
            final(self)@.body.health == old(self)@.body.health,
            final(self)@.body.mana == old(self)@.body.mana,
            !done ==> {
                &&& final(self)@ == old(self)@
                &&& *final(target) == *old(target)
                &&& *final(text_vec) == *old(text_vec)
            },
            done ==> {
                &&& final(self)@ == old(self)@.with_body(old(self)@.body.gone())
                &&& final(target).body() == old(target).body().struck(
                    old(self)@.body,
                    roll as nat,
                )
                &&& final(target).extra() == old(target).extra()
                &&& final(text_vec).deep_view() == old(text_vec).deep_view().push(
                    player_attack_line(
                        old(target).body().blow(old(self)@.body, roll as nat),
                        old(target).body().name,
                    ),
                )
            },
    {
        if self.body.has_gone() {
            return false;
        }
        let random_damage = self.body.attack_dmg_from_roll(roll);
        let damage_dealt = attack_entity(random_damage, target);
        self.display_attack_text(target.name(), damage_dealt, text_vec);
        self.body.mark_gone();
        true
    }

    /// A physical attack on `target`, as `attack_with` makes it, with a roll
    /// drawn here.
    pub fn attack_move<T: Entity>(&mut self, target: &mut T, text_vec: &mut VecDeque<String>) -> (done:
        bool)
        requires
            !old(self)@.body.has_gone ==> old(self)@.body.stats.max_attack_damage() <= u32::MAX,
        ensures
            done == !old(self)@.body.has_gone,
            done ==> final(self)@.body.has_gone,
            final(target).body().health <= old(target).body().health,
            final(self)@.body.health == old(self)@.body.health,
            final(self)@.body.mana == old(self)@.body.mana,
            !done ==> {
                &&& final(self)@ == old(self)@
                &&& *final(target) == *old(target)
                &&& *final(text_vec) == *old(text_vec)
            },
            done ==> final(self)@ == old(self)@.with_body(old(self)@.body.gone()),
            done ==> final(target).extra() == old(target).extra(),
            done ==> exists|roll: u32|
                {
                    &&& final(target).body() == #[trigger] old(target).body().struck(
                        old(self)@.body,
                        roll as nat,
                    )
                    &&& final(text_vec).deep_view() == old(text_vec).deep_view().push(
                        player_attack_line(
                            old(target).body().blow(old(self)@.body, roll as nat),
                            old(target).body().name,
                        ),
                    )
                },
    {
        let roll = random_u32();
        proof {
            super::stats::lemma_attack_damage_range(self@.body.stats, roll as nat);
        }
        self.attack_with(target, roll, text_vec)
    }

    /// Casts `the_move` at `target` with the rolls given: the first for the
    /// amount, the second for the chance that the move's status lands. A
    /// player that has had its turn, or has less mana than the move costs,
    /// does nothing and returns `false`. Otherwise the mana is spent, the
    /// blow is dealt and reported, the status is applied if it lands, the
    /// turn is taken, and `true` comes back.
    pub fn magic_with<T: Entity>(
        &mut self,
        target: &mut T,
        the_move: &Move,
        amount_roll: u32,
        chance_roll: u32,
        text_vec: &mut VecDeque<String>,
    ) -> (done: bool)
        requires
            old(self)@.body.can_cast(the_move@) ==> old(self)@.body.cast_fits(
                the_move@,
                amount_roll as nat,
                chance_roll as nat,
            ),
        ensures
            done == old(self)@.body.can_cast(the_move@),
            done ==> final(self)@.body.has_gone,
            final(target).body().health <= old(target).body().health,
            final(self)@.body.health == old(self)@.body.health,
            !done ==> {
                &&& final(self)@ == old(self)@
                &&& *final(target) == *old(target)
                &&& *final(text_vec) == *old(text_vec)
            },
            done ==> {
                &&& final(self)@ == old(self)@.with_body(old(self)@.body.after_cast(the_move@))
                &&& final(target).body() == old(target).body().spellbound(
                    old(self)@.body,
                    the_move@,
                    amount_roll as nat,
                    chance_roll as nat,
                )
                &&& final(target).extra() == old(target).extra()
                &&& final(text_vec).deep_view() == old(text_vec).deep_view() + spell_lines(
                    player_attack_line(
                        old(target).body().spell_blow(
                            old(self)@.body,
                            the_move@,
                            amount_roll as nat,
                        ),
                        old(target).body().name,
                    ),
                    old(target).body().name,
                    the_move@,
                    chance_roll as nat,
                )
            },
    {
        if self.body.has_gone() || self.body.mana() < the_move.cost() {
            return false;
        }
        let magic_strength = self.body.magic_strength();
        let random_damage = the_move.amount_from_roll(magic_strength, amount_roll);
        let damage_dealt = attack_entity(random_damage, target);
        self.body.use_mana(the_move.cost());
        self.display_attack_text(target.name(), damage_dealt, text_vec);
        if the_move.status_lands(chance_roll) {
            match the_move.get_status() {
                Some(pattern) => {
                    let status = pattern.applied_by(magic_strength);
                    target.apply_status(&status, text_vec);
                },
                None => {},
            }
        }
        self.body.mark_gone();
        true
    }

    /// Casts `the_move` at `target`, as `magic_with` does, with both rolls
    /// drawn here.
    pub fn magic_move<T: Entity>(
        &mut self,
        target: &mut T,
        the_move: &Move,
        text_vec: &mut VecDeque<String>,
    ) -> (done: bool)
        requires
            old(self)@.body.can_cast(the_move@) ==> the_move@.fits_caster(
                old(self)@.body.stats.magic_strength,
            ),
        ensures
            done == old(self)@.body.can_cast(the_move@),
            done ==> final(self)@.body.has_gone,
            final(target).body().health <= old(target).body().health,
            final(self)@.body.health == old(self)@.body.health,
            !done ==> {
                &&& final(self)@ == old(self)@
                &&& *final(target) == *old(target)
                &&& *final(text_vec) == *old(text_vec)
            },
            done ==> final(self)@ == old(self)@.with_body(old(self)@.body.after_cast(the_move@)),
            done ==> final(target).extra() == old(target).extra(),
            done ==> exists|amount_roll: u32, chance_roll: u32|
                {
                    &&& final(target).body() == #[trigger] old(target).body().spellbound(
                        old(self)@.body,
                        the_move@,
                        amount_roll as nat,
                        chance_roll as nat,
                    )
                    &&& final(text_vec).deep_view() == old(text_vec).deep_view() + spell_lines(
                        player_attack_line(
                            old(target).body().spell_blow(
                                old(self)@.body,
                                the_move@,
                                amount_roll as nat,
                            ),
                            old(target).body().name,
                        ),
                        old(target).body().name,
                        the_move@,
                        chance_roll as nat,
                    )
                },
    {
        let amount_roll = random_u32();
        let chance_roll = random_u32();
        proof {
            super::moves::lemma_move_amount_range(
                the_move@,
                self@.body.stats.magic_strength,
                amount_roll as nat,
            );
        }
        self.magic_with(target, the_move, amount_roll, chance_roll, text_vec)
    }

    /// Defends for this turn. A player that has had its turn does nothing
    /// and returns `false`; otherwise the defense bonus goes on, the turn is
    /// taken, and `true` comes back.
    pub fn defend_move(&mut self, text_vec: &mut VecDeque<String>) -> (done: bool)
        requires
            !old(self)@.body.has_gone ==> old(self)@.body.stats.can_start_defending(),
        ensures
            done == !old(self)@.body.has_gone,
            done ==> final(self)@.body.has_gone,
            !done ==> final(self)@ == old(self)@ && *final(text_vec) == *old(text_vec),
            done ==> {
                &&& final(self)@ == old(self)@.with_body(old(self)@.body.on_guard().gone())
                &&& final(text_vec).deep_view() == old(text_vec).deep_view().push(
                    defend_line(old(self)@.body.name),
                )
            },
    {
        if self.body.has_gone() {
            return false;
        }
        self.body.start_defending();
        let name = self.body.name();
        push_line(text_vec, defend_text(name.as_str()));
        self.body.mark_gone();
        true
    }

    pub fn experience(&self) -> (xp: u32)
        ensures
            xp == self@.xp,
    {
        self.xp
    }

    /// The experience that makes a level.
    pub fn max_experience(&self) -> (xp: u32)
        ensures
            xp == XP_TO_LEVEL_UP,
    {
        XP_TO_LEVEL_UP
    }

    pub fn mana(&self) -> (mana: u32)
        ensures
            mana == self@.body.mana,
    {
        self.body.mana()
    }

    pub fn max_mana(&self) -> (max_mana: u32)
        ensures
            max_mana == self@.body.max_mana,
    {
        self.body.max_mana()
    }

    /// A copy of the stats.
    pub fn stats(&self) -> (stats: Stats)
        ensures
            stats@ == self@.body.stats,
    {
        self.body.stats()
    }

    /// Copies of the statuses at work on the player, in the order they were
    /// applied.
    pub fn statuses(&self) -> (statuses: Vec<Status>)
        ensures
            status_views(statuses@) == self@.body.statuses,
    {
        self.body.statuses()
    }

    /// Whether the player is well formed and its blows and its casts, with
    /// any of `moves`, stay within a `u32`.
    pub fn is_battle_ready(&self, moves: &Vec<Move>) -> (ok: bool)
        ensures
            ok == battle_ready(self@.body, move_views(moves@)),
    {
        self.body.is_battle_ready(moves)
    }

    /// Whether the level and the chosen stat can still grow in a `u32`.
    pub fn can_level_up(&self, level_type: LevelUpType) -> (ok: bool)
        ensures
            ok == self@.can_level_up(level_type),
    {
        let stats = self.body.stats();
        self.body.level() < u32::MAX && match level_type {
            LevelUpType::Strength => stats.get_strength() < u32::MAX,
            LevelUpType::Magic => stats.get_magic_strength() < u32::MAX,
            LevelUpType::Health => stats.get_health() < u32::MAX,
        }
    }

    /// The number of statuses at work on the player.
    pub fn status_count(&self) -> (count: usize)
        ensures
            count == self@.body.statuses.len(),
    {
        self.body.status_count()
    }
}

impl Entity for Player {
    type Extra = nat;

    open spec fn body(&self) -> CombatantView {
        self@.body
    }

    open spec fn tick_ending(&self) -> Seq<char> {
        player_tick_ending()
    }

    open spec fn extra(&self) -> nat {
        self@.xp
    }

    fn take_damage(&mut self, amount: u32) -> (taken: u32) {
        self.body.take_damage(amount)
    }

    fn heal(&mut self, amount: u32) {
        self.body.heal(amount);
    }

    fn use_mana(&mut self, amount: u32) {
        self.body.use_mana(amount);
    }

    fn speed(&self) -> (speed: u32) {
        self.body.speed()
    }

    fn level(&self) -> (level: u32) {
        self.body.level()
    }

    fn name(&self) -> (name: String) {
        self.body.name()
    }

    fn magic_strength(&self) -> (magic_strength: u32) {
        self.body.magic_strength()
    }

    fn is_dead(&self) -> (dead: bool) {
        self.body.is_dead()
    }

    fn gone_this_turn(&self) -> (gone: bool) {
        self.body.has_gone()
    }

    fn has_gone(&self) -> (gone: bool) {
        self.body.has_gone()
    }

    fn health(&self) -> (health: u32) {
        self.body.health()
    }

    fn max_health(&self) -> (max_health: u32) {
        self.body.max_health()
    }

    fn get_random_attack_dmg(&self) -> (damage: u32) {
        self.body.get_random_attack_dmg()
    }

    fn start_defending(&mut self) {
        self.body.start_defending();
    }

    fn stop_defending(&mut self) {
        self.body.stop_defending();
    }

    fn tick_statuses_with(&mut self, rolls: &Vec<u32>, text_vec: &mut VecDeque<String>) {
        self.body.tick_statuses_with(rolls, text_vec, "");
    }

    fn tick_statuses(&mut self, text_vec: &mut VecDeque<String>) {
        self.body.tick_statuses(text_vec, "");
    }

    fn apply_status(&mut self, status: &Status, text_vec: &mut VecDeque<String>) {
        self.body.apply_status(status, text_vec);
    }

    fn allow_move(&mut self) {
        self.body.allow_move();
    }
}

} // verus!
