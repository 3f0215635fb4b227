//! Enemies: a body, and the queue of what the enemy will do next.

use super::entity::{
    attack_entity, battle_ready, spell_lines, Combatant, CombatantView, Entity,
};
use super::moves::{move_views, Move, MoveType};
use super::stats::{Stats, StatsView};
use super::status::{status_views, Status};
use crate::dice::random_u32;
use crate::text::{
    defend_line, defend_text, enemy_attack_line, enemy_attack_text, enemy_tick_ending,
    push_line, xp_drop_line, xp_drop_text,
};
use std::collections::VecDeque;
use vstd::prelude::*;

verus! {

/// The experience an enemy drops to a player of its own level or above.
pub const BASE_XP: u32 = 20;

/// The number of turns an enemy plans ahead each time its queue runs out.
pub const MOVE_QUEUE_LEN: usize = 3;

/// An enemy.
pub struct Enemy {
    body: Combatant,
    move_queue: Vec<MoveType>,
}

/// An enemy as plain values.
pub struct EnemyView {
    pub body: CombatantView,
    /// What the enemy will do on its next turns, the next one first.
    pub queue: Seq<MoveType>,
}

/// The kind of move a roll stands for.
pub open spec fn move_type_for(roll: nat) -> MoveType {
    if roll % 3 == 0 {
        MoveType::AttackMove
    } else if roll % 3 == 1 {
        MoveType::MagicMove
    } else {
        MoveType::DefendMove
    }
}

/// A queue filled anew from three rolls.
pub open spec fn fresh_queue(rolls: Seq<u32>) -> Seq<MoveType> {
    Seq::new(MOVE_QUEUE_LEN as nat, |i: int| move_type_for(rolls[i] as nat))
}

/// The experience dropped by an enemy that many levels above the player:
/// the base, doubled once per level.
pub open spec fn xp_reward(levels_above: nat) -> nat
    decreases levels_above,
{
    if levels_above == 0 {
        BASE_XP as nat
    } else {
        2 * xp_reward((levels_above - 1) as nat)
    }
}

/// The experience dropped grows with the distance in levels.
pub proof fn lemma_xp_reward_grows(fewer: nat, more: nat)
    requires
        fewer <= more,
    ensures
        BASE_XP <= xp_reward(fewer) <= xp_reward(more),
    decreases more,
{
    if fewer < more {
        lemma_xp_reward_grows(fewer, (more - 1) as nat);
    } else if fewer > 0 {
        lemma_xp_reward_grows((fewer - 1) as nat, (more - 1) as nat);
    }
}

/// The enemies every game draws from, as plain values.
pub open spec fn enemy_catalog() -> Seq<EnemyView> {
    seq![
        EnemyView::fresh(
            "Spider"@,
            StatsView {
                health: 5,
                mana: 0,
                speed: 4,
                strength: 2,
                magic_strength: 1,
                defense: 0,
                is_defending: false,
            },
            1,
            false,
        ),
        EnemyView::fresh(
            "Skeleton"@,
            StatsView {
                health: 3,
                mana: 0,
                speed: 3,
                strength: 5,
                magic_strength: 4,
                defense: 0,
                is_defending: false,
            },
            1,
            false,
        ),
        EnemyView::fresh(
            "Dragon"@,
            StatsView {
                health: 20,
                mana: 100,
                speed: 10,
                strength: 10,
                magic_strength: 10,
                defense: 10,
                is_defending: false,
            },
            8,
            false,
        ),
    ]
}

/// The views of a list of enemies, one by one.
pub open spec fn enemy_views(list: Seq<Enemy>) -> Seq<EnemyView> {
    Seq::new(list.len(), |i: int| list[i]@)
}

impl EnemyView {
    /// An enemy as it is created: unhurt, with nothing planned yet.
    pub open spec fn fresh(name: Seq<char>, stats: StatsView, level: nat, has_gone: bool) -> Self {
        EnemyView {
            body: CombatantView::fresh(name, stats, level, has_gone),
            queue: Seq::empty(),
        }
    }

    /// The enemy with another body and the same plans.
    pub open spec fn with_body(self, body: CombatantView) -> EnemyView {
        EnemyView { body, ..self }
    }

    /// How many levels the enemy is above a player of `player_level`.
    pub open spec fn levels_above(self, player_level: nat) -> nat {
        if self.body.level > player_level {
            (self.body.level - player_level) as nat
        } else {
            0
        }
    }

    /// The experience the enemy drops to a player of `player_level`.
    pub open spec fn xp_drop(self, player_level: nat) -> nat {
        xp_reward(self.levels_above(player_level))
    }

    /// The queue the next move is taken from: the one there is, or, when it
    /// has run out, a new one made from the rolls.
    pub open spec fn planned(self, rolls: Seq<u32>) -> Seq<MoveType> {
        if self.queue.len() == 0 {
            fresh_queue(rolls)
        } else {
            self.queue
        }
    }

    /// The kind of move the enemy makes next.
    pub open spec fn next_move(self, rolls: Seq<u32>) -> MoveType {
        self.planned(rolls)[0]
    }

    /// The enemy once its next move has been taken off the queue.
    pub open spec fn after_planning(self, rolls: Seq<u32>) -> EnemyView {
        EnemyView { queue: self.planned(rolls).remove(0), ..self }
    }
}

/// The kind of move `roll` stands for.
pub fn move_type_from_roll(roll: u32) -> (kind: MoveType)
    ensures
        kind == move_type_for(roll as nat),
{
    let rest = roll % 3;
    if rest == 0 {
        MoveType::AttackMove
    } else if rest == 1 {
        MoveType::MagicMove
    } else {
        MoveType::DefendMove
    }
}

impl View for Enemy {
    type V = EnemyView;

    closed spec fn view(&self) -> EnemyView {
        EnemyView { body: self.body@, queue: self.move_queue@ }
    }
}

impl Clone for Enemy {
    fn clone(&self) -> (copy: Self)
        ensures
            copy@ == self@,
    {
        let mut move_queue: Vec<MoveType> = Vec::new();
        let mut i: usize = 0;
        while i < self.move_queue.len()
            invariant
                i <= self.move_queue@.len(),
                move_queue@ == self.move_queue@.take(i as int),
            decreases self.move_queue@.len() - i,
        {
            move_queue.push(self.move_queue[i]);
            i += 1;
        }
        assert(move_queue@ =~= self.move_queue@);
        Enemy { body: self.body.clone(), move_queue }
    }
}

impl Enemy {
    /// An enemy with the given stats, at full health and mana, with nothing
    /// planned yet.
    pub fn new(name: String, stats: Stats, level: u32, has_gone: bool) -> (enemy: Self)
        ensures
            enemy@ == EnemyView::fresh(name@, stats@, level as nat, has_gone),
    {
        Self { body: Combatant::new(name, stats, level, has_gone), move_queue: Vec::new() }
    }

    /// The experience the enemy drops to a player of `player_level`, which
    /// is also reported: the base amount, doubled for every level the enemy
    /// is above the player.
    pub fn drop_xp(&self, player_level: u32, text_vec: &mut VecDeque<String>) -> (amount: u32)
        requires
            self@.xp_drop(player_level as nat) <= u32::MAX,
        ensures
            amount == self@.xp_drop(player_level as nat),
            final(text_vec).deep_view() == old(text_vec).deep_view().push(
                xp_drop_line(self@.body.name, amount as nat),
            ),
    {
        let level = self.body.level();
        let levels_above: u32 = if level > player_level {
            level - player_level
        } else {
            0
        };
        let mut amount: u32 = BASE_XP;
        let mut i: u32 = 0;
        while i < levels_above
            invariant
                i <= levels_above,
                amount == xp_reward(i as nat),
                xp_reward(levels_above as nat) <= u32::MAX,
            decreases levels_above - i,
        {
            proof {
                lemma_xp_reward_grows((i + 1) as nat, levels_above as nat);
            }
            amount = amount * 2;
            i += 1;
        }
        let name = self.body.name();
        push_line(text_vec, xp_drop_text(name.as_str(), amount));
        amount
    }

    /// Reports a blow the enemy has dealt.
    pub fn display_attack_text(
        &self,
        victim_entity_name: String,
        damage_dealt: u32,
        text_vec: &mut VecDeque<String>,
    )
        ensures
            final(text_vec).deep_view() == old(text_vec).deep_view().push(
                enemy_attack_line(self@.body.name, damage_dealt as nat, victim_entity_name@),
            ),
    {
        let name = self.body.name();
        push_line(
            text_vec,
            enemy_attack_text(name.as_str(), damage_dealt, victim_entity_name.as_str()),
        );
    }

    /// The enemies every game draws from.
    pub fn create_enemy_list() -> (list: Vec<Enemy>)
        ensures
            enemy_views(list@) == enemy_catalog(),
    {
        let mut list: Vec<Enemy> = Vec::new();
        list.push(Enemy::new(String::from_str("Spider"), Stats::new(5, 0, 4, 2, 1, 0), 1, false));
        list.push(
            Enemy::new(String::from_str("Skeleton"), Stats::new(3, 0, 3, 5, 4, 0), 1, false),
        );
        list.push(
            Enemy::new(String::from_str("Dragon"), Stats::new(20, 100, 10, 10, 10, 10), 8, false),
        );
        list
    }

    /// The kind of move the enemy makes next, taken off the head of its
    /// queue. When the queue has run out it is first filled anew, one move
    /// for each of the rolls given.
    pub fn turn_type_with(&mut self, rolls: [u32; 3]) -> (kind: Option<MoveType>)
        ensures
            kind == Some(old(self)@.next_move(rolls@)),
            final(self)@ == old(self)@.after_planning(rolls@),
    {
        if self.move_queue.len() == 0 {
            self.move_queue.push(move_type_from_roll(rolls[0]));
            self.move_queue.push(move_type_from_roll(rolls[1]));
            self.move_queue.push(move_type_from_roll(rolls[2]));
            assert(self.move_queue@ =~= fresh_queue(rolls@));
        }
        let kind = self.move_queue.remove(0);
        Some(kind)
    }

    /// The kind of move the enemy makes next, as `turn_type_with` gives it,
    /// with the rolls for a new queue drawn here.
    pub fn get_turn_type(&mut self) -> (kind: Option<MoveType>)
        ensures
            final(self)@.body == old(self)@.body,
            exists|rolls: Seq<u32>|
                {
                    &&& rolls.len() == MOVE_QUEUE_LEN
                    &&& kind == Some(#[trigger] old(self)@.next_move(rolls))
                    &&& final(self)@ == old(self)@.after_planning(rolls)
                },
            old(self)@.queue.len() > 0 ==> kind == Some(old(self)@.queue[0]) && final(self)@.queue
                == old(self)@.queue.remove(0),
    {
        let rolls = [random_u32(), random_u32(), random_u32()];
        self.turn_type_with(rolls)
    }

    /// What the enemy will do on its next turns, the next one first.
    pub fn upcoming_moves(&self) -> (queue: Vec<MoveType>)
        ensures
            queue@ == self@.queue,
    {
        let mut queue: Vec<MoveType> = Vec::new();
        let mut i: usize = 0;
        while i < self.move_queue.len()
            invariant
                i <= self.move_queue@.len(),
                queue@ == self.move_queue@.take(i as int),
            decreases self.move_queue@.len() - i,
        {
            queue.push(self.move_queue[i]);
            i += 1;
        }
        queue
    }

    /// A physical attack on `target` with the roll given. An enemy that has
    /// had its turn does nothing and returns `false`; otherwise the attack
    /// is dealt and reported, the turn is taken, and `true` comes back.
    pub fn attack_with<T: Entity>(
        &mut self,
        target: &mut T,
        roll: u32,
        text_vec: &mut VecDeque<String>,
    ) -> (done: bool)
        requires
            !old(self)@.body.has_gone ==> old(self)@.body.stats.attack_damage(roll as nat)
                <= u32::MAX,
        ensures
            done == !old(self)@.body.has_gone,
            done ==> final(self)@.body.has_gone,
            final(target).body().health <= old(target).body().health,
            final(self)@.body.health == old(self)@.body.health,
            final(self)@.body.mana == old(self)@.body.mana,
            !done ==> {
                &&& final(self)@ == old(self)@
                &&& *final(target) == *old(target)
                &&& *final(text_vec) == *old(text_vec)
            },
            done ==> {
                &&& final(self)@ == old(self)@.with_body(old(self)@.body.gone())
                &&& final(target).body() == old(target).body().struck(
                    old(self)@.body,
                    roll as nat,
                )
                &&& final(target).extra() == old(target).extra()
                &&& final(text_vec).deep_view() == old(text_vec).deep_view().push(
                    enemy_attack_line(
                        old(self)@.body.name,
                        old(target).body().blow(old(self)@.body, roll as nat),
                        old(target).body().name,
                    ),
                )
            },
    {
        if self.body.has_gone() {
            return false;
        }
        let random_damage = self.body.attack_dmg_from_roll(roll);
        let damage_dealt = attack_entity(random_damage, target);
        self.display_attack_text(target.name(), damage_dealt, text_vec);
        self.body.mark_gone();
        true
    }

    /// A physical attack on `target`, as `attack_with` makes it, with a roll
    /// drawn here.
    pub fn attack_move<T: Entity>(&mut self, target: &mut T, text_vec: &mut VecDeque<String>) -> (done:
        bool)
        requires
            !old(self)@.body.has_gone ==> old(self)@.body.stats.max_attack_damage() <= u32::MAX,
        ensures
            done == !old(self)@.body.has_gone,
            done ==> final(self)@.body.has_gone,
            final(target).body().health <= old(target).body().health,
            final(self)@.body.health == old(self)@.body.health,
            final(self)@.body.mana == old(self)@.body.mana,
            !done ==> {
                &&& final(self)@ == old(self)@
                &&& *final(target) == *old(target)
                &&& *final(text_vec) == *old(text_vec)
            },
            done ==> final(self)@ == old(self)@.with_body(old(self)@.body.gone()),
            done ==> final(target).extra() == old(target).extra(),
            done ==> exists|roll: u32|
                {
                    &&& final(target).body() == #[trigger] old(target).body().struck(
                        old(self)@.body,
                        roll as nat,
                    )
                    &&& final(text_vec).deep_view() == old(text_vec).deep_view().push(
                        enemy_attack_line(
                            old(self)@.body.name,
                            old(target).body().blow(old(self)@.body, roll as nat),
                            old(target).body().name,
                        ),
                    )
                },
    {
        let roll = random_u32();
        proof {
            super::stats::lemma_attack_damage_range(self@.body.stats, roll as nat);
        }
        self.attack_with(target, roll, text_vec)
    }

    /// Casts `the_move` at `target` with the rolls given: the first for the
    /// amount, the second for the chance that the move's status lands. An
    /// enemy that has had its turn, or has less mana than the move costs,
    /// does nothing and returns `false`. Otherwise the mana is spent, the
    /// blow is dealt and reported, the status is applied if it lands, the
    /// turn is taken, and `true` comes back.
    pub fn magic_with<T: Entity>(
        &mut self,
        target: &mut T,
        the_move: &Move,
        amount_roll: u32,
        chance_roll: u32,
        text_vec: &mut VecDeque<String>,
    ) -> (done: bool)
        requires
            old(self)@.body.can_cast(the_move@) ==> old(self)@.body.cast_fits(
                the_move@,
                amount_roll as nat,
                chance_roll as nat,
            ),
        ensures
            done == old(self)@.body.can_cast(the_move@),
            done ==> final(self)@.body.has_gone,
            final(target).body().health <= old(target).body().health,
            final(self)@.body.health == old(self)@.body.health,
            !done ==> {
                &&& final(self)@ == old(self)@
                &&& *final(target) == *old(target)
                &&& *final(text_vec) == *old(text_vec)
            },
            done ==> {
                &&& final(self)@ == old(self)@.with_body(old(self)@.body.after_cast(the_move@))
                &&& final(target).body() == old(target).body().spellbound(
                    old(self)@.body,
                    the_move@,
                    amount_roll as nat,
                    chance_roll as nat,
                )
                &&& final(target).extra() == old(target).extra()
                &&& final(text_vec).deep_view() == old(text_vec).deep_view() + spell_lines(
                    enemy_attack_line(
                        old(self)@.body.name,
                        old(target).body().spell_blow(
                            old(self)@.body,
                            the_move@,
                            amount_roll as nat,
                        ),
                        old(target).body().name,
                    ),
                    old(target).body().name,
                    the_move@,
                    chance_roll as nat,
                )
            },
    {
        if self.body.has_gone() || self.body.mana() < the_move.cost() {
            return false;
        }
        let magic_strength = self.body.magic_strength();
        let random_damage = the_move.amount_from_roll(magic_strength, amount_roll);
        let damage_dealt = attack_entity(random_damage, target);
        self.body.use_mana(the_move.cost());
        self.display_attack_text(target.name(), damage_dealt, text_vec);
        if the_move.status_lands(chance_roll) {
            match the_move.get_status() {
                Some(pattern) => {
                    let status = pattern.applied_by(magic_strength);
                    target.apply_status(&status, text_vec);
                },
                None => {},
            }
        }
        self.body.mark_gone();
        true
    }

    /// Casts `the_move` at `target`, as `magic_with` does, with both rolls
    /// drawn here.
    pub fn magic_move<T: Entity>(
        &mut self,
        target: &mut T,
        the_move: &Move,
        text_vec: &mut VecDeque<String>,
    ) -> (done: bool)
        requires
            old(self)@.body.can_cast(the_move@) ==> the_move@.fits_caster(
                old(self)@.body.stats.magic_strength,
            ),
        ensures
            done == old(self)@.body.can_cast(the_move@),
            done ==> final(self)@.body.has_gone,
            final(target).body().health <= old(target).body().health,
            final(self)@.body.health == old(self)@.body.health,
            !done ==> {
                &&& final(self)@ == old(self)@
                &&& *final(target) == *old(target)
                &&& *final(text_vec) == *old(text_vec)
            },
            done ==> final(self)@ == old(self)@.with_body(old(self)@.body.after_cast(the_move@)),
            done ==> final(target).extra() == old(target).extra(),
            done ==> exists|amount_roll: u32, chance_roll: u32|
                {
                    &&& final(target).body() == #[trigger] old(target).body().spellbound(
                        old(self)@.body,
                        the_move@,
                        amount_roll as nat,
                        chance_roll as nat,
                    )
                    &&& final(text_vec).deep_view() == old(text_vec).deep_view() + spell_lines(
                        enemy_attack_line(
                            old(self)@.body.name,
                            old(target).body().spell_blow(
                                old(self)@.body,
                                the_move@,
                                amount_roll as nat,
                            ),
                            old(target).body().name,
                        ),
                        old(target).body().name,
                        the_move@,
                        chance_roll as nat,
                    )
                },
    {
        let amount_roll = random_u32();
        let chance_roll = random_u32();
        proof {
            super::moves::lemma_move_amount_range(
                the_move@,
                self@.body.stats.magic_strength,
                amount_roll as nat,
            );
        }
        self.magic_with(target, the_move, amount_roll, chance_roll, text_vec)
    }

    /// Defends for this turn. An enemy that has had its turn does nothing
    /// and returns `false`; otherwise the defense bonus goes on, the turn is
    /// taken, and `true` comes back.
    pub fn defend_move(&mut self, text_vec: &mut VecDeque<String>) -> (done: bool)
        requires
            !old(self)@.body.has_gone ==> old(self)@.body.stats.can_start_defending(),
        ensures
            done == !old(self)@.body.has_gone,
            done ==> final(self)@.body.has_gone,
            !done ==> final(self)@ == old(self)@ && *final(text_vec) == *old(text_vec),
            done ==> {
                &&& final(self)@ == old(self)@.with_body(old(self)@.body.on_guard().gone())
                &&& final(text_vec).deep_view() == old(text_vec).deep_view().push(
                    defend_line(old(self)@.body.name),
                )
            },
    {
        if self.body.has_gone() {
            return false;
        }
        self.body.start_defending();
        let name = self.body.name();
        push_line(text_vec, defend_text(name.as_str()));
        self.body.mark_gone();
        true
    }

    pub fn mana(&self) -> (mana: u32)
        ensures
            mana == self@.body.mana,
    {
        self.body.mana()
    }

    pub fn max_mana(&self) -> (max_mana: u32)
        ensures
            max_mana == self@.body.max_mana,
    {
        self.body.max_mana()
    }

    /// A copy of the stats.
    pub fn stats(&self) -> (stats: Stats)
        ensures
            stats@ == self@.body.stats,
    {
        self.body.stats()
    }

    /// Copies of the statuses at work on the enemy, in the order they were
    /// applied.
    pub fn statuses(&self) -> (statuses: Vec<Status>)
        ensures
            status_views(statuses@) == self@.body.statuses,
    {
        self.body.statuses()
    }

    /// Whether the enemy is well formed and its blows and its casts, with
    /// any of `moves`, stay within a `u32`.
    pub fn is_battle_ready(&self, moves: &Vec<Move>) -> (ok: bool)
        ensures
            ok == battle_ready(self@.body, move_views(moves@)),
    {
        self.body.is_battle_ready(moves)
    }

    /// Whether the enemy is as it is before its first fight: alive, at full
    /// health and mana, free to move, not defending, under no status.
    pub fn is_fresh(&self) -> (ok: bool)
        ensures
            ok == self@.body.is_fresh(),
    {
        self.body.is_fresh()
    }

    /// Whether what the enemy drops to a player of `player_level` fits a
    /// `u32`.
    pub fn xp_fits(&self, player_level: u32) -> (ok: bool)
        ensures
            ok == (self@.xp_drop(player_level as nat) <= u32::MAX),
    {
        let level = self.body.level();
        let levels_above: u32 = if level > player_level {
            level - player_level
        } else {
            0
        };
        let mut amount: u64 = BASE_XP as u64;
        let mut i: u32 = 0;
        while i < levels_above
            invariant
                i <= levels_above,
                amount == xp_reward(i as nat),
                amount <= u32::MAX,
                levels_above == self@.levels_above(player_level as nat),
            decreases levels_above - i,
        {
            amount = amount * 2;
            i += 1;
            if amount > u32::MAX as u64 {
                proof {
                    lemma_xp_reward_grows(i as nat, levels_above as nat);
                }
                return false;
            }
        }
        true
    }

    /// The number of statuses at work on the enemy.
    pub fn status_count(&self) -> (count: usize)
        ensures
            count == self@.body.statuses.len(),
    {
        self.body.status_count()
    }
}

impl Entity for Enemy {
    type Extra = Seq<MoveType>;

    open spec fn body(&self) -> CombatantView {
        self@.body
    }

    open spec fn tick_ending(&self) -> Seq<char> {
        enemy_tick_ending()
    }

    open spec fn extra(&self) -> Seq<MoveType> {
        self@.queue
    }

    fn take_damage(&mut self, amount: u32) -> (taken: u32) {
        self.body.take_damage(amount)
    }

    fn heal(&mut self, amount: u32) {
        self.body.heal(amount);
    }

    fn use_mana(&mut self, amount: u32) {
        self.body.use_mana(amount);
    }

    fn speed(&self) -> (speed: u32) {
        self.body.speed()
    }

    fn level(&self) -> (level: u32) {
        self.body.level()
    }

    fn name(&self) -> (name: String) {
        self.body.name()
    }

    fn magic_strength(&self) -> (magic_strength: u32) {
        self.body.magic_strength()
    }

    fn is_dead(&self) -> (dead: bool) {
        self.body.is_dead()
    }

    fn gone_this_turn(&self) -> (gone: bool) {
        self.body.has_gone()
    }

    fn has_gone(&self) -> (gone: bool) {
        self.body.has_gone()
    }

    fn health(&self) -> (health: u32) {
        self.body.health()
    }

    fn max_health(&self) -> (max_health: u32) {
        self.body.max_health()
    }

    fn get_random_attack_dmg(&self) -> (damage: u32) {
        self.body.get_random_attack_dmg()
    }

    fn start_defending(&mut self) {
        self.body.start_defending();
    }

    fn stop_defending(&mut self) {
        self.body.stop_defending();
    }

    fn tick_statuses_with(&mut self, rolls: &Vec<u32>, text_vec: &mut VecDeque<String>) {
        self.body.tick_statuses_with(rolls, text_vec, "!");
    }

    fn tick_statuses(&mut self, text_vec: &mut VecDeque<String>) {
        self.body.tick_statuses(text_vec, "!");
    }

    fn apply_status(&mut self, status: &Status, text_vec: &mut VecDeque<String>) {
        self.body.apply_status(status, text_vec);
    }

    fn allow_move(&mut self) {
        self.body.allow_move();
    }
}

} // verus!
