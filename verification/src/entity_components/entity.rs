//! What the player and the enemies have in common: a body that can be hurt,
//! healed, drained and put under statuses, and the interface both offer.

use super::moves::{move_views, Move, MoveView};
use super::stats::{Stats, StatsView};
use super::status::{lemma_status_amount_range, status_views, Status, StatusView};
use crate::dice::{random_rolls, roll_at, roll_from};
use crate::text::{
    push_line, status_applied_line, status_applied_text, status_damage_line, status_damage_text,
    status_heal_line, status_heal_text,
};
use std::collections::VecDeque;
use vstd::prelude::*;

verus! {

/// The part of an entity that fights: its name, health and mana, its stats
/// and level, whether it has had its turn, and the statuses at work on it.
pub struct Combatant {
    name: String,
    health: u32,
    max_health: u32,
    mana: u32,
    max_mana: u32,
    stats: Stats,
    level: u32,
    has_gone: bool,
    statuses: Vec<Status>,
}

/// A combatant as plain values.
pub struct CombatantView {
    pub name: Seq<char>,
    pub health: nat,
    pub max_health: nat,
    pub mana: nat,
    pub max_mana: nat,
    pub stats: StatsView,
    pub level: nat,
    pub has_gone: bool,
    /// The statuses at work, in the order they were applied.
    pub statuses: Seq<StatusView>,
}

/// The statuses that have a turn left, in their old order.
pub open spec fn still_running(statuses: Seq<StatusView>) -> Seq<StatusView>
    decreases statuses.len(),
{
    if statuses.len() == 0 {
        statuses
    } else if statuses.last().turns > 0 {
        still_running(statuses.drop_last()).push(statuses.last())
    } else {
        still_running(statuses.drop_last())
    }
}

impl CombatantView {
    /// A combatant as it is created: unhurt, rested, under no status.
    pub open spec fn fresh(name: Seq<char>, stats: StatsView, level: nat, has_gone: bool) -> Self {
        CombatantView {
            name,
            health: stats.max_health(),
            max_health: stats.max_health(),
            mana: stats.max_mana(),
            max_mana: stats.max_mana(),
            stats,
            level,
            has_gone,
            statuses: Seq::empty(),
        }
    }

    /// Every status has a turn left and an amount that fits a `u32`.
    pub open spec fn statuses_wf(self) -> bool {
        forall|i: int| 0 <= i < self.statuses.len() ==> (#[trigger] self.statuses[i]).wf()
    }

    /// The stats are well formed and so is every status.
    pub open spec fn wf(self) -> bool {
        &&& self.stats.wf()
        &&& self.statuses_wf()
    }

    /// As a combatant is before its first fight: alive, at full health and
    /// mana, free to move, not defending, under no status.
    pub open spec fn is_fresh(self) -> bool {
        &&& self.health == self.max_health
        &&& self.health > 0
        &&& self.mana == self.max_mana
        &&& !self.has_gone
        &&& !self.stats.is_defending
        &&& self.statuses.len() == 0
    }

    /// Health and mana are at or below their maxima.
    pub open spec fn within_limits(self) -> bool {
        &&& self.health <= self.max_health
        &&& self.mana <= self.max_mana
    }

    pub open spec fn is_dead(self) -> bool {
        self.health == 0
    }

    /// After a blow of `amount`: the defense takes its share, and the health
    /// goes down by the rest, but not below 0.
    pub open spec fn damaged(self, amount: nat) -> Self {
        let taken = self.stats.damage_taken(amount);
        CombatantView {
            health: if taken > self.health {
                0
            } else {
                (self.health - taken) as nat
            },
            ..self
        }
    }

    /// After healing by `amount`; the maximum does not hold the health back.
    pub open spec fn healed(self, amount: nat) -> Self {
        CombatantView { health: self.health + amount, ..self }
    }

    /// After spending `amount` of mana, or all of it where there is less.
    pub open spec fn drained(self, amount: nat) -> Self {
        CombatantView {
            mana: if amount > self.mana {
                0
            } else {
                (self.mana - amount) as nat
            },
            ..self
        }
    }

    /// With one more status at the end of the list.
    pub open spec fn afflicted(self, status: StatusView) -> Self {
        CombatantView { statuses: self.statuses.push(status), ..self }
    }

    /// With the defense bonus on.
    pub open spec fn on_guard(self) -> Self {
        CombatantView { stats: self.stats.defending(), ..self }
    }

    /// With the defense bonus off.
    pub open spec fn off_guard(self) -> Self {
        CombatantView { stats: self.stats.at_ease(), ..self }
    }

    /// Having had its turn.
    pub open spec fn gone(self) -> Self {
        CombatantView { has_gone: true, ..self }
    }

    /// Free to move again.
    pub open spec fn rested(self) -> Self {
        CombatantView { has_gone: false, ..self }
    }

    /// With new stats, and health and mana at the maxima that follow from
    /// them.
    pub open spec fn restored(self, stats: StatsView) -> Self {
        CombatantView {
            health: stats.max_health(),
            max_health: stats.max_health(),
            mana: stats.max_mana(),
            max_mana: stats.max_mana(),
            stats,
            ..self
        }
    }

    /// How far the health is below its maximum.
    pub open spec fn room(self) -> nat {
        if self.health < self.max_health {
            (self.max_health - self.health) as nat
        } else {
            0
        }
    }

    /// What status `i` changes the health by this turn, for a given roll: a
    /// healing status gives its amount as far as there is room below the
    /// maximum, a hurting one what its amount leaves after the defense.
    pub open spec fn effect_size(self, i: int, roll: nat) -> nat {
        let amount = self.statuses[i].amount(roll);
        if self.statuses[i].is_healing {
            if amount > self.room() {
                self.room()
            } else {
                amount
            }
        } else {
            self.stats.damage_taken(amount)
        }
    }

    /// After status `i` has acted with the given roll and lost a turn.
    pub open spec fn after_effect(self, i: int, roll: nat) -> Self {
        let status = self.statuses[i];
        let body = if status.is_healing {
            self.healed(self.effect_size(i, roll))
        } else {
            self.damaged(status.amount(roll))
        };
        CombatantView { statuses: self.statuses.update(i, status.ticked()), ..body }
    }

    /// After the first `count` statuses have acted, each with its own roll.
    pub open spec fn after_effects(self, rolls: Seq<u32>, count: nat) -> Self
        decreases count,
    {
        if count == 0 {
            self
        } else {
            self.after_effects(rolls, (count - 1) as nat).after_effect(
                count - 1,
                roll_at(rolls, count - 1),
            )
        }
    }

    /// The line that reports what status `i` did with the given roll.
    pub open spec fn effect_line(self, i: int, roll: nat, ending: Seq<char>) -> Seq<char> {
        if self.statuses[i].is_healing {
            status_heal_line(self.name, self.effect_size(i, roll), self.statuses[i].name, ending)
        } else {
            status_damage_line(
                self.name,
                self.effect_size(i, roll),
                self.statuses[i].name,
                ending,
            )
        }
    }

    /// The lines that report what the first `count` statuses did.
    pub open spec fn effect_lines(self, rolls: Seq<u32>, count: nat, ending: Seq<char>) -> Seq<
        Seq<char>,
    >
        decreases count,
    {
        if count == 0 {
            Seq::empty()
        } else {
            self.effect_lines(rolls, (count - 1) as nat, ending).push(
                self.after_effects(rolls, (count - 1) as nat).effect_line(
                    count - 1,
                    roll_at(rolls, count - 1),
                    ending,
                ),
            )
        }
    }

    /// After the end of a turn: every status has acted once, in order, with
    /// the roll at its place in `rolls` (0 where `rolls` is too short), and
    /// those that ran out are gone.
    pub open spec fn ticked(self, rolls: Seq<u32>) -> Self {
        let done = self.after_effects(rolls, self.statuses.len());
        CombatantView { statuses: still_running(done.statuses), ..done }
    }

    /// After a physical attack by `attacker` with the given roll.
    pub open spec fn struck(self, attacker: CombatantView, roll: nat) -> Self {
        self.damaged(attacker.stats.attack_damage(roll))
    }

    /// What a physical attack by `attacker` with the given roll gets through
    /// the defense.
    pub open spec fn blow(self, attacker: CombatantView, roll: nat) -> nat {
        self.stats.damage_taken(attacker.stats.attack_damage(roll))
    }

    /// Whether the combatant may cast `the_move`: it has not had its turn
    /// and can pay for it.
    pub open spec fn can_cast(self, the_move: MoveView) -> bool {
        !self.has_gone && self.mana >= the_move.mana_cost
    }

    /// After casting `the_move`: the mana is paid and the turn is taken.
    pub open spec fn after_cast(self, the_move: MoveView) -> Self {
        self.drained(the_move.mana_cost).gone()
    }

    /// After `caster` has cast `the_move` at this combatant: the move's
    /// amount for the first roll hurts it; if the second roll makes the
    /// move's status land, the status is applied with the caster's magic
    /// strength captured.
    pub open spec fn spellbound(
        self,
        caster: CombatantView,
        the_move: MoveView,
        amount_roll: nat,
        chance_roll: nat,
    ) -> Self {
        let hurt = self.damaged(the_move.amount(caster.stats.magic_strength, amount_roll));
        if the_move.status_lands(chance_roll) {
            hurt.afflicted(the_move.status_cast_with(caster.stats.magic_strength))
        } else {
            hurt
        }
    }

    /// What `the_move`, cast by `caster` with the given roll, gets through
    /// the defense.
    pub open spec fn spell_blow(self, caster: CombatantView, the_move: MoveView, roll: nat) -> nat {
        self.stats.damage_taken(the_move.amount(caster.stats.magic_strength, roll))
    }

    /// What a cast by this combatant asks of the machine: the move's amount
    /// fits a `u32` for the roll, and a status that lands is well formed.
    pub open spec fn cast_fits(self, the_move: MoveView, amount_roll: nat, chance_roll: nat) -> bool {
        &&& the_move.amount(self.stats.magic_strength, amount_roll) <= u32::MAX
        &&& the_move.status_lands(chance_roll) ==> the_move.status_cast_with(
            self.stats.magic_strength,
        ).wf()
    }

    /// The lines that report the end of a turn, each with the given ending.
    pub open spec fn tick_lines(self, rolls: Seq<u32>, ending: Seq<char>) -> Seq<Seq<char>> {
        self.effect_lines(rolls, self.statuses.len(), ending)
    }
}

/// Every move fits a caster of the given magic strength.
pub open spec fn casters_fit(moves: Seq<MoveView>, magic_strength: nat) -> bool {
    forall|i: int| 0 <= i < moves.len() ==> (#[trigger] moves[i]).fits_caster(magic_strength)
}

/// A body whose statuses and stats are well formed and whose blows and
/// casts, with any of the moves, stay within a `u32`.
pub open spec fn battle_ready(body: CombatantView, moves: Seq<MoveView>) -> bool {
    &&& body.wf()
    &&& body.stats.max_attack_damage() <= u32::MAX
    &&& casters_fit(moves, body.stats.magic_strength)
}

/// The lines a cast leaves in the log: the line for the blow, and after it
/// the line for the status if the roll makes it land.
pub open spec fn spell_lines(
    blow_line: Seq<char>,
    target_name: Seq<char>,
    the_move: MoveView,
    chance_roll: nat,
) -> Seq<Seq<char>> {
    if the_move.status_lands(chance_roll) {
        seq![blow_line, status_applied_line(the_move.status.unwrap().name, target_name)]
    } else {
        seq![blow_line]
    }
}

/// While statuses act, only the health and the turns they have left change,
/// and the statuses that have not acted yet are as they were.
pub proof fn lemma_after_effects_frame(body: CombatantView, rolls: Seq<u32>, count: nat)
    requires
        count <= body.statuses.len(),
    ensures
        body.after_effects(rolls, count).name == body.name,
        body.after_effects(rolls, count).max_health == body.max_health,
        body.after_effects(rolls, count).mana == body.mana,
        body.after_effects(rolls, count).max_mana == body.max_mana,
        body.after_effects(rolls, count).stats == body.stats,
        body.after_effects(rolls, count).level == body.level,
        body.after_effects(rolls, count).has_gone == body.has_gone,
        body.after_effects(rolls, count).statuses.len() == body.statuses.len(),
        forall|i: int|
            0 <= i < count ==> #[trigger] body.after_effects(rolls, count).statuses[i]
                == body.statuses[i].ticked(),
        forall|i: int|
            count <= i < body.statuses.len() ==> #[trigger] body.after_effects(
                rolls,
                count,
            ).statuses[i] == body.statuses[i],
        body.within_limits() ==> body.after_effects(rolls, count).within_limits(),
    decreases count,
{
    if count > 0 {
        lemma_after_effects_frame(body, rolls, (count - 1) as nat);
    }
}

/// What is still running is part of what there was: each survivor has a
/// turn left and stood in the list before.
pub proof fn lemma_still_running(statuses: Seq<StatusView>)
    ensures
        still_running(statuses).len() <= statuses.len(),
        forall|i: int|
            0 <= i < still_running(statuses).len() ==> (#[trigger] still_running(
                statuses,
            )[i]).turns > 0 && statuses.contains(still_running(statuses)[i]),
    decreases statuses.len(),
{
    if statuses.len() > 0 {
        let front = statuses.drop_last();
        lemma_still_running(front);
        assert forall|i: int| 0 <= i < still_running(statuses).len() implies (
        #[trigger] still_running(statuses)[i]).turns > 0 && statuses.contains(
            still_running(statuses)[i],
        ) by {
            if i < still_running(front).len() {
                let j = choose|j: int|
                    0 <= j < front.len() && front[j] == still_running(front)[i];
                assert(statuses[j] == still_running(front)[i]);
            } else {
                assert(statuses[statuses.len() - 1] == still_running(statuses)[i]);
            }
        }
    }
}

/// The end of a turn leaves well-formed statuses well formed and touches
/// nothing but the health and the statuses; health within its maximum
/// stays within it, and no status is added.
pub proof fn lemma_ticked_frame(body: CombatantView, rolls: Seq<u32>)
    requires
        body.statuses_wf(),
    ensures
        body.ticked(rolls).statuses_wf(),
        body.wf() ==> body.ticked(rolls).wf(),
        body.ticked(rolls).name == body.name,
        body.ticked(rolls).max_health == body.max_health,
        body.ticked(rolls).mana == body.mana,
        body.ticked(rolls).max_mana == body.max_mana,
        body.ticked(rolls).stats == body.stats,
        body.ticked(rolls).level == body.level,
        body.ticked(rolls).has_gone == body.has_gone,
        body.ticked(rolls).statuses.len() <= body.statuses.len(),
        body.within_limits() ==> body.ticked(rolls).within_limits(),
{
    let done = body.after_effects(rolls, body.statuses.len());
    lemma_after_effects_frame(body, rolls, body.statuses.len());
    lemma_still_running(done.statuses);
    let left = still_running(done.statuses);
    assert forall|i: int| 0 <= i < left.len() implies (#[trigger] left[i]).wf() by {
        let j = choose|j: int| 0 <= j < done.statuses.len() && done.statuses[j] == left[i];
        assert(done.statuses[j] == body.statuses[j].ticked());
        assert(body.statuses[j].wf());
    }
}

impl View for Combatant {
    type V = CombatantView;

    closed spec fn view(&self) -> CombatantView {
        CombatantView {
            name: self.name@,
            health: self.health as nat,
            max_health: self.max_health as nat,
            mana: self.mana as nat,
            max_mana: self.max_mana as nat,
            stats: self.stats@,
            level: self.level as nat,
            has_gone: self.has_gone,
            statuses: status_views(self.statuses@),
        }
    }
}

/// Whether every one of `moves` fits a caster of the given magic strength.
pub fn all_fit_caster(moves: &Vec<Move>, magic_strength: u32) -> (ok: bool)
    ensures
        ok == casters_fit(move_views(moves@), magic_strength as nat),
{
    let mut i: usize = 0;
    while i < moves.len()
        invariant
            i <= moves@.len(),
            forall|j: int|
                0 <= j < i ==> (#[trigger] move_views(moves@)[j]).fits_caster(
                    magic_strength as nat,
                ),
        decreases moves@.len() - i,
    {
        if !moves[i].fits_caster(magic_strength) {
            assert(!move_views(moves@)[i as int].fits_caster(magic_strength as nat));
            return false;
        }
        i += 1;
    }
    true
}

impl Clone for Combatant {
    fn clone(&self) -> (copy: Self)
        ensures
            copy@ == self@,
    {
        let mut statuses: Vec<Status> = Vec::new();
        let mut i: usize = 0;
        while i < self.statuses.len()
            invariant
                i <= self.statuses@.len(),
                statuses@.len() == i,
                forall|j: int| 0 <= j < i ==> (#[trigger] statuses@[j])@ == self.statuses@[j]@,
            decreases self.statuses@.len() - i,
        {
            statuses.push(self.statuses[i].clone());
            i += 1;
        }
        assert(status_views(statuses@) =~= status_views(self.statuses@));
        Combatant {
            name: self.name.clone(),
            health: self.health,
            max_health: self.max_health,
            mana: self.mana,
            max_mana: self.max_mana,
            stats: self.stats,
            level: self.level,
            has_gone: self.has_gone,
            statuses,
        }
    }
}

impl Combatant {
    /// A combatant with the given stats, at full health and mana and under
    /// no status.
    pub fn new(name: String, stats: Stats, level: u32, has_gone: bool) -> (body: Self)
        ensures
            body@ == CombatantView::fresh(name@, stats@, level as nat, has_gone),
    {
        let starting_health = stats.calculate_max_health();
        let starting_mana = stats.calculate_max_mana();
        let statuses: Vec<Status> = Vec::new();
        assert(status_views(statuses@) =~= Seq::empty());
        Self {
            name,
            health: starting_health,
            max_health: starting_health,
            mana: starting_mana,
            max_mana: starting_mana,
            stats,
            level,
            has_gone,
            statuses,
        }
    }

    /// Takes a blow of `amount`. Returns what got through the defense, which
    /// is what the health goes down by unless it reaches 0 first.
    pub fn take_damage(&mut self, amount: u32) -> (taken: u32)
        ensures
            final(self)@ == old(self)@.damaged(amount as nat),
            taken == old(self)@.stats.damage_taken(amount as nat),
            taken <= amount,
            final(self)@.health <= old(self)@.health,
            old(self)@.within_limits() ==> final(self)@.within_limits(),
    {
        let damage_taken = self.stats.calc_damage_taken(amount);
        if damage_taken > self.health {
            self.health = 0;
        } else {
            self.health -= damage_taken;
        }
        damage_taken
    }

    /// Adds `amount` to the health, without regard to the maximum.
    pub fn heal(&mut self, amount: u32)
        requires
            old(self)@.health + amount <= u32::MAX,
        ensures
            final(self)@ == old(self)@.healed(amount as nat),
            old(self)@.within_limits() && old(self)@.health + amount <= old(self)@.max_health
                ==> final(self)@.within_limits(),
    {
        self.health += amount;
    }

    /// Spends `amount` of mana; where there is less, all of it.
    pub fn use_mana(&mut self, amount: u32)
        ensures
            final(self)@ == old(self)@.drained(amount as nat),
            final(self)@.mana <= old(self)@.mana,
            old(self)@.within_limits() ==> final(self)@.within_limits(),
    {
        if amount > self.mana {
            self.mana = 0;
        } else {
            self.mana -= amount;
        }
    }

    pub fn speed(&self) -> (speed: u32)
        ensures
            speed == self@.stats.speed,
    {
        self.stats.get_speed()
    }

    pub fn level(&self) -> (level: u32)
        ensures
            level == self@.level,
    {
        self.level
    }

    /// A copy of the name.
    pub fn name(&self) -> (name: String)
        ensures
            name@ == self@.name,
    {
        self.name.clone()
    }

    pub fn magic_strength(&self) -> (magic_strength: u32)
        ensures
            magic_strength == self@.stats.magic_strength,
    {
        self.stats.get_magic_strength()
    }

    /// Whether the health is at 0.
    pub fn is_dead(&self) -> (dead: bool)
        ensures
            dead == self@.is_dead(),
    {
        self.health == 0
    }

    pub fn has_gone(&self) -> (gone: bool)
        ensures
            gone == self@.has_gone,
    {
        self.has_gone
    }

    pub fn health(&self) -> (health: u32)
        ensures
            health == self@.health,
    {
        self.health
    }

    pub fn max_health(&self) -> (max_health: u32)
        ensures
            max_health == self@.max_health,
    {
        self.max_health
    }

    pub fn mana(&self) -> (mana: u32)
        ensures
            mana == self@.mana,
    {
        self.mana
    }

    pub fn max_mana(&self) -> (max_mana: u32)
        ensures
            max_mana == self@.max_mana,
    {
        self.max_mana
    }

    /// A copy of the stats.
    pub fn stats(&self) -> (stats: Stats)
        ensures
            stats@ == self@.stats,
    {
        self.stats
    }

    /// Whether the combatant is as it is before its first fight: alive, at
    /// full health and mana, free to move, not defending, under no status.
    pub fn is_fresh(&self) -> (ok: bool)
        ensures
            ok == self@.is_fresh(),
    {
        self.health == self.max_health && self.health > 0 && self.mana == self.max_mana
            && !self.has_gone && !self.stats.is_defending() && self.statuses.len() == 0
    }

    /// Whether the stats and every status are well formed.
    pub fn is_well_formed(&self) -> (ok: bool)
        ensures
            ok == self@.wf(),
    {
        if !self.stats.is_well_formed() {
            return false;
        }
        let mut i: usize = 0;
        while i < self.statuses.len()
            invariant
                i <= self.statuses@.len(),
                forall|j: int| 0 <= j < i ==> (#[trigger] self@.statuses[j]).wf(),
            decreases self.statuses@.len() - i,
        {
            if !self.statuses[i].is_well_formed() {
                assert(!self@.statuses[i as int].wf());
                return false;
            }
            i += 1;
        }
        true
    }

    /// Whether the body is well formed and its blows and its casts, with
    /// any of `moves`, stay within a `u32`.
    pub fn is_battle_ready(&self, moves: &Vec<Move>) -> (ok: bool)
        ensures
            ok == battle_ready(self@, move_views(moves@)),
    {
        self.is_well_formed() && self.stats.attack_fits() && all_fit_caster(
            moves,
            self.stats.get_magic_strength(),
        )
    }

    /// Copies of the statuses at work, in the order they were applied.
    pub fn statuses(&self) -> (statuses: Vec<Status>)
        ensures
            status_views(statuses@) == self@.statuses,
    {
        let mut statuses: Vec<Status> = Vec::new();
        let mut i: usize = 0;
        while i < self.statuses.len()
            invariant
                i <= self.statuses@.len(),
                statuses@.len() == i,
                forall|j: int| 0 <= j < i ==> (#[trigger] statuses@[j])@ == self.statuses@[j]@,
            decreases self.statuses@.len() - i,
        {
            statuses.push(self.statuses[i].clone());
            i += 1;
        }
        assert(status_views(statuses@) =~= status_views(self.statuses@));
        statuses
    }

    /// The number of statuses at work.
    pub fn status_count(&self) -> (count: usize)
        ensures
            count == self@.statuses.len(),
    {
        self.statuses.len()
    }

    /// The damage of a physical attack, for the roll given.
    pub fn attack_dmg_from_roll(&self, roll: u32) -> (damage: u32)
        requires
            self@.stats.attack_damage(roll as nat) <= u32::MAX,
        ensures
            damage == self@.stats.attack_damage(roll as nat),
    {
        self.stats.attack_dmg_from_roll(roll)
    }

    /// The damage of a physical attack, for a roll drawn here.
    pub fn get_random_attack_dmg(&self) -> (damage: u32)
        requires
            self@.stats.max_attack_damage() <= u32::MAX,
        ensures
            exists|roll: u32| damage == #[trigger] self@.stats.attack_damage(roll as nat),
            self@.stats.strength <= damage <= self@.stats.max_attack_damage(),
    {
        self.stats.generate_random_attack_dmg()
    }

    /// Puts the defense bonus on, unless it is on already.
    pub fn start_defending(&mut self)
        requires
            old(self)@.stats.can_start_defending(),
        ensures
            final(self)@ == old(self)@.on_guard(),
            old(self)@.wf() ==> final(self)@.wf(),
    {
        self.stats.start_defending();
        assert(final(self)@.statuses == old(self)@.statuses);
    }

    /// Takes the defense bonus off, unless it is off already.
    pub fn stop_defending(&mut self)
        requires
            old(self)@.stats.can_stop_defending(),
        ensures
            final(self)@ == old(self)@.off_guard(),
            old(self)@.wf() ==> final(self)@.wf(),
    {
        self.stats.stop_defending();
        assert(final(self)@.statuses == old(self)@.statuses);
    }

    /// Notes that the combatant has had its turn.
    pub(crate) fn mark_gone(&mut self)
        ensures
            final(self)@ == old(self)@.gone(),
    {
        self.has_gone = true;
    }

    /// Lets the combatant move again.
    pub fn allow_move(&mut self)
        ensures
            final(self)@ == old(self)@.rested(),
    {
        self.has_gone = false;
    }

    /// Raises the level by one.
    pub(crate) fn raise_level(&mut self)
        requires
            old(self)@.level < u32::MAX,
        ensures
            final(self)@ == (CombatantView { level: old(self)@.level + 1, ..old(self)@ }),
    {
        self.level += 1;
    }

    /// Replaces the stats, recomputes the maxima from them, and fills health
    /// and mana up to the new maxima.
    pub(crate) fn reset_stats(&mut self, stats: Stats)
        ensures
            final(self)@ == old(self)@.restored(stats@),
    {
        let new_health = stats.calculate_max_health();
        let new_mana = stats.calculate_max_mana();
        self.stats = stats;
        self.health = new_health;
        self.max_health = new_health;
        self.mana = new_mana;
        self.max_mana = new_mana;
    }

    /// Puts a copy of `status` at the end of the statuses at work, and
    /// reports it. A status of the same name that is already there stays:
    /// both run side by side.
    pub fn apply_status(&mut self, status: &Status, text_vec: &mut VecDeque<String>)
        ensures
            final(self)@ == old(self)@.afflicted(status@),
            final(text_vec).deep_view() == old(text_vec).deep_view().push(
                status_applied_line(status@.name, old(self)@.name),
            ),
    {
        let status_name = status.name();
        push_line(text_vec, status_applied_text(status_name.as_str(), self.name.as_str()));
        self.statuses.push(status.clone());
        assert(status_views(self.statuses@) =~= status_views(old(self).statuses@).push(status@));
    }

    /// Ends a turn: every status acts once, in the order it was applied and
    /// with the roll at its place in `rolls`, then loses a turn; the
    /// statuses that ran out are removed, the others keep their order.
    /// Rolls beyond the number of statuses are not read; a status beyond
    /// the number of rolls acts with the roll 0. Every line that reports a
    /// status ends with `ending`.
    pub fn tick_statuses_with(
        &mut self,
        rolls: &Vec<u32>,
        text_vec: &mut VecDeque<String>,
        ending: &str,
    )
        requires
            old(self)@.statuses_wf(),
        ensures
            final(self)@ == old(self)@.ticked(rolls@),
            final(text_vec).deep_view() == old(text_vec).deep_view() + old(self)@.tick_lines(
                rolls@,
                ending@,
            ),
            final(self)@.statuses_wf(),
            old(self)@.wf() ==> final(self)@.wf(),
            old(self)@.within_limits() ==> final(self)@.within_limits(),
    {
        proof {
            lemma_ticked_frame(self@, rolls@);
        }
        let count = self.statuses.len();
        let ghost start = self@;
        let ghost lines = text_vec.deep_view();
        let mut i: usize = 0;
        assert(lines + start.effect_lines(rolls@, 0, ending@) =~= lines);
        while i < count
            invariant
                i <= count,
                count == start.statuses.len(),
                count == self.statuses@.len(),
                start.statuses_wf(),
                self@ == start.after_effects(rolls@, i as nat),
                text_vec.deep_view() == lines + start.effect_lines(rolls@, i as nat, ending@),
            decreases count - i,
        {
            let ghost before = self@;
            let ghost roll = roll_at(rolls@, i as int);
            proof {
                lemma_after_effects_frame(start, rolls@, i as nat);
                assert(before.statuses[i as int] == start.statuses[i as int]);
                assert(before.statuses[i as int].wf());
                lemma_status_amount_range(before.statuses[i as int], roll);
                assert(before.statuses[i as int] == self.statuses@[i as int]@);
            }
            let amount = self.statuses[i].amount_from_roll(roll_from(rolls, i));
            let status_name = self.statuses[i].name();
            if self.statuses[i].is_healing() {
                let room = if self.health < self.max_health {
                    self.max_health - self.health
                } else {
                    0
                };
                let given = if amount > room {
                    room
                } else {
                    amount
                };
                self.health += given;
                push_line(
                    text_vec,
                    status_heal_text(self.name.as_str(), given, status_name.as_str(), ending),
                );
            } else {
                let taken = self.take_damage(amount);
                push_line(
                    text_vec,
                    status_damage_text(self.name.as_str(), taken, status_name.as_str(), ending),
                );
            }
            let _expired = self.statuses[i].tick();
            proof {
                assert(status_views(self.statuses@) =~= before.statuses.update(
                    i as int,
                    before.statuses[i as int].ticked(),
                ));
                assert(self@ == before.after_effect(i as int, roll));
                assert(text_vec.deep_view() =~= lines + start.effect_lines(
                    rolls@,
                    (i + 1) as nat,
                    ending@,
                ));
            }
            i += 1;
        }
        let ghost done = self@;
        let ghost mut seen: int = 0;
        let mut kept: usize = 0;
        proof {
            lemma_after_effects_frame(start, rolls@, count as nat);
            assert(done.statuses.take(0) =~= Seq::empty());
            assert(done.statuses.skip(0) =~= done.statuses);
            assert(status_views(self.statuses@) =~= still_running(done.statuses.take(0))
                + done.statuses.skip(0));
        }
        while kept < self.statuses.len()
            invariant
                0 <= seen <= done.statuses.len(),
                kept == still_running(done.statuses.take(seen)).len(),
                status_views(self.statuses@) == still_running(done.statuses.take(seen))
                    + done.statuses.skip(seen),
                self@ == (CombatantView { statuses: status_views(self.statuses@), ..done }),
            decreases done.statuses.len() - seen,
        {
            proof {
                assert(status_views(self.statuses@).len() == self.statuses@.len());
                assert(seen < done.statuses.len());
                assert(self.statuses@[kept as int]@ == status_views(self.statuses@)[kept as int]);
                assert(self.statuses@[kept as int]@ == done.statuses[seen]);
                assert(done.statuses.take(seen + 1).drop_last() =~= done.statuses.take(
                    seen,
                ));
                assert(done.statuses.take(seen + 1).last() == done.statuses[seen]);
            }
            let ghost views_before = status_views(self.statuses@);
            if self.statuses[kept].turns_left() == 0 {
                let _gone = self.statuses.remove(kept);
                proof {
                    assert(status_views(self.statuses@) =~= views_before.remove(kept as int));
                    assert(status_views(self.statuses@) =~= still_running(
                        done.statuses.take(seen + 1),
                    ) + done.statuses.skip(seen + 1));
                }
            } else {
                kept += 1;
                proof {
                    assert(status_views(self.statuses@) =~= still_running(
                        done.statuses.take(seen + 1),
                    ) + done.statuses.skip(seen + 1));
                }
            }
            proof {
                seen = seen + 1;
            }
        }
        proof {
            assert(status_views(self.statuses@).len() == self.statuses@.len());
            assert(seen == done.statuses.len());
            assert(done.statuses.take(seen) =~= done.statuses);
            assert(status_views(self.statuses@) =~= still_running(done.statuses));
        }
    }

    /// Ends a turn as `tick_statuses_with` does, with one roll per status
    /// drawn here.
    pub fn tick_statuses(&mut self, text_vec: &mut VecDeque<String>, ending: &str)
        requires
            old(self)@.statuses_wf(),
        ensures
            exists|rolls: Seq<u32>|
                {
                    &&& rolls.len() == old(self)@.statuses.len()
                    &&& final(self)@ == #[trigger] old(self)@.ticked(rolls)
                    &&& final(text_vec).deep_view() == old(text_vec).deep_view() + old(
                        self,
                    )@.tick_lines(rolls, ending@)
                },
            final(self)@.statuses_wf(),
            old(self)@.wf() ==> final(self)@.wf(),
            old(self)@.within_limits() ==> final(self)@.within_limits(),
    {
        let rolls = random_rolls(self.statuses.len());
        self.tick_statuses_with(&rolls, text_vec, ending);
    }
}

/// What the player and every enemy can do and be asked.
///
/// An entity is a body and something of its own besides. Whatever is done
/// to it through this interface is done to the body; the rest stays.
pub trait Entity: Sized {
    /// What the entity has besides its body.
    type Extra;

    /// The body of the entity.
    spec fn body(&self) -> CombatantView;

    /// How the lines end that report a status at work on the entity.
    spec fn tick_ending(&self) -> Seq<char>;

    /// What the entity has besides its body.
    spec fn extra(&self) -> Self::Extra;

    /// Takes a blow of `amount`. Returns what got through the defense, which
    /// is what the health goes down by unless it reaches 0 first.
    fn take_damage(&mut self, amount: u32) -> (taken: u32)
        ensures
            final(self).body() == old(self).body().damaged(amount as nat),
            final(self).extra() == old(self).extra(),
            taken == old(self).body().stats.damage_taken(amount as nat),
            taken <= amount,
            final(self).body().health <= old(self).body().health,
            old(self).body().within_limits() ==> final(self).body().within_limits(),
    ;

    /// Adds `amount` to the health, without regard to the maximum.
    fn heal(&mut self, amount: u32)
        requires
            old(self).body().health + amount <= u32::MAX,
        ensures
            final(self).body() == old(self).body().healed(amount as nat),
            final(self).extra() == old(self).extra(),
            old(self).body().within_limits() && old(self).body().health + amount <= old(
                self,
            ).body().max_health ==> final(self).body().within_limits(),
    ;

    /// Spends `amount` of mana; where there is less, all of it.
    fn use_mana(&mut self, amount: u32)
        ensures
            final(self).body() == old(self).body().drained(amount as nat),
            final(self).extra() == old(self).extra(),
            final(self).body().mana <= old(self).body().mana,
            old(self).body().within_limits() ==> final(self).body().within_limits(),
    ;

    fn speed(&self) -> (speed: u32)
        ensures
            speed == self.body().stats.speed,
    ;

    fn level(&self) -> (level: u32)
        ensures
            level == self.body().level,
    ;

    /// A copy of the name.
    fn name(&self) -> (name: String)
        ensures
            name@ == self.body().name,
    ;

    fn magic_strength(&self) -> (magic_strength: u32)
        ensures
            magic_strength == self.body().stats.magic_strength,
    ;

    /// Whether the health is at 0.
    fn is_dead(&self) -> (dead: bool)
        ensures
            dead == self.body().is_dead(),
    ;

    /// Whether the entity has had its turn.
    fn gone_this_turn(&self) -> (gone: bool)
        ensures
            gone == self.body().has_gone,
    ;

    /// Whether the entity has had its turn.
    fn has_gone(&self) -> (gone: bool)
        ensures
            gone == self.body().has_gone,
    ;

    fn health(&self) -> (health: u32)
        ensures
            health == self.body().health,
    ;

    fn max_health(&self) -> (max_health: u32)
        ensures
            max_health == self.body().max_health,
    ;

    /// The damage of a physical attack, for a roll drawn inside.
    fn get_random_attack_dmg(&self) -> (damage: u32)
        requires
            self.body().stats.max_attack_damage() <= u32::MAX,
        ensures
            exists|roll: u32| damage == #[trigger] self.body().stats.attack_damage(roll as nat),
            self.body().stats.strength <= damage <= self.body().stats.max_attack_damage(),
    ;

    /// Puts the defense bonus on, unless it is on already.
    fn start_defending(&mut self)
        requires
            old(self).body().stats.can_start_defending(),
        ensures
            final(self).body() == old(self).body().on_guard(),
            final(self).extra() == old(self).extra(),
            old(self).body().wf() ==> final(self).body().wf(),
    ;

    /// Takes the defense bonus off, unless it is off already.
    fn stop_defending(&mut self)
        requires
            old(self).body().stats.can_stop_defending(),
        ensures
            final(self).body() == old(self).body().off_guard(),
            final(self).extra() == old(self).extra(),
            old(self).body().wf() ==> final(self).body().wf(),
    ;

    /// Ends a turn: every status acts once, in the order it was applied and
    /// with the roll at its place in `rolls`, then loses a turn; the
    /// statuses that ran out are removed, the others keep their order. A
    /// status beyond the number of rolls acts with the roll 0.
    fn tick_statuses_with(&mut self, rolls: &Vec<u32>, text_vec: &mut VecDeque<String>)
        requires
            old(self).body().statuses_wf(),
        ensures
            final(self).body() == old(self).body().ticked(rolls@),
            final(self).extra() == old(self).extra(),
            final(text_vec).deep_view() == old(text_vec).deep_view() + old(
                self,
            ).body().tick_lines(rolls@, old(self).tick_ending()),
            final(self).body().statuses_wf(),
            old(self).body().wf() ==> final(self).body().wf(),
            old(self).body().within_limits() ==> final(self).body().within_limits(),
    ;

    /// Ends a turn as `tick_statuses_with` does, with one roll per status
    /// drawn inside.
    fn tick_statuses(&mut self, text_vec: &mut VecDeque<String>)
        requires
            old(self).body().statuses_wf(),
        ensures
            final(self).extra() == old(self).extra(),
            exists|rolls: Seq<u32>|
                {
                    &&& rolls.len() == old(self).body().statuses.len()
                    &&& final(self).body() == #[trigger] old(self).body().ticked(rolls)
                    &&& final(text_vec).deep_view() == old(text_vec).deep_view() + old(
                        self,
                    ).body().tick_lines(rolls, old(self).tick_ending())
                },
            final(self).body().statuses_wf(),
            old(self).body().wf() ==> final(self).body().wf(),
            old(self).body().within_limits() ==> final(self).body().within_limits(),
    ;

    /// Puts a copy of `status` at the end of the statuses at work, and
    /// reports it.
    fn apply_status(&mut self, status: &Status, text_vec: &mut VecDeque<String>)
        ensures
            final(self).body() == old(self).body().afflicted(status@),
            final(self).extra() == old(self).extra(),
            final(text_vec).deep_view() == old(text_vec).deep_view().push(
                status_applied_line(status@.name, old(self).body().name),
            ),
    ;

    /// Lets the entity move again.
    fn allow_move(&mut self)
        ensures
            final(self).body() == old(self).body().rested(),
            final(self).extra() == old(self).extra(),
    ;
}

/// Deals a blow of `amount` to `entity`. Returns what got through.
pub fn attack_entity<T: Entity>(amount: u32, entity: &mut T) -> (taken: u32)
    ensures
        final(entity).body() == old(entity).body().damaged(amount as nat),
        final(entity).extra() == old(entity).extra(),
        taken == old(entity).body().stats.damage_taken(amount as nat),
        taken <= amount,
        final(entity).body().health <= old(entity).body().health,
{
    entity.take_damage(amount)
}

} // verus!
