//! The numeric profile of a combatant and the formulas derived from it.

use crate::dice::{bounded, bounded_max, bounded_roll, lemma_bounded_range, random_u32};
use vstd::prelude::*;

verus! {

/// What defending adds to the defense stat, and what ending it takes away.
pub const DEFENSE_AMOUNT: u32 = 50;

/// The stats of one combatant.
#[derive(Clone, Copy)]
pub struct Stats {
    health: u32,
    mana: u32,
    speed: u32,
    strength: u32,
    magic_strength: u32,
    defense: u32,
    is_defending: bool,
}

/// The stats as plain numbers.
pub struct StatsView {
    pub health: nat,
    pub mana: nat,
    pub speed: nat,
    pub strength: nat,
    pub magic_strength: nat,
    pub defense: nat,
    pub is_defending: bool,
}

/// A value held down to what a `u32` can carry.
pub open spec fn capped(value: nat) -> nat {
    if value > u32::MAX {
        u32::MAX as nat
    } else {
        value
    }
}

impl StatsView {
    /// Five and a half times the health stat, rounded down.
    pub open spec fn max_health(self) -> nat {
        capped(self.health * 11 / 2)
    }

    /// Two and a half times the mana stat, rounded down.
    pub open spec fn max_mana(self) -> nat {
        capped(self.mana * 5 / 2)
    }

    /// The damage of a physical attack for a given roll: the strength, plus a
    /// part of the roll below half the strength. A strength under 2 leaves
    /// no room for the roll.
    pub open spec fn attack_damage(self, roll: nat) -> nat {
        self.strength + bounded(roll, self.strength / 2)
    }

    /// The most a physical attack can do, whatever the roll.
    pub open spec fn max_attack_damage(self) -> nat {
        self.strength + bounded_max(self.strength / 2)
    }

    /// What is left of `amount` once the defense has taken its percentage,
    /// rounded down. A defense of 100 or more leaves nothing.
    pub open spec fn damage_taken(self, amount: nat) -> nat {
        if self.defense >= 100 {
            0
        } else {
            (amount * (100 - self.defense) / 100) as nat
        }
    }

    /// The defense bonus is either on, and then contained in the defense
    /// stat, or off, and then there is room to add it.
    pub open spec fn wf(self) -> bool {
        if self.is_defending {
            DEFENSE_AMOUNT <= self.defense <= u32::MAX
        } else {
            self.defense + DEFENSE_AMOUNT <= u32::MAX
        }
    }

    /// Whether defending can start: it has already, or there is room in a
    /// `u32` to add the bonus.
    pub open spec fn can_start_defending(self) -> bool {
        !self.is_defending ==> self.defense + DEFENSE_AMOUNT <= u32::MAX
    }

    /// Whether defending can stop: it has already, or the bonus is contained
    /// in the defense stat.
    pub open spec fn can_stop_defending(self) -> bool {
        self.is_defending ==> self.defense >= DEFENSE_AMOUNT
    }

    /// The stats once defending has started.
    pub open spec fn defending(self) -> StatsView {
        if self.is_defending {
            self
        } else {
            StatsView {
                defense: self.defense + DEFENSE_AMOUNT as nat,
                is_defending: true,
                ..self
            }
        }
    }

    /// The stats once defending has stopped.
    pub open spec fn at_ease(self) -> StatsView {
        if self.is_defending {
            StatsView {
                defense: (self.defense - DEFENSE_AMOUNT) as nat,
                is_defending: false,
                ..self
            }
        } else {
            self
        }
    }

    /// One more point of strength.
    pub open spec fn stronger(self) -> StatsView {
        StatsView { strength: self.strength + 1, ..self }
    }

    /// One more point of magic strength.
    pub open spec fn wiser(self) -> StatsView {
        StatsView { magic_strength: self.magic_strength + 1, ..self }
    }

    /// One more point of health.
    pub open spec fn hardier(self) -> StatsView {
        StatsView { health: self.health + 1, ..self }
    }
}

/// No roll takes a physical attack above `max_attack_damage`, and none below
/// the strength.
pub proof fn lemma_attack_damage_range(stats: StatsView, roll: nat)
    ensures
        stats.strength <= stats.attack_damage(roll) <= stats.max_attack_damage(),
{
    lemma_bounded_range(roll, stats.strength / 2);
}

/// Defense never adds to a blow: what is taken is at most what was dealt.
pub proof fn lemma_damage_taken_at_most(stats: StatsView, amount: nat)
    ensures
        stats.damage_taken(amount) <= amount,
        stats.defense == 0 ==> stats.damage_taken(amount) == amount,
{
    if stats.defense < 100 {
        let keep = (100 - stats.defense) as nat;
        assert(amount * keep / 100 <= amount) by (nonlinear_arith)
            requires
                keep <= 100,
        ;
        if stats.defense == 0 {
            assert(amount * 100 / 100 == amount) by (nonlinear_arith);
        }
    }
}

impl View for Stats {
    type V = StatsView;

    closed spec fn view(&self) -> StatsView {
        StatsView {
            health: self.health as nat,
            mana: self.mana as nat,
            speed: self.speed as nat,
            strength: self.strength as nat,
            magic_strength: self.magic_strength as nat,
            defense: self.defense as nat,
            is_defending: self.is_defending,
        }
    }
}

impl Stats {
    /// Stats with the given values, not defending.
    pub fn new(
        health: u32,
        mana: u32,
        speed: u32,
        strength: u32,
        magic_strength: u32,
        defense: u32,
    ) -> (stats: Self)
        ensures
            stats@ == (StatsView {
                health: health as nat,
                mana: mana as nat,
                speed: speed as nat,
                strength: strength as nat,
                magic_strength: magic_strength as nat,
                defense: defense as nat,
                is_defending: false,
            }),
    {
        Self { health, mana, speed, strength, magic_strength, defense, is_defending: false }
    }

    /// The stats a fresh player starts with: 10 everywhere, no defense.
    pub fn default() -> (stats: Self)
        ensures
            stats@ == (StatsView {
                health: 10,
                mana: 10,
                speed: 10,
                strength: 10,
                magic_strength: 10,
                defense: 0,
                is_defending: false,
            }),
            stats@.wf(),
    {
        Self {
            health: 10,
            mana: 10,
            speed: 10,
            strength: 10,
            magic_strength: 10,
            defense: 0,
            is_defending: false,
        }
    }

    /// The health an entity with these stats has when unhurt.
    pub fn calculate_max_health(&self) -> (max: u32)
        ensures
            max == self@.max_health(),
    {
        let wide: u64 = (self.health as u64) * 11 / 2;
        if wide > u32::MAX as u64 {
            u32::MAX
        } else {
            wide as u32
        }
    }

    /// The mana an entity with these stats has when rested.
    pub fn calculate_max_mana(&self) -> (max: u32)
        ensures
            max == self@.max_mana(),
    {
        let wide: u64 = (self.mana as u64) * 5 / 2;
        if wide > u32::MAX as u64 {
            u32::MAX
        } else {
            wide as u32
        }
    }

    /// The damage of a physical attack for the roll given.
    pub fn attack_dmg_from_roll(&self, roll: u32) -> (damage: u32)
        requires
            self@.attack_damage(roll as nat) <= u32::MAX,
        ensures
            damage == self@.attack_damage(roll as nat),
    {
        self.strength + bounded_roll(roll, self.strength / 2)
    }

    /// The damage of a physical attack, for a roll drawn here.
    pub fn generate_random_attack_dmg(&self) -> (damage: u32)
        requires
            self@.max_attack_damage() <= u32::MAX,
        ensures
            exists|roll: u32| damage == #[trigger] self@.attack_damage(roll as nat),
            self@.strength <= damage <= self@.max_attack_damage(),
    {
        let roll = random_u32();
        proof {
            lemma_attack_damage_range(self@, roll as nat);
        }
        self.attack_dmg_from_roll(roll)
    }

    /// How much of a blow of `damage_amount` gets through the defense.
    pub fn calc_damage_taken(&self, damage_amount: u32) -> (taken: u32)
        ensures
            taken == self@.damage_taken(damage_amount as nat),
            taken <= damage_amount,
    {
        proof {
            lemma_damage_taken_at_most(self@, damage_amount as nat);
        }
        if self.defense >= 100 {
            0
        } else {
            let keep: u64 = (100 - self.defense) as u64;
            let amount: u64 = damage_amount as u64;
            assert(amount * keep <= 0xffff_ffff * 100) by (nonlinear_arith)
                requires
                    amount <= 0xffff_ffff,
                    keep <= 100,
            ;
            (amount * keep / 100) as u32
        }
    }

    /// Whether the defense bonus is in line with the defense stat.
    pub fn is_well_formed(&self) -> (ok: bool)
        ensures
            ok == self@.wf(),
    {
        if self.is_defending {
            self.defense >= DEFENSE_AMOUNT
        } else {
            self.defense <= u32::MAX - DEFENSE_AMOUNT
        }
    }

    /// Whether a physical attack stays within a `u32` whatever the roll.
    pub fn attack_fits(&self) -> (ok: bool)
        ensures
            ok == (self@.max_attack_damage() <= u32::MAX),
    {
        let half = self.strength / 2;
        let most: u64 = self.strength as u64 + if half == 0 {
            0
        } else {
            (half - 1) as u64
        };
        most <= u32::MAX as u64
    }

    pub fn get_health(&self) -> (health: u32)
        ensures
            health == self@.health,
    {
        self.health
    }

    pub fn get_mana(&self) -> (mana: u32)
        ensures
            mana == self@.mana,
    {
        self.mana
    }

    pub fn get_strength(&self) -> (strength: u32)
        ensures
            strength == self@.strength,
    {
        self.strength
    }

    pub fn get_defense(&self) -> (defense: u32)
        ensures
            defense == self@.defense,
    {
        self.defense
    }

    pub fn is_defending(&self) -> (defending: bool)
        ensures
            defending == self@.is_defending,
    {
        self.is_defending
    }

    pub fn get_speed(&self) -> (speed: u32)
        ensures
            speed == self@.speed,
    {
        self.speed
    }

    pub fn get_magic_strength(&self) -> (magic_strength: u32)
        ensures
            magic_strength == self@.magic_strength,
    {
        self.magic_strength
    }

    /// Adds the defense bonus, unless it is already on.
    pub fn start_defending(&mut self)
        requires
            old(self)@.can_start_defending(),
        ensures
            final(self)@ == old(self)@.defending(),
            old(self)@.wf() ==> final(self)@.wf(),
    {
        if !self.is_defending {
            self.defense += DEFENSE_AMOUNT;
            self.is_defending = true;
        }
    }

    /// Takes the defense bonus away, unless it is already off.
    pub fn stop_defending(&mut self)
        requires
            old(self)@.can_stop_defending(),
        ensures
            final(self)@ == old(self)@.at_ease(),
            old(self)@.wf() ==> final(self)@.wf(),
    {
        if self.is_defending {
            self.defense -= DEFENSE_AMOUNT;
            self.is_defending = false;
        }
    }

    /// Raises the strength by one.
    pub fn increase_physical(&mut self)
        requires
            old(self)@.strength < u32::MAX,
        ensures
            final(self)@ == old(self)@.stronger(),
    {
        self.strength += 1;
    }

    /// Raises the magic strength by one.
    pub fn increase_magic(&mut self)
        requires
            old(self)@.magic_strength < u32::MAX,
        ensures
            final(self)@ == old(self)@.wiser(),
    {
        self.magic_strength += 1;
    }

    /// Raises the health stat by one.
    pub fn increase_health(&mut self)
        requires
            old(self)@.health < u32::MAX,
        ensures
            final(self)@ == old(self)@.hardier(),
    {
        self.health += 1;
    }
}

} // verus!
