//! Where the game's chance comes from.
//!
//! Every formula of the game takes its roll as an argument, so that what a
//! roll leads to is fixed and can be stated. Only the functions that have no
//! roll to go by draw one here.

use vstd::prelude::*;

verus! {

/// Draws one roll from `rand::random::<u32>()`, the thread-local generator.
///
/// Nothing is claimed about the roll: any `u32` may come back, and two calls
/// may differ.
#[verifier::external_body]
pub(crate) fn random_u32() -> (roll: u32) {
    rand::random::<u32>()
}

/// A roll brought into `0..range`; an empty range leaves only 0.
pub open spec fn bounded(roll: nat, range: nat) -> nat {
    if range == 0 {
        0
    } else {
        roll % range
    }
}

/// The roll at place `i` of a list of rolls; where the list has no such
/// place, 0.
pub open spec fn roll_at(rolls: Seq<u32>, i: int) -> nat {
    if 0 <= i < rolls.len() {
        rolls[i] as nat
    } else {
        0
    }
}

/// The largest value `bounded` can take for a range.
pub open spec fn bounded_max(range: nat) -> nat {
    if range == 0 {
        0
    } else {
        (range - 1) as nat
    }
}

/// Whatever the roll, `bounded` stays at or below `bounded_max`, and reaches it.
pub proof fn lemma_bounded_range(roll: nat, range: nat)
    ensures
        bounded(roll, range) <= bounded_max(range),
        bounded(bounded_max(range), range) == bounded_max(range),
{
    if range > 0 {
        assert(roll % range < range) by (nonlinear_arith)
            requires
                range > 0,
        ;
        assert((range - 1) as nat % range == (range - 1) as nat) by (nonlinear_arith)
            requires
                range > 0,
        ;
    }
}

/// Brings `roll` into `0..range` by remainder; with an empty range the result is 0.
pub fn bounded_roll(roll: u32, range: u32) -> (part: u32)
    ensures
        part == bounded(roll as nat, range as nat),
        part <= bounded_max(range as nat),
{
    if range == 0 {
        0
    } else {
        roll % range
    }
}

/// The roll at place `i` of `rolls`; where the list has no such place, 0.
pub fn roll_from(rolls: &Vec<u32>, i: usize) -> (roll: u32)
    ensures
        roll == roll_at(rolls@, i as int),
{
    if i < rolls.len() {
        rolls[i]
    } else {
        0
    }
}

/// Draws `count` rolls, one after the other.
pub(crate) fn random_rolls(count: usize) -> (rolls: Vec<u32>)
    ensures
        rolls@.len() == count,
{
    let mut rolls: Vec<u32> = Vec::new();
    while rolls.len() < count
        invariant
            rolls@.len() <= count,
        decreases count - rolls@.len(),
    {
        rolls.push(random_u32());
    }
    rolls
}

} // verus!
