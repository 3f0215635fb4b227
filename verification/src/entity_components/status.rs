//! Status effects: damage or healing that comes back every turn for a while.

use crate::dice::{bounded, bounded_max, bounded_roll, lemma_bounded_range, random_u32};
use vstd::prelude::*;

verus! {

/// Out of a hundred casts of a move that carries a status, how many apply it.
pub const STATUS_CHANCE_PERCENT: u32 = 20;

/// A status effect: either the pattern a move carries, or one at work on an
/// entity.
pub struct Status {
    name: String,
    base_amount: u32,
    is_healing: bool,
    magic_strength_when_applied: u32,
    num_turns: u32,
}

/// A status effect as plain values.
pub struct StatusView {
    pub name: Seq<char>,
    pub base_amount: nat,
    pub is_healing: bool,
    /// The caster's magic strength at the moment the status was applied.
    pub magic_strength: nat,
    /// The turns the status has left.
    pub turns: nat,
}

impl StatusView {
    /// The range a roll is brought into before it is added to the amount.
    pub open spec fn spread(self) -> nat {
        self.magic_strength + self.base_amount / 2
    }

    /// What the status heals or hurts in one turn, for a given roll. Only
    /// what was captured when it was applied counts.
    pub open spec fn amount(self, roll: nat) -> nat {
        self.magic_strength + self.base_amount + bounded(roll, self.spread())
    }

    /// The most the status can do in one turn, whatever the roll.
    pub open spec fn max_amount(self) -> nat {
        self.magic_strength + self.base_amount + bounded_max(self.spread())
    }

    /// The status has a turn left, and its amount fits a `u32` for any roll.
    pub open spec fn wf(self) -> bool {
        &&& self.turns >= 1
        &&& self.max_amount() <= u32::MAX
    }

    /// The status with one turn less to go.
    pub open spec fn ticked(self) -> StatusView {
        StatusView { turns: (self.turns - 1) as nat, ..self }
    }

    /// The status as it lands when a caster of the given magic strength
    /// applies it: that strength is captured, the rest is the pattern's.
    pub open spec fn cast_with(self, magic_strength: nat) -> StatusView {
        StatusView { magic_strength, ..self }
    }
}

/// No roll takes a status above `max_amount`.
pub proof fn lemma_status_amount_range(status: StatusView, roll: nat)
    ensures
        status.magic_strength + status.base_amount <= status.amount(roll) <= status.max_amount(),
{
    lemma_bounded_range(roll, status.spread());
}

/// The statuses every game starts from, as plain values.
pub open spec fn status_catalog() -> Seq<StatusView> {
    seq![
        StatusView {
            name: "Burn"@,
            base_amount: 10,
            is_healing: false,
            magic_strength: 0,
            turns: 5,
        },
        StatusView {
            name: "Frostburn"@,
            base_amount: 12,
            is_healing: false,
            magic_strength: 0,
            turns: 5,
        },
    ]
}

/// The first status in `list` that goes by `name`, if any does.
pub open spec fn first_named(list: Seq<StatusView>, name: Seq<char>) -> Option<StatusView>
    decreases list.len(),
{
    if list.len() == 0 {
        None
    } else if list[0].name == name {
        Some(list[0])
    } else {
        first_named(list.skip(1), name)
    }
}

/// The views of a list of statuses, one by one.
pub open spec fn status_views(list: Seq<Status>) -> Seq<StatusView> {
    Seq::new(list.len(), |i: int| list[i]@)
}

impl View for Status {
    type V = StatusView;

    closed spec fn view(&self) -> StatusView {
        StatusView {
            name: self.name@,
            base_amount: self.base_amount as nat,
            is_healing: self.is_healing,
            magic_strength: self.magic_strength_when_applied as nat,
            turns: self.num_turns as nat,
        }
    }
}

impl Clone for Status {
    fn clone(&self) -> (copy: Self)
        ensures
            copy@ == self@,
    {
        Status {
            name: self.name.clone(),
            base_amount: self.base_amount,
            is_healing: self.is_healing,
            magic_strength_when_applied: self.magic_strength_when_applied,
            num_turns: self.num_turns,
        }
    }
}

impl Status {
    /// A status with the given values.
    pub fn new(
        name: String,
        base_amount: u32,
        is_healing: bool,
        magic_strength_when_applied: u32,
        num_turns: u32,
    ) -> (status: Self)
        ensures
            status@ == (StatusView {
                name: name@,
                base_amount: base_amount as nat,
                is_healing,
                magic_strength: magic_strength_when_applied as nat,
                turns: num_turns as nat,
            }),
    {
        Self { name, base_amount, is_healing, magic_strength_when_applied, num_turns }
    }

    /// A copy of this status as a caster of strength `magic_strength` applies
    /// it. Nothing that happens to the caster afterwards reaches the copy.
    pub fn applied_by(&self, magic_strength: u32) -> (status: Self)
        ensures
            status@ == self@.cast_with(magic_strength as nat),
    {
        Status {
            name: self.name.clone(),
            base_amount: self.base_amount,
            is_healing: self.is_healing,
            magic_strength_when_applied: magic_strength,
            num_turns: self.num_turns,
        }
    }

    /// What the status does this turn, for the roll given.
    pub fn amount_from_roll(&self, roll: u32) -> (amount: u32)
        requires
            self@.amount(roll as nat) <= u32::MAX,
        ensures
            amount == self@.amount(roll as nat),
    {
        let spread = self.magic_strength_when_applied + self.base_amount / 2;
        self.magic_strength_when_applied + self.base_amount + bounded_roll(roll, spread)
    }

    /// What the status does this turn, for a roll drawn here.
    pub fn calculate_amount(&self) -> (amount: u32)
        requires
            self@.max_amount() <= u32::MAX,
        ensures
            exists|roll: u32| amount == #[trigger] self@.amount(roll as nat),
            amount <= self@.max_amount(),
    {
        let roll = random_u32();
        proof {
            lemma_status_amount_range(self@, roll as nat);
        }
        self.amount_from_roll(roll)
    }

    /// Ends a turn for this status. Says whether that was its last.
    pub fn tick(&mut self) -> (expired: bool)
        requires
            old(self)@.turns >= 1,
        ensures
            final(self)@ == old(self)@.ticked(),
            expired == (final(self)@.turns == 0),
    {
        self.num_turns -= 1;
        self.num_turns == 0
    }

    /// Whether the status has a turn left and its amount fits a `u32` for
    /// any roll.
    pub fn is_well_formed(&self) -> (ok: bool)
        ensures
            ok == self@.wf(),
    {
        let spread: u64 = self.magic_strength_when_applied as u64 + (self.base_amount / 2) as u64;
        let most: u64 = self.magic_strength_when_applied as u64 + self.base_amount as u64
            + if spread == 0 {
            0
        } else {
            spread - 1
        };
        self.num_turns >= 1 && most <= u32::MAX as u64
    }

    pub fn is_healing(&self) -> (healing: bool)
        ensures
            healing == self@.is_healing,
    {
        self.is_healing
    }

    /// A copy of the name.
    pub fn name(&self) -> (name: String)
        ensures
            name@ == self@.name,
    {
        self.name.clone()
    }

    /// The turns the status has left.
    pub fn turns_left(&self) -> (turns: u32)
        ensures
            turns == self@.turns,
    {
        self.num_turns
    }

    /// The chance that a move applies the status it carries, in percent.
    pub fn status_chance() -> (percent: u32)
        ensures
            percent == STATUS_CHANCE_PERCENT,
    {
        STATUS_CHANCE_PERCENT
    }

    /// The statuses every game starts from.
    pub fn create_status_list() -> (list: Vec<Status>)
        ensures
            status_views(list@) == status_catalog(),
    {
        let mut list: Vec<Status> = Vec::new();
        list.push(Status::new(String::from_str("Burn"), 10, false, 0, 5));
        list.push(Status::new(String::from_str("Frostburn"), 12, false, 0, 5));
        list
    }

    /// A copy of the first status in `status_list` named `target_name`.
    pub fn get_status_from(target_name: &str, status_list: &Vec<Status>) -> (found: Option<
        Status,
    >)
        ensures
            match found {
                Some(status) => first_named(status_views(status_list@), target_name@) == Some(
                    status@,
                ),
                None => first_named(status_views(status_list@), target_name@).is_none(),
            },
    {
        let wanted = String::from_str(target_name);
        let ghost all = status_views(status_list@);
        let mut i: usize = 0;
        assert(all.skip(0) =~= all);
        while i < status_list.len()
            invariant
                i <= status_list.len(),
                wanted@ == target_name@,
                all == status_views(status_list@),
                first_named(all, target_name@) == first_named(all.skip(i as int), target_name@),
            decreases status_list.len() - i,
        {
            proof {
                let rest = all.skip(i as int);
                assert(rest.skip(1) =~= all.skip(i + 1));
            }
            if status_list[i].name == wanted {
                return Some(status_list[i].clone());
            }
            i += 1;
        }
        None
    }
}

} // verus!
