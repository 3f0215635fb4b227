//! The magic moves of the game and the catalog they are listed in.

use super::status::{first_named, status_views, Status, StatusView, STATUS_CHANCE_PERCENT};
use crate::dice::{bounded, bounded_max, bounded_roll, lemma_bounded_range, random_u32};
use vstd::prelude::*;

verus! {

/// The element of a move. It only colours the move; no rule reads it.
#[derive(Clone, Copy, Debug, PartialEq, Eq)]
pub enum ElementType {
    Fire,
    Wind,
    Earth,
    Water,
    /// No element at all.
    Neutral,
}

/// What an entity can do with its turn.
#[derive(Clone, Copy, Debug, PartialEq, Eq)]
pub enum MoveType {
    AttackMove,
    MagicMove,
    DefendMove,
}

/// A magic move.
pub struct Move {
    name: String,
    base_amount: u32,
    mana_cost: u32,
    level_requirement: u32,
    element: ElementType,
    applied_status: Option<Status>,
}

/// A move as plain values.
pub struct MoveView {
    pub name: Seq<char>,
    pub base_amount: nat,
    pub mana_cost: nat,
    pub level_requirement: nat,
    pub element: ElementType,
    /// The pattern of the status the move may apply.
    pub status: Option<StatusView>,
}

/// The view of a status that may not be there.
pub open spec fn optional_status_view(status: Option<Status>) -> Option<StatusView> {
    match status {
        Some(status) => Some(status@),
        None => None,
    }
}

impl MoveView {
    /// An entity of this level may use the move.
    pub open spec fn eligible(self, level: nat) -> bool {
        self.level_requirement <= level
    }

    /// The range a roll is brought into before it is added to the amount.
    pub open spec fn spread(self, magic_strength: nat) -> nat {
        magic_strength + self.base_amount / 2
    }

    /// What the move does when a caster of the given magic strength uses it,
    /// for a given roll.
    pub open spec fn amount(self, magic_strength: nat, roll: nat) -> nat {
        magic_strength + self.base_amount + bounded(roll, self.spread(magic_strength))
    }

    /// The most the move can do for that caster, whatever the roll.
    pub open spec fn max_amount(self, magic_strength: nat) -> nat {
        magic_strength + self.base_amount + bounded_max(self.spread(magic_strength))
    }

    /// Whether the move applies its status for a given roll: it must carry
    /// one, and the roll, brought into 1..=100, must not exceed the chance.
    pub open spec fn status_lands(self, roll: nat) -> bool {
        self.status.is_some() && roll % 100 + 1 <= STATUS_CHANCE_PERCENT
    }

    /// The status the move leaves on its target when a caster of the given
    /// magic strength makes it land.
    pub open spec fn status_cast_with(self, magic_strength: nat) -> StatusView
        recommends
            self.status.is_some(),
    {
        self.status.unwrap().cast_with(magic_strength)
    }

    /// Whatever status the move carries stays well formed when a caster of
    /// the given magic strength applies it, and the move's own amount fits a
    /// `u32` for that caster.
    pub open spec fn fits_caster(self, magic_strength: nat) -> bool {
        &&& self.max_amount(magic_strength) <= u32::MAX
        &&& self.status.is_some() ==> self.status_cast_with(magic_strength).wf()
    }
}

/// No roll takes a move above `max_amount`.
pub proof fn lemma_move_amount_range(the_move: MoveView, magic_strength: nat, roll: nat)
    ensures
        magic_strength + the_move.base_amount <= the_move.amount(magic_strength, roll)
            <= the_move.max_amount(magic_strength),
{
    lemma_bounded_range(roll, the_move.spread(magic_strength));
}

/// How many moves at the head of `moves` an entity of this level may use:
/// the count stops at the first move that asks for more.
pub open spec fn available_prefix(moves: Seq<MoveView>, level: nat) -> nat
    decreases moves.len(),
{
    if moves.len() == 0 || !moves[0].eligible(level) {
        0
    } else {
        1 + available_prefix(moves.skip(1), level)
    }
}

/// What `available_prefix` counts: every move before the count is eligible,
/// and the move at the count, if there is one, is not.
pub proof fn lemma_available_prefix(moves: Seq<MoveView>, level: nat)
    ensures
        available_prefix(moves, level) <= moves.len(),
        forall|i: int|
            0 <= i < available_prefix(moves, level) ==> (#[trigger] moves[i]).eligible(level),
        available_prefix(moves, level) < moves.len() ==> !moves[available_prefix(
            moves,
            level,
        ) as int].eligible(level),
    decreases moves.len(),
{
    if moves.len() > 0 && moves[0].eligible(level) {
        let rest = moves.skip(1);
        lemma_available_prefix(rest, level);
        let count = available_prefix(moves, level);
        assert forall|i: int| 0 <= i < count implies (#[trigger] moves[i]).eligible(level) by {
            if i > 0 {
                assert(moves[i] == rest[i - 1]);
            }
        }
    }
}

/// A higher level never has fewer moves to choose from.
pub proof fn lemma_available_prefix_grows(moves: Seq<MoveView>, lower: nat, higher: nat)
    requires
        lower <= higher,
    ensures
        available_prefix(moves, lower) <= available_prefix(moves, higher),
    decreases moves.len(),
{
    if moves.len() > 0 && moves[0].eligible(lower) {
        lemma_available_prefix_grows(moves.skip(1), lower, higher);
    }
}

/// The views of a list of moves, one by one.
pub open spec fn move_views(list: Seq<Move>) -> Seq<MoveView> {
    Seq::new(list.len(), |i: int| list[i]@)
}

/// The moves every game starts from. Only the first carries a status: the
/// first one named "Burn" among the statuses given, if there is one.
pub open spec fn move_catalog(statuses: Seq<StatusView>) -> Seq<MoveView> {
    seq![
        MoveView {
            name: "FireOne"@,
            base_amount: 12,
            mana_cost: 2,
            level_requirement: 1,
            element: ElementType::Fire,
            status: first_named(statuses, "Burn"@),
        },
        MoveView {
            name: "WindOne"@,
            base_amount: 14,
            mana_cost: 2,
            level_requirement: 3,
            element: ElementType::Wind,
            status: None,
        },
        MoveView {
            name: "EarthOne"@,
            base_amount: 16,
            mana_cost: 2,
            level_requirement: 5,
            element: ElementType::Earth,
            status: None,
        },
        MoveView {
            name: "WaterOne"@,
            base_amount: 20,
            mana_cost: 2,
            level_requirement: 6,
            element: ElementType::Water,
            status: None,
        },
    ]
}

impl View for Move {
    type V = MoveView;

    closed spec fn view(&self) -> MoveView {
        MoveView {
            name: self.name@,
            base_amount: self.base_amount as nat,
            mana_cost: self.mana_cost as nat,
            level_requirement: self.level_requirement as nat,
            element: self.element,
            status: optional_status_view(self.applied_status),
        }
    }
}

impl Clone for Move {
    fn clone(&self) -> (copy: Self)
        ensures
            copy@ == self@,
    {
        Move {
            name: self.name.clone(),
            base_amount: self.base_amount,
            mana_cost: self.mana_cost,
            level_requirement: self.level_requirement,
            element: self.element,
            applied_status: match &self.applied_status {
                Some(status) => Some(status.clone()),
                None => None,
            },
        }
    }
}

impl Move {
    /// A move with the given values.
    pub fn new(
        name: String,
        base_amount: u32,
        mana_cost: u32,
        level_requirement: u32,
        element: ElementType,
        applied_status: Option<Status>,
    ) -> (the_move: Self)
        ensures
            the_move@ == (MoveView {
                name: name@,
                base_amount: base_amount as nat,
                mana_cost: mana_cost as nat,
                level_requirement: level_requirement as nat,
                element,
                status: optional_status_view(applied_status),
            }),
    {
        Self { name, base_amount, mana_cost, level_requirement, element, applied_status }
    }

    /// The move a builder chain starts from: everything 1, no element, no
    /// status.
    pub fn default() -> (the_move: Self)
        ensures
            the_move@ == (MoveView {
                name: "DEFAULT_MOVE"@,
                base_amount: 1,
                mana_cost: 1,
                level_requirement: 1,
                element: ElementType::Neutral,
                status: None,
            }),
    {
        Self {
            name: String::from_str("DEFAULT_MOVE"),
            base_amount: 1,
            mana_cost: 1,
            level_requirement: 1,
            element: ElementType::Neutral,
            applied_status: None,
        }
    }

    /// The same move under another name.
    pub fn with_name(self, name: String) -> (the_move: Self)
        ensures
            the_move@ == (MoveView { name: name@, ..self@ }),
    {
        let mut the_move = self;
        the_move.name = name;
        the_move
    }

    /// The same move with another base amount.
    pub fn with_base_amount(self, base_amount: u32) -> (the_move: Self)
        ensures
            the_move@ == (MoveView { base_amount: base_amount as nat, ..self@ }),
    {
        let mut the_move = self;
        the_move.base_amount = base_amount;
        the_move
    }

    /// The same move at another mana cost.
    pub fn with_mana_cost(self, mana_cost: u32) -> (the_move: Self)
        ensures
            the_move@ == (MoveView { mana_cost: mana_cost as nat, ..self@ }),
    {
        let mut the_move = self;
        the_move.mana_cost = mana_cost;
        the_move
    }

    /// The same move open from another level.
    pub fn with_level_requirement(self, level_requirement: u32) -> (the_move: Self)
        ensures
            the_move@ == (MoveView { level_requirement: level_requirement as nat, ..self@ }),
    {
        let mut the_move = self;
        the_move.level_requirement = level_requirement;
        the_move
    }

    /// The same move with another element.
    pub fn with_element(self, element: ElementType) -> (the_move: Self)
        ensures
            the_move@ == (MoveView { element, ..self@ }),
    {
        let mut the_move = self;
        the_move.element = element;
        the_move
    }

    /// The same move carrying another status, or none.
    pub fn with_applied_status(self, applied_status: Option<Status>) -> (the_move: Self)
        ensures
            the_move@ == (MoveView { status: optional_status_view(applied_status), ..self@ }),
    {
        let mut the_move = self;
        the_move.applied_status = applied_status;
        the_move
    }

    /// What the move heals or hurts for the caster's magic strength and the
    /// roll given.
    pub fn amount_from_roll(&self, magic_strength: u32, roll: u32) -> (amount: u32)
        requires
            self@.amount(magic_strength as nat, roll as nat) <= u32::MAX,
        ensures
            amount == self@.amount(magic_strength as nat, roll as nat),
    {
        let spread = magic_strength + self.base_amount / 2;
        magic_strength + self.base_amount + bounded_roll(roll, spread)
    }

    /// What the move heals or hurts for the caster's magic strength, for a
    /// roll drawn here.
    pub fn generate_random_amount(&self, magic_strength: u32) -> (amount: u32)
        requires
            self@.max_amount(magic_strength as nat) <= u32::MAX,
        ensures
            exists|roll: u32| amount == #[trigger] self@.amount(magic_strength as nat, roll as nat),
            amount <= self@.max_amount(magic_strength as nat),
    {
        let roll = random_u32();
        proof {
            lemma_move_amount_range(self@, magic_strength as nat, roll as nat);
        }
        self.amount_from_roll(magic_strength, roll)
    }

    /// Whether the move's amount fits a `u32` for a caster of the given
    /// magic strength, and so does the status it may leave.
    pub fn fits_caster(&self, magic_strength: u32) -> (ok: bool)
        ensures
            ok == self@.fits_caster(magic_strength as nat),
    {
        let spread: u64 = magic_strength as u64 + (self.base_amount / 2) as u64;
        let most: u64 = magic_strength as u64 + self.base_amount as u64 + if spread == 0 {
            0
        } else {
            spread - 1
        };
        if most > u32::MAX as u64 {
            return false;
        }
        match &self.applied_status {
            Some(pattern) => pattern.applied_by(magic_strength).is_well_formed(),
            None => true,
        }
    }

    /// The number of moves at the head of `full_move_list` that an entity of
    /// `entity_level` may use. The list is taken to be in rising order of
    /// level, so the count stops at the first move out of reach.
    pub fn get_move_list(full_move_list: &Vec<Move>, entity_level: u32) -> (valid_len: usize)
        ensures
            valid_len == available_prefix(move_views(full_move_list@), entity_level as nat),
            valid_len <= full_move_list@.len(),
            forall|i: int|
                0 <= i < valid_len ==> (#[trigger] full_move_list@[i])@.eligible(
                    entity_level as nat,
                ),
            valid_len < full_move_list@.len() ==> !full_move_list@[valid_len as int]@.eligible(
                entity_level as nat,
            ),
    {
        let ghost all = move_views(full_move_list@);
        let ghost level = entity_level as nat;
        let mut valid_len: usize = 0;
        assert(all.skip(0) =~= all);
        while valid_len < full_move_list.len()
            invariant
                valid_len <= full_move_list@.len(),
                all == move_views(full_move_list@),
                level == entity_level as nat,
                available_prefix(all, level) == valid_len + available_prefix(
                    all.skip(valid_len as int),
                    level,
                ),
            decreases full_move_list@.len() - valid_len,
        {
            proof {
                let rest = all.skip(valid_len as int);
                assert(rest.skip(1) =~= all.skip(valid_len + 1));
            }
            if full_move_list[valid_len].is_meeting_requirements(entity_level) {
                valid_len += 1;
            } else {
                proof {
                    Self::lemma_prefix_is_eligible(full_move_list@, entity_level as nat);
                }
                return valid_len;
            }
        }
        proof {
            Self::lemma_prefix_is_eligible(full_move_list@, entity_level as nat);
        }
        valid_len
    }

    proof fn lemma_prefix_is_eligible(list: Seq<Move>, level: nat)
        ensures
            forall|i: int|
                0 <= i < available_prefix(move_views(list), level) ==> (#[trigger] list[i])@.eligible(
                    level,
                ),
            available_prefix(move_views(list), level) < list.len() ==> !list[available_prefix(
                move_views(list),
                level,
            ) as int]@.eligible(level),
    {
        lemma_available_prefix(move_views(list), level);
        assert forall|i: int| 0 <= i < available_prefix(move_views(list), level) implies (
        #[trigger] list[i])@.eligible(level) by {
            assert(move_views(list)[i] == list[i]@);
        }
    }

    /// Whether an entity of `entity_level` may use this move.
    pub fn is_meeting_requirements(&self, entity_level: u32) -> (eligible: bool)
        ensures
            eligible == self@.eligible(entity_level as nat),
    {
        self.level_requirement <= entity_level
    }

    /// The mana the move costs.
    pub fn cost(&self) -> (mana_cost: u32)
        ensures
            mana_cost == self@.mana_cost,
    {
        self.mana_cost
    }

    /// A copy of the name.
    pub fn name(&self) -> (name: String)
        ensures
            name@ == self@.name,
    {
        self.name.clone()
    }

    /// Whether the move applies its status, for the roll given.
    pub fn status_lands(&self, roll: u32) -> (lands: bool)
        ensures
            lands == self@.status_lands(roll as nat),
    {
        match &self.applied_status {
            Some(_) => roll % 100 + 1 <= Status::status_chance(),
            None => false,
        }
    }

    /// Whether the move applies its status, for a roll drawn here. A move
    /// without a status never does.
    pub fn roll_status_chance(&self) -> (lands: bool)
        ensures
            exists|roll: u32| lands == #[trigger] self@.status_lands(roll as nat),
            lands ==> self@.status.is_some(),
    {
        let roll = random_u32();
        self.status_lands(roll)
    }

    /// A copy of the status the move carries, if it carries one.
    pub fn get_status(&self) -> (status: Option<Status>)
        ensures
            optional_status_view(status) == self@.status,
    {
        match &self.applied_status {
            Some(status) => Some(status.clone()),
            None => None,
        }
    }

    /// The moves every game starts from, in rising order of level.
    pub fn create_move_list(status_list: &Vec<Status>) -> (list: Vec<Move>)
        ensures
            move_views(list@) == move_catalog(status_views(status_list@)),
    {
        let mut list: Vec<Move> = Vec::new();
        list.push(
            Move::new(
                String::from_str("FireOne"),
                12,
                2,
                1,
                ElementType::Fire,
                Status::get_status_from("Burn", status_list),
            ),
        );
        list.push(Move::new(String::from_str("WindOne"), 14, 2, 3, ElementType::Wind, None));
        list.push(Move::new(String::from_str("EarthOne"), 16, 2, 5, ElementType::Earth, None));
        list.push(Move::new(String::from_str("WaterOne"), 20, 2, 6, ElementType::Water, None));
        list
    }
}

} // verus!
