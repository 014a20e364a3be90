//! Equippable items and the slots they occupy.

use vstd::prelude::*;

verus! {

/// A location on a character where a single piece of gear can sit.
#[derive(Copy, Clone, PartialEq, Eq, Structural, Debug)]
pub enum GearSlot {
    Torso,
    Hand,
    Foot,
}

/// An equippable item: a name, an optional delta for each of the three
/// stats (attack power, defense power, hit points), and the slot it
/// occupies. Absent deltas contribute nothing when the gear is equipped.
/// Gear is immutable once constructed.
#[derive(Debug)]
#[verifier::ext_equal]
pub struct Gear {
    pub name: String,
    pub ap: Option<i32>,
    pub dp: Option<i32>,
    pub hp: Option<i32>,
    pub slot: GearSlot,
}

/// The attack-power delta a gear contributes, reading an absent delta as 0.
pub open spec fn gear_ap(g: Gear) -> int {
    match g.ap {
        Some(v) => v as int,
        None => 0,
    }
}

/// The defense-power delta a gear contributes, reading an absent delta as 0.
pub open spec fn gear_dp(g: Gear) -> int {
    match g.dp {
        Some(v) => v as int,
        None => 0,
    }
}

/// The hit-point delta a gear contributes, reading an absent delta as 0.
pub open spec fn gear_hp(g: Gear) -> int {
    match g.hp {
        Some(v) => v as int,
        None => 0,
    }
}

impl Gear {
    /// Builds a gear from its parts. No validation: negative and absent
    /// deltas are both legal.
    pub fn new(
        name: String,
        ap: Option<i32>,
        dp: Option<i32>,
        hp: Option<i32>,
        slot: GearSlot,
    ) -> (g: Gear)
        ensures
            g.name == name,
            g.ap == ap,
            g.dp == dp,
            g.hp == hp,
            g.slot == slot,
    {
        Gear { name, ap, dp, hp, slot }
    }
}

impl Clone for Gear {
    fn clone(&self) -> (g: Self)
        ensures
            g == *self,
    {
        Gear {
            name: self.name.clone(),
            ap: self.ap,
            dp: self.dp,
            hp: self.hp,
            slot: self.slot,
        }
    }
}

} // verus!
