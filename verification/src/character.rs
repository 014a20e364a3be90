//! Characters, their equipped gear, and the attack / equip / unequip logic.

use std::io::Write;

use vstd::prelude::*;

use crate::gear::{Gear, GearSlot, gear_ap, gear_dp, gear_hp};

verus! {

/// Half of `x`, rounded toward zero, as Rust's `/ 2` computes it on
/// signed integers.
pub open spec fn half_toward_zero(x: int) -> int {
    if x >= 0 {
        x / 2
    } else {
        -((-x) / 2)
    }
}

/// The damage one attack deals: attacker's attack power minus half the
/// defender's defense power (halved toward zero), but never less than 1.
pub open spec fn attack_damage(ap: int, dp: int) -> int {
    let raw = ap - half_toward_zero(dp);
    if raw > 1 {
        raw
    } else {
        1
    }
}

/// A character's equipment: at most one gear per slot.
#[derive(Debug)]
#[verifier::ext_equal]
pub struct GearSlots {
    pub torso: Option<Gear>,
    pub hand: Option<Gear>,
    pub foot: Option<Gear>,
}

impl GearSlots {
    /// The gear equipped in the given slot, if any.
    pub open spec fn spec_get(self, s: GearSlot) -> Option<Gear> {
        match s {
            GearSlot::Torso => self.torso,
            GearSlot::Hand => self.hand,
            GearSlot::Foot => self.foot,
        }
    }

    /// The equipment after storing `g` in slot `s` (replacing any occupant).
    pub open spec fn spec_insert(self, s: GearSlot, g: Gear) -> GearSlots {
        match s {
            GearSlot::Torso => GearSlots { torso: Some(g), ..self },
            GearSlot::Hand => GearSlots { hand: Some(g), ..self },
            GearSlot::Foot => GearSlots { foot: Some(g), ..self },
        }
    }

    /// The equipment after emptying slot `s`.
    pub open spec fn spec_removed(self, s: GearSlot) -> GearSlots {
        match s {
            GearSlot::Torso => GearSlots { torso: None, ..self },
            GearSlot::Hand => GearSlots { hand: None, ..self },
            GearSlot::Foot => GearSlots { foot: None, ..self },
        }
    }

    /// Fresh equipment with every slot empty.
    pub fn new() -> (r: GearSlots)
        ensures
            forall|s: GearSlot| r.spec_get(s) is None,
    {
        GearSlots { torso: None, hand: None, foot: None }
    }

    /// A reference to whatever occupies slot `s`.
    pub fn get(&self, s: GearSlot) -> (r: &Option<Gear>)
        ensures
            *r == self.spec_get(s),
    {
        match s {
            GearSlot::Torso => &self.torso,
            GearSlot::Hand => &self.hand,
            GearSlot::Foot => &self.foot,
        }
    }

    /// Stores `g` in slot `s`, replacing any occupant.
    pub fn insert(&mut self, s: GearSlot, g: Gear)
        ensures
            *final(self) == old(self).spec_insert(s, g),
    {
        match s {
            GearSlot::Torso => self.torso = Some(g),
            GearSlot::Hand => self.hand = Some(g),
            GearSlot::Foot => self.foot = Some(g),
        }
    }

    /// Empties slot `s`, returning what occupied it.
    pub fn remove(&mut self, s: GearSlot) -> (r: Option<Gear>)
        ensures
            r == old(self).spec_get(s),
            *final(self) == old(self).spec_removed(s),
    {
        match s {
            GearSlot::Torso => self.torso.take(),
            GearSlot::Hand => self.hand.take(),
            GearSlot::Foot => self.foot.take(),
        }
    }
}

impl Clone for GearSlots {
    fn clone(&self) -> (r: Self)
        ensures
            r == *self,
    {
        GearSlots {
            torso: match &self.torso {
                Some(g) => Some(g.clone()),
                None => None,
            },
            hand: match &self.hand {
                Some(g) => Some(g.clone()),
                None => None,
            },
            foot: match &self.foot {
                Some(g) => Some(g.clone()),
                None => None,
            },
        }
    }
}

/// A combat participant: a name, a level, three mutable stats (hit
/// points, attack power, defense power), an experience value that is
/// present for player characters and absent for mobs, and its equipment.
#[derive(Debug)]
#[verifier::ext_equal]
pub struct Character {
    pub name: String,
    pub lvl: i32,
    pub hp: i32,
    pub ap: i32,
    pub dp: i32,
    pub exp: Option<i32>,
    pub slot: GearSlots,
}

/// Relies on `std::io::Stdout::write_fmt` (through `writeln!`) to emit
/// the human-readable combat line; a failed write is ignored.
#[verifier::external_body]
fn emit_attack_line(attacker: &String, defender: &String, damage: i32) {
    let _ = writeln!(std::io::stdout(), "{} attacked {} for {:?} HP", attacker, defender, damage);
}

impl Character {
    /// The character after equipping `g`: each stat raised by the gear's
    /// delta and the gear stored in its slot, replacing (without reverting)
    /// any previous occupant.
    pub open spec fn spec_equip(self, g: Gear) -> Character {
        Character {
            ap: (self.ap + gear_ap(g)) as i32,
            dp: (self.dp + gear_dp(g)) as i32,
            hp: (self.hp + gear_hp(g)) as i32,
            slot: self.slot.spec_insert(g.slot, g),
            ..self
        }
    }

    /// The character after emptying slot `s`: if gear occupied it, each
    /// stat is lowered by that gear's delta; otherwise nothing changes.
    pub open spec fn spec_remove(self, s: GearSlot) -> Character {
        match self.slot.spec_get(s) {
            Some(g) => Character {
                ap: (self.ap - gear_ap(g)) as i32,
                dp: (self.dp - gear_dp(g)) as i32,
                hp: (self.hp - gear_hp(g)) as i32,
                slot: self.slot.spec_removed(s),
                ..self
            },
            None => self,
        }
    }

    /// A baseline player character: level 1, 20 hit points, 5 attack and
    /// defense power, experience present at 0, nothing equipped.
    pub fn new(name: String) -> (c: Character)
        ensures
            c.name == name,
            c.lvl == 1,
            c.hp == 20,
            c.ap == 5,
            c.dp == 5,
            c.exp == Some(0i32),
            forall|s: GearSlot| c.slot.spec_get(s) is None,
    {
        Character { name, lvl: 1, hp: 20, ap: 5, dp: 5, exp: Some(0), slot: GearSlots::new() }
    }

    /// A mob: caller-supplied stats, experience absent, nothing equipped.
    /// No validation of stat ranges.
    pub fn new_mob(name: String, lvl: i32, hp: i32, ap: i32, dp: i32) -> (c: Character)
        ensures
            c.name == name,
            c.lvl == lvl,
            c.hp == hp,
            c.ap == ap,
            c.dp == dp,
            c.exp is None,
            forall|s: GearSlot| c.slot.spec_get(s) is None,
    {
        Character { name, lvl, hp, ap, dp, exp: None, slot: GearSlots::new() }
    }

    /// Resolves one attack against `target`: lowers the target's hit
    /// points by the attack damage and reports whether the target was
    /// defeated (hit points at or below zero). Also emits a combat line.
    pub fn attack(&self, target: &mut Character) -> (defeated: bool)
        requires
            i32::MIN <= self.ap - half_toward_zero(old(target).dp as int) <= i32::MAX,
            i32::MIN <= old(target).hp - attack_damage(self.ap as int, old(target).dp as int),
        ensures
            final(target).hp == old(target).hp - attack_damage(
                self.ap as int,
                old(target).dp as int,
            ),
            final(target).name == old(target).name,
            final(target).lvl == old(target).lvl,
            final(target).ap == old(target).ap,
            final(target).dp == old(target).dp,
            final(target).exp == old(target).exp,
            final(target).slot == old(target).slot,
            defeated == (final(target).hp <= 0),
    {
        let halved: i32 = target.dp.checked_div(2).unwrap();
        let pd: i32 = if self.ap - halved > 1 {
            self.ap - halved
        } else {
            1
        };
        target.hp = target.hp - pd;
        emit_attack_line(&self.name, &target.name, pd);
        target.hp <= 0
    }

    /// The character's current hit points.
    pub fn get_hp(&self) -> (hp: i32)
        ensures
            hp == self.hp,
    {
        self.hp
    }

    /// Adds the gear's stat deltas (absent read as 0) to the character's
    /// stats and stores a copy of the gear in its slot. A gear already in
    /// that slot is replaced without its contribution being reverted.
    pub fn equip_item(&mut self, gear: &Gear)
        requires
            i32::MIN <= old(self).ap + gear_ap(*gear) <= i32::MAX,
            i32::MIN <= old(self).dp + gear_dp(*gear) <= i32::MAX,
            i32::MIN <= old(self).hp + gear_hp(*gear) <= i32::MAX,
        ensures
            *final(self) == old(self).spec_equip(*gear),
    {
        let ap_delta: i32 = match gear.ap {
            Some(v) => v,
            None => 0,
        };
        let dp_delta: i32 = match gear.dp {
            Some(v) => v,
            None => 0,
        };
        let hp_delta: i32 = match gear.hp {
            Some(v) => v,
            None => 0,
        };
        self.ap = self.ap + ap_delta;
        self.dp = self.dp + dp_delta;
        self.hp = self.hp + hp_delta;
        self.slot.insert(gear.slot, gear.clone());
    }

    /// Empties the given slot; if gear occupied it, subtracts that gear's
    /// stat deltas (absent read as 0) from the character's stats. On an
    /// empty slot this is a no-op.
    pub fn remove_item(&mut self, slot: GearSlot)
        requires
            (match old(self).slot.spec_get(slot) {
                Some(g) => i32::MIN <= old(self).ap - gear_ap(g) <= i32::MAX
                    && i32::MIN <= old(self).dp - gear_dp(g) <= i32::MAX
                    && i32::MIN <= old(self).hp - gear_hp(g) <= i32::MAX,
                None => true,
            }),
        ensures
            *final(self) == old(self).spec_remove(slot),
    {
        let gear = self.slot.remove(slot);
        if !gear.is_none() {
            let gear = gear.unwrap();
            let ap_delta: i32 = match gear.ap {
                Some(v) => v,
                None => 0,
            };
            let dp_delta: i32 = match gear.dp {
                Some(v) => v,
                None => 0,
            };
            let hp_delta: i32 = match gear.hp {
                Some(v) => v,
                None => 0,
            };
            self.ap = self.ap - ap_delta;
            self.dp = self.dp - dp_delta;
            self.hp = self.hp - hp_delta;
        }
    }
}

impl Clone for Character {
    fn clone(&self) -> (r: Self)
        ensures
            r == *self,
    {
        Character {
            name: self.name.clone(),
            lvl: self.lvl,
            hp: self.hp,
            ap: self.ap,
            dp: self.dp,
            exp: self.exp,
            slot: self.slot.clone(),
        }
    }
}

/// The damage of an attack is never less than 1, however defensive the
/// target: the formula's floor holds for every attack and defense power.
pub proof fn lemma_attack_damage_at_least_one(ap: int, dp: int)
    ensures
        attack_damage(ap, dp) >= 1,
{
}

/// Removing gear exactly reverses equipping it: after equipping `g` and
/// then emptying its slot, every stat is back at its pre-equip value, the
/// slot is empty, and the other slots are untouched. If the slot was
/// empty before the equip, the character as a whole is exactly restored.
pub proof fn lemma_equip_then_remove_restores(c: Character, g: Gear)
    requires
        i32::MIN <= c.ap + gear_ap(g) <= i32::MAX,
        i32::MIN <= c.dp + gear_dp(g) <= i32::MAX,
        i32::MIN <= c.hp + gear_hp(g) <= i32::MAX,
    ensures
        c.spec_equip(g).spec_remove(g.slot).ap == c.ap,
        c.spec_equip(g).spec_remove(g.slot).dp == c.dp,
        c.spec_equip(g).spec_remove(g.slot).hp == c.hp,
        c.spec_equip(g).spec_remove(g.slot).name == c.name,
        c.spec_equip(g).spec_remove(g.slot).lvl == c.lvl,
        c.spec_equip(g).spec_remove(g.slot).exp == c.exp,
        c.spec_equip(g).spec_remove(g.slot).slot.spec_get(g.slot) is None,
        forall|s: GearSlot|
            s != g.slot ==> c.spec_equip(g).spec_remove(g.slot).slot.spec_get(s)
                == c.slot.spec_get(s),
        c.slot.spec_get(g.slot) is None ==> c.spec_equip(g).spec_remove(g.slot) == c,
{
    assert(c.spec_equip(g).slot.spec_get(g.slot) == Some(g));
    if c.slot.spec_get(g.slot) is None {
        assert(c.spec_equip(g).spec_remove(g.slot) =~= c);
    }
}

/// Removing from a slot with nothing equipped changes nothing at all.
pub proof fn lemma_remove_from_empty_slot_is_noop(c: Character, s: GearSlot)
    requires
        c.slot.spec_get(s) is None,
    ensures
        c.spec_remove(s) == c,
{
}

} // verus!
