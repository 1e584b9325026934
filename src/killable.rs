//! Hit points.
use vstd::prelude::*;

use crate::geometry::clamp_i32;

verus! {

/// `hp - dmg`, saturating at the bounds of `i32`.
pub open spec fn hp_after_hit(hp: i32, dmg: i32) -> i32 {
    clamp_i32(hp - dmg)
}

/// Hit points of an entity that can die, and a god-mode flag that makes it
/// immune to damage.
#[derive(Clone, Copy, Debug, PartialEq, Eq, Structural)]
pub struct Killable {
    pub hp: i32,
    pub god_mode: bool,
    pub hp_max: i32,
}

impl Killable {
    pub fn new(hp: i32, hp_max: i32, god_mode: bool) -> (r: Self)
        ensures
            r == (Killable { hp, god_mode, hp_max }),
    {
        Self { hp, hp_max, god_mode }
    }

    /// `self` after a hit of `dmg`: unchanged in god mode, else `dmg` hit
    /// points fewer, saturating at the bounds of `i32`.
    pub open spec fn after_hit(self, dmg: i32) -> Killable {
        if self.god_mode {
            self
        } else {
            Killable { hp: hp_after_hit(self.hp, dmg), ..self }
        }
    }

    /// Takes `dmg` hit points away (a negative `dmg` heals), saturating at
    /// the bounds of `i32`; a holder in god mode is immune.
    pub fn hit(&mut self, dmg: i32)
        ensures
            *final(self) == old(self).after_hit(dmg),
            old(self).god_mode ==> *final(self) == *old(self),
    {
        if self.god_mode {
            return;
        }
        self.hp = crate::geometry::clamp_to_i32(self.hp as i128 - dmg as i128);
    }
}

/// What a health display last showed: current and maximum hit points.
#[derive(Clone, Copy, Debug, PartialEq, Eq, Structural)]
pub struct HealthBarComponent {
    pub hp: i32,
    pub hp_max: i32,
}

impl HealthBarComponent {
    pub fn new(hp: i32, hp_max: i32) -> (r: Self)
        ensures
            r == (HealthBarComponent { hp, hp_max }),
    {
        Self { hp, hp_max }
    }

    /// Takes `dmg` hit points away, saturating at the bounds of `i32`.
    pub fn hit(&mut self, dmg: i32)
        ensures
            *final(self) == (HealthBarComponent { hp: hp_after_hit(old(self).hp, dmg), ..*old(self) }),
    {
        self.hp = crate::geometry::clamp_to_i32(self.hp as i128 - dmg as i128);
    }
}

} // verus!
