//! Combat statistics and the resolution of a hit.
//!
//! The damage of a hit is the product of three factors: the ratio of the
//! attacker's power to the defender's resistance, the elemental factor, and a
//! modifier that the caller supplies. Each factor is a [`Scalar`], and each
//! product is rounded once.
use crate::element::El;
use crate::error::CombatError;
use crate::scalar::{Scalar, SCALE};
use vstd::prelude::*;

verus! {

/// The combat statistics of one entity.
#[derive(Clone, Copy, Debug, PartialEq, Eq, Structural)]
pub struct Stat {
    pub el: El,
    /// The factor by which an elemental advantage multiplies damage dealt, and
    /// by which the lack of one divides damage taken.
    pub el_deg: Scalar,
    /// Hit points. They may fall below zero.
    pub hp: Scalar,
    /// Magic power; against an equal `spr` the power ratio is one.
    pub mag: u32,
    pub spr: u32,
    /// Vitality; against an equal `atk` the power ratio is one.
    pub vit: u32,
    pub atk: u32,
    pub spd: u32,
}

impl Default for Stat {
    fn default() -> (s: Stat)
        ensures
            s == (Stat {
                el: El::LAND,
                el_deg: Scalar::zero(),
                hp: Scalar::zero(),
                mag: 0,
                spr: 0,
                vit: 0,
                atk: 0,
                spd: 0,
            }),
    {
        Stat {
            el: El::LAND,
            el_deg: Scalar::zero(),
            hp: Scalar::zero(),
            mag: 0,
            spr: 0,
            vit: 0,
            atk: 0,
            spd: 0,
        }
    }
}

impl Stat {
    /// Whether the power ratio of `self` attacking `other` has a non-zero
    /// denominator.
    pub open spec fn has_power_ratio(self, other: Stat, mag: bool) -> bool {
        if mag {
            other.spr != 0
        } else {
            other.vit != 0
        }
    }

    /// Whether the elemental factor of `self` attacking `other` divides by a
    /// non-zero degree, or does not divide at all.
    pub open spec fn has_elemental_factor(self, other: Stat) -> bool {
        self.el.beats(other.el) || other.el_deg@ != 0
    }

    /// The attacker's power over the defender's resistance: magic over spirit
    /// for a magic attack, attack over vitality for a physical one.
    pub open spec fn power_ratio_value(self, other: Stat, mag: bool) -> Scalar {
        if mag {
            Scalar::fraction(self.mag, other.spr)
        } else {
            Scalar::fraction(self.atk, other.vit)
        }
    }

    /// The attacker's own degree where its element defeats the defender's,
    /// and otherwise the reciprocal of the defender's degree.
    pub open spec fn elemental_factor_value(self, other: Stat) -> Scalar {
        if self.el.beats(other.el) {
            self.el_deg
        } else {
            Scalar::one().over(other.el_deg)
        }
    }

    /// The damage of one hit: power ratio times elemental factor times
    /// modifier.
    pub open spec fn damage_value(self, other: Stat, mag: bool, dmg_mod: Scalar) -> Scalar {
        self.power_ratio_value(other, mag).times(self.elemental_factor_value(other)).times(dmg_mod)
    }

    /// `other` after a hit by `self`: its hit points reduced by the damage,
    /// nothing else touched.
    pub open spec fn struck(self, other: Stat, mag: bool, dmg_mod: Scalar) -> Stat {
        Stat { hp: other.hp.minus(self.damage_value(other, mag, dmg_mod)), ..other }
    }

    /// The power ratio of `self` attacking `other`. The division is made on
    /// the promoted values, so that one over two is a half and not zero.
    pub fn power_ratio(&self, other: &Stat, mag: bool) -> (r: Result<Scalar, CombatError>)
        ensures
            self.has_power_ratio(*other, mag) ==> r == Ok::<Scalar, CombatError>(
                self.power_ratio_value(*other, mag),
            ),
            !self.has_power_ratio(*other, mag) ==> r == Err::<Scalar, CombatError>(
                CombatError::InvalidStat,
            ),
    {
        let ratio = if mag {
            Scalar::from_ratio(self.mag, other.spr)
        } else {
            Scalar::from_ratio(self.atk, other.vit)
        };
        match ratio {
            Some(value) => Ok(value),
            None => Err(CombatError::InvalidStat),
        }
    }

    /// The elemental factor of `self` attacking `other`.
    pub fn elemental_factor(&self, other: &Stat) -> (r: Result<Scalar, CombatError>)
        ensures
            self.has_elemental_factor(*other) ==> r == Ok::<Scalar, CombatError>(
                self.elemental_factor_value(*other),
            ),
            !self.has_elemental_factor(*other) ==> r == Err::<Scalar, CombatError>(
                CombatError::InvalidStat,
            ),
    {
        if self.el.is_weak(other.el) {
            Ok(self.el_deg)
        } else {
            match other.el_deg.recip() {
                Some(value) => Ok(value),
                None => Err(CombatError::InvalidStat),
            }
        }
    }

    /// The damage that a hit of `self` on `other` deals, without dealing it.
    pub fn damage(&self, other: &Stat, mag: bool, dmg_mod: Scalar) -> (r: Result<
        Scalar,
        CombatError,
    >)
        ensures
            self.has_power_ratio(*other, mag) && self.has_elemental_factor(*other) ==> r == Ok::<
                Scalar,
                CombatError,
            >(self.damage_value(*other, mag, dmg_mod)),
            !(self.has_power_ratio(*other, mag) && self.has_elemental_factor(*other)) ==> r
                == Err::<Scalar, CombatError>(CombatError::InvalidStat),
    {
        let power = match self.power_ratio(other, mag) {
            Ok(value) => value,
            Err(e) => {
                return Err(e);
            },
        };
        let factor = match self.elemental_factor(other) {
            Ok(value) => value,
            Err(e) => {
                return Err(e);
            },
        };
        Ok(power.saturating_mul(factor).saturating_mul(dmg_mod))
    }

    /// Resolves a hit of `self`, the attacker, on `other`: the hit points of
    /// `other` fall by the damage. A modifier of one leaves the damage as the
    /// statistics give it; a modifier of zero annuls it. Where a denominator
    /// is zero the hit fails and nothing changes.
    pub fn hit(&mut self, other: &mut Stat, mag: bool, dmg_mod: Scalar) -> (r: Result<
        (),
        CombatError,
    >)
        ensures
            *final(self) == *old(self),
            old(self).has_power_ratio(*old(other), mag) && old(self).has_elemental_factor(
                *old(other),
            ) ==> r.is_ok() && *final(other) == old(self).struck(*old(other), mag, dmg_mod),
            !(old(self).has_power_ratio(*old(other), mag) && old(self).has_elemental_factor(
                *old(other),
            )) ==> r == Err::<(), CombatError>(CombatError::InvalidStat) && *final(other) == *old(
                other,
            ),
    {
        match self.damage(other, mag, dmg_mod) {
            Ok(damage) => {
                other.hp = other.hp.saturating_sub(damage);
                Ok(())
            },
            Err(e) => Err(e),
        }
    }

    /// Evenly matched entities have a power ratio of exactly one.
    pub proof fn lemma_even_match(attacker: Stat, defender: Stat, mag: bool)
        requires
            attacker.has_power_ratio(defender, mag),
            mag ==> attacker.mag == defender.spr,
            !mag ==> attacker.atk == defender.vit,
        ensures
            attacker.power_ratio_value(defender, mag) == Scalar::one(),
    {
        let n: int = if mag {
            defender.spr as int
        } else {
            defender.vit as int
        };
        assert((n * SCALE) / n == SCALE) by (nonlinear_arith)
            requires
                n > 0,
        ;
    }

    /// A modifier of zero annuls the damage, and a modifier of one leaves
    /// it as the statistics give it.
    pub proof fn lemma_modifier(attacker: Stat, defender: Stat, mag: bool)
        ensures
            attacker.damage_value(defender, mag, Scalar::zero()) == Scalar::zero(),
            attacker.struck(defender, mag, Scalar::zero()) == defender,
            attacker.damage_value(defender, mag, Scalar::one()) == attacker.power_ratio_value(
                defender,
                mag,
            ).times(attacker.elemental_factor_value(defender)),
    {
        let base = attacker.power_ratio_value(defender, mag).times(
            attacker.elemental_factor_value(defender),
        );
        Scalar::lemma_times_zero(base);
        Scalar::lemma_times_one(base);
        Scalar::lemma_plus_zero(defender.hp);
    }

    /// Where the attacker's element defeats the defender's and the
    /// attacker's degree divides a million millions, the elemental factor and
    /// the factor with the roles swapped cancel exactly.
    pub proof fn lemma_factor_round_trip(attacker: Stat, defender: Stat)
        requires
            attacker.el.beats(defender.el),
            attacker.el_deg@ != 0,
            (SCALE * SCALE) % attacker.el_deg@ == 0,
        ensures
            attacker.elemental_factor_value(defender).times(
                defender.elemental_factor_value(attacker),
            ) == Scalar::one(),
    {
        Scalar::lemma_recip_exact(attacker.el_deg);
    }

    /// Where the attacker's element defeats the defender's, the elemental
    /// factor is the attacker's degree, and with the roles swapped it is the
    /// reciprocal of that same degree.
    pub proof fn lemma_factor_reciprocal(attacker: Stat, defender: Stat)
        requires
            attacker.el.beats(defender.el),
        ensures
            attacker.elemental_factor_value(defender) == attacker.el_deg,
            defender.elemental_factor_value(attacker) == Scalar::one().over(attacker.el_deg),
            attacker.has_elemental_factor(defender),
            defender.has_elemental_factor(attacker) <==> attacker.el_deg@ != 0,
    {
    }
}

} // verus!
