//! The kinematic state of one body and its advance by one tick.
//!
//! A body does not own the bodies that are tethered to it: a tether slot holds
//! the index of another body in the world. So [`Rig::tick`] advances the body
//! itself and hands back, for each occupied slot, the pull that the tethered
//! body is to follow; the world applies the pulls.
use crate::error::CombatError;
use crate::scalar::{Scalar, SCALE};
use crate::vector::Vec2;
use vstd::prelude::*;

verus! {

/// The vertical push, in millionths, that lifts a body to the next layer.
pub const Z_PUSH_REQ: i64 = 100 * SCALE;

/// A request that a tethered body move toward a point.
#[derive(Clone, Copy, Debug, PartialEq, Eq, Structural)]
pub struct Pull {
    /// The index of the tethered body in the world.
    pub body: usize,
    /// The position of the body that pulls.
    pub target: Vec2,
    /// The fraction of the way to go, before it is clamped to the unit
    /// interval.
    pub amount: Scalar,
}

/// Which way a body faces once it has turned with respect to a point.
#[derive(Clone, Copy, Debug, PartialEq, Eq, Structural)]
pub enum Facing {
    /// Along the vector from the body to the point.
    Toward,
    /// Along the vector from the point to the body.
    Away,
}

/// The state of an object's movement.
#[derive(Clone, Copy, Debug, PartialEq, Eq)]
pub struct Rig {
    pub mass: Scalar,
    /// Position in the plane.
    pub pos: Vec2,
    /// The layer that the body is on.
    pub z: u8,
    /// Rotation, an angle.
    pub rot: Scalar,
    pub max_speed: Scalar,
    pub rot_speed: Scalar,
    /// Displacement per tick along `dir`.
    pub trans_speed: Scalar,
    pub z_push: Scalar,
    pub rot_acl: Scalar,
    pub trans_acl: Scalar,
    pub z_acl: Scalar,
    /// The direction in which the body is meant to move.
    pub dir: Vec2,
    /// Radius for collisions.
    pub rad: Scalar,
    /// Up to two bodies that follow this one, by their index in the world.
    pub tethers: [Option<usize>; 2],
    /// The fraction by which each tethered body closes in per tick.
    pub tether_lerp: Scalar,
}

impl Default for Rig {
    fn default() -> (r: Rig)
        ensures
            r == Rig::at_rest(),
    {
        Rig {
            mass: Scalar::zero(),
            pos: Vec2::zero(),
            z: 0,
            rot: Scalar::zero(),
            max_speed: Scalar::zero(),
            rot_speed: Scalar::zero(),
            trans_speed: Scalar::zero(),
            z_push: Scalar::zero(),
            rot_acl: Scalar::zero(),
            trans_acl: Scalar::zero(),
            z_acl: Scalar::zero(),
            dir: Vec2::zero(),
            rad: Scalar::zero(),
            tethers: [None, None],
            tether_lerp: Scalar::zero(),
        }
    }
}

impl Rig {
    /// A body at the origin with no mass, speed, acceleration or tether.
    pub open spec fn at_rest() -> Rig {
        Rig {
            mass: Scalar::zero(),
            pos: Vec2::zero(),
            z: 0,
            rot: Scalar::zero(),
            max_speed: Scalar::zero(),
            rot_speed: Scalar::zero(),
            trans_speed: Scalar::zero(),
            z_push: Scalar::zero(),
            rot_acl: Scalar::zero(),
            trans_acl: Scalar::zero(),
            z_acl: Scalar::zero(),
            dir: Vec2::zero(),
            rad: Scalar::zero(),
            tethers: [None::<usize>, None::<usize>],
            tether_lerp: Scalar::zero(),
        }
    }

    /// The bounds that every tick restores: the translational speed lies
    /// between zero and the maximum, and neither the rotational speed nor the
    /// vertical push is negative.
    pub open spec fn in_bounds(self) -> bool {
        &&& 0 <= self.trans_speed@ <= self.max_speed@
        &&& 0 <= self.rot_speed@
        &&& 0 <= self.z_push@
    }

    /// The translational speed after a tick: accelerated, then raised to zero,
    /// then lowered to the maximum.
    pub open spec fn next_trans_speed(self, tick_amnt: Scalar) -> Scalar {
        self.trans_speed.plus(self.trans_acl.times(tick_amnt)).rectified().capped(self.max_speed)
    }

    /// The body after one tick of `tick_amnt`. Negative rotational and
    /// vertical accelerations count as zero; the three speeds grow by their
    /// acceleration times `tick_amnt` and are brought back into bounds; the
    /// position advances by the direction times the new translational speed,
    /// whatever `tick_amnt` is.
    pub open spec fn integrated(self, tick_amnt: Scalar) -> Rig {
        let rot_acl = self.rot_acl.rectified();
        let z_acl = self.z_acl.rectified();
        let trans_speed = self.next_trans_speed(tick_amnt);
        Rig {
            rot_acl,
            z_acl,
            trans_acl: self.trans_acl.rectified(),
            rot_speed: self.rot_speed.plus(rot_acl.times(tick_amnt)).rectified(),
            trans_speed,
            z_push: self.z_push.plus(z_acl.times(tick_amnt)).rectified(),
            pos: self.pos.plus(self.dir.scaled(trans_speed)),
            ..self
        }
    }

    /// The pull that the body exerts through tether slot `slot`, if the slot
    /// is occupied.
    pub open spec fn pull(self, slot: int) -> Option<Pull> {
        match self.tethers[slot] {
            Some(body) => Some(Pull { body, target: self.pos, amount: self.tether_lerp }),
            None => None,
        }
    }

    /// The body moved the fraction `amnt`, clamped to the unit interval, of
    /// the way to `other`.
    pub open spec fn lerped(self, other: Vec2, amnt: Scalar) -> Rig {
        Rig { pos: self.pos.toward(other, amnt.unit_clamped()), ..self }
    }

    /// The body displaced by `d_vec` and raised by `d_z` layers.
    pub open spec fn transformed(self, d_vec: Vec2, d_z: u8) -> Rig {
        Rig { pos: self.pos.plus(d_vec), z: (self.z + d_z) as u8, ..self }
    }

    /// The vector whose angle a body at `self.pos` takes when it turns with
    /// respect to `point`.
    pub open spec fn heading_value(self, point: Vec2, facing: Facing) -> Vec2 {
        match facing {
            Facing::Toward => point.minus(self.pos),
            Facing::Away => self.pos.minus(point),
        }
    }

    /// Executes one physics tick. The body becomes `integrated(tick_amnt)`,
    /// and the result holds, slot by slot, the pull on each tethered body: an
    /// empty first slot does not silence the second.
    pub fn tick(&mut self, tick_amnt: Scalar) -> (pulls: [Option<Pull>; 2])
        ensures
            *final(self) == old(self).integrated(tick_amnt),
            pulls[0] == final(self).pull(0),
            pulls[1] == final(self).pull(1),
            0 <= final(self).rot_speed@,
            0 <= final(self).z_push@,
            final(self).trans_speed@ <= final(self).max_speed@,
            0 <= old(self).max_speed@ ==> final(self).in_bounds(),
    {
        self.z_acl = self.z_acl.rectify();
        self.rot_acl = self.rot_acl.rectify();

        self.rot_speed = self.rot_speed.saturating_add(self.rot_acl.saturating_mul(tick_amnt));
        self.trans_speed = self.trans_speed.saturating_add(
            self.trans_acl.saturating_mul(tick_amnt),
        );
        self.z_push = self.z_push.saturating_add(self.z_acl.saturating_mul(tick_amnt));

        self.trans_speed = self.trans_speed.rectify().cap(self.max_speed);
        self.trans_acl = self.trans_acl.rectify();
        self.z_push = self.z_push.rectify();
        self.rot_speed = self.rot_speed.rectify();

        let d_vec = self.dir.scale(self.trans_speed);
        self.transform(d_vec, 0);

        [self.pull_of(0), self.pull_of(1)]
    }

    /// The pull through tether slot `slot`.
    pub fn pull_of(&self, slot: usize) -> (p: Option<Pull>)
        requires
            slot < 2,
        ensures
            p == self.pull(slot as int),
    {
        match self.tethers[slot] {
            Some(body) => Some(Pull { body, target: self.pos, amount: self.tether_lerp }),
            None => None,
        }
    }

    /// Moves the body the fraction `amnt` of the way to `other`. An `amnt`
    /// below zero counts as zero and one above one as one.
    pub fn lerp(&mut self, other: Vec2, amnt: Scalar)
        ensures
            *final(self) == old(self).lerped(other, amnt),
    {
        self.pos = self.pos.lerp(other, amnt.clamp_unit());
    }

    /// Displaces the body by `d_vec` and raises it by `d_z` layers.
    pub fn transform(&mut self, d_vec: Vec2, d_z: u8)
        requires
            old(self).z + d_z <= u8::MAX,
        ensures
            *final(self) == old(self).transformed(d_vec, d_z),
    {
        self.pos = self.pos.saturating_add(d_vec);
        self.z = self.z + d_z;
    }

    /// The vector along which the body would face `point`, or away from it.
    /// There is none where `point` is the body's own position.
    pub fn heading(&self, point: Vec2, facing: Facing) -> (r: Result<Vec2, CombatError>)
        ensures
            point != self.pos ==> r == Ok::<Vec2, CombatError>(self.heading_value(point, facing)),
            point == self.pos ==> r == Err::<Vec2, CombatError>(CombatError::DegenerateVector),
    {
        if point.x.raw == self.pos.x.raw && point.y.raw == self.pos.y.raw {
            return Err(CombatError::DegenerateVector);
        }
        match facing {
            Facing::Toward => Ok(point.saturating_sub(self.pos)),
            Facing::Away => Ok(self.pos.saturating_sub(point)),
        }
    }

    /// Turns the body with respect to `toward`. The caller picks the way to
    /// face, measures `angle`, the angle of that [`Rig::heading`], and the
    /// body takes it as its rotation. Where `toward` is the body's own
    /// position no heading exists: the call fails and the rotation stays.
    pub fn rotate_toward(&mut self, toward: Vec2, angle: Scalar) -> (r: Result<(), CombatError>)
        ensures
            toward != old(self).pos ==> r.is_ok() && *final(self) == (Rig {
                rot: angle,
                ..*old(self)
            }),
            toward == old(self).pos ==> r == Err::<(), CombatError>(
                CombatError::DegenerateVector,
            ) && *final(self) == *old(self),
    {
        if toward.x.raw == self.pos.x.raw && toward.y.raw == self.pos.y.raw {
            return Err(CombatError::DegenerateVector);
        }
        self.rot = angle;
        Ok(())
    }

    /// A body that is drawn toward the point where it already is stays
    /// there, whatever the amount.
    pub proof fn lemma_lerp_to_own_position(body: Rig, amnt: Scalar)
        ensures
            body.lerped(body.pos, amnt) == body,
    {
        Scalar::lemma_times_zero(amnt.unit_clamped());
        Scalar::lemma_plus_zero(body.pos.x);
        Scalar::lemma_plus_zero(body.pos.y);
    }

    /// An amount of one, or more, takes the body to the target, and an
    /// amount of zero, or less, leaves it where it is, unless the way is
    /// longer than a `Scalar` can hold.
    pub proof fn lemma_lerp_ends(body: Rig, other: Vec2, amnt: Scalar)
        requires
            other.minus(body.pos)@ == (other.x@ - body.pos.x@, other.y@ - body.pos.y@),
        ensures
            amnt@ >= SCALE ==> body.lerped(other, amnt).pos == other,
            amnt@ <= 0 ==> body.lerped(other, amnt).pos == body.pos,
    {
        let way = other.minus(body.pos);
        Scalar::lemma_times_one(way.x);
        Scalar::lemma_times_one(way.y);
        Scalar::lemma_times_zero(way.x);
        Scalar::lemma_times_zero(way.y);
    }

    /// A tick restores the bounds of any body whose maximum speed is not
    /// negative, whatever the elapsed amount.
    pub proof fn lemma_tick_in_bounds(body: Rig, tick_amnt: Scalar)
        ensures
            0 <= body.integrated(tick_amnt).rot_speed@,
            0 <= body.integrated(tick_amnt).z_push@,
            body.integrated(tick_amnt).trans_speed@ <= body.max_speed@,
            0 <= body.max_speed@ ==> body.integrated(tick_amnt).in_bounds(),
    {
    }

    /// A tick of no duration accelerates nothing. It clamps the
    /// accelerations and the speeds, leaves rotation, layer and everything
    /// else alone, and still advances the position by the direction times the
    /// clamped translational speed. On a body within bounds the speeds stay as
    /// they are.
    pub proof fn lemma_tick_zero(body: Rig)
        ensures
            body.integrated(Scalar::zero()) == (Rig {
                rot_acl: body.rot_acl.rectified(),
                z_acl: body.z_acl.rectified(),
                trans_acl: body.trans_acl.rectified(),
                rot_speed: body.rot_speed.rectified(),
                trans_speed: body.trans_speed.rectified().capped(body.max_speed),
                z_push: body.z_push.rectified(),
                pos: body.pos.plus(
                    body.dir.scaled(body.trans_speed.rectified().capped(body.max_speed)),
                ),
                ..body
            }),
            body.in_bounds() ==> body.integrated(Scalar::zero()) == (Rig {
                rot_acl: body.rot_acl.rectified(),
                z_acl: body.z_acl.rectified(),
                trans_acl: body.trans_acl.rectified(),
                pos: body.pos.plus(body.dir.scaled(body.trans_speed)),
                ..body
            }),
    {
        Scalar::lemma_times_zero(body.rot_acl.rectified());
        Scalar::lemma_times_zero(body.z_acl.rectified());
        Scalar::lemma_times_zero(body.trans_acl);
    }

    /// After one tick of no duration, a second one changes the position and
    /// nothing else.
    pub proof fn lemma_tick_zero_idempotent(body: Rig)
        ensures
            body.integrated(Scalar::zero()).integrated(Scalar::zero()) == (Rig {
                pos: body.integrated(Scalar::zero()).pos.plus(
                    body.dir.scaled(body.integrated(Scalar::zero()).trans_speed),
                ),
                ..body.integrated(Scalar::zero())
            }),
    {
        Self::lemma_tick_zero(body);
        Self::lemma_tick_zero(body.integrated(Scalar::zero()));
    }
}

} // verus!
