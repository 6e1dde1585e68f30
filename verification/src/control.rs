//! The player's controls and what they ask of the player's body.
use crate::error::CombatError;
use crate::scalar::{Scalar, SCALE};
use crate::thing::Thing;
use crate::vector::Vec2;
use vstd::prelude::*;

verus! {

/// The loss of acceleration per tick, in millionths, of a body of mass one.
pub const FRIC_CONST: i64 = 900_000;

/// The speed rating, in millionths, that amounts to an acceleration of one.
pub const SPD_PER_ACL: i64 = 222_125_000;

/// The state of the controls in one frame.
#[derive(Clone, Copy, Debug, PartialEq, Eq, Structural)]
pub struct Cntrl {
    pub forward: bool,
    pub backward: bool,
    pub left: bool,
    pub right: bool,
    pub rotl: bool,
    pub rotr: bool,
    pub pickup: bool,
    pub drop: bool,
    pub fire1_released: bool,
    pub fire2_released: bool,
    pub fire3_released: bool,
    pub fire1_down: bool,
    pub fire2_down: bool,
    pub fire3_down: bool,
    pub mouse: Vec2,
}

impl Default for Cntrl {
    /// Nothing pressed, the pointer at the origin.
    fn default() -> (c: Cntrl)
        ensures
            c == Cntrl::idle(),
    {
        Cntrl {
            forward: false,
            backward: false,
            left: false,
            right: false,
            rotl: false,
            rotr: false,
            pickup: false,
            drop: false,
            fire1_released: false,
            fire2_released: false,
            fire3_released: false,
            fire1_down: false,
            fire2_down: false,
            fire3_down: false,
            mouse: Vec2::zero(),
        }
    }
}

/// One coordinate of a direction: minus one, zero or one, as the key for the
/// negative way, neither or both, or the key for the positive way is down.
pub open spec fn axis(negative: bool, positive: bool) -> Scalar {
    let up: int = if positive {
        SCALE as int
    } else {
        0
    };
    let down: int = if negative {
        SCALE as int
    } else {
        0
    };
    Scalar { raw: (up - down) as i64 }
}

impl Cntrl {
    /// Nothing pressed, the pointer at the origin.
    pub open spec fn idle() -> Cntrl {
        Cntrl {
            forward: false,
            backward: false,
            left: false,
            right: false,
            rotl: false,
            rotr: false,
            pickup: false,
            drop: false,
            fire1_released: false,
            fire2_released: false,
            fire3_released: false,
            fire1_down: false,
            fire2_down: false,
            fire3_down: false,
            mouse: Vec2::zero(),
        }
    }

    /// The controls as sampled. `keys` holds, in this order, whether the
    /// keys for forward, backward, left, right, rotating left, rotating
    /// right, picking up and dropping are down; `released` and `down` hold
    /// the same for the first, second and third fire button.
    pub fn new(keys: [bool; 8], released: [bool; 3], down: [bool; 3], mouse: Vec2) -> (c: Cntrl)
        ensures
            c == (Cntrl {
                forward: keys[0],
                backward: keys[1],
                left: keys[2],
                right: keys[3],
                rotl: keys[4],
                rotr: keys[5],
                pickup: keys[6],
                drop: keys[7],
                fire1_released: released[0],
                fire2_released: released[1],
                fire3_released: released[2],
                fire1_down: down[0],
                fire2_down: down[1],
                fire3_down: down[2],
                mouse,
            }),
    {
        Cntrl {
            forward: keys[0],
            backward: keys[1],
            left: keys[2],
            right: keys[3],
            rotl: keys[4],
            rotr: keys[5],
            pickup: keys[6],
            drop: keys[7],
            fire1_released: released[0],
            fire2_released: released[1],
            fire3_released: released[2],
            fire1_down: down[0],
            fire2_down: down[1],
            fire3_down: down[2],
            mouse,
        }
    }

    /// Whether any of the four movement keys is down.
    pub open spec fn moving(self) -> bool {
        self.forward || self.backward || self.left || self.right
    }

    /// The direction that the movement keys ask for. Forward is the negative
    /// `y`; opposite keys cancel.
    pub open spec fn direction(self) -> Vec2 {
        Vec2 { x: axis(self.left, self.right), y: axis(self.forward, self.backward) }
    }

    /// Whether any of the four movement keys is down.
    pub fn is_moving(&self) -> (m: bool)
        ensures
            m == self.moving(),
    {
        self.forward || self.backward || self.left || self.right
    }

    /// The direction that the movement keys ask for.
    pub fn intent(&self) -> (dir: Vec2)
        ensures
            dir == self.direction(),
    {
        let mut x: i64 = 0;
        let mut y: i64 = 0;
        if self.forward {
            y = y - SCALE;
        }
        if self.backward {
            y = y + SCALE;
        }
        if self.left {
            x = x - SCALE;
        }
        if self.right {
            x = x + SCALE;
        }
        Vec2 { x: Scalar { raw: x }, y: Scalar { raw: y } }
    }
}

impl Thing {
    /// The acceleration that a speed rating of `spd` adds per frame while a
    /// movement key is down.
    pub open spec fn thrust(spd: u32) -> Scalar {
        Scalar::whole(spd as i64).over(Scalar { raw: SPD_PER_ACL })
    }

    /// The acceleration that friction takes from a body of mass `mass` per
    /// frame. Meaningful for a non-zero mass.
    pub open spec fn drag(mass: Scalar) -> Scalar {
        (Scalar { raw: FRIC_CONST }).over(mass)
    }

    /// The thing once the controls have been applied to it: its body points
    /// where the movement keys ask, gains thrust if any of them is down, and
    /// loses the drag of its mass.
    pub open spec fn steered(self, cntrl: Cntrl) -> Thing {
        let pushed = if cntrl.moving() {
            self.rig.trans_acl.plus(Thing::thrust(self.stat.spd))
        } else {
            self.rig.trans_acl
        };
        Thing {
            rig: crate::body::Rig {
                dir: cntrl.direction(),
                trans_acl: pushed.minus(Thing::drag(self.rig.mass)),
                ..self.rig
            },
            ..self
        }
    }

    /// Applies the controls of one frame to the thing. A thing without mass
    /// has no drag: the call fails and the thing stays as it was.
    pub fn steer(&mut self, cntrl: &Cntrl) -> (r: Result<(), CombatError>)
        ensures
            old(self).rig.mass@ != 0 ==> r.is_ok() && *final(self) == old(self).steered(*cntrl),
            old(self).rig.mass@ == 0 ==> r == Err::<(), CombatError>(CombatError::InvalidStat)
                && *final(self) == *old(self),
    {
        let drag = match (Scalar { raw: FRIC_CONST }).checked_div(self.rig.mass) {
            Some(value) => value,
            None => {
                return Err(CombatError::InvalidStat);
            },
        };
        let mut acl = self.rig.trans_acl;
        if cntrl.is_moving() {
            let thrust = Scalar::from_int(self.stat.spd as i64).checked_div(
                Scalar { raw: SPD_PER_ACL },
            );
            match thrust {
                Some(value) => {
                    acl = acl.saturating_add(value);
                },
                None => {},
            }
        }
        self.rig.dir = cntrl.intent();
        self.rig.trans_acl = acl.saturating_sub(drag);
        Ok(())
    }
}

} // verus!
