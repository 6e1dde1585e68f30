//! Entities: what a thing is, what it carries, and the record kept of it.
use crate::body::Rig;
use crate::combat::Stat;
use crate::scalar::Scalar;
use vstd::prelude::*;

verus! {

/// Bookkeeping flags of an entity.
#[derive(Clone, Copy, Debug, PartialEq, Eq, Structural)]
pub struct Inf {
    pub qtty: u8,
    pub spawned: bool,
    pub vis: bool,
    pub col: bool,
    pub phys: bool,
    pub grab: bool,
}

impl Default for Inf {
    fn default() -> (i: Inf)
        ensures
            i == (Inf {
                qtty: 0,
                spawned: false,
                vis: false,
                col: false,
                phys: false,
                grab: false,
            }),
    {
        Inf { qtty: 0, spawned: false, vis: false, col: false, phys: false, grab: false }
    }
}

/// An inventory: the things held, and how many it can hold.
#[derive(Debug)]
pub struct Inv {
    pub items: Vec<Thing>,
    pub len: u8,
}

impl Default for Inv {
    /// An empty inventory with room for a hundred things.
    fn default() -> (inv: Inv)
        ensures
            inv.items@ == Seq::<Thing>::empty(),
            inv.len == 100,
    {
        Inv { items: Vec::new(), len: 100 }
    }
}

/// The kind of an entity.
#[derive(Clone, Copy, Debug, PartialEq, Eq, Structural)]
pub enum Typ {
    PLAYER,
    KNIFE,
    SPITTER,
}

impl Default for Typ {
    fn default() -> (t: Typ)
        ensures
            t == Typ::PLAYER,
    {
        Typ::PLAYER
    }
}

/// An entity of the world.
#[derive(Debug)]
pub struct Thing {
    pub typ: Typ,
    pub held: Inv,
    pub equip: Inv,
    pub inf: Inf,
    pub stat: Stat,
    pub rig: Rig,
    pub col: Scalar,
}

impl Default for Thing {
    /// A player with empty inventories, no statistics and a body at rest.
    fn default() -> (t: Thing)
        ensures
            t.typ == Typ::PLAYER,
            t.held.items@ == Seq::<Thing>::empty(),
            t.held.len == 100,
            t.equip.items@ == Seq::<Thing>::empty(),
            t.equip.len == 100,
            t.record() == (It {
                typ: Typ::PLAYER,
                inf: Inf {
                    qtty: 0,
                    spawned: false,
                    vis: false,
                    col: false,
                    phys: false,
                    grab: false,
                },
                stat: Stat {
                    el: crate::element::El::LAND,
                    el_deg: Scalar::zero(),
                    hp: Scalar::zero(),
                    mag: 0,
                    spr: 0,
                    vit: 0,
                    atk: 0,
                    spd: 0,
                },
                rig: Rig::at_rest(),
                col: Scalar::zero(),
            }),
    {
        Thing {
            typ: Typ::default(),
            held: Inv::default(),
            equip: Inv::default(),
            inf: Inf::default(),
            stat: Stat::default(),
            rig: Rig::default(),
            col: Scalar::zero(),
        }
    }
}

impl Inv {
    /// Whether two inventories have the same room and hold like things in
    /// the same order.
    pub open spec fn alike(self, other: Inv) -> bool
        decreases self,
    {
        &&& self.len == other.len
        &&& self.items@.len() == other.items@.len()
        &&& forall|i: int|
            0 <= i < self.items@.len() ==> (#[trigger] self.items@[i]).alike(other.items@[i])
    }
}

impl Clone for Inv {
    fn clone(&self) -> (inv: Inv)
        ensures
            self.alike(inv),
    {
        copy_inv(self)
    }
}

impl Clone for Thing {
    fn clone(&self) -> (t: Thing)
        ensures
            self.alike(t),
    {
        copy_thing(self)
    }
}

/// A copy of `thing`, inventories included.
fn copy_thing(thing: &Thing) -> (t: Thing)
    ensures
        thing.alike(t),
    decreases thing,
{
    Thing {
        typ: thing.typ,
        held: copy_inv(&thing.held),
        equip: copy_inv(&thing.equip),
        inf: thing.inf,
        stat: thing.stat,
        rig: thing.rig,
        col: thing.col,
    }
}

/// A copy of `inv` with a copy of each thing in it, in the same order.
fn copy_inv(inv: &Inv) -> (r: Inv)
    ensures
        inv.alike(r),
    decreases inv,
{
    let mut items: Vec<Thing> = Vec::new();
    let mut i: usize = 0;
    while i < inv.items.len()
        invariant
            i <= inv.items@.len(),
            items@.len() == i,
            forall|k: int| 0 <= k < i ==> (#[trigger] inv.items@[k]).alike(items@[k]),
        decreases inv.items@.len() - i,
    {
        items.push(copy_thing(&inv.items[i]));
        i = i + 1;
    }
    Inv { items, len: inv.len }
}

impl Thing {
    /// Whether two things have the same record and like inventories.
    pub open spec fn alike(self, other: Thing) -> bool
        decreases self,
    {
        &&& self.record() == other.record()
        &&& self.held.alike(other.held)
        &&& self.equip.alike(other.equip)
    }

    /// What is kept of the thing when it is written down: everything but its
    /// inventories.
    pub open spec fn record(self) -> It {
        It { typ: self.typ, inf: self.inf, stat: self.stat, rig: self.rig, col: self.col }
    }
}

/// The record of a thing: its raw attributes, field for field, without what
/// it holds.
#[derive(Debug, Clone, Copy)]
pub struct It {
    pub typ: Typ,
    pub inf: Inf,
    pub stat: Stat,
    pub rig: Rig,
    pub col: Scalar,
}

impl From<Thing> for It {
    fn from(thing: Thing) -> (it: It) {
        It { typ: thing.typ, inf: thing.inf, stat: thing.stat, rig: thing.rig, col: thing.col }
    }
}

impl vstd::std_specs::convert::FromSpecImpl<Thing> for It {
    open spec fn obeys_from_spec() -> bool {
        true
    }

    open spec fn from_spec(thing: Thing) -> It {
        thing.record()
    }
}

} // verus!
