//! The world: every thing in the order in which it was registered.
//!
//! Bodies refer to one another by their index in the world, so a tether is
//! followed here, where both ends can be reached. One body's tick advances
//! that body and then moves each body tethered to it.
use crate::body::{Pull, Rig};
use crate::error::CombatError;
use crate::scalar::Scalar;
use crate::thing::Thing;
use vstd::prelude::*;

verus! {

/// `thing` with `rig` as its body.
pub open spec fn with_rig(thing: Thing, rig: Rig) -> Thing {
    Thing { rig, ..thing }
}

/// Whether an occupied tether slot holds a body of a world of `len` things.
pub open spec fn slot_resolves(slot: Option<usize>, len: nat) -> bool {
    match slot {
        Some(body) => body < len,
        None => true,
    }
}

/// Whether every occupied tether slot of body `i` holds a body of the world.
pub open spec fn resolves(things: Seq<Thing>, i: int) -> bool {
    &&& slot_resolves(things[i].rig.tethers[0], things.len())
    &&& slot_resolves(things[i].rig.tethers[1], things.len())
}

/// The world after the body that `pull` names has followed it.
pub open spec fn pulled(things: Seq<Thing>, pull: Pull) -> Seq<Thing> {
    things.update(
        pull.body as int,
        with_rig(things[pull.body as int], things[pull.body as int].rig.lerped(pull.target, pull.amount)),
    )
}

/// The world after an optional pull: unchanged where there is none.
pub open spec fn maybe_pulled(things: Seq<Thing>, pull: Option<Pull>) -> Seq<Thing> {
    match pull {
        Some(p) => pulled(things, p),
        None => things,
    }
}

/// The world after the tick of body `i`: the body is integrated, then the
/// body in its first tether slot follows it, then the one in its second. A
/// body with a slot that does not resolve is not ticked at all.
pub open spec fn ticked(things: Seq<Thing>, i: int, tick_amnt: Scalar) -> Seq<Thing> {
    if resolves(things, i) {
        let rig = things[i].rig.integrated(tick_amnt);
        let moved = things.update(i, with_rig(things[i], rig));
        maybe_pulled(maybe_pulled(moved, rig.pull(0)), rig.pull(1))
    } else {
        things
    }
}

/// The world after the ticks of its first `n` bodies, in order.
pub open spec fn ticked_upto(things: Seq<Thing>, tick_amnt: Scalar, n: nat) -> Seq<Thing>
    decreases n,
{
    if n == 0 {
        things
    } else {
        ticked(ticked_upto(things, tick_amnt, (n - 1) as nat), n - 1, tick_amnt)
    }
}

/// The indices, in order, of those among the first `n` bodies whose tick was
/// refused.
pub open spec fn refused_upto(things: Seq<Thing>, n: nat) -> Seq<usize>
    decreases n,
{
    if n == 0 {
        Seq::<usize>::empty()
    } else if resolves(things, n - 1) {
        refused_upto(things, (n - 1) as nat)
    } else {
        refused_upto(things, (n - 1) as nat).push((n - 1) as usize)
    }
}

/// A tick moves and changes bodies; it neither adds nor removes one, and it
/// rewires no tether.
pub proof fn lemma_ticked_keeps_shape(things: Seq<Thing>, i: int, tick_amnt: Scalar)
    requires
        0 <= i < things.len(),
    ensures
        ticked(things, i, tick_amnt).len() == things.len(),
        forall|k: int|
            0 <= k < things.len() ==> (#[trigger] ticked(things, i, tick_amnt)[k]).rig.tethers
                == things[k].rig.tethers,
{
}

/// The ticks of the first `n` bodies keep the number of bodies and every
/// tether.
pub proof fn lemma_ticked_upto_keeps_shape(things: Seq<Thing>, tick_amnt: Scalar, n: nat)
    requires
        n <= things.len(),
    ensures
        ticked_upto(things, tick_amnt, n).len() == things.len(),
        forall|k: int|
            0 <= k < things.len() ==> (#[trigger] ticked_upto(things, tick_amnt, n)[k]).rig.tethers
                == things[k].rig.tethers,
    decreases n,
{
    if n > 0 {
        lemma_ticked_upto_keeps_shape(things, tick_amnt, (n - 1) as nat);
        lemma_ticked_keeps_shape(ticked_upto(things, tick_amnt, (n - 1) as nat), n - 1, tick_amnt);
    }
}

/// Whether every body of the world is within its bounds.
pub open spec fn all_in_bounds(things: Seq<Thing>) -> bool {
    forall|k: int| 0 <= k < things.len() ==> (#[trigger] things[k]).rig.in_bounds()
}

/// The tick of body `i` integrates that body and, beyond that, changes
/// positions only: every other field of every thing stays.
pub proof fn lemma_ticked_moves_only(things: Seq<Thing>, i: int, tick_amnt: Scalar)
    requires
        0 <= i < things.len(),
    ensures
        forall|k: int|
            0 <= k < things.len() ==> {
                let before = if k == i && resolves(things, i) {
                    things[k].rig.integrated(tick_amnt)
                } else {
                    things[k].rig
                };
                let after = #[trigger] ticked(things, i, tick_amnt)[k];
                after == with_rig(things[k], Rig { pos: after.rig.pos, ..before })
            },
{
}

/// The tick of one body keeps every body within its bounds.
pub proof fn lemma_ticked_keeps_bounds(things: Seq<Thing>, i: int, tick_amnt: Scalar)
    requires
        0 <= i < things.len(),
        all_in_bounds(things),
    ensures
        all_in_bounds(ticked(things, i, tick_amnt)),
{
    lemma_ticked_moves_only(things, i, tick_amnt);
    Rig::lemma_tick_in_bounds(things[i].rig, tick_amnt);
    assert forall|k: int| 0 <= k < things.len() implies (#[trigger] ticked(
        things,
        i,
        tick_amnt,
    )[k]).rig.in_bounds() by {
        assert(things[k].rig.in_bounds());
    }
}

/// A frame keeps every body within its bounds.
pub proof fn lemma_ticked_upto_keeps_bounds(things: Seq<Thing>, tick_amnt: Scalar, n: nat)
    requires
        n <= things.len(),
        all_in_bounds(things),
    ensures
        all_in_bounds(ticked_upto(things, tick_amnt, n)),
    decreases n,
{
    if n > 0 {
        lemma_ticked_upto_keeps_shape(things, tick_amnt, (n - 1) as nat);
        lemma_ticked_upto_keeps_bounds(things, tick_amnt, (n - 1) as nat);
        lemma_ticked_keeps_bounds(ticked_upto(things, tick_amnt, (n - 1) as nat), n - 1, tick_amnt);
    }
}

/// A body that nothing is tethered to is moved by its own tick alone:
/// the tick of another body leaves it as it is.
pub proof fn lemma_ticked_leaves_untethered(things: Seq<Thing>, i: int, k: int, tick_amnt: Scalar)
    requires
        0 <= i < things.len(),
        0 <= k < things.len(),
        k != i,
        things[i].rig.tethers[0] != Some(k as usize),
        things[i].rig.tethers[1] != Some(k as usize),
    ensures
        ticked(things, i, tick_amnt)[k] == things[k],
{
}

/// Moves the body that `pull` names toward the pull's target. Fails, and
/// changes nothing, where the world holds no such body.
pub fn apply_pull(things: &mut Vec<Thing>, pull: Pull) -> (r: Result<(), CombatError>)
    ensures
        pull.body < old(things)@.len() ==> r.is_ok() && final(things)@ == pulled(
            old(things)@,
            pull,
        ),
        pull.body >= old(things)@.len() ==> r == Err::<(), CombatError>(
            CombatError::UnresolvedTether,
        ) && final(things)@ == old(things)@,
{
    if pull.body >= things.len() {
        return Err(CombatError::UnresolvedTether);
    }
    things[pull.body].rig.lerp(pull.target, pull.amount);
    assert(things@ =~= pulled(old(things)@, pull));
    Ok(())
}

/// Makes the body in tether slot `slot` of body `leader` follow the leader.
/// Fails, and changes nothing, where the slot is empty or holds no body of
/// the world.
pub fn follow_tether(things: &mut Vec<Thing>, leader: usize, slot: usize) -> (r: Result<
    (),
    CombatError,
>)
    requires
        leader < old(things)@.len(),
        slot < 2,
    ensures
        match old(things)@[leader as int].rig.pull(slot as int) {
            Some(pull) if pull.body < old(things)@.len() => r.is_ok() && final(things)@ == pulled(
                old(things)@,
                pull,
            ),
            _ => r == Err::<(), CombatError>(CombatError::UnresolvedTether) && final(things)@
                == old(things)@,
        },
{
    match things[leader].rig.pull_of(slot) {
        Some(pull) => apply_pull(things, pull),
        None => Err(CombatError::UnresolvedTether),
    }
}

/// Ticks body `i`: integrates it and lets the bodies tethered to it follow,
/// first slot first. Where an occupied slot holds no body of the world the
/// tick is refused and the world stays as it was.
pub fn tick_thing(things: &mut Vec<Thing>, i: usize, tick_amnt: Scalar) -> (r: Result<
    (),
    CombatError,
>)
    requires
        i < old(things)@.len(),
    ensures
        final(things)@ == ticked(old(things)@, i as int, tick_amnt),
        resolves(old(things)@, i as int) ==> r.is_ok(),
        !resolves(old(things)@, i as int) ==> r == Err::<(), CombatError>(
            CombatError::UnresolvedTether,
        ),
{
    let len = things.len();
    if !slot_in_world(things[i].rig.tethers[0], len) || !slot_in_world(
        things[i].rig.tethers[1],
        len,
    ) {
        return Err(CombatError::UnresolvedTether);
    }
    let pulls = things[i].rig.tick(tick_amnt);
    assert(things@ =~= old(things)@.update(
        i as int,
        with_rig(old(things)@[i as int], old(things)@[i as int].rig.integrated(tick_amnt)),
    ));
    match pulls[0] {
        Some(pull) => {
            let _ = apply_pull(things, pull);
        },
        None => {},
    }
    match pulls[1] {
        Some(pull) => {
            let _ = apply_pull(things, pull);
        },
        None => {},
    }
    Ok(())
}

/// Whether an occupied tether slot holds a body of a world of `len` things.
pub fn slot_in_world(slot: Option<usize>, len: usize) -> (ok: bool)
    ensures
        ok == slot_resolves(slot, len as nat),
{
    match slot {
        Some(body) => body < len,
        None => true,
    }
}

/// Ticks every body once, in the order of registration, and returns the
/// indices of the bodies whose tick was refused. Those bodies take no step
/// this frame; every other body does.
pub fn tick_world(things: &mut Vec<Thing>, tick_amnt: Scalar) -> (refused: Vec<usize>)
    ensures
        final(things)@ == ticked_upto(old(things)@, tick_amnt, old(things)@.len()),
        refused@ == refused_upto(old(things)@, old(things)@.len()),
{
    let mut refused: Vec<usize> = Vec::new();
    let mut i: usize = 0;
    let len = things.len();
    while i < len
        invariant
            i <= len,
            len == old(things)@.len(),
            things@.len() == len,
            things@ == ticked_upto(old(things)@, tick_amnt, i as nat),
            refused@ == refused_upto(old(things)@, i as nat),
        decreases len - i,
    {
        proof {
            lemma_ticked_upto_keeps_shape(old(things)@, tick_amnt, i as nat);
        }
        match tick_thing(things, i, tick_amnt) {
            Ok(()) => {},
            Err(_) => {
                refused.push(i);
            },
        }
        proof {
            lemma_ticked_keeps_shape(
                ticked_upto(old(things)@, tick_amnt, i as nat),
                i as int,
                tick_amnt,
            );
        }
        i = i + 1;
    }
    refused
}

} // verus!
