//! Explicit integration of rigid bodies at a unit time step.
use vstd::prelude::*;
use crate::rigidbody::Rigidbody;
use crate::store::slot;
use crate::vector::Vec3i;

verus! {

/// The sums that one step of a body at `t` computes fit in `i64`.
pub open spec fn step_fits(b: Option<Rigidbody>, t: Option<Vec3i>) -> bool {
    match (b, t) {
        (Some(b), Some(p)) => b.velocity.add_fits(b.net_force) && p.add_fits(
            b.velocity.spec_add(b.net_force),
        ),
        _ => true,
    }
}

/// A body after one step: where it has a position its velocity takes up the
/// accumulated force; the accumulator is cleared in every case.
pub open spec fn stepped_body(b: Option<Rigidbody>, t: Option<Vec3i>) -> Option<Rigidbody> {
    match b {
        Some(b) => Some(
            Rigidbody {
                velocity: if t is Some {
                    b.velocity.spec_add(b.net_force)
                } else {
                    b.velocity
                },
                net_force: Vec3i::zero_spec(),
                ..b
            },
        ),
        None => None,
    }
}

/// A position after one step: advanced by the body's new velocity.
pub open spec fn stepped_position(b: Option<Rigidbody>, t: Option<Vec3i>) -> Option<Vec3i> {
    match (b, t) {
        (Some(b), Some(p)) => Some(p.spec_add(b.velocity.spec_add(b.net_force))),
        _ => t,
    }
}

/// One integration tick: for each entity with a body and a position,
/// `velocity += net_force` then `position += velocity`; then every body's
/// accumulator is cleared, consumed or not. The time step is one tick and
/// drag is not applied.
pub fn simulate_rigidbodies(bodies: &mut Vec<Option<Rigidbody>>, positions: &mut Vec<Option<Vec3i>>)
    requires
        forall|i: int|
            0 <= i < old(bodies)@.len() ==> step_fits(
                #[trigger] old(bodies)@[i],
                slot(old(positions)@, i),
            ),
    ensures
        final(bodies)@.len() == old(bodies)@.len(),
        final(positions)@.len() == old(positions)@.len(),
        forall|i: int|
            0 <= i < old(bodies)@.len() ==> final(bodies)@[i] == stepped_body(
                #[trigger] old(bodies)@[i],
                slot(old(positions)@, i),
            ),
        forall|i: int|
            0 <= i < old(positions)@.len() ==> final(positions)@[i] == stepped_position(
                slot(old(bodies)@, i),
                #[trigger] old(positions)@[i],
            ),
{
    let ghost bs = bodies@;
    let ghost ps = positions@;
    let n = bodies.len();
    let mut i: usize = 0;
    while i < n
        invariant
            n == bodies@.len() == bs.len(),
            positions@.len() == ps.len(),
            0 <= i <= n,
            forall|k: int| 0 <= k < n ==> step_fits(#[trigger] bs[k], slot(ps, k)),
            forall|k: int| 0 <= k < i ==> bodies@[k] == stepped_body(#[trigger] bs[k], slot(ps, k)),
            forall|k: int| i <= k < n ==> bodies@[k] == bs[k],
            forall|k: int|
                0 <= k < ps.len() ==> positions@[k] == if k < i {
                    stepped_position(slot(bs, k), ps[k])
                } else {
                    ps[k]
                },
        decreases n - i,
    {
        if let Some(b) = bodies[i] {
            assert(step_fits(bs[i as int], slot(ps, i as int)));
            let mut nb = b;
            if i < positions.len() {
                if let Some(p) = positions[i] {
                    let v = b.velocity.add(b.net_force);
                    nb.velocity = v;
                    positions[i] = Some(p.add(v));
                }
            }
            nb.net_force = Vec3i::zero();
            bodies[i] = Some(nb);
        }
        i += 1;
    }
}

} // verus!
