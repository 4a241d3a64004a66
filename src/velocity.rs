//! Plain velocity motion for entities moved without a rigid body.
use vstd::prelude::*;
use crate::store::slot;
use crate::vector::Vec3i;

verus! {

#[derive(Clone, Copy, Debug, PartialEq, Eq, Structural)]
pub struct Velocity(pub Vec3i);

impl Default for Velocity {
    /// At rest.
    fn default() -> (r: Velocity)
        ensures
            r == Velocity(Vec3i::zero_spec()),
    {
        Velocity(Vec3i::zero())
    }
}

/// A position after one step of a plain velocity.
pub open spec fn moved(t: Option<Vec3i>, v: Option<Velocity>) -> Option<Vec3i> {
    match (t, v) {
        (Some(p), Some(v)) => Some(p.spec_add(v.0)),
        _ => t,
    }
}

pub open spec fn move_fits(t: Option<Vec3i>, v: Option<Velocity>) -> bool {
    match (t, v) {
        (Some(p), Some(v)) => p.add_fits(v.0),
        _ => true,
    }
}

/// Advances the position of every entity that has a velocity by that
/// velocity.
pub fn handle_velocity(velocities: &Vec<Option<Velocity>>, positions: &mut Vec<Option<Vec3i>>)
    requires
        forall|i: int|
            0 <= i < old(positions)@.len() ==> move_fits(
                #[trigger] old(positions)@[i],
                slot(velocities@, i),
            ),
    ensures
        final(positions)@.len() == old(positions)@.len(),
        forall|i: int|
            0 <= i < old(positions)@.len() ==> final(positions)@[i] == moved(
                #[trigger] old(positions)@[i],
                slot(velocities@, i),
            ),
{
    let ghost ps = positions@;
    let n = positions.len();
    let mut i: usize = 0;
    while i < n
        invariant
            n == positions@.len() == ps.len(),
            0 <= i <= n,
            forall|k: int| 0 <= k < n ==> move_fits(#[trigger] ps[k], slot(velocities@, k)),
            forall|k: int|
                0 <= k < n ==> positions@[k] == if k < i {
                    moved(#[trigger] ps[k], slot(velocities@, k))
                } else {
                    ps[k]
                },
        decreases n - i,
    {
        if i < velocities.len() {
            if let Some(v) = velocities[i] {
                if let Some(p) = positions[i] {
                    assert(move_fits(ps[i as int], slot(velocities@, i as int)));
                    positions[i] = Some(p.add(v.0));
                }
            }
        }
        i += 1;
    }
}

} // verus!
