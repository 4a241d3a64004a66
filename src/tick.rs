//! One fixed simulation tick over the entity stores: collider sync,
//! detection, integration, then resolution of the tick's collisions.
use vstd::prelude::*;
use crate::collider::{synced, update_collider_center, Collider};
use crate::detect::{all_wf, detect_collisions, detected, Collision};
use crate::integrate::{simulate_rigidbodies, step_fits, stepped_body, stepped_position};
use crate::resolve::{all_bodies_wf, collision_response, resolve_all};
use crate::rigidbody::{PhysicsError, Rigidbody, MASS_LIMIT};
use crate::store::slot;
use crate::vector::{Vec3i, COORD_LIMIT};

verus! {

/// The colliders after the sync with the translations `ts`.
pub open spec fn synced_all(cs: Seq<Option<Collider>>, ts: Seq<Option<Vec3i>>) -> Seq<Option<Collider>> {
    Seq::new(cs.len(), |i: int| synced(cs[i], slot(ts, i)))
}

/// The bodies after integration.
pub open spec fn stepped_bodies(bs: Seq<Option<Rigidbody>>, ps: Seq<Option<Vec3i>>) -> Seq<Option<Rigidbody>> {
    Seq::new(bs.len(), |i: int| stepped_body(bs[i], slot(ps, i)))
}

/// The positions after integration.
pub open spec fn stepped_positions(bs: Seq<Option<Rigidbody>>, ps: Seq<Option<Vec3i>>) -> Seq<Option<Vec3i>> {
    Seq::new(ps.len(), |i: int| stepped_position(slot(bs, i), ps[i]))
}

/// Every body can be integrated without overflow.
pub open spec fn all_steps_fit(bs: Seq<Option<Rigidbody>>, ps: Seq<Option<Vec3i>>) -> bool {
    forall|i: int| 0 <= i < bs.len() ==> step_fits(#[trigger] bs[i], slot(ps, i))
}

fn in_coord_limit(v: Vec3i) -> (r: bool)
    ensures
        r == v.bounded(COORD_LIMIT as int),
{
    -COORD_LIMIT <= v.x && v.x <= COORD_LIMIT && -COORD_LIMIT <= v.y && v.y <= COORD_LIMIT
        && -COORD_LIMIT <= v.z && v.z <= COORD_LIMIT
}

fn colliders_in_range(cs: &Vec<Option<Collider>>) -> (r: bool)
    ensures
        r == all_wf(cs@),
{
    let mut i: usize = 0;
    while i < cs.len()
        invariant
            0 <= i <= cs@.len(),
            forall|k: int| 0 <= k < i && (#[trigger] cs@[k]) is Some ==> cs@[k]->0.wf(),
        decreases cs@.len() - i,
    {
        if let Some(c) = cs[i] {
            if !(in_coord_limit(c.center) && in_coord_limit(c.radius)) {
                return false;
            }
        }
        i += 1;
    }
    true
}

fn masses_valid(bs: &Vec<Option<Rigidbody>>) -> (r: bool)
    ensures
        r == all_bodies_wf(bs@),
{
    let mut i: usize = 0;
    while i < bs.len()
        invariant
            0 <= i <= bs@.len(),
            forall|k: int| 0 <= k < i && (#[trigger] bs@[k]) is Some ==> bs@[k]->0.wf(),
        decreases bs@.len() - i,
    {
        if let Some(b) = bs[i] {
            if b.mass <= 0 || b.mass > MASS_LIMIT {
                return false;
            }
        }
        i += 1;
    }
    true
}

fn sum_fits(a: Vec3i, b: Vec3i) -> (r: bool)
    ensures
        r == a.add_fits(b),
{
    let x = a.x as i128 + b.x as i128;
    let y = a.y as i128 + b.y as i128;
    let z = a.z as i128 + b.z as i128;
    let lo = i64::MIN as i128;
    let hi = i64::MAX as i128;
    lo <= x && x <= hi && lo <= y && y <= hi && lo <= z && z <= hi
}

fn steps_fit(bs: &Vec<Option<Rigidbody>>, ps: &Vec<Option<Vec3i>>) -> (r: bool)
    ensures
        r == all_steps_fit(bs@, ps@),
{
    let mut i: usize = 0;
    while i < bs.len()
        invariant
            0 <= i <= bs@.len(),
            forall|k: int| 0 <= k < i ==> step_fits(#[trigger] bs@[k], slot(ps@, k)),
        decreases bs@.len() - i,
    {
        if let Some(b) = bs[i] {
            if i < ps.len() {
                if let Some(p) = ps[i] {
                    if !sum_fits(b.velocity, b.net_force) {
                        assert(!step_fits(bs@[i as int], slot(ps@, i as int)));
                        return false;
                    }
                    let v = b.velocity.add(b.net_force);
                    if !sum_fits(p, v) {
                        assert(!step_fits(bs@[i as int], slot(ps@, i as int)));
                        return false;
                    }
                }
            }
        }
        i += 1;
    }
    true
}

/// Runs one fixed tick. The colliders are first re-centered on the
/// entities' positions; then, unless a check fails, the overlapping pairs
/// are detected, the bodies integrated (which clears every accumulator) and
/// the detected collisions resolved in order. Returns the tick's records.
/// The checks, in order: every collider within `COORD_LIMIT`
/// (`CoordinateOutOfRange`), every mass valid (`InvalidMass`), every
/// integration step within `i64` (`Overflow`); on an error bodies and
/// positions are left as they were.
pub fn physics_tick(
    colliders: &mut Vec<Option<Collider>>,
    bodies: &mut Vec<Option<Rigidbody>>,
    positions: &mut Vec<Option<Vec3i>>,
) -> (r: Result<Vec<Collision>, PhysicsError>)
    ensures
        final(colliders)@ == synced_all(old(colliders)@, old(positions)@),
        r == Err::<Vec<Collision>, PhysicsError>(PhysicsError::CoordinateOutOfRange) <==> !all_wf(
            final(colliders)@,
        ),
        r == Err::<Vec<Collision>, PhysicsError>(PhysicsError::InvalidMass) <==> all_wf(
            final(colliders)@,
        ) && !all_bodies_wf(old(bodies)@),
        r == Err::<Vec<Collision>, PhysicsError>(PhysicsError::Overflow) <==> all_wf(
            final(colliders)@,
        ) && all_bodies_wf(old(bodies)@) && !all_steps_fit(old(bodies)@, old(positions)@),
        r is Err ==> final(bodies)@ == old(bodies)@ && final(positions)@ == old(positions)@,
        r matches Ok(recs) ==> {
            &&& recs@ == detected(final(colliders)@)
            &&& final(positions)@ == stepped_positions(old(bodies)@, old(positions)@)
            &&& final(bodies)@ == resolve_all(stepped_bodies(old(bodies)@, old(positions)@), recs@)
        },
{
    let ghost cs0 = colliders@;
    let ghost bs0 = bodies@;
    let ghost ps0 = positions@;
    update_collider_center(colliders, positions);
    assert(colliders@ =~= synced_all(cs0, ps0));
    if !colliders_in_range(colliders) {
        return Err(PhysicsError::CoordinateOutOfRange);
    }
    if !masses_valid(bodies) {
        return Err(PhysicsError::InvalidMass);
    }
    if !steps_fit(bodies, positions) {
        return Err(PhysicsError::Overflow);
    }
    let records = detect_collisions(colliders);
    simulate_rigidbodies(bodies, positions);
    assert(bodies@ =~= stepped_bodies(bs0, ps0));
    assert(positions@ =~= stepped_positions(bs0, ps0));
    assert(all_bodies_wf(bodies@));
    collision_response(bodies, &records);
    Ok(records)
}

} // verus!
