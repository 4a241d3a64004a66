//! Axis-aligned bounding boxes and the per-tick sync of their centers.
use vstd::prelude::*;
use crate::vector::{Vec3i, COORD_LIMIT};
use crate::store::slot;

verus! {

/// An axis-aligned box: `center` and the half-extent `radius` along each
/// axis, so the full box measures `2 * radius`.
#[derive(Clone, Copy, Debug, PartialEq, Eq, Structural)]
pub struct Collider {
    pub center: Vec3i,
    pub radius: Vec3i,
}

/// Overlap along one axis: the centers are closer than the summed half-extents.
pub open spec fn axis_overlap(ca: int, cb: int, ra: int, rb: int) -> bool {
    let d = ca - cb;
    let s = ra + rb;
    -s < d && d < s
}

/// Two boxes overlap when they do on the x axis and on the y axis; the
/// simulation is planar and z is not tested.
pub open spec fn overlaps_spec(a: Collider, b: Collider) -> bool {
    axis_overlap(a.center.x as int, b.center.x as int, a.radius.x as int, b.radius.x as int)
    && axis_overlap(a.center.y as int, b.center.y as int, a.radius.y as int, b.radius.y as int)
}

impl Collider {
    /// Center and extents lie within `COORD_LIMIT`, so that differences and
    /// sums of two colliders' coordinates are exact.
    pub open spec fn wf(self) -> bool {
        self.center.bounded(COORD_LIMIT as int) && self.radius.bounded(COORD_LIMIT as int)
    }

    pub fn new(center: Vec3i, radius: Vec3i) -> (r: Collider)
        ensures
            r.center == center,
            r.radius == radius,
    {
        Collider { center, radius }
    }
}

fn axis_overlaps(ca: i64, cb: i64, ra: i64, rb: i64) -> (r: bool)
    ensures
        r == axis_overlap(ca as int, cb as int, ra as int, rb as int),
{
    let d: i128 = ca as i128 - cb as i128;
    let s: i128 = ra as i128 + rb as i128;
    -s < d && d < s
}

/// Separating-axis overlap test of two boxes on the x and y axes.
pub fn overlaps(a: &Collider, b: &Collider) -> (r: bool)
    ensures
        r == overlaps_spec(*a, *b),
{
    axis_overlaps(a.center.x, b.center.x, a.radius.x, b.radius.x)
        && axis_overlaps(a.center.y, b.center.y, a.radius.y, b.radius.y)
}

} // verus!

verus! {

/// The collider of an entity after the sync: its center is the entity's
/// translation where the entity has both.
pub open spec fn synced(c: Option<Collider>, t: Option<Vec3i>) -> Option<Collider> {
    match (c, t) {
        (Some(c), Some(t)) => Some(Collider { center: t, radius: c.radius }),
        _ => c,
    }
}

/// Sets the center of every entity's collider to that entity's translation,
/// verbatim. Entities without a translation keep their collider as it was.
pub fn update_collider_center(colliders: &mut Vec<Option<Collider>>, translations: &Vec<Option<Vec3i>>)
    ensures
        final(colliders)@.len() == old(colliders)@.len(),
        forall|i: int|
            0 <= i < final(colliders)@.len() ==> final(colliders)@[i] == synced(
                old(colliders)@[i],
                slot(translations@, i),
            ),
{
    let n = colliders.len();
    let mut i: usize = 0;
    while i < n
        invariant
            n == colliders@.len() == old(colliders)@.len(),
            0 <= i <= n,
            forall|k: int|
                0 <= k < i ==> colliders@[k] == synced(old(colliders)@[k], slot(translations@, k)),
            forall|k: int| i <= k < n ==> colliders@[k] == old(colliders)@[k],
        decreases n - i,
    {
        if i < translations.len() {
            if let Some(t) = translations[i] {
                if let Some(c) = colliders[i] {
                    colliders[i] = Some(Collider { center: t, radius: c.radius });
                }
            }
        }
        i += 1;
    }
}

} // verus!
