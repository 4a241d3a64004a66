//! All-pairs collision detection.
use vstd::prelude::*;
use crate::collider::{overlaps, overlaps_spec, Collider};
use crate::store::slot;
use crate::vector::Vec3i;

verus! {

/// One overlapping pair found in a tick. `entity_a` is the entity whose scan
/// found the pair and `entity_b` the one with the smaller index.
#[derive(Clone, Copy, Debug, PartialEq, Eq, Structural)]
pub struct Collision {
    pub entity_a: usize,
    pub entity_b: usize,
    /// Direction from `a`'s center toward `b`'s center: the difference of the
    /// centers, zero when they coincide. It is not scaled to unit length.
    pub normal: Vec3i,
    /// The smaller of the two signed per-axis penetrations.
    pub penetration_depth: i64,
}

/// A collision record as delivered to the consumers of a tick's collisions.
#[derive(Clone, Copy, Debug, PartialEq, Eq, Structural)]
pub struct OnCollisionEvent(pub Collision);

/// Every collider of the store lies within the coordinate limit.
pub open spec fn all_wf(cs: Seq<Option<Collider>>) -> bool {
    forall|i: int| 0 <= i < cs.len() && (#[trigger] cs[i]) is Some ==> cs[i]->0.wf()
}

pub open spec fn min_int(a: int, b: int) -> int {
    if a <= b {
        a
    } else {
        b
    }
}

/// `b.center - a.center`.
pub open spec fn center_delta(a: Collider, b: Collider) -> Vec3i {
    Vec3i {
        x: (b.center.x - a.center.x) as i64,
        y: (b.center.y - a.center.y) as i64,
        z: (b.center.z - a.center.z) as i64,
    }
}

/// `min(dx - sx, dy - sy)` with `d = a.center - b.center` and `s` the summed
/// half-extents.
pub open spec fn penetration(a: Collider, b: Collider) -> int {
    min_int(
        (a.center.x - b.center.x) - (a.radius.x + b.radius.x),
        (a.center.y - b.center.y) - (a.radius.y + b.radius.y),
    )
}

pub open spec fn record_of(i: int, j: int, a: Collider, b: Collider) -> Collision {
    Collision {
        entity_a: i as usize,
        entity_b: j as usize,
        normal: center_delta(a, b),
        penetration_depth: penetration(a, b) as i64,
    }
}

/// The record of the pair `(i, j)`, if both entities have colliders that
/// overlap.
pub open spec fn pair_records(cs: Seq<Option<Collider>>, i: int, j: int) -> Seq<Collision> {
    match (slot(cs, i), slot(cs, j)) {
        (Some(a), Some(b)) => if overlaps_spec(a, b) {
            seq![record_of(i, j, a, b)]
        } else {
            Seq::empty()
        },
        _ => Seq::empty(),
    }
}

/// Records of entity `i` against entities `0 .. j`, in index order.
pub open spec fn row_records(cs: Seq<Option<Collider>>, i: int, j: int) -> Seq<Collision>
    decreases j,
{
    if j <= 0 {
        Seq::empty()
    } else {
        row_records(cs, i, j - 1) + pair_records(cs, i, j - 1)
    }
}

/// Records of the entities `0 .. i`, each against every smaller index.
pub open spec fn records_before(cs: Seq<Option<Collider>>, i: int) -> Seq<Collision>
    decreases i,
{
    if i <= 0 {
        Seq::empty()
    } else {
        records_before(cs, i - 1) + row_records(cs, i - 1, i - 1)
    }
}

/// The records that one detection pass emits over a store of colliders.
pub open spec fn detected(cs: Seq<Option<Collider>>) -> Seq<Collision> {
    records_before(cs, cs.len() as int)
}

fn make_record(i: usize, j: usize, a: &Collider, b: &Collider) -> (r: Collision)
    requires
        a.wf(),
        b.wf(),
    ensures
        r == record_of(i as int, j as int, *a, *b),
{
    let px = (a.center.x - b.center.x) - (a.radius.x + b.radius.x);
    let py = (a.center.y - b.center.y) - (a.radius.y + b.radius.y);
    let depth = if px <= py { px } else { py };
    Collision {
        entity_a: i,
        entity_b: j,
        normal: Vec3i {
            x: b.center.x - a.center.x,
            y: b.center.y - a.center.y,
            z: b.center.z - a.center.z,
        },
        penetration_depth: depth,
    }
}

/// Tests every unordered pair of entities with colliders once, the entity
/// with the larger index against each smaller one, and emits a record for
/// each overlapping pair, in scan order.
pub fn detect_collisions(colliders: &Vec<Option<Collider>>) -> (r: Vec<Collision>)
    requires
        all_wf(colliders@),
    ensures
        r@ == detected(colliders@),
{
    let ghost cs = colliders@;
    let n = colliders.len();
    let mut r: Vec<Collision> = Vec::new();
    let mut i: usize = 0;
    while i < n
        invariant
            cs == colliders@,
            n == cs.len(),
            all_wf(cs),
            0 <= i <= n,
            r@ == records_before(cs, i as int),
        decreases n - i,
    {
        let mut j: usize = 0;
        while j < i
            invariant
                cs == colliders@,
                n == cs.len(),
                all_wf(cs),
                0 <= j <= i < n,
                r@ == records_before(cs, i as int) + row_records(cs, i as int, j as int),
            decreases i - j,
        {
            let ghost before = r@;
            if let Some(a) = &colliders[i] {
                if let Some(b) = &colliders[j] {
                    if overlaps(a, b) {
                        let rec = make_record(i, j, a, b);
                        r.push(rec);
                    }
                }
            }
            assert(r@ == before + pair_records(cs, i as int, j as int));
            assert(records_before(cs, i as int) + row_records(cs, i as int, j + 1) =~= before
                + pair_records(cs, i as int, j as int));
            j += 1;
        }
        assert(records_before(cs, i + 1) =~= records_before(cs, i as int) + row_records(
            cs,
            i as int,
            i as int,
        ));
        i += 1;
    }
    r
}

} // verus!
