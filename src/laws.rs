//! Properties that relate the simulation's operations, proved over their
//! specifications.
use vstd::prelude::*;
use vstd::arithmetic::mul::{lemma_mul_is_distributive_add, lemma_mul_is_distributive_add_other_way};
use crate::arith::{lemma_trunc_div_exact, lemma_trunc_div_rem};
use crate::collider::{overlaps_spec, Collider};
use crate::detect::{detected, pair_records, record_of, records_before, row_records, Collision};
use crate::integrate::{stepped_body, stepped_position};
use crate::resolve::{
    closing_speed, denominator, norm_sq, resolvable, resolve_all, resolve_one, resolve_prefix,
    resolved_a, resolved_b, share,
};
use crate::rigidbody::Rigidbody;
use crate::store::slot;
use crate::tick::stepped_bodies;
use crate::vector::Vec3i;

verus! {

/// The overlap test does not depend on the order of its arguments.
pub proof fn overlap_is_symmetric(a: Collider, b: Collider)
    ensures
        overlaps_spec(a, b) == overlaps_spec(b, a),
{
}

/// The record `r` names two entities with colliders that overlap, the first
/// with the larger index.
pub open spec fn sound_record(cs: Seq<Option<Collider>>, r: Collision) -> bool {
    &&& r.entity_b < r.entity_a < cs.len()
    &&& slot(cs, r.entity_a as int) is Some
    &&& slot(cs, r.entity_b as int) is Some
    &&& overlaps_spec(slot(cs, r.entity_a as int)->0, slot(cs, r.entity_b as int)->0)
}

proof fn lemma_row_sound(cs: Seq<Option<Collider>>, i: int, j: int)
    requires
        0 <= j <= i < cs.len() <= usize::MAX,
    ensures
        forall|k: int|
            0 <= k < row_records(cs, i, j).len() ==> sound_record(
                cs,
                #[trigger] row_records(cs, i, j)[k],
            ),
    decreases j,
{
    if j > 0 {
        lemma_row_sound(cs, i, j - 1);
        let a = row_records(cs, i, j - 1);
        let p = pair_records(cs, i, j - 1);
        assert forall|k: int| 0 <= k < (a + p).len() implies sound_record(
            cs,
            #[trigger] (a + p)[k],
        ) by {
            if k >= a.len() {
                assert((a + p)[k] == p[k - a.len()]);
            }
        }
    }
}

proof fn lemma_before_sound(cs: Seq<Option<Collider>>, i: int)
    requires
        0 <= i <= cs.len() <= usize::MAX,
    ensures
        forall|k: int|
            0 <= k < records_before(cs, i).len() ==> sound_record(
                cs,
                #[trigger] records_before(cs, i)[k],
            ),
    decreases i,
{
    if i > 0 {
        lemma_before_sound(cs, i - 1);
        lemma_row_sound(cs, i - 1, i - 1);
        let a = records_before(cs, i - 1);
        let p = row_records(cs, i - 1, i - 1);
        assert forall|k: int| 0 <= k < (a + p).len() implies sound_record(
            cs,
            #[trigger] (a + p)[k],
        ) by {
            if k >= a.len() {
                assert((a + p)[k] == p[k - a.len()]);
            }
        }
    }
}

/// Detection emits a record only for two distinct entities whose colliders
/// overlap: a pair separated by at least the summed half-extents on the x or
/// the y axis never yields one.
pub proof fn detection_reports_only_overlaps(cs: Seq<Option<Collider>>)
    requires
        cs.len() <= usize::MAX,
    ensures
        forall|k: int|
            0 <= k < detected(cs).len() ==> sound_record(cs, #[trigger] detected(cs)[k]),
{
    lemma_before_sound(cs, cs.len() as int);
}

proof fn lemma_row_complete(cs: Seq<Option<Collider>>, i: int, j: int, jj: int, rec: Collision)
    requires
        0 <= jj < j,
        pair_records(cs, i, jj) == seq![rec],
    ensures
        row_records(cs, i, j).contains(rec),
    decreases j,
{
    let a = row_records(cs, i, j - 1);
    let p = pair_records(cs, i, j - 1);
    assert(row_records(cs, i, j) == a + p);
    if jj == j - 1 {
        assert((a + p)[a.len() as int] == rec);
    } else {
        lemma_row_complete(cs, i, j - 1, jj, rec);
        let k = choose|k: int| 0 <= k < a.len() && a[k] == rec;
        assert((a + p)[k] == rec);
    }
}

proof fn lemma_before_complete(cs: Seq<Option<Collider>>, i: int, ii: int, jj: int, rec: Collision)
    requires
        0 <= jj < ii < i,
        pair_records(cs, ii, jj) == seq![rec],
    ensures
        records_before(cs, i).contains(rec),
    decreases i,
{
    let a = records_before(cs, i - 1);
    let p = row_records(cs, i - 1, i - 1);
    assert(records_before(cs, i) == a + p);
    if ii == i - 1 {
        lemma_row_complete(cs, ii, ii, jj, rec);
        let k = choose|k: int| 0 <= k < p.len() && p[k] == rec;
        assert((a + p)[a.len() + k] == rec);
    } else {
        lemma_before_complete(cs, i - 1, ii, jj, rec);
        let k = choose|k: int| 0 <= k < a.len() && a[k] == rec;
        assert((a + p)[k] == rec);
    }
}

/// Detection misses no overlapping pair: for entities `j < i` whose
/// colliders overlap, the records hold the one for `(i, j)`, with the
/// difference of the centers as normal and the smaller per-axis
/// penetration as depth.
pub proof fn detection_reports_every_overlap(cs: Seq<Option<Collider>>, i: int, j: int)
    requires
        0 <= j < i < cs.len(),
        cs[i] is Some,
        cs[j] is Some,
        overlaps_spec(cs[i]->0, cs[j]->0),
    ensures
        detected(cs).contains(record_of(i, j, cs[i]->0, cs[j]->0)),
{
    lemma_before_complete(cs, cs.len() as int, i, j, record_of(i, j, cs[i]->0, cs[j]->0));
}

proof fn lemma_momentum_rounding(ma: int, mb: int, x: int, qa: int, qb: int, den: int)
    requires
        ma > 0,
        mb > 0,
        den > 0,
        -den < mb * x - qa * den < den,
        -den < ma * x - qb * den < den,
    ensures
        -(ma + mb) < ma * qa - mb * qb < ma + mb,
{
    let ra = mb * x - qa * den;
    let rb = ma * x - qb * den;
    let e = ma * qa - mb * qb;
    assert(e * den == mb * rb - ma * ra) by (nonlinear_arith)
        requires
            ra == mb * x - qa * den,
            rb == ma * x - qb * den,
            e == ma * qa - mb * qb,
    ;
    assert(-(mb * den) < mb * rb < mb * den) by (nonlinear_arith)
        requires
            mb > 0,
            -den < rb < den,
    ;
    assert(-(ma * den) < ma * ra < ma * den) by (nonlinear_arith)
        requires
            ma > 0,
            -den < ra < den,
    ;
    assert((ma + mb) * den == ma * den + mb * den) by (nonlinear_arith);
    assert(-(ma + mb) < e < ma + mb) by (nonlinear_arith)
        requires
            den > 0,
            -((ma + mb) * den) < e * den < (ma + mb) * den,
    ;
}

proof fn lemma_axis_momentum(a: Rigidbody, b: Rigidbody, n: Vec3i, nk: int)
    requires
        a.wf(),
        b.wf(),
    ensures
        -(a.mass + b.mass) < a.mass * share(a, b, n, b.mass as int, nk) - b.mass * share(
            a,
            b,
            n,
            a.mass as int,
            nk,
        ) < a.mass + b.mass,
{
    if norm_sq(n) != 0 {
        let c = closing_speed(a.velocity, b.velocity, n);
        let den = denominator(a, b, n);
        let ma = a.mass as int;
        let mb = b.mass as int;
        assert(norm_sq(n) > 0 && den > 0) by (nonlinear_arith)
            requires
                norm_sq(n) == n.x * n.x + n.y * n.y + n.z * n.z,
                norm_sq(n) != 0,
                den == norm_sq(n) * (ma + mb),
                ma > 0,
                mb > 0,
        ;
        assert(c * mb * nk == mb * (c * nk) && c * ma * nk == ma * (c * nk)) by (nonlinear_arith);
        lemma_trunc_div_rem(c * mb * nk, den);
        lemma_trunc_div_rem(c * ma * nk, den);
        lemma_momentum_rounding(
            ma,
            mb,
            c * nk,
            share(a, b, n, mb, nk),
            share(a, b, n, ma, nk),
            den,
        );
    }
}

proof fn lemma_negated_product(m: int, d: int, s: int)
    requires
        d == -s,
    ensures
        m * d == -(m * s),
{
    assert(m * d == -(m * s)) by (nonlinear_arith)
        requires
            d == -s,
    ;
}

/// Resolution conserves momentum along each axis up to rounding:
/// `ma * dva + mb * dvb` is smaller in magnitude than `ma + mb`, the most
/// that rounding each velocity change toward zero can lose. With a zero
/// normal it is exactly zero.
pub proof fn resolution_conserves_momentum(a: Rigidbody, b: Rigidbody, n: Vec3i)
    requires
        a.wf(),
        b.wf(),
        resolvable(a, b, n),
    ensures
        ({
            let a2 = resolved_a(a, b, n);
            let b2 = resolved_b(a, b, n);
            let m = a.mass + b.mass;
            &&& -m < a.mass * (a2.velocity.x - a.velocity.x) + b.mass * (b2.velocity.x
                - b.velocity.x) < m
            &&& -m < a.mass * (a2.velocity.y - a.velocity.y) + b.mass * (b2.velocity.y
                - b.velocity.y) < m
            &&& -m < a.mass * (a2.velocity.z - a.velocity.z) + b.mass * (b2.velocity.z
                - b.velocity.z) < m
        }),
        norm_sq(n) == 0 ==> resolved_a(a, b, n) == a && resolved_b(a, b, n) == b,
{
    crate::resolve::lemma_shares_fit(a, b, n);
    lemma_axis_momentum(a, b, n, n.x as int);
    lemma_axis_momentum(a, b, n, n.y as int);
    lemma_axis_momentum(a, b, n, n.z as int);
    let a2 = resolved_a(a, b, n);
    let b2 = resolved_b(a, b, n);
    lemma_negated_product(b.mass as int, b2.velocity.x - b.velocity.x, share(a, b, n, a.mass as int, n.x as int));
    lemma_negated_product(b.mass as int, b2.velocity.y - b.velocity.y, share(a, b, n, a.mass as int, n.y as int));
    lemma_negated_product(b.mass as int, b2.velocity.z - b.velocity.z, share(a, b, n, a.mass as int, n.z as int));
    if norm_sq(n) == 0 {
        assert(resolved_a(a, b, n) =~= a);
        assert(resolved_b(a, b, n) =~= b);
    }
}

/// `v` lies along `n`: their cross product is zero.
pub open spec fn parallel(v: Vec3i, n: Vec3i) -> bool {
    &&& v.x * n.y == v.y * n.x
    &&& v.y * n.z == v.z * n.y
    &&& v.x * n.z == v.z * n.x
}

pub open spec fn negated(v: Vec3i) -> Vec3i {
    Vec3i { x: -v.x as i64, y: -v.y as i64, z: -v.z as i64 }
}

proof fn lemma_parallel_component(vx: int, vy: int, vz: int, nx: int, ny: int, nz: int)
    requires
        vy * nx == vx * ny,
        vz * nx == vx * nz,
    ensures
        (vx * nx + vy * ny + vz * nz) * nx == vx * (nx * nx + ny * ny + nz * nz),
{
    lemma_mul_is_distributive_add_other_way(nx, vx * nx + vy * ny, vz * nz);
    lemma_mul_is_distributive_add_other_way(nx, vx * nx, vy * ny);
    assert((vy * ny) * nx == (vy * nx) * ny) by (nonlinear_arith);
    assert((vz * nz) * nx == (vz * nx) * nz) by (nonlinear_arith);
    assert((vx * ny) * ny == vx * (ny * ny)) by (nonlinear_arith);
    assert((vx * nz) * nz == vx * (nz * nz)) by (nonlinear_arith);
    assert((vx * nx) * nx == vx * (nx * nx)) by (nonlinear_arith);
    lemma_mul_is_distributive_add(vx, nx * nx + ny * ny, nz * nz);
    lemma_mul_is_distributive_add(vx, nx * nx, ny * ny);
}

proof fn lemma_bounce_share(a: Rigidbody, b: Rigidbody, n: Vec3i, vk: int, nk: int)
    requires
        a.wf(),
        a.mass == b.mass,
        b.velocity == negated(a.velocity),
        a.velocity.bounded(i64::MAX as int),
        norm_sq(n) != 0,
        (a.velocity.x * n.x + a.velocity.y * n.y + a.velocity.z * n.z) * nk == vk * norm_sq(n),
    ensures
        share(a, b, n, a.mass as int, nk) == -2 * vk,
{
    let m = a.mass as int;
    let s = norm_sq(n);
    let dot = a.velocity.x * n.x + a.velocity.y * n.y + a.velocity.z * n.z;
    let c = closing_speed(a.velocity, b.velocity, n);
    let v = a.velocity;
    assert(c == -4 * dot) by (nonlinear_arith)
        requires
            c == -2 * ((v.x - (-v.x)) * n.x + (v.y - (-v.y)) * n.y + (v.z - (-v.z)) * n.z),
            dot == v.x * n.x + v.y * n.y + v.z * n.z,
    ;
    let den = denominator(a, b, n);
    assert(den == s * (m + m));
    assert(s > 0) by (nonlinear_arith)
        requires
            s == n.x * n.x + n.y * n.y + n.z * n.z,
            s != 0,
    ;
    assert(den > 0) by (nonlinear_arith)
        requires
            den == s * (m + m),
            s > 0,
            m > 0,
    ;
    assert(c * m * nk == (-2 * vk) * den) by (nonlinear_arith)
        requires
            c == -4 * dot,
            dot * nk == vk * s,
            den == s * (m + m),
    ;
    lemma_trunc_div_exact(-2 * vk, den);
}

/// Two bodies of equal mass meeting head-on, with equal and opposite
/// velocities along the normal, bounce back elastically: each leaves with
/// the negation of its velocity.
pub proof fn equal_masses_bounce_back(a: Rigidbody, b: Rigidbody, n: Vec3i)
    requires
        a.wf(),
        b.wf(),
        resolvable(a, b, n),
        a.mass == b.mass,
        b.velocity == negated(a.velocity),
        parallel(a.velocity, n),
        norm_sq(n) != 0,
    ensures
        resolved_a(a, b, n).velocity == negated(a.velocity),
        resolved_b(a, b, n).velocity == negated(b.velocity),
{
    let v = a.velocity;
    crate::resolve::lemma_shares_fit(a, b, n);
    lemma_parallel_component(v.x as int, v.y as int, v.z as int, n.x as int, n.y as int, n.z as int);
    lemma_parallel_component(v.y as int, v.z as int, v.x as int, n.y as int, n.z as int, n.x as int);
    lemma_parallel_component(v.z as int, v.x as int, v.y as int, n.z as int, n.x as int, n.y as int);
    lemma_bounce_share(a, b, n, v.x as int, n.x as int);
    lemma_bounce_share(a, b, n, v.y as int, n.y as int);
    lemma_bounce_share(a, b, n, v.z as int, n.z as int);
    assert(share(a, b, n, b.mass as int, n.x as int) == -2 * v.x);
    assert(resolved_a(a, b, n).velocity.x == -v.x);
    assert(resolved_a(a, b, n).velocity.y == -v.y);
    assert(resolved_a(a, b, n).velocity.z == -v.z);
}

/// With no accumulated force, one tick keeps the velocity and advances the
/// position by exactly that velocity.
pub proof fn force_free_tick(b: Rigidbody, p: Vec3i)
    requires
        b.net_force == Vec3i::zero_spec(),
    ensures
        stepped_body(Some(b), Some(p)) == Some(b),
        stepped_position(Some(b), Some(p)) == Some(p.spec_add(b.velocity)),
{
    assert(b.velocity.spec_add(b.net_force) == b.velocity);
}

/// After a tick every accumulator is zero, whatever was applied before it:
/// integration clears each one and resolution leaves them so, and the next
/// tick's forces start from nothing.
pub proof fn tick_leaves_accumulators_clear(
    bs: Seq<Option<Rigidbody>>,
    ps: Seq<Option<Vec3i>>,
    rs: Seq<Collision>,
)
    ensures
        forall|i: int|
            0 <= i < bs.len() && (#[trigger] resolve_all(stepped_bodies(bs, ps), rs)[i]) is Some
                ==> resolve_all(stepped_bodies(bs, ps), rs)[i]->0.net_force == Vec3i::zero_spec(),
{
    lemma_prefix_keeps_clear(stepped_bodies(bs, ps), rs, rs.len() as int);
}

proof fn lemma_prefix_keeps_clear(bs: Seq<Option<Rigidbody>>, rs: Seq<Collision>, k: int)
    requires
        forall|i: int|
            0 <= i < bs.len() && (#[trigger] bs[i]) is Some ==> bs[i]->0.net_force
                == Vec3i::zero_spec(),
        k <= rs.len(),
    ensures
        resolve_prefix(bs, rs, k).len() == bs.len(),
        forall|i: int|
            0 <= i < bs.len() && (#[trigger] resolve_prefix(bs, rs, k)[i]) is Some
                ==> resolve_prefix(bs, rs, k)[i]->0.net_force == Vec3i::zero_spec(),
    decreases k,
{
    if k > 0 {
        lemma_prefix_keeps_clear(bs, rs, k - 1);
        crate::resolve::lemma_resolve_one_keeps_masses(resolve_prefix(bs, rs, k - 1), rs[k - 1]);
    }
}

/// A record naming an entity without a body changes no body.
pub proof fn bodiless_record_is_skipped(bs: Seq<Option<Rigidbody>>, r: Collision)
    requires
        slot(bs, r.entity_a as int) is None || slot(bs, r.entity_b as int) is None,
    ensures
        resolve_one(bs, r) == bs,
{
}

/// An entity without a body still has none after resolution, whatever the
/// records say.
pub proof fn bodiless_entity_stays_untouched(bs: Seq<Option<Rigidbody>>, rs: Seq<Collision>, i: int)
    requires
        0 <= i < bs.len(),
        bs[i] is None,
    ensures
        resolve_all(bs, rs).len() == bs.len(),
        resolve_all(bs, rs)[i] is None,
{
    lemma_prefix_keeps_none(bs, rs, i, rs.len() as int);
}

proof fn lemma_prefix_keeps_none(bs: Seq<Option<Rigidbody>>, rs: Seq<Collision>, i: int, k: int)
    requires
        0 <= i < bs.len(),
        bs[i] is None,
        k <= rs.len(),
    ensures
        resolve_prefix(bs, rs, k).len() == bs.len(),
        resolve_prefix(bs, rs, k)[i] is None,
    decreases k,
{
    if k > 0 {
        lemma_prefix_keeps_none(bs, rs, i, k - 1);
        crate::resolve::lemma_resolve_one_keeps_masses(resolve_prefix(bs, rs, k - 1), rs[k - 1]);
    }
}

} // verus!
