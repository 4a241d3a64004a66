//! Impulse-based resolution of the collisions found in a tick.
use vstd::prelude::*;
use vstd::arithmetic::mul::{lemma_mul_is_associative, lemma_mul_is_distributive_add_other_way};
use crate::arith::{lemma_mul_within, lemma_trunc_div_bound};
use crate::detect::Collision;
use crate::rigidbody::Rigidbody;
use crate::vector::{trunc_div, Vec3i, SPEED_LIMIT};

verus! {

/// Coefficient of restitution: collisions are perfectly elastic.
pub const RESTITUTION: i64 = 1;

/// Largest magnitude of a normal component that resolution accepts: twice
/// the coordinate limit, as for the difference of two collider centers.
pub const NORMAL_LIMIT: i64 = 2_147_483_648;

/// `-(1 + e) * (va - vb) . n`, the closing speed along the unscaled normal.
pub open spec fn closing_speed(va: Vec3i, vb: Vec3i, n: Vec3i) -> int {
    -(1 + RESTITUTION) * ((va.x - vb.x) * n.x + (va.y - vb.y) * n.y + (va.z - vb.z) * n.z)
}

pub open spec fn norm_sq(n: Vec3i) -> int {
    n.x * n.x + n.y * n.y + n.z * n.z
}

/// `|n|^2 * (ma + mb)`: the impulse divided by `1/ma + 1/mb`, expressed
/// along the unscaled normal, has this denominator.
pub open spec fn denominator(a: Rigidbody, b: Rigidbody, n: Vec3i) -> int {
    norm_sq(n) * (a.mass + b.mass)
}

/// The change of one side's velocity component: the impulse divided by that
/// side's mass, along component `nk` of the normal, i.e.
/// `closing * m_other * nk / (|n|^2 * (ma + mb))`, rounded toward zero; zero
/// for a zero normal.
pub open spec fn share(a: Rigidbody, b: Rigidbody, n: Vec3i, m_other: int, nk: int) -> int {
    let den = denominator(a, b, n);
    if norm_sq(n) == 0 {
        0
    } else {
        trunc_div(closing_speed(a.velocity, b.velocity, n) * m_other * nk, den)
    }
}

/// Body `a` after resolution: its velocity gains the impulse over its mass.
pub open spec fn resolved_a(a: Rigidbody, b: Rigidbody, n: Vec3i) -> Rigidbody {
    Rigidbody {
        velocity: Vec3i {
            x: (a.velocity.x + share(a, b, n, b.mass as int, n.x as int)) as i64,
            y: (a.velocity.y + share(a, b, n, b.mass as int, n.y as int)) as i64,
            z: (a.velocity.z + share(a, b, n, b.mass as int, n.z as int)) as i64,
        },
        ..a
    }
}

/// Body `b` after resolution: its velocity loses the impulse over its mass.
pub open spec fn resolved_b(a: Rigidbody, b: Rigidbody, n: Vec3i) -> Rigidbody {
    Rigidbody {
        velocity: Vec3i {
            x: (b.velocity.x - share(a, b, n, a.mass as int, n.x as int)) as i64,
            y: (b.velocity.y - share(a, b, n, a.mass as int, n.y as int)) as i64,
            z: (b.velocity.z - share(a, b, n, a.mass as int, n.z as int)) as i64,
        },
        ..b
    }
}

/// Velocities and normal lie within the limits under which resolution is
/// computed exactly.
pub open spec fn resolvable(a: Rigidbody, b: Rigidbody, n: Vec3i) -> bool {
    a.velocity.bounded(SPEED_LIMIT as int) && b.velocity.bounded(SPEED_LIMIT as int)
        && n.bounded(NORMAL_LIMIT as int)
}

/// `|ni * nk| <= |n|^2`.
proof fn lemma_cross_term(ni: int, nk: int, s: int)
    requires
        s >= ni * ni,
        s >= nk * nk,
    ensures
        -s <= ni * nk <= s,
{
    if ni * ni <= nk * nk {
        assert(-s <= ni * nk <= s) by (nonlinear_arith)
            requires
                s >= nk * nk,
                ni * ni <= nk * nk,
        ;
    } else {
        assert(-s <= ni * nk <= s) by (nonlinear_arith)
            requires
                s >= ni * ni,
                nk * nk <= ni * ni,
        ;
    }
}

proof fn lemma_distribute3(rx: int, ry: int, rz: int, nx: int, ny: int, nz: int, k: int)
    ensures
        (rx * nx + ry * ny + rz * nz) * k == rx * (nx * k) + ry * (ny * k) + rz * (nz * k),
{
    lemma_mul_is_distributive_add_other_way(k, rx * nx + ry * ny, rz * nz);
    lemma_mul_is_distributive_add_other_way(k, rx * nx, ry * ny);
    lemma_mul_is_associative(rx, nx, k);
    lemma_mul_is_associative(ry, ny, k);
    lemma_mul_is_associative(rz, nz, k);
}

/// The numerator of a share is within `6 * v` denominators, where `v`
/// bounds the relative velocity; hence the share is within `6 * v`.
proof fn lemma_share_bound(a: Rigidbody, b: Rigidbody, n: Vec3i, m_other: int, nk: int)
    requires
        a.wf(),
        b.wf(),
        m_other == a.mass || m_other == b.mass,
        nk == n.x || nk == n.y || nk == n.z,
        resolvable(a, b, n),
    ensures
        -6 * 2_147_483_648 <= share(a, b, n, m_other, nk) <= 6 * 2_147_483_648,
{
    let v: int = 2_147_483_648;
    let s = norm_sq(n);
    if s != 0 {
        let rx = a.velocity.x - b.velocity.x;
        let ry = a.velocity.y - b.velocity.y;
        let rz = a.velocity.z - b.velocity.z;
        assert(n.x * n.x >= 0 && n.y * n.y >= 0 && n.z * n.z >= 0) by (nonlinear_arith);
        lemma_cross_term(n.x as int, nk, s);
        lemma_cross_term(n.y as int, nk, s);
        lemma_cross_term(n.z as int, nk, s);
        lemma_mul_within(rx, n.x * nk, v, s);
        lemma_mul_within(ry, n.y * nk, v, s);
        lemma_mul_within(rz, n.z * nk, v, s);
        let dot = rx * n.x + ry * n.y + rz * n.z;
        lemma_distribute3(rx, ry, rz, n.x as int, n.y as int, n.z as int, nk);
        let msum = a.mass + b.mass;
        let num = closing_speed(a.velocity, b.velocity, n) * m_other * nk;
        assert(num == -2 * m_other * (dot * nk)) by (nonlinear_arith)
            requires
                num == (-2 * dot) * m_other * nk,
        ;
        assert(-(6 * v * (s * msum)) <= num <= 6 * v * (s * msum)) by (nonlinear_arith)
            requires
                num == -2 * m_other * (dot * nk),
                -(3 * (v * s)) <= dot * nk <= 3 * (v * s),
                0 < m_other <= msum,
                s > 0,
                v > 0,
        ;
        assert(s > 0) by (nonlinear_arith)
            requires
                s == n.x * n.x + n.y * n.y + n.z * n.z,
                s != 0,
        ;
        assert(s * msum > 0) by (nonlinear_arith)
            requires
                s > 0,
                msum > 0,
        ;
        lemma_trunc_div_bound(num, s * msum, 6 * v);
    }
}

/// Each velocity change of a resolvable pair keeps the velocity within `i64`.
pub proof fn lemma_shares_fit(a: Rigidbody, b: Rigidbody, n: Vec3i)
    requires
        a.wf(),
        b.wf(),
        resolvable(a, b, n),
    ensures
        resolved_a(a, b, n).velocity.x == a.velocity.x + share(a, b, n, b.mass as int, n.x as int),
        resolved_a(a, b, n).velocity.y == a.velocity.y + share(a, b, n, b.mass as int, n.y as int),
        resolved_a(a, b, n).velocity.z == a.velocity.z + share(a, b, n, b.mass as int, n.z as int),
        resolved_b(a, b, n).velocity.x == b.velocity.x - share(a, b, n, a.mass as int, n.x as int),
        resolved_b(a, b, n).velocity.y == b.velocity.y - share(a, b, n, a.mass as int, n.y as int),
        resolved_b(a, b, n).velocity.z == b.velocity.z - share(a, b, n, a.mass as int, n.z as int),
{
    lemma_share_bound(a, b, n, b.mass as int, n.x as int);
    lemma_share_bound(a, b, n, b.mass as int, n.y as int);
    lemma_share_bound(a, b, n, b.mass as int, n.z as int);
    lemma_share_bound(a, b, n, a.mass as int, n.x as int);
    lemma_share_bound(a, b, n, a.mass as int, n.y as int);
    lemma_share_bound(a, b, n, a.mass as int, n.z as int);
}

/// `n / d` rounded toward zero.
fn div_toward_zero(n: i128, d: i128) -> (r: i128)
    requires
        d > 0,
        n > i128::MIN,
    ensures
        r == trunc_div(n as int, d as int),
{
    if n >= 0 {
        n / d
    } else {
        -((-n) / d)
    }
}

/// `c * m * nk / den`, rounded toward zero.
fn scaled_share(c: i128, m: i64, nk: i64, den: i128) -> (r: i128)
    requires
        -6 * 0x4000_0000_0000_0000 <= c <= 6 * 0x4000_0000_0000_0000,
        0 < m <= 65_536,
        -2_147_483_648 <= nk <= 2_147_483_648,
        den > 0,
    ensures
        r == trunc_div(c * m * nk, den as int),
{
    proof {
        lemma_mul_within(c as int, m as int, (6 * 0x4000_0000_0000_0000) as int, 65_536);
        lemma_mul_within(c * m, nk as int, (6 * 0x4000_0000_0000_0000 * 65_536) as int, 2_147_483_648);
    }
    let cm: i128 = c * (m as i128);
    div_toward_zero(cm * (nk as i128), den)
}

/// Applies the elastic impulse of one collision to its two bodies:
/// `va += j / ma * n` and `vb -= j / mb * n`, with `j` the closing speed
/// along the normal divided by `1/ma + 1/mb`. A zero normal changes nothing.
pub fn resolve_pair(a: &mut Rigidbody, b: &mut Rigidbody, normal: Vec3i)
    requires
        old(a).wf(),
        old(b).wf(),
        resolvable(*old(a), *old(b), normal),
    ensures
        *final(a) == resolved_a(*old(a), *old(b), normal),
        *final(b) == resolved_b(*old(a), *old(b), normal),
{
    let ghost a0 = *a;
    let ghost b0 = *b;
    let v: i128 = 2_147_483_648;
    let rx: i128 = a.velocity.x as i128 - b.velocity.x as i128;
    let ry: i128 = a.velocity.y as i128 - b.velocity.y as i128;
    let rz: i128 = a.velocity.z as i128 - b.velocity.z as i128;
    let nx: i128 = normal.x as i128;
    let ny: i128 = normal.y as i128;
    let nz: i128 = normal.z as i128;
    proof {
        lemma_mul_within(rx as int, nx as int, v as int, v as int);
        lemma_mul_within(ry as int, ny as int, v as int, v as int);
        lemma_mul_within(rz as int, nz as int, v as int, v as int);
        lemma_mul_within(nx as int, nx as int, v as int, v as int);
        lemma_mul_within(ny as int, ny as int, v as int, v as int);
        lemma_mul_within(nz as int, nz as int, v as int, v as int);
        assert(nx * nx >= 0 && ny * ny >= 0 && nz * nz >= 0) by (nonlinear_arith);
    }
    let dot: i128 = rx * nx + ry * ny + rz * nz;
    assert(-(1 + RESTITUTION) * dot == -2 * dot);
    let c: i128 = -(1 + RESTITUTION as i128) * dot;
    let nsq: i128 = nx * nx + ny * ny + nz * nz;
    assert(c == closing_speed(a0.velocity, b0.velocity, normal));
    assert(nsq == norm_sq(normal));
    if nsq == 0 {
        return;
    }
    let msum: i128 = a.mass as i128 + b.mass as i128;
    proof {
        lemma_mul_within(nsq as int, msum as int, (3 * 0x4000_0000_0000_0000) as int, 131_072);
        assert(nsq * msum > 0) by (nonlinear_arith)
            requires
                nsq > 0,
                msum > 0,
        ;
    }
    let den: i128 = nsq * msum;
    assert(den == denominator(a0, b0, normal));
    let dax = scaled_share(c, b.mass, normal.x, den);
    let day = scaled_share(c, b.mass, normal.y, den);
    let daz = scaled_share(c, b.mass, normal.z, den);
    let dbx = scaled_share(c, a.mass, normal.x, den);
    let dby = scaled_share(c, a.mass, normal.y, den);
    let dbz = scaled_share(c, a.mass, normal.z, den);
    proof {
        lemma_share_bound(a0, b0, normal, b0.mass as int, normal.x as int);
        lemma_share_bound(a0, b0, normal, b0.mass as int, normal.y as int);
        lemma_share_bound(a0, b0, normal, b0.mass as int, normal.z as int);
        lemma_share_bound(a0, b0, normal, a0.mass as int, normal.x as int);
        lemma_share_bound(a0, b0, normal, a0.mass as int, normal.y as int);
        lemma_share_bound(a0, b0, normal, a0.mass as int, normal.z as int);
    }
    a.velocity = Vec3i {
        x: a.velocity.x + dax as i64,
        y: a.velocity.y + day as i64,
        z: a.velocity.z + daz as i64,
    };
    b.velocity = Vec3i {
        x: b.velocity.x - dbx as i64,
        y: b.velocity.y - dby as i64,
        z: b.velocity.z - dbz as i64,
    };
}

/// Every body of the store has a valid mass.
pub open spec fn all_bodies_wf(bs: Seq<Option<Rigidbody>>) -> bool {
    forall|i: int| 0 <= i < bs.len() && (#[trigger] bs[i]) is Some ==> bs[i]->0.wf()
}

/// The store after resolving one record. A record is skipped where its two
/// entities coincide, where either has no body, or where the values lie
/// beyond the limits of exact resolution.
pub open spec fn resolve_one(bs: Seq<Option<Rigidbody>>, r: Collision) -> Seq<Option<Rigidbody>> {
    let i = r.entity_a as int;
    let j = r.entity_b as int;
    if i != j && i < bs.len() && j < bs.len() && bs[i] is Some && bs[j] is Some && resolvable(
        bs[i]->0,
        bs[j]->0,
        r.normal,
    ) {
        let a = bs[i]->0;
        let b = bs[j]->0;
        bs.update(i, Some(resolved_a(a, b, r.normal))).update(j, Some(resolved_b(a, b, r.normal)))
    } else {
        bs
    }
}

/// The store after resolving the first `k` records, in order.
pub open spec fn resolve_prefix(bs: Seq<Option<Rigidbody>>, rs: Seq<Collision>, k: int) -> Seq<
    Option<Rigidbody>,
>
    decreases k,
{
    if k <= 0 {
        bs
    } else {
        resolve_one(resolve_prefix(bs, rs, k - 1), rs[k - 1])
    }
}

/// The store after resolving every record, in order.
pub open spec fn resolve_all(bs: Seq<Option<Rigidbody>>, rs: Seq<Collision>) -> Seq<
    Option<Rigidbody>,
> {
    resolve_prefix(bs, rs, rs.len() as int)
}

/// Resolving a record keeps the length, every mass (hence validity) and
/// every force accumulator.
pub proof fn lemma_resolve_one_keeps_masses(bs: Seq<Option<Rigidbody>>, r: Collision)
    ensures
        forall|i: int|
            0 <= i < bs.len() && bs[i] is Some ==> (#[trigger] resolve_one(bs, r)[i])->0.net_force
                == bs[i]->0.net_force,
        resolve_one(bs, r).len() == bs.len(),
        forall|i: int|
            0 <= i < bs.len() ==> (#[trigger] resolve_one(bs, r)[i] is Some) == (bs[i] is Some),
        forall|i: int|
            0 <= i < bs.len() && bs[i] is Some ==> (#[trigger] resolve_one(bs, r)[i])->0.mass
                == bs[i]->0.mass,
{
}

/// Applies each record's impulse in order, each to the bodies as the
/// previous records left them. Entities are indices into `bodies`.
pub fn collision_response(bodies: &mut Vec<Option<Rigidbody>>, records: &Vec<Collision>)
    requires
        all_bodies_wf(old(bodies)@),
    ensures
        final(bodies)@ == resolve_all(old(bodies)@, records@),
        all_bodies_wf(final(bodies)@),
{
    let ghost bs = bodies@;
    let n = records.len();
    let mut k: usize = 0;
    while k < n
        invariant
            n == records@.len(),
            0 <= k <= n,
            bodies@ == resolve_prefix(bs, records@, k as int),
            all_bodies_wf(bodies@),
        decreases n - k,
    {
        let ghost before = bodies@;
        let rec = records[k];
        let i = rec.entity_a;
        let j = rec.entity_b;
        if i != j && i < bodies.len() && j < bodies.len() {
            if let Some(a0) = bodies[i] {
                if let Some(b0) = bodies[j] {
                    if in_speed_limit(a0.velocity) && in_speed_limit(b0.velocity)
                        && in_normal_limit(rec.normal) {
                        let mut a = a0;
                        let mut b = b0;
                        resolve_pair(&mut a, &mut b, rec.normal);
                        bodies[i] = Some(a);
                        bodies[j] = Some(b);
                    }
                }
            }
        }
        proof {
            lemma_resolve_one_keeps_masses(before, records@[k as int]);
        }
        assert(bodies@ =~= resolve_one(before, records@[k as int]));
        k += 1;
    }
}

fn in_speed_limit(v: Vec3i) -> (r: bool)
    ensures
        r == v.bounded(SPEED_LIMIT as int),
{
    -SPEED_LIMIT <= v.x && v.x <= SPEED_LIMIT && -SPEED_LIMIT <= v.y && v.y <= SPEED_LIMIT
        && -SPEED_LIMIT <= v.z && v.z <= SPEED_LIMIT
}

fn in_normal_limit(v: Vec3i) -> (r: bool)
    ensures
        r == v.bounded(NORMAL_LIMIT as int),
{
    -NORMAL_LIMIT <= v.x && v.x <= NORMAL_LIMIT && -NORMAL_LIMIT <= v.y && v.y <= NORMAL_LIMIT
        && -NORMAL_LIMIT <= v.z && v.z <= NORMAL_LIMIT
}

} // verus!
