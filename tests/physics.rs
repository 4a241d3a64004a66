use in_lepus_foraminis::collider::{overlaps, update_collider_center, Collider};
use in_lepus_foraminis::detect::{detect_collisions, Collision};
use in_lepus_foraminis::integrate::simulate_rigidbodies;
use in_lepus_foraminis::resolve::{collision_response, resolve_pair};
use in_lepus_foraminis::rigidbody::{Flags3, ForceType, PhysicsError, Rigidbody, MASS_LIMIT};
use in_lepus_foraminis::vector::{Vec3i, SPEED_LIMIT};

fn v(x: i64, y: i64, z: i64) -> Vec3i {
    Vec3i::new(x, y, z)
}

fn boxed(cx: i64, cy: i64, rx: i64, ry: i64) -> Collider {
    Collider::new(v(cx, cy, 0), v(rx, ry, 0))
}

fn body(mass: i64, vel: Vec3i) -> Rigidbody {
    let mut b = Rigidbody::default();
    b.mass = mass;
    b.velocity = vel;
    b
}

#[test]
fn overlap_is_symmetric_on_samples() {
    let samples = [
        boxed(0, 0, 1, 1),
        boxed(1, 1, 1, 1),
        boxed(2, 0, 1, 1),
        boxed(-3, 5, 4, 2),
        boxed(10, 10, 1, 1),
        boxed(0, 0, 0, 0),
    ];
    for a in samples.iter() {
        for b in samples.iter() {
            assert_eq!(overlaps(a, b), overlaps(b, a));
        }
    }
}

#[test]
fn separated_pairs_produce_no_record() {
    // Separated on x by more than the summed half-extents.
    let cs = vec![Some(boxed(0, 0, 1, 1)), Some(boxed(5, 0, 1, 1))];
    assert!(detect_collisions(&cs).is_empty());
    // Separated on y only.
    let cs = vec![Some(boxed(0, 0, 1, 1)), Some(boxed(0, -7, 1, 1))];
    assert!(detect_collisions(&cs).is_empty());
}

#[test]
fn touching_boxes_do_not_overlap() {
    let a = boxed(0, 0, 1, 1);
    let b = boxed(2, 0, 1, 1);
    assert!(!overlaps(&a, &b));
    let c = boxed(-2, 0, 1, 1);
    assert!(!overlaps(&a, &c));
    let cs = vec![Some(a), Some(b), Some(c)];
    assert!(detect_collisions(&cs).is_empty());
}

#[test]
fn diagonal_neighbours_overlap_with_normal_toward_b() {
    let a = boxed(0, 0, 1, 1);
    let b = boxed(1, 1, 1, 1);
    assert!(overlaps(&a, &b));
    // The scan reports the entity with the larger index as `entity_a`.
    let cs = vec![Some(b), Some(a)];
    let rs = detect_collisions(&cs);
    assert_eq!(rs.len(), 1);
    assert_eq!(rs[0].entity_a, 1);
    assert_eq!(rs[0].entity_b, 0);
    assert_eq!(rs[0].normal, v(1, 1, 0));
    assert_eq!(rs[0].penetration_depth, -3);
}

#[test]
fn detection_reports_each_pair_once_in_scan_order() {
    let cs = vec![
        Some(boxed(0, 0, 2, 2)),
        None,
        Some(boxed(1, 0, 2, 2)),
        Some(boxed(0, 1, 2, 2)),
        Some(boxed(100, 100, 1, 1)),
    ];
    let rs = detect_collisions(&cs);
    let pairs: Vec<(usize, usize)> = rs.iter().map(|r| (r.entity_a, r.entity_b)).collect();
    assert_eq!(pairs, vec![(2, 0), (3, 0), (3, 2)]);
    assert_eq!(rs[0].normal, v(-1, 0, 0));
    // dx = 1, dy = 0, summed extents 4: min(1 - 4, 0 - 4).
    assert_eq!(rs[0].penetration_depth, -4);
    assert_eq!(rs[2].normal, v(1, -1, 0));
}

#[test]
fn coincident_centers_give_zero_normal_and_no_impulse() {
    let cs = vec![Some(boxed(3, 3, 1, 1)), Some(boxed(3, 3, 2, 2))];
    let rs = detect_collisions(&cs);
    assert_eq!(rs.len(), 1);
    assert_eq!(rs[0].normal, v(0, 0, 0));
    let mut bodies = vec![Some(body(1, v(5, 0, 0))), Some(body(2, v(-1, 2, 0)))];
    let before = bodies.clone();
    collision_response(&mut bodies, &rs);
    assert_eq!(bodies, before);
}

#[test]
fn collider_centers_follow_translations() {
    let mut cs = vec![Some(boxed(0, 0, 1, 2)), Some(boxed(4, 4, 3, 3)), None];
    let ts = vec![Some(v(7, -2, 1)), None, Some(v(1, 1, 1))];
    update_collider_center(&mut cs, &ts);
    assert_eq!(cs[0], Some(Collider::new(v(7, -2, 1), v(1, 2, 0))));
    assert_eq!(cs[1], Some(boxed(4, 4, 3, 3)));
    assert_eq!(cs[2], None);
}

#[test]
fn resolution_conserves_momentum_in_one_dimension() {
    let mut a = body(2, v(4, 0, 0));
    let mut b = body(3, v(-1, 0, 0));
    resolve_pair(&mut a, &mut b, v(1, 0, 0));
    assert_eq!(a.velocity, v(-2, 0, 0));
    assert_eq!(b.velocity, v(3, 0, 0));
    assert_eq!(2 * 4 + 3 * -1, 2 * a.velocity.x + 3 * b.velocity.x);
}

#[test]
fn resolution_rounds_each_change_toward_zero() {
    let mut a = body(1, v(1, 0, 0));
    let mut b = body(2, v(0, 0, 0));
    resolve_pair(&mut a, &mut b, v(1, 0, 0));
    // Exact results are -1/3 and 2/3.
    assert_eq!(a.velocity, v(0, 0, 0));
    assert_eq!(b.velocity, v(0, 0, 0));
    let drift = 1 * (a.velocity.x - 1) + 2 * (b.velocity.x - 0);
    assert!(drift.abs() < 1 + 2);
}

#[test]
fn resolution_momentum_stays_within_rounding_on_an_oblique_normal() {
    let (ma, mb) = (3i64, 7i64);
    let va = v(13, -5, 2);
    let vb = v(-8, 9, 0);
    let mut a = body(ma, va);
    let mut b = body(mb, vb);
    resolve_pair(&mut a, &mut b, v(3, 4, 0));
    for (da, db) in [
        (a.velocity.x - va.x, b.velocity.x - vb.x),
        (a.velocity.y - va.y, b.velocity.y - vb.y),
        (a.velocity.z - va.z, b.velocity.z - vb.z),
    ] {
        assert!((ma * da + mb * db).abs() < ma + mb);
    }
    assert_ne!(a.velocity, va);
}

#[test]
fn equal_masses_bounce_back_head_on() {
    let mut a = body(4, v(3, 0, 0));
    let mut b = body(4, v(-3, 0, 0));
    resolve_pair(&mut a, &mut b, v(2, 0, 0));
    assert_eq!(a.velocity, v(-3, 0, 0));
    assert_eq!(b.velocity, v(3, 0, 0));
}

#[test]
fn equal_masses_bounce_back_on_a_diagonal() {
    let mut a = body(1, v(2, 2, 0));
    let mut b = body(1, v(-2, -2, 0));
    resolve_pair(&mut a, &mut b, v(1, 1, 0));
    assert_eq!(a.velocity, v(-2, -2, 0));
    assert_eq!(b.velocity, v(2, 2, 0));
}

#[test]
fn response_skips_records_without_two_bodies() {
    let records = vec![
        Collision { entity_a: 1, entity_b: 0, normal: v(1, 0, 0), penetration_depth: -1 },
        Collision { entity_a: 2, entity_b: 2, normal: v(1, 0, 0), penetration_depth: -1 },
        Collision { entity_a: 9, entity_b: 2, normal: v(1, 0, 0), penetration_depth: -1 },
    ];
    let mut bodies = vec![None, Some(body(1, v(5, 0, 0))), Some(body(1, v(1, 0, 0)))];
    let before = bodies.clone();
    collision_response(&mut bodies, &records);
    assert_eq!(bodies, before);
    assert_eq!(bodies[0], None);
}

#[test]
fn response_applies_records_in_order() {
    let records = vec![
        Collision { entity_a: 0, entity_b: 1, normal: v(1, 0, 0), penetration_depth: -1 },
        Collision { entity_a: 1, entity_b: 2, normal: v(1, 0, 0), penetration_depth: -1 },
    ];
    let mut bodies = vec![
        Some(body(1, v(2, 0, 0))),
        Some(body(1, v(0, 0, 0))),
        Some(body(1, v(0, 0, 0))),
    ];
    collision_response(&mut bodies, &records);
    assert_eq!(bodies[0].unwrap().velocity, v(0, 0, 0));
    assert_eq!(bodies[1].unwrap().velocity, v(0, 0, 0));
    assert_eq!(bodies[2].unwrap().velocity, v(2, 0, 0));
}

#[test]
fn response_skips_velocities_beyond_the_limit() {
    let records = vec![Collision { entity_a: 0, entity_b: 1, normal: v(1, 0, 0), penetration_depth: -1 }];
    let mut bodies = vec![Some(body(1, v(SPEED_LIMIT + 1, 0, 0))), Some(body(1, v(0, 0, 0)))];
    let before = bodies.clone();
    collision_response(&mut bodies, &records);
    assert_eq!(bodies, before);
}

#[test]
fn force_free_tick_moves_by_velocity() {
    let mut bodies = vec![Some(body(2, v(3, -4, 1)))];
    let mut positions = vec![Some(v(10, 10, 0))];
    simulate_rigidbodies(&mut bodies, &mut positions);
    assert_eq!(bodies[0].unwrap().velocity, v(3, -4, 1));
    assert_eq!(positions[0], Some(v(13, 6, 1)));
}

#[test]
fn tick_integrates_force_then_clears_it() {
    let mut b = body(1, v(1, 1, 0));
    b.add_force(ForceType::Continuous, v(2, 0, 0));
    b.add_force(ForceType::Continuous, v(0, 5, 0));
    let mut idle = Rigidbody::default();
    idle.add_force(ForceType::Continuous, v(100, 100, 100));
    let mut bodies = vec![Some(b), Some(idle), None];
    let mut positions = vec![Some(v(0, 0, 0)), None, Some(v(4, 4, 4))];
    simulate_rigidbodies(&mut bodies, &mut positions);
    assert_eq!(bodies[0].unwrap().velocity, v(3, 6, 0));
    assert_eq!(positions[0], Some(v(3, 6, 0)));
    for b in bodies.iter().flatten() {
        assert_eq!(b.net_force, v(0, 0, 0));
    }
    assert_eq!(bodies[1].unwrap().velocity, v(0, 0, 0));
    assert_eq!(positions[2], Some(v(4, 4, 4)));
}

#[test]
fn continuous_force_accumulates_and_impulse_replaces_velocity() {
    let mut b = body(1, v(9, 9, 9));
    b.add_force(ForceType::Continuous, v(1, 2, 3));
    assert_eq!(b.net_force, v(1, 2, 3));
    assert_eq!(b.velocity, v(9, 9, 9));
    b.add_force(ForceType::Impulse, v(-1, 0, 0));
    assert_eq!(b.velocity, v(-1, 0, 0));
    assert_eq!(b.net_force, v(1, 2, 3));
}

#[test]
fn construction_rejects_invalid_mass() {
    let z = v(0, 0, 0);
    let f = Flags3::new(false, false, false);
    for m in [0, -1, MASS_LIMIT + 1] {
        assert_eq!(Rigidbody::new(m, z, z, 10, 10, z, z, f, f), Err(PhysicsError::InvalidMass));
    }
    let ok = Rigidbody::new(5, v(1, 0, 0), z, 10, 10, z, z, f, Flags3::new(true, false, true)).unwrap();
    assert_eq!(ok.mass, 5);
    assert_eq!(ok.velocity, v(1, 0, 0));
    assert!(ok.freeze_rotation.x && !ok.freeze_rotation.y);
    assert!(Rigidbody::new(MASS_LIMIT, z, z, 0, 0, z, z, f, f).is_ok());
}

#[test]
fn default_body_is_unit_mass_at_rest() {
    let b = Rigidbody::default();
    assert_eq!(b.mass, 1);
    assert_eq!(b.velocity, v(0, 0, 0));
    assert_eq!(b.net_force, v(0, 0, 0));
    assert_eq!(b.drag, 10);
    assert_eq!(b.angular_drag, 10);
    assert_eq!(b.freeze_position, Flags3::new(false, false, false));
}
