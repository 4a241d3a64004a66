use in_lepus_foraminis::collider::Collider;
use in_lepus_foraminis::rigidbody::{ForceType, PhysicsError, Rigidbody};
use in_lepus_foraminis::tick::physics_tick;
use in_lepus_foraminis::vector::{Vec3i, COORD_LIMIT};

fn v(x: i64, y: i64, z: i64) -> Vec3i {
    Vec3i::new(x, y, z)
}

fn moving(vel: Vec3i) -> Rigidbody {
    let mut b = Rigidbody::default();
    b.velocity = vel;
    b
}

#[test]
fn tick_detects_integrates_and_bounces() {
    let mut cs = vec![Some(Collider::new(v(9, 9, 9), v(2, 2, 0))), Some(Collider::new(v(0, 0, 0), v(2, 2, 0)))];
    let mut bs = vec![Some(moving(v(1, 0, 0))), Some(moving(v(-1, 0, 0)))];
    let mut ps = vec![Some(v(0, 0, 0)), Some(v(3, 0, 0))];
    let recs = physics_tick(&mut cs, &mut bs, &mut ps).unwrap();
    assert_eq!(cs[0].unwrap().center, v(0, 0, 0));
    assert_eq!(cs[1].unwrap().center, v(3, 0, 0));
    assert_eq!(recs.len(), 1);
    assert_eq!((recs[0].entity_a, recs[0].entity_b), (1, 0));
    assert_eq!(recs[0].normal, v(-3, 0, 0));
    assert_eq!(recs[0].penetration_depth, -4);
    assert_eq!(ps, vec![Some(v(1, 0, 0)), Some(v(2, 0, 0))]);
    assert_eq!(bs[0].unwrap().velocity, v(-1, 0, 0));
    assert_eq!(bs[1].unwrap().velocity, v(1, 0, 0));
}

#[test]
fn tick_clears_accumulators_before_the_next_force_phase() {
    let mut cs: Vec<Option<Collider>> = vec![None, None];
    let mut a = moving(v(0, 0, 0));
    a.add_force(ForceType::Continuous, v(5, 5, 5));
    a.add_force(ForceType::Continuous, v(7, 0, 0));
    let mut b = moving(v(0, 0, 0));
    b.add_force(ForceType::Continuous, v(1, 2, 3));
    let mut bs = vec![Some(a), Some(b)];
    let mut ps = vec![Some(v(0, 0, 0)), None];
    physics_tick(&mut cs, &mut bs, &mut ps).unwrap();
    assert_eq!(bs[0].unwrap().velocity, v(12, 5, 5));
    assert_eq!(ps[0], Some(v(12, 5, 5)));
    for b in bs.iter().flatten() {
        assert_eq!(b.net_force, v(0, 0, 0));
    }
}

#[test]
fn tick_rejects_colliders_beyond_the_limit() {
    let mut cs = vec![Some(Collider::new(v(0, 0, 0), v(1, 1, 0)))];
    let mut bs = vec![Some(moving(v(1, 0, 0)))];
    let mut ps = vec![Some(v(COORD_LIMIT + 1, 0, 0))];
    let before = (bs.clone(), ps.clone());
    assert_eq!(physics_tick(&mut cs, &mut bs, &mut ps), Err(PhysicsError::CoordinateOutOfRange));
    assert_eq!((bs, ps), before);
    assert_eq!(cs[0].unwrap().center, v(COORD_LIMIT + 1, 0, 0));
}

#[test]
fn tick_rejects_an_invalid_mass() {
    let mut cs: Vec<Option<Collider>> = vec![None];
    let mut b = moving(v(1, 0, 0));
    b.mass = 0;
    let mut bs = vec![Some(b)];
    let mut ps = vec![Some(v(0, 0, 0))];
    assert_eq!(physics_tick(&mut cs, &mut bs, &mut ps), Err(PhysicsError::InvalidMass));
    assert_eq!(ps, vec![Some(v(0, 0, 0))]);
}

#[test]
fn tick_rejects_an_overflowing_step() {
    let mut cs: Vec<Option<Collider>> = vec![None];
    let mut bs = vec![Some(moving(v(i64::MAX, 0, 0)))];
    let mut ps = vec![Some(v(1, 0, 0))];
    assert_eq!(physics_tick(&mut cs, &mut bs, &mut ps), Err(PhysicsError::Overflow));
    assert_eq!(bs[0].unwrap().velocity, v(i64::MAX, 0, 0));
}
