use in_lepus_foraminis::animation::{
    animation_handler, animation_state_handler, AnimationIndices, AnimationState, Direction,
    IdleVariant, MostRecentFace,
};
use in_lepus_foraminis::input::{handle_input, move_player, movement_velocity, KeyState, MoveDir, MovementKeys};
use in_lepus_foraminis::rigidbody::Rigidbody;
use in_lepus_foraminis::speed::Speed;
use in_lepus_foraminis::vector::Vec3i;
use in_lepus_foraminis::velocity::{handle_velocity, Velocity};

fn v(x: i64, y: i64, z: i64) -> Vec3i {
    Vec3i::new(x, y, z)
}

const UP: KeyState = KeyState { pressed: false, just_released: false };

fn keys(up: KeyState, left: KeyState, down: KeyState, right: KeyState) -> MovementKeys {
    MovementKeys { up, left, down, right }
}

const HELD: KeyState = KeyState { pressed: true, just_released: false };
const RELEASED: KeyState = KeyState { pressed: false, just_released: true };

#[test]
fn indices_of_each_state() {
    let cases = [
        (AnimationState::Idle(IdleVariant::Front), (0, 3)),
        (AnimationState::Idle(IdleVariant::Back), (6, 9)),
        (AnimationState::Running(Direction::North), (30, 35)),
        (AnimationState::Running(Direction::NorthEast), (18, 23)),
        (AnimationState::Running(Direction::East), (12, 17)),
        (AnimationState::Running(Direction::SouthEast), (12, 17)),
        (AnimationState::Running(Direction::South), (24, 29)),
        (AnimationState::Running(Direction::SouthWest), (12, 17)),
        (AnimationState::Running(Direction::West), (12, 17)),
        (AnimationState::Running(Direction::NorthWest), (18, 23)),
    ];
    for (s, (first, last)) in cases {
        let ind = s.get_indices();
        assert_eq!((ind.first, ind.last), (first, last));
    }
    assert_eq!(AnimationIndices::new((4, 8)), AnimationIndices { first: 4, last: 8 });
}

#[test]
fn frames_advance_wrap_and_restart() {
    let s = AnimationState::Idle(IdleVariant::Back);
    assert_eq!(animation_handler(&s, false, 7), 7);
    assert_eq!(animation_handler(&s, true, 6), 7);
    assert_eq!(animation_handler(&s, true, 8), 9);
    // The last frame lies outside `first .. last`: the range restarts.
    assert_eq!(animation_handler(&s, true, 9), 7);
    assert_eq!(animation_handler(&s, true, 30), 7);
    let one = AnimationState::Running(Direction::South);
    assert_eq!(animation_handler(&one, true, 0), 25);
}

#[test]
fn state_follows_velocity_direction() {
    let front = MostRecentFace { is_front: true };
    let idle = AnimationState::Idle(IdleVariant::Front);
    let cases = [
        (v(0, 3, 0), Direction::North, false, false),
        (v(2, 3, 0), Direction::NorthEast, false, false),
        (v(2, 0, 0), Direction::East, true, false),
        (v(2, -1, 0), Direction::SouthEast, true, false),
        (v(0, -1, 0), Direction::South, true, false),
        (v(-2, -1, 0), Direction::SouthWest, true, true),
        (v(-2, 0, 0), Direction::West, true, true),
        (v(-2, 5, 0), Direction::NorthWest, false, true),
    ];
    for (vel, d, is_front, mirrored) in cases {
        let u = animation_state_handler(vel, idle, front);
        assert_eq!(u.state, AnimationState::Running(d));
        assert_eq!(u.face.is_front, is_front);
        assert_eq!(u.mirrored, Some(mirrored));
    }
}

#[test]
fn at_rest_the_character_idles_as_it_last_faced() {
    let running = AnimationState::Running(Direction::North);
    let back = MostRecentFace { is_front: false };
    let u = animation_state_handler(v(0, 0, 0), running, back);
    assert_eq!(u.state, AnimationState::Idle(IdleVariant::Back));
    assert_eq!(u.face, back);
    assert_eq!(u.mirrored, None);
    let u = animation_state_handler(v(0, 0, 0), running, MostRecentFace { is_front: true });
    assert_eq!(u.state, AnimationState::Idle(IdleVariant::Front));
    // Motion along z alone leaves everything as it was.
    let u = animation_state_handler(v(0, 0, 4), running, back);
    assert_eq!(u.state, running);
    assert_eq!(u.face, back);
    assert_eq!(u.mirrored, None);
}

#[test]
fn keys_set_and_release_axes() {
    let mut md = MoveDir::new();
    handle_input(&mut md, keys(HELD, UP, UP, HELD));
    assert_eq!(md.get(), v(1, 1, 0));
    handle_input(&mut md, keys(RELEASED, UP, UP, UP));
    assert_eq!((md.get_x(), md.get_y()), (1, 0));
    handle_input(&mut md, keys(UP, HELD, HELD, RELEASED));
    assert_eq!((md.get_x(), md.get_y()), (0, -1));
    // With both keys of an axis held the later one (S, D) wins.
    handle_input(&mut md, keys(HELD, HELD, HELD, HELD));
    assert_eq!((md.get_x(), md.get_y()), (1, -1));
    md.set_x(-1);
    md.set_y(0);
    assert_eq!(md.get(), v(-1, 0, 0));
}

#[test]
fn movement_scales_direction_to_speed() {
    assert_eq!(movement_velocity(&MoveDir { x: 0, y: 0 }, 10), v(0, 0, 0));
    assert_eq!(movement_velocity(&MoveDir { x: -1, y: 0 }, 10), v(-10, 0, 0));
    assert_eq!(movement_velocity(&MoveDir { x: 0, y: 1 }, 10), v(0, 10, 0));
    // 10 / sqrt(2) = 7.07..., 128 / sqrt(2) = 90.5...
    assert_eq!(movement_velocity(&MoveDir { x: 1, y: -1 }, 10), v(7, -7, 0));
    assert_eq!(movement_velocity(&MoveDir { x: -1, y: 1 }, 128), v(-90, 90, 0));
    assert_eq!(movement_velocity(&MoveDir { x: 1, y: 1 }, -10), v(-7, -7, 0));
}

#[test]
fn player_movement_replaces_velocity() {
    let mut b = Rigidbody::default();
    b.velocity = v(50, 50, 50);
    b.net_force = v(1, 1, 1);
    let speed = Speed::new(0, 3, 128);
    move_player(&mut b, &MoveDir { x: 0, y: -1 }, &speed);
    assert_eq!(b.velocity, v(0, -3, 0));
    assert_eq!(b.net_force, v(1, 1, 1));
    assert_eq!((speed.minimum, speed.current, speed.maximum), (0, 3, 128));
}

#[test]
fn plain_velocity_moves_positions() {
    let vels = vec![Some(Velocity(v(1, 2, 3))), None, Some(Velocity(v(5, 5, 5)))];
    let mut ps = vec![Some(v(0, 0, 0)), Some(v(1, 1, 1)), None, Some(v(2, 2, 2))];
    handle_velocity(&vels, &mut ps);
    assert_eq!(ps, vec![Some(v(1, 2, 3)), Some(v(1, 1, 1)), None, Some(v(2, 2, 2))]);
}

#[test]
fn defaults_are_at_rest() {
    assert_eq!(MoveDir::default(), MoveDir { x: 0, y: 0 });
    assert_eq!(Velocity::default(), Velocity(v(0, 0, 0)));
}
