//! Sprite animation: frame ranges per animation state, frame advance, and
//! the choice of state from a body's velocity.
use vstd::prelude::*;
use crate::vector::Vec3i;

verus! {

/// The first and last sprite index of an animation.
#[derive(Clone, Copy, Debug, PartialEq, Eq, Structural)]
pub struct AnimationIndices {
    pub first: usize,
    pub last: usize,
}

impl AnimationIndices {
    pub fn new(range: (usize, usize)) -> (r: AnimationIndices)
        ensures
            r.first == range.0,
            r.last == range.1,
    {
        AnimationIndices { first: range.0, last: range.1 }
    }
}

/// Which way the character last faced: toward the camera or away from it.
#[derive(Clone, Copy, Debug, PartialEq, Eq, Structural)]
pub struct MostRecentFace {
    pub is_front: bool,
}

#[derive(Clone, Copy, Debug, PartialEq, Eq, Structural)]
pub enum IdleVariant {
    Front,
    Back,
}

#[derive(Clone, Copy, Debug, PartialEq, Eq, Structural)]
pub enum Direction {
    North,
    NorthEast,
    East,
    SouthEast,
    South,
    SouthWest,
    West,
    NorthWest,
}

#[derive(Clone, Copy, Debug, PartialEq, Eq, Structural)]
pub enum AnimationState {
    Idle(IdleVariant),
    Running(Direction),
}

pub const IDLE_FRONT: (usize, usize) = (0, 3);
pub const IDLE_BACK: (usize, usize) = (6, 9);
pub const RUNNING_FRONT_RIGHT: (usize, usize) = (12, 17);
pub const RUNNING_BACK_RIGHT: (usize, usize) = (18, 23);
pub const RUNNING_FRONT: (usize, usize) = (24, 29);
pub const RUNNING_BACK: (usize, usize) = (30, 35);

/// The sprite range of each state. Westward runs reuse the eastward sprites,
/// drawn mirrored.
pub open spec fn range_of(s: AnimationState) -> (usize, usize) {
    match s {
        AnimationState::Idle(IdleVariant::Front) => IDLE_FRONT,
        AnimationState::Idle(IdleVariant::Back) => IDLE_BACK,
        AnimationState::Running(Direction::North) => RUNNING_BACK,
        AnimationState::Running(Direction::NorthEast) => RUNNING_BACK_RIGHT,
        AnimationState::Running(Direction::East) => RUNNING_FRONT_RIGHT,
        AnimationState::Running(Direction::SouthEast) => RUNNING_FRONT_RIGHT,
        AnimationState::Running(Direction::South) => RUNNING_FRONT,
        AnimationState::Running(Direction::SouthWest) => RUNNING_FRONT_RIGHT,
        AnimationState::Running(Direction::West) => RUNNING_FRONT_RIGHT,
        AnimationState::Running(Direction::NorthWest) => RUNNING_BACK_RIGHT,
    }
}

impl AnimationState {
    pub fn get_indices(&self) -> (r: AnimationIndices)
        ensures
            (r.first, r.last) == range_of(*self),
    {
        match self {
            AnimationState::Idle(IdleVariant::Front) => AnimationIndices::new(IDLE_FRONT),
            AnimationState::Idle(IdleVariant::Back) => AnimationIndices::new(IDLE_BACK),
            AnimationState::Running(Direction::North) => AnimationIndices::new(RUNNING_BACK),
            AnimationState::Running(Direction::NorthEast) => AnimationIndices::new(RUNNING_BACK_RIGHT),
            AnimationState::Running(Direction::East) => AnimationIndices::new(RUNNING_FRONT_RIGHT),
            AnimationState::Running(Direction::SouthEast) => AnimationIndices::new(RUNNING_FRONT_RIGHT),
            AnimationState::Running(Direction::South) => AnimationIndices::new(RUNNING_FRONT),
            AnimationState::Running(Direction::SouthWest) => AnimationIndices::new(RUNNING_FRONT_RIGHT),
            AnimationState::Running(Direction::West) => AnimationIndices::new(RUNNING_FRONT_RIGHT),
            AnimationState::Running(Direction::NorthWest) => AnimationIndices::new(RUNNING_BACK_RIGHT),
        }
    }
}

/// The frame shown after a timer tick: unchanged if the timer has not
/// finished; otherwise an index outside `first .. last` restarts at
/// `first`, and then the index advances by one, wrapping from `last` to
/// `first`.
pub open spec fn next_frame(range: (usize, usize), finished: bool, index: usize) -> usize {
    if !finished {
        index
    } else {
        let i = if range.0 <= index && index < range.1 {
            index
        } else {
            range.0
        };
        if i >= range.1 {
            range.0
        } else {
            (i + 1) as usize
        }
    }
}

/// Advances the sprite index of a character in `state` once its frame timer
/// has `finished`.
pub fn animation_handler(state: &AnimationState, finished: bool, index: usize) -> (r: usize)
    ensures
        r == next_frame(range_of(*state), finished, index),
{
    if !finished {
        return index;
    }
    let ind = state.get_indices();
    let mut i = index;
    if !(ind.first <= i && i < ind.last) {
        i = ind.first;
    }
    if i >= ind.last {
        ind.first
    } else {
        i + 1
    }
}

/// What the state handler decides for a character: its animation, the way
/// it faces, and, where it is running, whether its sprite is drawn mirrored
/// (westward) or not.
#[derive(Clone, Copy, Debug, PartialEq, Eq, Structural)]
pub struct AnimationUpdate {
    pub state: AnimationState,
    pub face: MostRecentFace,
    pub mirrored: Option<bool>,
}

/// The running direction of a planar velocity with a nonzero component in
/// the plane, by the signs of its components.
pub open spec fn direction_of(x: int, y: int) -> Option<Direction> {
    if x == 0 && y > 0 {
        Some(Direction::North)
    } else if x > 0 && y > 0 {
        Some(Direction::NorthEast)
    } else if x > 0 && y == 0 {
        Some(Direction::East)
    } else if x > 0 && y < 0 {
        Some(Direction::SouthEast)
    } else if x == 0 && y < 0 {
        Some(Direction::South)
    } else if x < 0 && y < 0 {
        Some(Direction::SouthWest)
    } else if x < 0 && y == 0 {
        Some(Direction::West)
    } else if x < 0 && y > 0 {
        Some(Direction::NorthWest)
    } else {
        None
    }
}

/// Running north, north-east or north-west turns the character away from
/// the camera; every other direction turns it toward the camera.
pub open spec fn faces_front(d: Direction) -> bool {
    !(d == Direction::North || d == Direction::NorthEast || d == Direction::NorthWest)
}

pub open spec fn is_westward(d: Direction) -> bool {
    d == Direction::SouthWest || d == Direction::West || d == Direction::NorthWest
}

/// The update the state handler makes for a given velocity.
pub open spec fn animation_update(v: Vec3i, state: AnimationState, face: MostRecentFace) -> AnimationUpdate {
    if v.x == 0 && v.y == 0 && v.z == 0 {
        AnimationUpdate {
            state: AnimationState::Idle(if face.is_front { IdleVariant::Front } else { IdleVariant::Back }),
            face,
            mirrored: None,
        }
    } else {
        match direction_of(v.x as int, v.y as int) {
            Some(d) => AnimationUpdate {
                state: AnimationState::Running(d),
                face: MostRecentFace { is_front: faces_front(d) },
                mirrored: Some(is_westward(d)),
            },
            None => AnimationUpdate { state, face, mirrored: None },
        }
    }
}

/// Chooses the animation of a character from its velocity: idle, facing as
/// it last did, when at rest; otherwise running in the compass direction of
/// the velocity's signs.
pub fn animation_state_handler(velocity: Vec3i, state: AnimationState, face: MostRecentFace) -> (r:
    AnimationUpdate)
    ensures
        r == animation_update(velocity, state, face),
{
    if velocity.x == 0 && velocity.y == 0 && velocity.z == 0 {
        let idle = if face.is_front {
            IdleVariant::Front
        } else {
            IdleVariant::Back
        };
        return AnimationUpdate { state: AnimationState::Idle(idle), face, mirrored: None };
    }
    let x = velocity.x;
    let y = velocity.y;
    let d = if x == 0 && y > 0 {
        Direction::North
    } else if x > 0 && y > 0 {
        Direction::NorthEast
    } else if x > 0 && y == 0 {
        Direction::East
    } else if x > 0 && y < 0 {
        Direction::SouthEast
    } else if x == 0 && y < 0 {
        Direction::South
    } else if x < 0 && y < 0 {
        Direction::SouthWest
    } else if x < 0 && y == 0 {
        Direction::West
    } else if x < 0 && y > 0 {
        Direction::NorthWest
    } else {
        return AnimationUpdate { state, face, mirrored: None };
    };
    let front = match d {
        Direction::North | Direction::NorthEast | Direction::NorthWest => false,
        _ => true,
    };
    let west = match d {
        Direction::SouthWest | Direction::West | Direction::NorthWest => true,
        _ => false,
    };
    AnimationUpdate {
        state: AnimationState::Running(d),
        face: MostRecentFace { is_front: front },
        mirrored: Some(west),
    }
}

} // verus!
