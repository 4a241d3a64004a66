//! Movement input: the held direction keys, and the velocity a character is
//! given from its direction and speed.
use vstd::prelude::*;
use crate::rigidbody::{ForceType, Rigidbody};
use crate::speed::Speed;
use crate::vector::{Vec3i, SPEED_LIMIT};

verus! {

/// The direction the player asks to move in, one sign per planar axis.
#[derive(Clone, Copy, Debug, PartialEq, Eq, Structural)]
pub struct MoveDir {
    pub x: i64,
    pub y: i64,
}

/// The state of one key this frame.
#[derive(Clone, Copy, Debug, PartialEq, Eq, Structural)]
pub struct KeyState {
    pub pressed: bool,
    pub just_released: bool,
}

/// The four movement keys: up (W), left (A), down (S), right (D).
#[derive(Clone, Copy, Debug, PartialEq, Eq, Structural)]
pub struct MovementKeys {
    pub up: KeyState,
    pub left: KeyState,
    pub down: KeyState,
    pub right: KeyState,
}

/// An axis after one key: set to `value` while the key is held, reset to
/// zero when it is released.
pub open spec fn after_key(v: i64, k: KeyState, value: i64) -> i64 {
    if k.just_released {
        0
    } else if k.pressed {
        value
    } else {
        v
    }
}

/// Each axis takes at most the unit values the keys set.
pub open spec fn unit_axis(v: i64) -> bool {
    -1 <= v <= 1
}

impl MoveDir {
    pub open spec fn wf(self) -> bool {
        unit_axis(self.x) && unit_axis(self.y)
    }

    pub fn new() -> (r: MoveDir)
        ensures
            r == (MoveDir { x: 0, y: 0 }),
    {
        MoveDir { x: 0, y: 0 }
    }

    /// The direction as a vector in the plane.
    pub fn get(&self) -> (r: Vec3i)
        ensures
            r == (Vec3i { x: self.x, y: self.y, z: 0 }),
    {
        Vec3i { x: self.x, y: self.y, z: 0 }
    }

    pub fn get_x(&self) -> (r: i64)
        ensures
            r == self.x,
    {
        self.x
    }

    pub fn get_y(&self) -> (r: i64)
        ensures
            r == self.y,
    {
        self.y
    }

    pub fn set_x(&mut self, x: i64)
        ensures
            *final(self) == (MoveDir { x, ..*old(self) }),
    {
        self.x = x;
    }

    pub fn set_y(&mut self, y: i64)
        ensures
            *final(self) == (MoveDir { y, ..*old(self) }),
    {
        self.y = y;
    }
}

impl Default for MoveDir {
    /// No direction.
    fn default() -> (r: MoveDir)
        ensures
            r == (MoveDir { x: 0, y: 0 }),
    {
        MoveDir { x: 0, y: 0 }
    }
}

fn apply_key(v: i64, k: KeyState, value: i64) -> (r: i64)
    ensures
        r == after_key(v, k, value),
{
    let mut r = v;
    if k.pressed {
        r = value;
    }
    if k.just_released {
        r = 0;
    }
    r
}

/// Updates the direction from this frame's keys: W and S set the y axis to
/// `1` and `-1`, A and D the x axis to `-1` and `1`, in that order, and the
/// release of a key resets its axis.
pub fn handle_input(md: &mut MoveDir, keys: MovementKeys)
    ensures
        final(md).y == after_key(after_key(old(md).y, keys.up, 1), keys.down, -1i64),
        final(md).x == after_key(after_key(old(md).x, keys.left, -1i64), keys.right, 1),
        old(md).wf() ==> final(md).wf(),
{
    let y = apply_key(apply_key(md.y, keys.up, 1), keys.down, -1);
    let x = apply_key(apply_key(md.x, keys.left, -1), keys.right, 1);
    md.set_y(y);
    md.set_x(x);
}

/// `h` is `s / sqrt(2)` rounded toward zero: the component of a diagonal
/// unit direction scaled by the speed `s`.
pub open spec fn diagonal_component(s: int, h: int) -> bool {
    &&& (s >= 0 ==> h >= 0) && (s < 0 ==> h <= 0)
    &&& 2 * (h * h) <= s * s
    &&& s * s < 2 * ((if h >= 0 { h + 1 } else { -h + 1 }) * (if h >= 0 { h + 1 } else { -h + 1 }))
}

/// `r` is the direction `d`, scaled to unit length, times the speed `s`:
/// zero for no direction, `s` along a single axis, and `s / sqrt(2)` on
/// each axis of a diagonal.
pub open spec fn is_movement(d: MoveDir, s: int, r: Vec3i) -> bool {
    &&& r.z == 0
    &&& (d.x == 0 && d.y == 0 ==> r.x == 0 && r.y == 0)
    &&& (d.x == 0 && d.y != 0 ==> r.x == 0 && r.y == d.y * s)
    &&& (d.x != 0 && d.y == 0 ==> r.x == d.x * s && r.y == 0)
    &&& (d.x != 0 && d.y != 0 ==> exists|h: int|
        diagonal_component(s, h) && r.x == d.x * h && r.y == d.y * h)
}

/// The largest `r` with `r * r <= n`.
fn floor_sqrt(n: u64) -> (r: u64)
    requires
        n < 0x4000_0000_0000_0000,
    ensures
        r * r <= n < (r + 1) * (r + 1),
{
    let mut lo: u64 = 0;
    let mut hi: u64 = 0x8000_0000;
    assert(hi * hi == 0x4000_0000_0000_0000) by (nonlinear_arith)
        requires
            hi == 0x8000_0000,
    ;
    while hi - lo > 1
        invariant
            lo < hi <= 0x8000_0000,
            lo * lo <= n < hi * hi,
        decreases hi - lo,
    {
        let mid = lo + (hi - lo) / 2;
        assert(mid * mid <= 0x4000_0000_0000_0000) by (nonlinear_arith)
            requires
                mid <= 0x8000_0000,
        ;
        if mid * mid <= n {
            lo = mid;
        } else {
            hi = mid;
        }
    }
    lo
}

/// The velocity of a character moving in direction `dir` at speed `speed`.
pub fn movement_velocity(dir: &MoveDir, speed: i64) -> (r: Vec3i)
    requires
        dir.wf(),
        -SPEED_LIMIT <= speed <= SPEED_LIMIT,
    ensures
        is_movement(*dir, speed as int, r),
{
    if dir.x != 0 && dir.y != 0 {
        let mag: u64 = if speed >= 0 {
            speed as u64
        } else {
            (-speed) as u64
        };
        assert(mag * mag <= 0x1000_0000_0000_0000) by (nonlinear_arith)
            requires
                mag <= 0x4000_0000,
        ;
        let sq: u64 = mag * mag;
        let root = floor_sqrt(sq / 2);
        assert(root <= 0x4000_0000) by (nonlinear_arith)
            requires
                root * root <= sq / 2,
                sq <= 0x1000_0000_0000_0000,
        ;
        let h: i64 = if speed >= 0 {
            root as i64
        } else {
            -(root as i64)
        };
        proof {
            let s = speed as int;
            assert(mag * mag == s * s) by (nonlinear_arith)
                requires
                    mag == s || mag == -s,
            ;
            assert(h * h == root * root) by (nonlinear_arith)
                requires
                    h == root || h == -root,
            ;
            assert(diagonal_component(s, h as int)) by (nonlinear_arith)
                requires
                    s >= 0 ==> h == root,
                    s < 0 ==> h == -root,
                    root >= 0,
                    root * root <= sq / 2,
                    sq / 2 < (root + 1) * (root + 1),
                    sq == s * s,
                    h * h == root * root,
            ;
        }
        let rx = if dir.x > 0 {
            h
        } else {
            -h
        };
        let ry = if dir.y > 0 {
            h
        } else {
            -h
        };
        assert(rx == dir.x * h && ry == dir.y * h) by (nonlinear_arith)
            requires
                dir.x == 1 || dir.x == -1,
                dir.y == 1 || dir.y == -1,
                dir.x > 0 ==> rx == h,
                dir.x < 0 ==> rx == -h,
                dir.y > 0 ==> ry == h,
                dir.y < 0 ==> ry == -h,
        ;
        assert(diagonal_component(speed as int, h as int) && rx == dir.x * h && ry == dir.y * h);
        Vec3i { x: rx, y: ry, z: 0 }
    } else if dir.x != 0 {
        assert(dir.x * speed == if dir.x > 0 { speed as int } else { -speed }) by (nonlinear_arith)
            requires
                dir.x == 1 || dir.x == -1,
        ;
        Vec3i {
            x: if dir.x > 0 {
                speed
            } else {
                -speed
            },
            y: 0,
            z: 0,
        }
    } else if dir.y != 0 {
        assert(dir.y * speed == if dir.y > 0 { speed as int } else { -speed }) by (nonlinear_arith)
            requires
                dir.y == 1 || dir.y == -1,
        ;
        Vec3i {
            x: 0,
            y: if dir.y > 0 {
                speed
            } else {
                -speed
            },
            z: 0,
        }
    } else {
        Vec3i { x: 0, y: 0, z: 0 }
    }
}

/// Sets the player's velocity outright, as an impulse, to its direction
/// scaled to unit length times its current speed.
pub fn move_player(rigidbody: &mut Rigidbody, move_dir: &MoveDir, speed: &Speed)
    requires
        move_dir.wf(),
        -SPEED_LIMIT <= speed.current <= SPEED_LIMIT,
    ensures
        exists|v: Vec3i|
            is_movement(*move_dir, speed.current as int, v) && *final(rigidbody) == old(
                rigidbody,
            ).with_force(ForceType::Impulse, v),
{
    let v = movement_velocity(move_dir, speed.current);
    rigidbody.add_force(ForceType::Impulse, v);
}

} // verus!
