//! A character's movement speed.
use vstd::prelude::*;

verus! {

/// The speed a character moves at, with the bounds it may range over.
#[derive(Clone, Copy, Debug, PartialEq, Eq, Structural)]
pub struct Speed {
    pub minimum: i64,
    pub current: i64,
    pub maximum: i64,
}

impl Speed {
    pub fn new(minimum: i64, current: i64, maximum: i64) -> (r: Speed)
        ensures
            r == (Speed { minimum, current, maximum }),
    {
        Speed { minimum, current, maximum }
    }
}

} // verus!
