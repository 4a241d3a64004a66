//! Per-entity dynamics state and the force-application entry point.
use vstd::prelude::*;
use crate::vector::Vec3i;

verus! {

/// Largest mass a body may have, so that resolution's products stay exact.
pub const MASS_LIMIT: i64 = 65_536;

/// Default linear and angular drag, in thousandths per tick.
pub const DEFAULT_DRAG: i64 = 10;

/// One flag per axis.
#[derive(Clone, Copy, Debug, PartialEq, Eq, Structural)]
pub struct Flags3 {
    pub x: bool,
    pub y: bool,
    pub z: bool,
}

impl Flags3 {
    pub fn new(x: bool, y: bool, z: bool) -> (r: Flags3)
        ensures
            r == (Flags3 { x, y, z }),
    {
        Flags3 { x, y, z }
    }
}

/// Mass, velocity and the per-tick force accumulator of one entity. The
/// angular fields, the drags and the freeze flags are stored and not used by
/// the simulation; drags are in thousandths.
#[derive(Clone, Copy, Debug, PartialEq, Eq, Structural)]
pub struct Rigidbody {
    pub mass: i64,
    pub velocity: Vec3i,
    pub angular_velocity: Vec3i,
    pub drag: i64,
    pub angular_drag: i64,
    pub net_force: Vec3i,
    pub net_angular_force: Vec3i,
    pub freeze_position: Flags3,
    pub freeze_rotation: Flags3,
}

#[derive(Clone, Copy, Debug, PartialEq, Eq, Structural)]
pub enum PhysicsError {
    /// The mass is not positive, or exceeds `MASS_LIMIT`.
    InvalidMass,
    /// A collider coordinate or extent lies beyond `COORD_LIMIT`.
    CoordinateOutOfRange,
    /// A velocity or position would leave the range of `i64`.
    Overflow,
}

/// How `add_force` applies a force.
#[derive(Clone, Copy, Debug, PartialEq, Eq, Structural)]
pub enum ForceType {
    /// Accumulated into `net_force`, to be integrated this tick.
    Continuous,
    /// Sets the velocity outright.
    Impulse,
}

pub open spec fn mass_ok(m: int) -> bool {
    0 < m <= MASS_LIMIT
}

impl Rigidbody {
    /// The mass is positive and within `MASS_LIMIT`.
    pub open spec fn wf(self) -> bool {
        mass_ok(self.mass as int)
    }

    /// What `add_force` leaves of `self`.
    pub open spec fn with_force(self, kind: ForceType, force: Vec3i) -> Rigidbody {
        match kind {
            ForceType::Continuous => Rigidbody { net_force: self.net_force.spec_add(force), ..self },
            ForceType::Impulse => Rigidbody { velocity: force, ..self },
        }
    }

    /// Builds a body, rejecting a mass that is not positive or exceeds
    /// `MASS_LIMIT`.
    pub fn new(
        mass: i64,
        velocity: Vec3i,
        angular_velocity: Vec3i,
        drag: i64,
        angular_drag: i64,
        net_force: Vec3i,
        net_angular_force: Vec3i,
        freeze_position: Flags3,
        freeze_rotation: Flags3,
    ) -> (r: Result<Rigidbody, PhysicsError>)
        ensures
            r is Err <==> !mass_ok(mass as int),
            r is Err ==> r == Err::<Rigidbody, PhysicsError>(PhysicsError::InvalidMass),
            r matches Ok(b) ==> b == (Rigidbody {
                mass,
                velocity,
                angular_velocity,
                drag,
                angular_drag,
                net_force,
                net_angular_force,
                freeze_position,
                freeze_rotation,
            }) && b.wf(),
    {
        if mass <= 0 || mass > MASS_LIMIT {
            return Err(PhysicsError::InvalidMass);
        }
        Ok(
            Rigidbody {
                mass,
                velocity,
                angular_velocity,
                drag,
                angular_drag,
                net_force,
                net_angular_force,
                freeze_position,
                freeze_rotation,
            },
        )
    }

    /// Applies `force`: a continuous force is added to the accumulator, an
    /// impulse replaces the velocity. Position is never touched.
    pub fn add_force(&mut self, force_type: ForceType, force: Vec3i)
        requires
            force_type == ForceType::Continuous ==> old(self).net_force.add_fits(force),
        ensures
            *final(self) == old(self).with_force(force_type, force),
    {
        match force_type {
            ForceType::Continuous => {
                self.net_force = self.net_force.add(force);
            },
            ForceType::Impulse => {
                self.velocity = force;
            },
        }
    }
}

impl Default for Rigidbody {
    /// Unit mass, everything at rest, drags at `DEFAULT_DRAG`.
    fn default() -> (r: Rigidbody)
        ensures
            r == (Rigidbody {
                mass: 1,
                velocity: Vec3i::zero_spec(),
                angular_velocity: Vec3i::zero_spec(),
                drag: DEFAULT_DRAG,
                angular_drag: DEFAULT_DRAG,
                net_force: Vec3i::zero_spec(),
                net_angular_force: Vec3i::zero_spec(),
                freeze_position: Flags3 { x: false, y: false, z: false },
                freeze_rotation: Flags3 { x: false, y: false, z: false },
            }),
            r.wf(),
    {
        Rigidbody {
            mass: 1,
            velocity: Vec3i::zero(),
            angular_velocity: Vec3i::zero(),
            drag: DEFAULT_DRAG,
            angular_drag: DEFAULT_DRAG,
            net_force: Vec3i::zero(),
            net_angular_force: Vec3i::zero(),
            freeze_position: Flags3::new(false, false, false),
            freeze_rotation: Flags3::new(false, false, false),
        }
    }
}

} // verus!
