//! Physics core of a small top-down 2D game: axis-aligned colliders, an
//! all-pairs overlap detector, rigid-body integration and impulse-based
//! collision resolution, on integer (fixed-point) vectors.
pub mod animation;
pub mod arith;
pub mod store;
pub mod vector;
pub mod velocity;
pub mod collider;
pub mod detect;
pub mod rigidbody;
pub mod speed;
pub mod input;
pub mod integrate;
pub mod resolve;
pub mod laws;
pub mod tick;
