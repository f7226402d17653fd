//! Control state, frame geometry and tick planning for a free rigid-body viewer.
//!
//! The crate holds the parts of the viewer that can be stated exactly: which key
//! does what, which camera moves a tick performs and in which order, which
//! vertices a frame is made of and how they are laid out in a buffer. Scalars are
//! opaque to it: geometry is emitted for any copyable scalar type, and the
//! arithmetic on positions and rotations is left to the caller.

pub mod arrow;
pub mod camera;
pub mod cuboid;
pub mod geometry;
pub mod keys;
pub mod render;
pub mod startup;
pub mod state;
