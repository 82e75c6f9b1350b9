//! Input-driven control of a free-flying scene camera.
//!
//! The crate holds the decisions of one frame of an interactive 3D scene:
//! the play/pause state machine and the cursor capture that goes with it,
//! the selection of the one entity that receives movement keys, the
//! translation that held keys produce, and the rotations that pointer motion
//! produces. Everything is stated over integers, so that every function has an
//! exact contract: lengths are in millionths of a distance unit, time is in
//! microseconds, and angles are in ten-thousandths of a degree.

pub mod cursor;
pub mod frame;
pub mod look;
pub mod mode;
pub mod movement;
pub mod selector;
