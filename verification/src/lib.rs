//! The decision logic of a small keyboard-driven 3D viewer.
//!
//! The viewer itself owns a window, a GPU surface and the floating-point
//! camera math. What it decides from one frame to the next is kept here, over
//! plain values, with each function's behaviour stated in its contract:
//!
//! * [`input`]: keyboard and window events, reduced to what the viewer reads;
//! * [`camera`]: which movement keys are held and what they ask of the camera;
//! * [`frame`]: what the event loop does with an event, whether a frame is
//!   drawn, and how a failed frame is recovered from;
//! * [`mesh`]: the index list of the demo mesh and its image in a GPU buffer.

pub mod camera;
pub mod frame;
pub mod input;
pub mod mesh;
