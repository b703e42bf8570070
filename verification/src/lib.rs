//! A minimal real-time rendering scaffold, as a verified decision core.
//!
//! The crate decides; its caller performs. Every operation takes the plain
//! facts that the window system and the GPU driver reported and answers with
//! the next state and the list of commands to carry out, in order. No
//! function here touches a device, a window or a clock.

pub mod command;
pub mod context;
pub mod dispatch;
pub mod format;
pub mod frame;
pub mod geometry;
pub mod pipeline;
pub mod state;
pub mod surface;
