//! A wireframe plotter's core: pixel buffers, decoding of window events, and
//! the interaction state machine that turns those events into camera updates.

pub mod image;
pub mod laws;
pub mod paint3d;
pub mod transform;
pub mod view;
pub mod xcbshow;
