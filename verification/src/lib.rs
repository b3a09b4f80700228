//! Logic of a minimal real-time rendering demo: one triangle turning
//! around the origin at a constant rate, redrawn on every display
//! refresh.  The crate holds the rotation geometry, the choices made when
//! the rendering surface and device are set up, the presentation-chain
//! bookkeeping, and the per-tick decisions of the render loop, all as
//! verified functions over plain values.  Driving the window system and
//! the graphics device with these decisions is left to the surrounding
//! program.

pub mod chain;
pub mod device;
pub mod geometry;
pub mod render_loop;
