//! A small presentation core: a CPU-side pixel buffer with a bottom-left
//! storage origin, a colour model, input-event dispatch and the per-frame
//! protocol of a window, with backend selection.

pub mod colour;
pub mod pixels;
pub mod input;
pub mod window;
pub mod driver;
