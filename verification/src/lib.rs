//! Time-synchronised lyrics: a fixed-timestep clock that follows an external
//! playback position, the selection of the lines to show at a given time, and
//! the minimal repaint of that selection.

pub mod banner;
pub mod clients;
pub mod clock;
pub mod render;
pub mod session;
pub mod sources;
pub mod structs;
pub mod window;
