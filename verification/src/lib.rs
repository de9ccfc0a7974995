//! A "DVD screensaver" bounce simulation: a single sprite moves at constant
//! velocity inside a fixed rectangular viewport and reverses a velocity
//! component whenever its bounding box touches the corresponding wall.
//!
//! All coordinates are integers in one caller-chosen unit (for instance
//! milli-pixels), so every position update and wall clamp is exact and the
//! reflection rules can be stated and proved precisely. The host loop owns
//! rendering, timing and asset loading; it hands this library plain values
//! (elapsed time, sprite size, viewport dimensions) and places the sprite
//! from the returned state.

pub mod geom;
pub mod laws;
pub mod sim;
