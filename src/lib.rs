//! Tick simulation core for scripted projectiles.
//!
//! All quantities are fixed point: directions in millidegrees (0 is up,
//! increasing clockwise), speeds in thousandths of a world unit per tick, and
//! positions in units of `1 / POSITION_ONE` of a world unit, so that one tick of
//! motion (speed times a sine interpolated to the millidegree) lands exactly
//! on the position grid.
pub mod geometry;
pub mod bullet;
pub mod budget;
pub mod world;
pub mod clock;
