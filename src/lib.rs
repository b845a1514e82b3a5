//! Geometry of a border indicator: where direction rays leave a screen
//! rectangle, and which border segments connect two such exit points.
//!
//! Angles are integers in millionths of a degree, counted counter-clockwise
//! from the +X axis. Coordinates are integer pixels with the origin at the
//! bottom-left corner of the screen.

pub mod angle;
pub mod edge;
pub mod tracker;
