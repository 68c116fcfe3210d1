//! Motion and interpolation primitives: piecewise curves over a normalized
//! time, pitch-yaw angles with wrapped or clamped axes, and the interface of
//! tick-driven steppers. Real numbers are binary32 bit patterns throughout;
//! see `binary32`.
pub mod angles;
pub mod binary32;
pub mod curves;
pub mod steppers;
