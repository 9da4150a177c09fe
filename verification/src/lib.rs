//! Time-scaled circular-orbit propagation.
//!
//! The library advances the state of a small scene — one central body and a
//! set of satellites on circular orbits — under a user-adjustable simulation
//! clock. All quantities are exact integers in fixed units: angles in
//! nano-radians, time deltas in microseconds, distances in meters and speeds
//! in meters per second. Rendering, input and asset handling are left to the
//! caller, which hands in plain values (the frame's delta time, the chosen
//! time scale) and reads plain values back (angles, trace samples).

pub mod angle;
pub mod body;
pub mod config;
pub mod orbit;
