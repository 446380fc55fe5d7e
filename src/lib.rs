//! State machine and synthetic signal generator of a terminal control panel
//! for a software-defined radio receiver.
//!
//! All quantities are held as integers: frequencies and rates in hertz, gain
//! in whole decibels, powers and magnitudes in millionths of full scale, and
//! phases in microradians.

pub mod params;
pub mod signal;
pub mod random;
pub mod app;
pub mod laws;
