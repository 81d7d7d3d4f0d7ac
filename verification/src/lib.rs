//! Core logic of a distance-reporting device: an ultrasonic range sensor
//! feeds a baseline-deviation filter, and detected events are delivered to
//! a remote broker by a bounded-retry publish pipeline.  All hardware,
//! networking and timing is left to the caller; the modules here decide,
//! on plain values, what each step of the device's loop must do.

pub mod baseline;
pub mod broker;
pub mod hex;
pub mod payload;
pub mod pipeline;
pub mod supervisor;
pub mod units;
