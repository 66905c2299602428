//! Rolling-window aggregation for a stream of power-meter readings.
//!
//! The crate holds the decisions of a small monitoring pipeline: how a
//! reading becomes a log line and a chart bar, how the bounded window of
//! recent readings evolves, how the synthetic and the meter-backed sources
//! build their readings, and how the display loop reacts to keys, readings
//! and silence. Terminal, serial line, channel and log file are left to the
//! caller.

pub mod aggregator;
pub mod clock;
pub mod display;
pub mod history;
pub mod reading;
pub mod render;
pub mod source;
pub mod text;
