//! The streaming pulse-detection engine.
//!
//! A pipeline is a chain of stages, each of which pulls trace points, events
//! or pulses from the stage before it, one at a time.
pub mod datatype;
pub mod detectors;
pub mod iterators;
pub mod pulse;
pub mod window;
