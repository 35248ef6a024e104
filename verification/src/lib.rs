//! Pulse detection on digitised waveforms, and the simulation of such waveforms.
//!
//! Every time and every trace value is a fixed-point scalar (see [`fixed`]).
//! The detection engine ([`pulse_detection`], [`channels`]) is a chain of
//! stages that turns the samples of a trace into events. The simulation
//! ([`simulation`]) lays out channels, chooses pulse templates and makes
//! traces; the shapes of its pulses and the kinds of its noise are handed to it.
pub mod channels;
pub mod fixed;
pub mod parameters;
pub mod pulse_detection;
pub mod simulation;
