//! Fixed-rate simulation ticks reconciled with variable-rate presentation
//! frames, over exact integer time.
//!
//! - [`reconciler`] turns clock samples into an ordered run of readings:
//!   ticks to simulate, frames to render, and notes on what went wrong.
//!   [`guarantees`] proves what holds of every such run, and [`metronome`]
//!   drives a reconciler from the clock of the machine.
//! - [`store`] keeps the generations of the previous and the current tick,
//!   and [`world`] is what one generation holds.
//! - [`interp`] blends between two generations at a frame's phase.
//!
//! Time is counted in whole nanoseconds and rates are rationals, so the
//! accounting never drifts. A frame's phase is an exact fraction in `[0, 1)`,
//! positions are fixed-point numbers and angles are binary angles.
pub mod rate;
pub mod reading;
pub mod reconciler;
pub mod guarantees;
pub mod metronome;
pub mod interp;
pub mod world;
pub mod store;
