//! Core of a stereo delay/feedback audio effect: a fixed-capacity circular
//! sample history with a write cursor and a read cursor, and seven selectable
//! mode behaviors that mix historical taps into the current sample and
//! perturb the read cursor as a function of the write cursor.
//!
//! The engine is generic in the sample type and performs no sample
//! arithmetic itself: each step takes the input sample with gain already
//! applied and hands back the historical taps together with the mixing
//! operation the caller applies. The smoothed parameter values (delay, mode,
//! time) are polled by the caller and passed in as plain integers, one value
//! per parameter per step or frame.

pub mod engine;
pub mod laws;
pub mod model;
