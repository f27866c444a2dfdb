//! Accelerometer sample streaming: a fixed-layout binary frame encoder, a
//! blocking byte writer built on a non-blocking serial primitive, and the
//! polling loop that ties sensor, encoder and writer together. Each piece is
//! a pure decision procedure; the hardware side only performs the actions
//! that these procedures ask for and reports back what happened.
pub mod buffer;
pub mod frame;
pub mod pipeline;
pub mod serial;
