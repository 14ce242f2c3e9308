//! Fall alarm for a hand-held board with a 5×5 LED matrix, an accelerometer
//! and a piezo speaker.
//!
//! The crate holds the decisions of the firmware as plain functions with
//! proved contracts: what the pixel buffer shows, which drive lines the
//! display multiplexer selects at each timer tick, when a sample counts as a
//! fall, which pin toggles make up the alarm tone, and how the control loop
//! moves between its two modes. Reading the sensor, writing pins and waiting
//! are left to the caller.

pub mod alarm;
pub mod control;
pub mod display;
pub mod fall;
pub mod image;
