//! Capacitor reforming: decoding of the multimeter's telemetry frames and the
//! decisions of the reforming run, as verified pure functions.
//!
//! The crate holds no I/O. A driver program feeds it bytes, timestamps and
//! task outcomes, and carries out the commands it answers with.
//!
//! Quantities are integers throughout:
//! - a measured value is in units of 10^-7 of the mode's display unit (for the
//!   DC milliampere mode that is 10^-7 mA), the finest step a frame can express;
//! - voltages are in millivolts;
//! - times are in milliseconds on a monotonic clock.

pub mod coordinator;
pub mod owon;
pub mod reform;
pub mod rk6006;
