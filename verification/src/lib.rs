//! A windowed rotation-event aggregator: it turns a stream of rotation-pulse
//! timestamps from a wheel into distance, speed and cadence, using configurable
//! wheel geometry and a gear ratio.
//!
//! All magnitudes are fixed-point integers in a small base unit (micrometers,
//! milliseconds, micrometers per second), so every formula here is exact
//! integer arithmetic with truncating division.

pub mod buffer;
pub mod led_state;
pub mod pzb;
pub mod pzb_state;
pub mod tacho;
pub mod units;

pub use crate::tacho::Sample;
pub use crate::tacho::Tachometer;
pub use crate::tacho::TireDimensions;
