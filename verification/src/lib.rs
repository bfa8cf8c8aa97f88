//! Orientation and power-state tracking for a small handheld device with a
//! 3-axis accelerometer.
//!
//! The crate classifies the device's spatial orientation (six discrete
//! states) from noisy accelerometer samples, decides when the device should
//! drop into a low-power mode after a period of inactivity, and maps each
//! orientation to a display pattern. All computation is exact fixed-point
//! integer arithmetic; samples arrive in milligravity (1000 mg = 1 g) and
//! filtered values are held in microgravity (1_000_000 ug = 1 g).

pub mod filter;
pub mod orientation;
pub mod pattern;
pub mod power;
