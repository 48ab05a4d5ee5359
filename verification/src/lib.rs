//! Heat-stress figures from an air temperature and a relative humidity:
//! the rules that decide how a reading is understood, which heat-index
//! formula applies, how severe a wet-bulb temperature is, and how the
//! figures are written out.
//!
//! Numbers are single-precision and cross this library as their bits, so
//! that every decision made on them here is exact.

pub mod decimal;
pub mod heat_index;
pub mod reading;
pub mod report;
pub mod severity;
pub mod single;
pub mod unit;
