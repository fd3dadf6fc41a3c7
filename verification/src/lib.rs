//! Temperature-scale conversion library.
//!
//! The library models temperatures as exact rational numbers, parses
//! scale tokens (Celsius, Fahrenheit, Kelvin), converts values between
//! the three scales, and guards conversions against inputs below the
//! physical minimum (absolute zero) of the source scale.

pub mod convert;
pub mod handler;
pub mod pages;
pub mod rat;
pub mod scale;
pub mod temp;
