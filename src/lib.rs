//! Input validation for the Black-Scholes Greeks.
//!
//! Every Greek is defined only for a positive spot price, strike, time to
//! expiration and volatility (and, for theta, a positive day-count basis).
//! The checks here read each double-precision input through its IEEE-754
//! bit pattern and report the first parameter that is not strictly positive.

pub mod ieee;
pub mod domain;
