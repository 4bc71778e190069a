//! Domain checks on the market state before any Greek is evaluated.
//!
//! The formulas divide by `sigma * sqrt(t)` and `s0`, take `ln(s0 / x)` and
//! scale theta by `1 / days_per_year`; each of these inputs must therefore be
//! strictly positive. A check names the first input that is not, in the
//! order spot, strike, time, volatility, day-count basis.

use vstd::prelude::*;
use crate::ieee::{is_positive, is_positive_bits, is_zero_bits};

verus! {

/// An input of the Black-Scholes formulas that must be strictly positive.
#[derive(Clone, Copy, Debug, PartialEq, Eq, Structural)]
pub enum Param {
    /// `s0`, the underlying spot price.
    Spot,
    /// `x`, the strike price.
    Strike,
    /// `t`, the time to expiration as a fraction of a year.
    Time,
    /// `sigma`, the annualized volatility.
    Volatility,
    /// `days_per_year`, the day-count basis of theta.
    DaysPerYear,
}

/// The input `param` lies outside the domain of the formulas: it is zero,
/// negative or NaN.
#[derive(Clone, Copy, Debug, PartialEq, Eq, Structural)]
pub struct DomainViolation {
    pub param: Param,
}

/// The outcome of a check that found `v` (or nothing) out of domain.
pub open spec fn outcome(v: Option<Param>) -> Result<(), DomainViolation> {
    match v {
        Some(p) => Err(DomainViolation { param: p }),
        None => Ok(()),
    }
}

/// The first of time and volatility that is not positive.
pub open spec fn d2_d1_violation(t: u64, sigma: u64) -> Option<Param> {
    if !is_positive_bits(t) {
        Some(Param::Time)
    } else if !is_positive_bits(sigma) {
        Some(Param::Volatility)
    } else {
        None
    }
}

/// The first of spot and time that is not positive.
pub open spec fn vega_d1_violation(s0: u64, t: u64) -> Option<Param> {
    if !is_positive_bits(s0) {
        Some(Param::Spot)
    } else if !is_positive_bits(t) {
        Some(Param::Time)
    } else {
        None
    }
}

/// The first of spot, time and volatility that is not positive.
pub open spec fn gamma_d1_violation(s0: u64, t: u64, sigma: u64) -> Option<Param> {
    if !is_positive_bits(s0) {
        Some(Param::Spot)
    } else if !is_positive_bits(t) {
        Some(Param::Time)
    } else if !is_positive_bits(sigma) {
        Some(Param::Volatility)
    } else {
        None
    }
}

/// The first of spot, strike, time and volatility that is not positive.
pub open spec fn market_violation(s0: u64, x: u64, t: u64, sigma: u64) -> Option<Param> {
    if !is_positive_bits(s0) {
        Some(Param::Spot)
    } else if !is_positive_bits(x) {
        Some(Param::Strike)
    } else if !is_positive_bits(t) {
        Some(Param::Time)
    } else if !is_positive_bits(sigma) {
        Some(Param::Volatility)
    } else {
        None
    }
}

/// The first of the market state and the day-count basis that is not positive.
pub open spec fn theta_violation(s0: u64, x: u64, t: u64, sigma: u64, days_per_year: u64) -> Option<
    Param,
> {
    match market_violation(s0, x, t, sigma) {
        Some(p) => Some(p),
        None => if !is_positive_bits(days_per_year) {
            Some(Param::DaysPerYear)
        } else {
            None
        },
    }
}

/// Checks that the value with bits `bits` is positive, naming `param` if not.
pub fn check_positive(param: Param, bits: u64) -> (r: Result<(), DomainViolation>)
    ensures
        r == outcome(if is_positive_bits(bits) { None } else { Some(param) }),
{
    if is_positive(bits) {
        Ok(())
    } else {
        Err(DomainViolation { param })
    }
}

/// Checks the market state read by `d1`, `d2`, delta, gamma, vega and rho.
pub fn check_market(s0: u64, x: u64, t: u64, sigma: u64) -> (r: Result<(), DomainViolation>)
    ensures
        r == outcome(market_violation(s0, x, t, sigma)),
        r is Ok <==> is_positive_bits(s0) && is_positive_bits(x) && is_positive_bits(t)
            && is_positive_bits(sigma),
{
    check_positive(Param::Spot, s0)?;
    check_positive(Param::Strike, x)?;
    check_positive(Param::Time, t)?;
    check_positive(Param::Volatility, sigma)
}

/// Checks the market state and day-count basis read by theta.
pub fn check_theta(s0: u64, x: u64, t: u64, sigma: u64, days_per_year: u64) -> (r: Result<
    (),
    DomainViolation,
>)
    ensures
        r == outcome(theta_violation(s0, x, t, sigma, days_per_year)),
        r is Ok <==> is_positive_bits(s0) && is_positive_bits(x) && is_positive_bits(t)
            && is_positive_bits(sigma) && is_positive_bits(days_per_year),
{
    check_market(s0, x, t, sigma)?;
    check_positive(Param::DaysPerYear, days_per_year)
}

/// Checks the inputs of gamma evaluated from a precomputed `d1`.
pub fn check_gamma_d1(s0: u64, t: u64, sigma: u64) -> (r: Result<(), DomainViolation>)
    ensures
        r == outcome(gamma_d1_violation(s0, t, sigma)),
        r is Ok <==> is_positive_bits(s0) && is_positive_bits(t) && is_positive_bits(sigma),
{
    check_positive(Param::Spot, s0)?;
    check_positive(Param::Time, t)?;
    check_positive(Param::Volatility, sigma)
}

/// Checks the inputs of vega evaluated from a precomputed `d1`.
pub fn check_vega_d1(s0: u64, t: u64) -> (r: Result<(), DomainViolation>)
    ensures
        r == outcome(vega_d1_violation(s0, t)),
        r is Ok <==> is_positive_bits(s0) && is_positive_bits(t),
{
    check_positive(Param::Spot, s0)?;
    check_positive(Param::Time, t)
}

/// Checks the inputs of `d2` evaluated from a precomputed `d1`.
pub fn check_d2_d1(t: u64, sigma: u64) -> (r: Result<(), DomainViolation>)
    ensures
        r == outcome(d2_d1_violation(t, sigma)),
        r is Ok <==> is_positive_bits(t) && is_positive_bits(sigma),
{
    check_positive(Param::Time, t)?;
    check_positive(Param::Volatility, sigma)
}

/// A zero spot, strike, time or volatility, of either sign, is always
/// reported as a domain violation, and never passes on to the formulas.
/// When the spot is zero it is the spot that is named.
pub proof fn degenerate_market_rejected(s0: u64, x: u64, t: u64, sigma: u64)
    requires
        is_zero_bits(s0) || is_zero_bits(x) || is_zero_bits(t) || is_zero_bits(sigma),
    ensures
        market_violation(s0, x, t, sigma) is Some,
        outcome(market_violation(s0, x, t, sigma)) is Err,
        is_zero_bits(s0) ==> market_violation(s0, x, t, sigma) == Some(Param::Spot),
{
}

/// Theta rejects every market state that the other Greeks reject, naming the
/// same parameter, and in addition a day-count basis that is not positive.
pub proof fn theta_rejects_what_market_rejects(
    s0: u64,
    x: u64,
    t: u64,
    sigma: u64,
    days_per_year: u64,
)
    ensures
        market_violation(s0, x, t, sigma) is Some ==> theta_violation(
            s0,
            x,
            t,
            sigma,
            days_per_year,
        ) == market_violation(s0, x, t, sigma),
        is_zero_bits(days_per_year) ==> theta_violation(s0, x, t, sigma, days_per_year) is Some,
{
}

} // verus!
