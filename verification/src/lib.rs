//! Deceased-estate tax and liquidity engine.
//!
//! Money is held in millionths of a rand as signed integers; rates, ratios,
//! shocks and haircuts are fixed-point fractions in parts per million. The
//! two scales are the same, so a rate applied to a whole number of rand is
//! exact. Every result is specified over unbounded integers, so rounding is
//! explicit: each rate application rounds down to a millionth of a rand.

pub mod config;
pub mod contracts;
pub mod errors;
pub mod handler;
pub mod models;
pub mod money;
pub mod optimizer;
pub mod rules;
pub mod scenario;
pub mod scoring;
pub mod south_africa;
pub mod stress;
pub mod text;
pub mod validation;
