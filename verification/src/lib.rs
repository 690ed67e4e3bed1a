//! Probability distributions: parameter types, validation and the integer
//! logic behind them (discrete supports, quantile searches, range sizes).

pub mod constants;
pub mod distributions;
pub mod error;
pub mod unchecked;
