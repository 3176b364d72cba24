//! Collection, caching and price-dispersion detection for liquidity-pool quotes.
//!
//! Money amounts are fixed-point integers: one unit is a millionth of a US dollar.
//! Ratios such as the detection threshold are given in parts per million.

pub mod clock;
pub mod config;
pub mod decimal;
pub mod handles;
pub mod json;
pub mod models;
pub mod services;
pub mod sources;
pub mod text;
