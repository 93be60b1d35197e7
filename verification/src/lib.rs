//! Local NEPSE portfolio tracking and market overview: the verified core.
pub mod text;
pub mod numeric;
pub mod csv;
pub mod portfolio;
pub mod json;
pub mod format;
pub mod meroalpha_api;
pub mod market_refresh;
pub mod overview;
pub mod components;
pub mod terminal;
