//! Polymarket: Gamma API payloads.
pub mod gamma;
