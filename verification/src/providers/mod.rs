//! Contract details to instruments.

pub mod expiry;
pub mod expiry_laws;
pub mod expiry_refusal_laws;
pub mod info;
pub mod instrument_laws;
pub mod instruments;
pub mod min_quantity;
pub mod minimum_laws;
pub mod parse;
pub mod precision;
pub mod spread;
pub mod spread_laws;
