//! Interactive Brokers adapter logic: wire vocabulary, order reports, contract parsing and the
//! decisions of the Python message bus.

pub mod bytes;
pub mod bytes_laws;
pub mod civil;
pub mod civil_laws;
pub mod contracts;
pub mod decimal;
pub mod decimal_laws;
pub mod execution;
pub mod index;
pub mod intern;
pub mod model;
pub mod msgbus;
pub mod orders;
pub mod orders_laws;
pub mod params;
pub mod params_laws;
pub mod providers;
pub mod reports;
pub mod text;
pub mod text_laws;
pub mod wire;
pub mod wire_laws;
pub mod wsh;
pub mod wsh_laws;
