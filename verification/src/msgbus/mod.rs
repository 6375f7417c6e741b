//! The decisions of the Python message bus.
//!
//! Python objects stay with the caller, who gives each a number; what the bus keeps and decides is
//! in terms of those numbers.

pub mod bus;
pub mod bus_laws;
pub mod config;
pub mod external;
pub mod handler;
pub mod publication_laws;
pub mod registry;
pub mod settings_laws;
pub mod topics;
pub mod topics_laws;
