//! Broker order data to reports.

pub mod completed;
pub mod fill;
pub mod identity;
pub mod identity_laws;
pub mod merge;
pub mod merge_laws;
pub mod parts_laws;
pub mod pricing;
pub mod report_laws;
pub mod snapshot_laws;
pub mod status;
pub mod time;
pub mod time_laws;
pub mod vocabulary;
pub mod vocabulary_laws;
