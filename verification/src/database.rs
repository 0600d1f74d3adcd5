//! The rows of the store and the records built from decoded tags.

pub mod covert;
pub mod service;
