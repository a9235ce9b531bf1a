//! The subscription store.

pub mod laws;
pub mod model;
pub mod store;
