//! The content source: its data, its classifier and its addresses.

pub mod api;
pub mod kinds;
pub mod types;
pub mod urls;
