//! Types shared by the whole crate.

pub mod converter;
pub mod errors;
