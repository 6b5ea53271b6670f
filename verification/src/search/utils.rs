//! Conversions of query inputs.

pub mod convert_utils;
