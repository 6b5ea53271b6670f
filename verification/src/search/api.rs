//! The calls that the host makes.

pub mod api_dingo;
