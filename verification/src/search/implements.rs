//! How the queries of the public interface are carried out.

pub mod strategy;
