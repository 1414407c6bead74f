//! A chess board packed into four 64-bit words, four bits per square, with
//! checked and unchecked access, a builder for starting layouts, and the
//! health and log-level rules of the service around it.

pub mod board;
pub mod builder;
pub mod health;
pub mod logging;
