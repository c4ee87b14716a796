//! A timed wait-and-poll session for a terminal: parsing of its two durations,
//! the key press that ends it, and the decisions that drive its loop.
pub mod micros;
pub mod keys;
pub mod config;
pub mod session;
