//! A fixed-length sliding window of timestamped sensor readings, with the
//! operations a polling dashboard needs: submit a reading, reset the window
//! to its default, and take a snapshot of it.

pub mod chart;
pub mod clock;
pub mod config;
pub mod endpoint;
pub mod entry;
pub mod handler;
pub mod laws;
pub mod service;
pub mod submit;
pub mod window;
