//! What the terminal view shows.

pub mod app;
