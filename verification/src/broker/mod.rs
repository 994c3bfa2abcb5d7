//! The broker: what it is told, how it words orders for the venue, and how
//! it reads what the venue answers.

pub mod fills;
pub mod sim;
pub mod types;
pub mod venue;

