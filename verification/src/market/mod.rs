//! Market data: the order book, the trade tape, and the reading of what the
//! venue sends of them.

pub mod types;
pub mod wire;
