//! The order management system: orders, position accounting and the
//! reconciliation of target, filled and open quantity.

pub mod account;
pub mod event;
pub mod fill;
pub mod reconcile;
pub mod replay;
pub mod runtime;
pub mod snapshot;
pub mod engine;
pub mod order;
pub mod position;
