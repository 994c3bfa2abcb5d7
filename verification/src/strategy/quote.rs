//! A single quote.

use crate::decimal::Decimal;
use crate::oms::order::Side;
use vstd::prelude::*;

verus! {

/// A quantity offered at a price on one side.
#[derive(Debug, Clone, Copy)]
pub struct Quote {
    pub side: Side,
    pub qty: Decimal,
    pub price: Decimal,
}

} // verus!
