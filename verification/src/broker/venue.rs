//! Wording orders for the venue and reading its answers.
//!
//! Prices and sizes are brought onto the venue's grid before they leave:
//! a price keeps at most `6 - sz_decimals` decimals and at most five
//! significant figures, a size at most `sz_decimals` decimals, both cut
//! toward zero.

use crate::broker::types::BrokerCommand;
use crate::decimal::digit_count;
use crate::decimal::ArithmeticError;
use crate::decimal::Decimal;
use crate::oms::account::AccountSnapshot;
use crate::oms::event::OmsEvent;
use crate::oms::order::OrderId;
use crate::oms::order::Side;
use vstd::prelude::*;

verus! {

/// The grid of one symbol.
#[derive(Debug, Clone, Copy)]
pub struct SymbolRules {
    pub tick: Decimal,
    pub sz_decimals: u32,
}

/// One asset of the venue's universe.
#[derive(Debug, Clone)]
pub struct AssetMeta {
    pub name: String,
    pub sz_decimals: u32,
}

/// The rules of one symbol, under its name.
#[derive(Debug, Clone)]
pub struct SymbolEntry {
    pub name: String,
    pub rules: SymbolRules,
}

/// The rules that the venue's universe gives: for each asset its size
/// decimals, with a tick of `0.5`.
pub fn build_symbol_rules(universe: &Vec<AssetMeta>) -> (r: Vec<SymbolEntry>)
    ensures
        r@.len() == universe@.len(),
        forall|i: int|
            0 <= i < r@.len() ==> (#[trigger] r@[i]).name@ == universe@[i].name@ && r@[i].rules
                == (SymbolRules { tick: Decimal::of(5, 1), sz_decimals: universe@[i].sz_decimals }),
{
    let mut out: Vec<SymbolEntry> = Vec::new();
    let mut i: usize = 0;
    while i < universe.len()
        invariant
            i <= universe.len(),
            out@.len() == i,
            forall|k: int|
                0 <= k < i ==> (#[trigger] out@[k]).name@ == universe@[k].name@ && out@[k].rules
                    == (SymbolRules {
                    tick: Decimal::of(5, 1),
                    sz_decimals: universe@[k].sz_decimals,
                }),
        decreases universe.len() - i,
    {
        let asset = &universe[i];
        out.push(
            SymbolEntry {
                name: asset.name.clone(),
                rules: SymbolRules { tick: Decimal::new(5, 1), sz_decimals: asset.sz_decimals },
            },
        );
        i = i + 1;
    }
    out
}

/// The rules that a table holds for a symbol: those of the last entry
/// under its name.
pub open spec fn rules_spec(table: Seq<SymbolEntry>, symbol: Seq<char>) -> Option<SymbolRules>
    decreases table.len(),
{
    if table.len() == 0 {
        None
    } else if table.last().name@ == symbol {
        Some(table.last().rules)
    } else {
        rules_spec(table.drop_last(), symbol)
    }
}

/// Looks up the rules of a symbol.
pub fn rules_for(table: &Vec<SymbolEntry>, symbol: &String) -> (r: Option<SymbolRules>)
    ensures
        r == rules_spec(table@, symbol@),
{
    let mut i: usize = table.len();
    assert(table@.take(i as int) =~= table@);
    while i > 0
        invariant
            i <= table.len(),
            rules_spec(table@, symbol@) == rules_spec(table@.take(i as int), symbol@),
        decreases i,
    {
        assert(table@.take(i as int).drop_last() =~= table@.take(i - 1));
        assert(table@.take(i as int).last() == table@[i - 1]);
        if table[i - 1].name == *symbol {
            return Some(table[i - 1].rules);
        }
        i = i - 1;
    }
    assert(table@.take(0) =~= Seq::<SymbolEntry>::empty());
    None
}

/// How many decimals a price may keep: `6 - sz_decimals`, none where that
/// falls below zero.
pub open spec fn price_decimals(sz_decimals: u32) -> nat {
    if sz_decimals >= 6 {
        0
    } else {
        (6 - sz_decimals) as nat
    }
}

/// The significant figures of a decimal: the digits of its mantissa.
pub open spec fn significant_figures(d: Decimal) -> nat {
    if d.mantissa_of() >= 0 {
        digit_count(d.mantissa_of() as nat)
    } else {
        digit_count((-d.mantissa_of()) as nat)
    }
}

/// A price on the venue's grid, before its trailing zeros are stripped:
/// cut to the decimals it may keep, then, where it still has more than five
/// significant figures, cut by as many decimals as figures are too many, to
/// none at the least.
pub open spec fn capped_price(sz_decimals: u32, price: Decimal) -> Decimal {
    let cut = price.truncated(price_decimals(sz_decimals));
    let figures = significant_figures(cut);
    if figures > 5 {
        let excess = (figures - 5) as nat;
        if cut.scale_of() >= excess {
            cut.truncated((cut.scale_of() - excess) as nat)
        } else {
            cut.truncated(0)
        }
    } else {
        cut
    }
}

/// Whether `r` is `price` on the venue's grid: it has the value of the
/// capped price and carries no trailing zeros.
pub open spec fn on_price_grid(sz_decimals: u32, price: Decimal, r: Decimal) -> bool {
    &&& r@ == capped_price(sz_decimals, price)@
    &&& r.scale_of() <= capped_price(sz_decimals, price).scale_of()
    &&& (r.scale_of() == 0 || r.mantissa_of() % 10 != 0)
}

/// Brings a price onto the venue's grid. The result has the value of the
/// capped price and carries no trailing zeros.
pub fn quantize_price(rules: &SymbolRules, price: Decimal) -> (r: Decimal)
    ensures
        on_price_grid(rules.sz_decimals, price, r),
{
    let max_decimals: u32 = if rules.sz_decimals >= 6 {
        0
    } else {
        6 - rules.sz_decimals
    };
    let mut p = price.trunc_with_scale(max_decimals);
    proof {
        p.lemma_sign();
    }
    let figures = p.significant_digits();
    if figures > 5 {
        let excess: u32 = figures - 5;
        let scale = p.scale();
        let keep: u32 = if scale >= excess {
            scale - excess
        } else {
            0
        };
        p = p.trunc_with_scale(keep);
    }
    p.normalize()
}

/// Brings a size onto the venue's grid: cut to `sz_decimals` decimals.
pub fn quantize_qty(rules: &SymbolRules, qty: Decimal) -> (r: Decimal)
    ensures
        r == qty.truncated(rules.sz_decimals as nat),
{
    qty.trunc_with_scale(rules.sz_decimals)
}

/// How long an order rests.
#[derive(Debug, Clone, Copy, PartialEq, Eq, Structural)]
pub enum TimeInForce {
    /// Until it is cancelled.
    Gtc,
    /// Not at all: what does not fill at once is cancelled.
    Ioc,
}

/// An order in the venue's words. Price and size are decimals on the
/// venue's grid; they become floats only where they leave.
#[derive(Debug, Clone, Copy)]
pub struct WireOrder {
    pub is_buy: bool,
    pub reduce_only: bool,
    pub limit_px: Decimal,
    pub sz: Decimal,
    pub cloid: Option<OrderId>,
    pub tif: TimeInForce,
}

/// The order that places a limit order: price and size on the grid, good
/// till cancelled, under the order's identifier.
pub fn limit_order(rules: &SymbolRules, order_id: OrderId, side: Side, qty: Decimal, price: Decimal)
    -> (r: WireOrder)
    ensures
        r.is_buy == (side == Side::Buy),
        !r.reduce_only,
        on_price_grid(rules.sz_decimals, price, r.limit_px),
        r.sz == qty.truncated(rules.sz_decimals as nat),
        r.cloid == Some(order_id),
        r.tif == TimeInForce::Gtc,
{
    WireOrder {
        is_buy: match side {
            Side::Buy => true,
            Side::Sell => false,
        },
        reduce_only: false,
        limit_px: quantize_price(rules, price),
        sz: quantize_qty(rules, qty),
        cloid: Some(order_id),
        tif: TimeInForce::Gtc,
    }
}

/// The order that flattens a position of signed size `qty`: a long
/// position is sold, any other bought, for the size of the position, reduce
/// only, immediate or cancel, at the limit brought onto the grid.
pub fn flatten_order(rules: &SymbolRules, qty: Decimal, limit_px: Decimal) -> (r: WireOrder)
    ensures
        r.is_buy == !(qty@ > 0),
        r.reduce_only,
        on_price_grid(rules.sz_decimals, limit_px, r.limit_px),
        r.sz == qty.magnitude(),
        r.cloid.is_none(),
        r.tif == TimeInForce::Ioc,
{
    WireOrder {
        is_buy: !qty.is_positive(),
        reduce_only: true,
        limit_px: quantize_price(rules, limit_px),
        sz: qty.abs(),
        cloid: None,
        tif: TimeInForce::Ioc,
    }
}

/// The order that a command sends to the venue; a cancel sends none.
pub fn wire_order(rules: &SymbolRules, cmd: &BrokerCommand) -> (r: Option<WireOrder>)
    ensures
        match *cmd {
            BrokerCommand::PlaceLimit { order_id, side, qty, price } => r matches Some(o) && o.is_buy
                == (side == Side::Buy) && !o.reduce_only && on_price_grid(
                rules.sz_decimals,
                price,
                o.limit_px,
            ) && o.sz == qty.truncated(rules.sz_decimals as nat) && o.cloid == Some(order_id)
                && o.tif == TimeInForce::Gtc,
            BrokerCommand::Flatten { qty, limit_px } => r matches Some(o) && o.is_buy == !(qty@
                > 0) && o.reduce_only && on_price_grid(rules.sz_decimals, limit_px, o.limit_px)
                && o.sz == qty.magnitude() && o.cloid.is_none() && o.tif == TimeInForce::Ioc,
            BrokerCommand::Cancel { .. } => r.is_none(),
        },
{
    match *cmd {
        BrokerCommand::PlaceLimit { order_id, side, qty, price } => Some(
            limit_order(rules, order_id, side, qty, price),
        ),
        BrokerCommand::Flatten { qty, limit_px } => Some(flatten_order(rules, qty, limit_px)),
        BrokerCommand::Cancel { .. } => None,
    }
}

/// What the venue says of one leg of a request.
#[derive(Debug, Clone, Copy, PartialEq, Eq, Structural)]
pub enum LegStatus {
    /// The leg went through.
    Done,
    /// The leg was refused.
    Error,
}

/// What the venue answers to a request.
#[derive(Debug, Clone)]
pub enum VenueResponse {
    /// The request was taken; the statuses of its legs, where the venue
    /// sends any.
    Taken { statuses: Option<Vec<LegStatus>> },
    /// The request was refused as a whole.
    Refused,
}

/// Whether an answer carries an error: it is a refusal, or one of its legs
/// was refused.
pub open spec fn has_error_spec(response: VenueResponse) -> bool {
    match response {
        VenueResponse::Taken { statuses: Some(s) } => s@.contains(LegStatus::Error),
        VenueResponse::Taken { statuses: None } => false,
        VenueResponse::Refused => true,
    }
}

/// Whether an answer carries an error.
pub fn has_error_status(response: &VenueResponse) -> (b: bool)
    ensures
        b == has_error_spec(*response),
{
    match response {
        VenueResponse::Taken { statuses } => match statuses {
            Some(s) => any_error(s),
            None => false,
        },
        VenueResponse::Refused => true,
    }
}

/// Whether one of the legs was refused.
pub fn any_error(statuses: &Vec<LegStatus>) -> (b: bool)
    ensures
        b == statuses@.contains(LegStatus::Error),
{
    let mut i: usize = 0;
    while i < statuses.len()
        invariant
            i <= statuses.len(),
            forall|j: int| 0 <= j < i ==> statuses@[j] != LegStatus::Error,
        decreases statuses.len() - i,
    {
        if statuses[i] == LegStatus::Error {
            assert(statuses@[i as int] == LegStatus::Error);
            return true;
        }
        i = i + 1;
    }
    false
}

/// What the order management system is told once the venue has answered
/// the placing of an order: its refusal where the answer carries an error,
/// its acceptance where it does not, and nothing where no answer came, for
/// then the order may still live.
pub fn place_outcome(order_id: OrderId, answer: &Option<VenueResponse>) -> (r: Option<OmsEvent>)
    ensures
        match *answer {
            Some(response) => if has_error_spec(response) {
                r matches Some(OmsEvent::OrderRejected { order_id: id }) && id == order_id
            } else {
                r matches Some(OmsEvent::OrderAccepted { order_id: id }) && id == order_id
            },
            None => r.is_none(),
        },
{
    match answer {
        Some(response) => if has_error_status(response) {
            Some(OmsEvent::OrderRejected { order_id })
        } else {
            Some(OmsEvent::OrderAccepted { order_id })
        },
        None => None,
    }
}

/// What the order management system is told once the venue has answered a
/// cancel: the confirmation where the answer carries no error, else
/// nothing.
pub fn cancel_outcome(order_id: OrderId, answer: &Option<VenueResponse>) -> (r: Option<OmsEvent>)
    ensures
        match *answer {
            Some(response) => if has_error_spec(response) {
                r.is_none()
            } else {
                r matches Some(OmsEvent::CancelConfirmed { order_id: id }) && id == order_id
            },
            None => r.is_none(),
        },
{
    match answer {
        Some(response) => if has_error_status(response) {
            None
        } else {
            Some(OmsEvent::CancelConfirmed { order_id })
        },
        None => None,
    }
}

/// One position of the account as the venue sends it.
#[derive(Debug, Clone)]
pub struct WirePosition {
    pub coin: String,
    pub szi: String,
}

/// The account as the venue sends it.
#[derive(Debug, Clone)]
pub struct WireAccount {
    pub account_value: String,
    pub total_raw_usd: String,
    pub total_margin_used: String,
    pub withdrawable: String,
    pub positions: Vec<WirePosition>,
}

/// The size of the first position in `coin`, zero where there is none;
/// `None` where that size is no decimal.
pub open spec fn position_spec(positions: Seq<WirePosition>, coin: Seq<char>) -> Option<Decimal>
    decreases positions.len(),
{
    if positions.len() == 0 {
        Some(Decimal::of(0, 0))
    } else if positions.first().coin@ == coin {
        Decimal::parsed(positions.first().szi@)
    } else {
        position_spec(positions.drop_first(), coin)
    }
}

/// The size of the first position in `coin`.
pub fn net_position(positions: &Vec<WirePosition>, coin: &String) -> (r: Option<Decimal>)
    ensures
        r == position_spec(positions@, coin@),
{
    let mut i: usize = 0;
    assert(positions@.skip(0) =~= positions@);
    while i < positions.len()
        invariant
            i <= positions.len(),
            position_spec(positions@, coin@) == position_spec(positions@.skip(i as int), coin@),
        decreases positions.len() - i,
    {
        assert(positions@.skip(i as int).first() == positions@[i as int]);
        assert(positions@.skip(i as int).drop_first() =~= positions@.skip(i + 1));
        if positions[i].coin == *coin {
            return Decimal::from_str(positions[i].szi.as_str());
        }
        i = i + 1;
    }
    assert(positions@.skip(i as int) =~= Seq::<WirePosition>::empty());
    Some(Decimal::zero())
}

/// Reads the account: equity is the account value, the unrealised profit
/// the equity less the raw balance, the realised profit zero, and the net
/// position the size of the position in `coin`. An error where a number
/// does not parse or the subtraction overflows.
pub fn read_account(wire: &WireAccount, coin: &String) -> (r: Result<AccountSnapshot, ArithmeticError>)
    ensures
        match (
            Decimal::parsed(wire.account_value@),
            Decimal::parsed(wire.total_raw_usd@),
            Decimal::parsed(wire.total_margin_used@),
            Decimal::parsed(wire.withdrawable@),
            position_spec(wire.positions@, coin@),
        ) {
            (Some(equity), Some(raw), Some(used), Some(available), Some(net)) => match equity.minus(
                raw,
            ) {
                Some(unrealized) => r matches Ok(a) && a.equity == equity && a.available_margin
                    == available && a.used_margin == used && a.unrealized_pnl == unrealized
                    && a.realized_pnl == Decimal::of(0, 0) && a.net_position == net,
                None => r.is_err(),
            },
            _ => r.is_err(),
        },
{
    let equity = Decimal::from_str(wire.account_value.as_str());
    let raw = Decimal::from_str(wire.total_raw_usd.as_str());
    let used = Decimal::from_str(wire.total_margin_used.as_str());
    let available = Decimal::from_str(wire.withdrawable.as_str());
    let net = net_position(&wire.positions, coin);
    match (equity, raw, used, available, net) {
        (Some(equity), Some(raw), Some(used), Some(available), Some(net)) => {
            match equity.checked_sub(raw) {
                Some(unrealized) => Ok(
                    AccountSnapshot {
                        equity,
                        available_margin: available,
                        used_margin: used,
                        unrealized_pnl: unrealized,
                        realized_pnl: Decimal::zero(),
                        net_position: net,
                    },
                ),
                None => Err(ArithmeticError),
            }
        },
        _ => Err(ArithmeticError),
    }
}

} // verus!
