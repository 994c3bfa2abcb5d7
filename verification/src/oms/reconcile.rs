//! Reconciliation of what the strategy wants with what has been filled and
//! what is open: `delta = target - (filled + open)`.

use crate::decimal::difference_is_exact;
use crate::decimal::sum_is_exact;
use crate::decimal::ArithmeticError;
use crate::decimal::Decimal;
use vstd::prelude::*;

verus! {

/// A signed quantity.
#[derive(Debug, Clone, Copy)]
pub struct Quantity(pub Decimal);

impl Quantity {
    /// The quantity zero.
    pub fn zero() -> (r: Quantity)
        ensures
            r.0 == Decimal::of(0, 0),
            r.0@ == 0,
    {
        Quantity(Decimal::zero())
    }

    /// The sum of two quantities, or `None` on overflow.
    pub fn checked_add(self, rhs: Quantity) -> (r: Option<Quantity>)
        ensures
            match self.0.plus(rhs.0) {
                Some(d) => r == Some(Quantity(d)),
                None => r.is_none(),
            },
    {
        match self.0.checked_add(rhs.0) {
            Some(d) => Some(Quantity(d)),
            None => None,
        }
    }

    /// The difference of two quantities, or `None` on overflow.
    pub fn checked_sub(self, rhs: Quantity) -> (r: Option<Quantity>)
        ensures
            match self.0.minus(rhs.0) {
                Some(d) => r == Some(Quantity(d)),
                None => r.is_none(),
            },
    {
        match self.0.checked_sub(rhs.0) {
            Some(d) => Some(Quantity(d)),
            None => None,
        }
    }
}

/// The decimals of a list of quantities.
pub open spec fn amounts(qs: Seq<Quantity>) -> Seq<Decimal> {
    qs.map_values(|q: Quantity| q.0)
}

/// The sum of a list of decimals, taken from the left and starting at
/// zero, each step as the decimal arithmetic computes it; `None` where a
/// step overflows.
pub open spec fn sum_of(s: Seq<Decimal>) -> Option<Decimal>
    decreases s.len(),
{
    if s.len() == 0 {
        Some(Decimal::of(0, 0))
    } else {
        match sum_of(s.drop_last()) {
            Some(acc) => acc.plus(s.last()),
            None => None,
        }
    }
}

/// The exact sum of a list of decimals, in units of `10^-28`.
pub open spec fn total_units(s: Seq<Decimal>) -> int
    decreases s.len(),
{
    if s.len() == 0 {
        0
    } else {
        total_units(s.drop_last()) + s.last()@
    }
}

/// Whether every step of [`sum_of`] is exact.
pub open spec fn sums_exactly(s: Seq<Decimal>) -> bool
    decreases s.len(),
{
    if s.len() == 0 {
        true
    } else {
        &&& sums_exactly(s.drop_last())
        &&& sum_of(s.drop_last()) matches Some(acc) && sum_is_exact(acc, s.last())
    }
}

/// Where every step is exact, the sum of a list is the exact total.
pub proof fn lemma_exact_sum(s: Seq<Decimal>)
    requires
        sums_exactly(s),
    ensures
        sum_of(s) matches Some(total) && total@ == total_units(s),
    decreases s.len(),
{
    if s.len() == 0 {
        Decimal::lemma_of(0, 0);
        assert(0 * crate::decimal::pow10(28) == 0) by (nonlinear_arith);
    } else {
        lemma_exact_sum(s.drop_last());
    }
}

/// The place of the first decimal of value `v` in `s`, or the length of `s`
/// where there is none.
pub open spec fn first_match(s: Seq<Decimal>, v: int) -> int
    decreases s.len(),
{
    if s.len() == 0 {
        0
    } else if s[0]@ == v {
        0
    } else {
        1 + first_match(s.drop_first(), v)
    }
}

/// `s` without the first decimal of value `v`; `s` itself where there is
/// none.
pub open spec fn without_first(s: Seq<Decimal>, v: int) -> Seq<Decimal> {
    if first_match(s, v) < s.len() {
        s.remove(first_match(s, v))
    } else {
        s
    }
}

/// The first match is the place before which nothing matches and at which
/// the list ends or holds a match.
pub proof fn lemma_first_match(s: Seq<Decimal>, v: int, i: int)
    requires
        0 <= i <= s.len(),
        forall|j: int| 0 <= j < i ==> s[j]@ != v,
        i == s.len() || s[i]@ == v,
    ensures
        first_match(s, v) == i,
    decreases i,
{
    if i > 0 {
        let rest = s.drop_first();
        assert forall|j: int| 0 <= j < i - 1 implies rest[j]@ != v by {
            assert(rest[j] == s[j + 1]);
        }
        assert(i - 1 == rest.len() || rest[i - 1] == s[i]);
        lemma_first_match(rest, v, i - 1);
    }
}

/// The reconciliation state as plain values.
pub struct CoreView {
    /// What the strategy wants to hold.
    pub target: Decimal,
    /// What has been filled, signed and summed.
    pub filled: Decimal,
    /// The signed remainders of the open orders.
    pub open: Seq<Decimal>,
}

impl CoreView {
    /// The sum of the open orders.
    pub open spec fn exposure(self) -> Option<Decimal> {
        sum_of(self.open)
    }

    /// `target - (filled + open)`, each step as the decimal arithmetic
    /// computes it; `None` where a step overflows.
    pub open spec fn delta(self) -> Option<Decimal> {
        match self.exposure() {
            Some(open) => match self.filled.plus(open) {
                Some(held) => self.target.minus(held),
                None => None,
            },
            None => None,
        }
    }

    /// Whether every step of [`CoreView::delta`] is exact.
    pub open spec fn reconciles_exactly(self) -> bool {
        &&& sums_exactly(self.open)
        &&& self.exposure() matches Some(open) && sum_is_exact(self.filled, open)
        &&& self.filled.plus(self.exposure().unwrap()) matches Some(held) && difference_is_exact(
            self.target,
            held,
        )
    }

    /// Reconciliation: where the arithmetic is exact, delta is the target
    /// less what has been filled and less what is open.
    pub proof fn lemma_delta_reconciles(self)
        requires
            self.reconciles_exactly(),
        ensures
            self.delta() matches Some(d) && d@ == self.target@ - self.filled@ - total_units(
                self.open,
            ),
    {
        lemma_exact_sum(self.open);
    }
}

/// Target, filled and open quantity.
#[derive(Debug)]
pub struct OmsCore {
    target_position: Quantity,
    filled_position: Quantity,
    open_orders: Vec<Quantity>,
}

impl View for OmsCore {
    type V = CoreView;

    closed spec fn view(&self) -> CoreView {
        CoreView {
            target: self.target_position.0,
            filled: self.filled_position.0,
            open: amounts(self.open_orders@),
        }
    }
}

impl OmsCore {
    /// A core with target and filled quantity at zero and no open orders.
    pub fn new() -> (r: OmsCore)
        ensures
            r@ == (CoreView { target: Decimal::of(0, 0), filled: Decimal::of(0, 0), open: Seq::empty() }),
    {
        let r = OmsCore {
            target_position: Quantity::zero(),
            filled_position: Quantity::zero(),
            open_orders: Vec::new(),
        };
        assert(amounts(r.open_orders@) =~= Seq::empty());
        r
    }

    /// What the strategy wants to hold.
    pub fn target(&self) -> (r: Quantity)
        ensures
            r.0 == self@.target,
    {
        self.target_position
    }

    /// What has been filled, signed and summed.
    pub fn filled(&self) -> (r: Quantity)
        ensures
            r.0 == self@.filled,
    {
        self.filled_position
    }

    /// Sets what the strategy wants to hold.
    pub fn set_target_position(&mut self, qty: Quantity)
        ensures
            final(self)@ == (CoreView { target: qty.0, ..old(self)@ }),
    {
        self.target_position = qty;
    }

    /// Adds a signed fill to the filled quantity. On overflow nothing changes
    /// and the result is an error.
    pub fn on_fill(&mut self, fill_qty: Quantity) -> (r: Result<(), ArithmeticError>)
        ensures
            match old(self)@.filled.plus(fill_qty.0) {
                Some(filled) => r.is_ok() && final(self)@ == (CoreView { filled, ..old(self)@ }),
                None => r.is_err() && final(self)@ == old(self)@,
            },
    {
        match self.filled_position.checked_add(fill_qty) {
            Some(filled) => {
                self.filled_position = filled;
                Ok(())
            },
            None => Err(ArithmeticError),
        }
    }

    /// Records the signed remainder of one more open order.
    pub fn add_open_order(&mut self, qty: Quantity)
        ensures
            final(self)@ == (CoreView { open: old(self)@.open.push(qty.0), ..old(self)@ }),
    {
        self.open_orders.push(qty);
        assert(amounts(self.open_orders@) =~= amounts(old(self).open_orders@).push(qty.0));
    }

    /// Takes out the first open order whose remainder equals `qty` in value;
    /// where there is none, nothing changes.
    pub fn remove_open_order(&mut self, qty: Quantity)
        ensures
            final(self)@ == (CoreView {
                open: without_first(old(self)@.open, qty.0@),
                ..old(self)@
            }),
    {
        let ghost before = amounts(self.open_orders@);
        let mut i: usize = 0;
        while i < self.open_orders.len()
            invariant
                i <= self.open_orders.len(),
                *self == *old(self),
                before == amounts(self.open_orders@),
                forall|j: int| 0 <= j < i ==> before[j]@ != qty.0@,
            decreases self.open_orders.len() - i,
        {
            if self.open_orders[i].0 == qty.0 {
                proof {
                    lemma_first_match(before, qty.0@, i as int);
                }
                self.open_orders.remove(i);
                assert(amounts(self.open_orders@) =~= before.remove(i as int));
                return ;
            }
            i = i + 1;
        }
        proof {
            lemma_first_match(before, qty.0@, i as int);
        }
    }

    /// The sum of the open orders, or an error on overflow.
    pub fn open_exposure(&self) -> (r: Result<Quantity, ArithmeticError>)
        ensures
            match self@.exposure() {
                Some(d) => r == Ok::<Quantity, ArithmeticError>(Quantity(d)),
                None => r.is_err(),
            },
    {
        let mut acc = Quantity::zero();
        let mut i: usize = 0;
        while i < self.open_orders.len()
            invariant
                i <= self.open_orders.len(),
                sum_of(amounts(self.open_orders@).take(i as int)) == Some(acc.0),
            decreases self.open_orders.len() - i,
        {
            let ghost all = amounts(self.open_orders@);
            assert(all.take(i + 1).drop_last() =~= all.take(i as int));
            match acc.checked_add(self.open_orders[i]) {
                Some(next) => {
                    acc = next;
                },
                None => {
                    proof {
                        lemma_sum_fails_onward(all, i + 1);
                    }
                    return Err(ArithmeticError);
                },
            }
            i = i + 1;
        }
        assert(amounts(self.open_orders@).take(i as int) =~= amounts(self.open_orders@));
        Ok(acc)
    }

    /// The quantity still to be placed to reach the target: `target -
    /// (filled + open)`, or an error where a step overflows.
    pub fn delta(&self) -> (r: Result<Quantity, ArithmeticError>)
        ensures
            match self@.delta() {
                Some(d) => r == Ok::<Quantity, ArithmeticError>(Quantity(d)),
                None => r.is_err(),
            },
    {
        let open = match self.open_exposure() {
            Ok(q) => q,
            Err(e) => {
                return Err(e);
            },
        };
        let held = match self.filled_position.checked_add(open) {
            Some(q) => q,
            None => {
                return Err(ArithmeticError);
            },
        };
        match self.target_position.checked_sub(held) {
            Some(d) => Ok(d),
            None => Err(ArithmeticError),
        }
    }

    /// Whether every step of delta is exact: no sum and no difference on
    /// the way overflows or is rounded. Delta is then the target less what
    /// has been filled and less what is open, to the last digit.
    pub fn reconciles_exactly(&self) -> (b: bool)
        ensures
            b == self@.reconciles_exactly(),
    {
        let ghost all = amounts(self.open_orders@);
        let mut acc = Decimal::zero();
        let mut i: usize = 0;
        while i < self.open_orders.len()
            invariant
                i <= self.open_orders.len(),
                all == amounts(self.open_orders@),
                sums_exactly(all.take(i as int)),
                sum_of(all.take(i as int)) == Some(acc),
            decreases self.open_orders.len() - i,
        {
            assert(all.take(i + 1).drop_last() =~= all.take(i as int));
            acc = match acc.exact_add(&self.open_orders[i].0) {
                Some(sum) => sum,
                None => {
                    proof {
                        lemma_inexact_onward(all, i + 1);
                    }
                    return false;
                },
            };
            i = i + 1;
        }
        assert(all.take(i as int) =~= all);
        match self.filled_position.0.exact_add(&acc) {
            Some(held) => self.target_position.0.exact_sub(&held).is_some(),
            None => false,
        }
    }

    /// Forgets all open orders.
    pub fn clear_open_orders(&mut self)
        ensures
            final(self)@ == (CoreView { open: Seq::empty(), ..old(self)@ }),
    {
        self.open_orders.clear();
        assert(amounts(self.open_orders@) =~= Seq::empty());
    }
}

/// Once a step of the sum has been rounded or has overflowed, no longer
/// prefix sums exactly.
pub proof fn lemma_inexact_onward(s: Seq<Decimal>, n: int)
    requires
        0 <= n <= s.len(),
        !sums_exactly(s.take(n)),
    ensures
        !sums_exactly(s),
    decreases s.len() - n,
{
    if n < s.len() {
        assert(s.take(n + 1).drop_last() =~= s.take(n));
        lemma_inexact_onward(s, n + 1);
    } else {
        assert(s.take(n) =~= s);
    }
}

/// Once a step of the sum has overflowed, so has the sum of any longer
/// prefix.
pub proof fn lemma_sum_fails_onward(s: Seq<Decimal>, n: int)
    requires
        0 <= n <= s.len(),
        sum_of(s.take(n)).is_none(),
    ensures
        sum_of(s).is_none(),
    decreases s.len() - n,
{
    if n < s.len() {
        assert(s.take(n + 1).drop_last() =~= s.take(n));
        lemma_sum_fails_onward(s, n + 1);
    } else {
        assert(s.take(n) =~= s);
    }
}

} // verus!
