//! Fills from the venue's stream: each hash is let through once, and the
//! client order id of a fill leads back to the order.

use crate::decimal::Decimal;
use crate::oms::event::OmsEvent;
use crate::oms::order::OrderId;
use vstd::prelude::*;

verus! {

/// The value of a hexadecimal digit, of either case.
pub open spec fn hex_digit(c: char) -> Option<u8> {
    if '0' <= c <= '9' {
        Some((c as u8 - '0' as u8) as u8)
    } else if 'a' <= c <= 'f' {
        Some((c as u8 - 'a' as u8 + 10) as u8)
    } else if 'A' <= c <= 'F' {
        Some((c as u8 - 'A' as u8 + 10) as u8)
    } else {
        None
    }
}

/// The bytes that a text of hexadecimal digits spells, two digits to the
/// byte, or `None` where the text has an odd length or holds anything but
/// hexadecimal digits.
pub open spec fn hex_bytes(text: Seq<char>) -> Option<Seq<u8>>
    decreases text.len(),
{
    if text.len() == 0 {
        Some(Seq::empty())
    } else if text.len() % 2 != 0 {
        None
    } else {
        let n = text.len() as int;
        match (hex_bytes(text.take(n - 2)), hex_digit(text[n - 2]), hex_digit(text[n - 1])) {
            (Some(head), Some(hi), Some(lo)) => Some(head.push((hi * 16 + lo) as u8)),
            _ => None,
        }
    }
}

/// The number that bytes spell, the first byte the most significant.
pub open spec fn big_endian(bytes: Seq<u8>) -> nat
    decreases bytes.len(),
{
    if bytes.len() == 0 {
        0
    } else {
        big_endian(bytes.drop_last()) * 256 + bytes.last() as nat
    }
}

/// A client order id without its `0x`, if it has one.
pub open spec fn unprefixed(text: Seq<char>) -> Seq<char> {
    if text.len() >= 2 && text[0] == '0' && text[1] == 'x' {
        text.subrange(2, text.len() as int)
    } else {
        text
    }
}

/// The order that a client order id names: the id is 32 hexadecimal
/// digits, with or without `0x` before them, and spells the 16 bytes of the
/// order's identifier. `None` for any other text.
pub open spec fn cloid_spec(text: Seq<char>) -> Option<OrderId> {
    let body = unprefixed(text);
    if body.len() != 32 {
        None
    } else {
        match hex_bytes(body) {
            Some(bytes) => if bytes.len() == 16 {
                Some(OrderId(big_endian(bytes) as u128))
            } else {
                None
            },
            None => None,
        }
    }
}

/// Calls `hex::decode`. Trusted: the text is read two hexadecimal digits to
/// the byte, upper and lower case alike, and anything else, an odd length
/// included, is refused.
#[verifier::external_body]
fn hex_decode(text: &str) -> (r: Option<Vec<u8>>)
    ensures
        match hex_bytes(text@) {
            Some(bytes) => r matches Some(v) && v@ == bytes,
            None => r.is_none(),
        },
{
    match hex::decode(text) {
        Ok(bytes) => Some(bytes),
        Err(_) => None,
    }
}

/// Calls `uuid::Uuid::from_slice` and `Uuid::as_u128`. Trusted: 16 bytes
/// give the number they spell, the first byte the most significant; any
/// other length is refused.
#[verifier::external_body]
fn uuid_from_bytes(bytes: &Vec<u8>) -> (r: Option<u128>)
    ensures
        r == (if bytes@.len() == 16 {
            Some(big_endian(bytes@) as u128)
        } else {
            None
        }),
{
    match uuid::Uuid::from_slice(bytes.as_slice()) {
        Ok(id) => Some(id.as_u128()),
        Err(_) => None,
    }
}

/// Reads a client order id back into the identifier of the order.
pub fn parse_cloid(text: &str) -> (r: Option<OrderId>)
    ensures
        r == cloid_spec(text@),
{
    let n = text.unicode_len();
    let body = if n >= 2 && text.get_char(0) == '0' && text.get_char(1) == 'x' {
        text.substring_char(2, n)
    } else {
        text
    };
    if body.unicode_len() != 32 {
        return None;
    }
    match hex_decode(body) {
        Some(bytes) => match uuid_from_bytes(&bytes) {
            Some(id) => Some(OrderId(id)),
            None => None,
        },
        None => None,
    }
}

/// One fill as the venue's stream reports it.
#[derive(Debug, Clone)]
pub struct WireFill {
    /// What tells one fill from another.
    pub hash: String,
    /// The client order id of the order filled, where the venue sends one.
    pub cloid: Option<String>,
    /// The quantity filled; `None` where what the venue sent is no number.
    pub qty: Option<Decimal>,
    /// The price of the fill; `None` where what the venue sent is no number.
    pub price: Option<Decimal>,
}

/// A fill was let through whose quantity or price is no number.
#[derive(Debug, Clone, Copy, PartialEq, Eq, Structural)]
pub struct UnreadableFill;

impl WireFill {
    /// Whether quantity and price are numbers.
    pub open spec fn readable(self) -> bool {
        self.qty is Some && self.price is Some
    }
}

/// The hashes of `hashes` that are let through, given those seen before:
/// each one that was neither seen before nor comes earlier in the list.
pub open spec fn let_through(seen: Seq<Seq<char>>, hashes: Seq<Seq<char>>) -> Seq<Seq<char>>
    decreases hashes.len(),
{
    if hashes.len() == 0 {
        Seq::empty()
    } else if seen.contains(hashes.first()) {
        let_through(seen, hashes.drop_first())
    } else {
        seq![hashes.first()] + let_through(seen.push(hashes.first()), hashes.drop_first())
    }
}

/// Each fill passes once per hash: among the hashes let through none was
/// seen before and none comes twice, however often the stream repeats it.
pub proof fn lemma_once_per_hash(seen: Seq<Seq<char>>, hashes: Seq<Seq<char>>)
    ensures
        ({
            let all = let_through(seen, hashes);
            &&& forall|i: int| 0 <= i < all.len() ==> !seen.contains(#[trigger] all[i])
            &&& forall|i: int, j: int|
                0 <= i < j < all.len() ==> #[trigger] all[i] != #[trigger] all[j]
        }),
    decreases hashes.len(),
{
    let all = let_through(seen, hashes);
    if hashes.len() > 0 {
        let h = hashes.first();
        let rest = hashes.drop_first();
        if seen.contains(h) {
            lemma_once_per_hash(seen, rest);
            assert(all == let_through(seen, rest));
        } else {
            let more = seen.push(h);
            lemma_once_per_hash(more, rest);
            let tail = let_through(more, rest);
            assert(all == seq![h] + tail);
            assert(more.last() == h);
            assert(more.contains(h));
            assert forall|i: int| 0 <= i < all.len() implies !seen.contains(#[trigger] all[i]) by {
                if i > 0 {
                    assert(all[i] == tail[i - 1]);
                    assert(!more.contains(tail[i - 1]));
                    if seen.contains(tail[i - 1]) {
                        let k = choose|k: int| 0 <= k < seen.len() && seen[k] == tail[i - 1];
                        assert(more[k] == tail[i - 1]);
                    }
                } else {
                    assert(all[0] == h);
                }
            }
            assert forall|i: int, j: int| 0 <= i < j < all.len() implies #[trigger] all[i]
                != #[trigger] all[j] by {
                assert(all[j] == tail[j - 1]);
                assert(!more.contains(tail[j - 1]));
                if i == 0 {
                    assert(all[0] == h);
                } else {
                    assert(all[i] == tail[i - 1]);
                }
            }
        }
    } else {
        assert(all.len() == 0);
    }
}

/// The hashes of a list of fills.
pub open spec fn hashes_of(fills: Seq<WireFill>) -> Seq<Seq<char>> {
    fills.map_values(|f: WireFill| f.hash@)
}

/// The event that a fill becomes: a fill of the order that its client order
/// id names, or none where it has no such id or cannot be read.
pub open spec fn event_of(fill: WireFill) -> Option<OmsEvent> {
    match (fill.cloid, fill.qty, fill.price) {
        (Some(text), Some(qty), Some(price)) => match cloid_spec(text@) {
            Some(order_id) => Some(OmsEvent::Fill { order_id, qty, price }),
            None => None,
        },
        _ => None,
    }
}

/// Whether a fill that cannot be read is among those let through, given
/// the hashes seen before.
pub open spec fn lets_unreadable_through(seen: Seq<Seq<char>>, fills: Seq<WireFill>) -> bool
    decreases fills.len(),
{
    if fills.len() == 0 {
        false
    } else if seen.contains(fills.first().hash@) {
        lets_unreadable_through(seen, fills.drop_first())
    } else {
        !fills.first().readable() || lets_unreadable_through(
            seen.push(fills.first().hash@),
            fills.drop_first(),
        )
    }
}

/// The events of a list of fills, given the hashes seen before: a fill
/// whose hash was seen, before or earlier in the list, gives nothing.
pub open spec fn fill_events(seen: Seq<Seq<char>>, fills: Seq<WireFill>) -> Seq<OmsEvent>
    decreases fills.len(),
{
    if fills.len() == 0 {
        Seq::empty()
    } else if seen.contains(fills.first().hash@) {
        fill_events(seen, fills.drop_first())
    } else {
        (match event_of(fills.first()) {
            Some(e) => seq![e],
            None => Seq::empty(),
        }) + fill_events(seen.push(fills.first().hash@), fills.drop_first())
    }
}

/// The fills of a list that are let through, given the hashes seen before:
/// each one whose hash was neither seen before nor comes earlier in the
/// list.
pub open spec fn passed(seen: Seq<Seq<char>>, fills: Seq<WireFill>) -> Seq<WireFill>
    decreases fills.len(),
{
    if fills.len() == 0 {
        Seq::empty()
    } else if seen.contains(fills.first().hash@) {
        passed(seen, fills.drop_first())
    } else {
        seq![fills.first()] + passed(seen.push(fills.first().hash@), fills.drop_first())
    }
}

/// The events of a list of fills, one for each fill that names an order.
pub open spec fn events_of(fills: Seq<WireFill>) -> Seq<OmsEvent>
    decreases fills.len(),
{
    if fills.len() == 0 {
        Seq::empty()
    } else {
        (match event_of(fills.first()) {
            Some(e) => seq![e],
            None => Seq::empty(),
        }) + events_of(fills.drop_first())
    }
}

/// The events that go out are those of the fills let through, and the
/// fills let through are those whose hashes are let through: so no two
/// events go back to one hash, and none to a hash seen before.
pub proof fn lemma_events_once_per_hash(seen: Seq<Seq<char>>, fills: Seq<WireFill>)
    ensures
        fill_events(seen, fills) == events_of(passed(seen, fills)),
        hashes_of(passed(seen, fills)) == let_through(seen, hashes_of(fills)),
        forall|i: int|
            0 <= i < passed(seen, fills).len() ==> !seen.contains(
                (#[trigger] passed(seen, fills)[i]).hash@,
            ),
        forall|i: int, j: int|
            0 <= i < j < passed(seen, fills).len() ==> (#[trigger] passed(seen, fills)[i]).hash@
                != (#[trigger] passed(seen, fills)[j]).hash@,
    decreases fills.len(),
{
    let kept = passed(seen, fills);
    if fills.len() > 0 {
        let first = fills.first();
        let rest = fills.drop_first();
        assert(hashes_of(fills).first() == first.hash@);
        assert(hashes_of(fills).drop_first() =~= hashes_of(rest));
        if seen.contains(first.hash@) {
            lemma_events_once_per_hash(seen, rest);
        } else {
            let more = seen.push(first.hash@);
            lemma_events_once_per_hash(more, rest);
            let tail = passed(more, rest);
            assert(kept == seq![first] + tail);
            assert(kept.drop_first() =~= tail);
            assert(hashes_of(kept) =~= seq![first.hash@] + hashes_of(tail));
        }
    } else {
        assert(hashes_of(kept) =~= Seq::<Seq<char>>::empty());
    }
    lemma_once_per_hash(seen, hashes_of(fills));
    let through = let_through(seen, hashes_of(fills));
    assert(hashes_of(kept) == through);
    assert forall|i: int| 0 <= i < kept.len() implies !seen.contains((#[trigger] kept[i]).hash@) by {
        assert(through[i] == kept[i].hash@);
        assert(!seen.contains(through[i]));
    }
    assert forall|i: int, j: int| 0 <= i < j < kept.len() implies (#[trigger] kept[i]).hash@ != (
    #[trigger] kept[j]).hash@ by {
        assert(through[i] == kept[i].hash@);
        assert(through[j] == kept[j].hash@);
        assert(through[i] != through[j]);
    }
}

/// The hashes of the fills already seen.
#[derive(Debug)]
pub struct FillDedup {
    seen: Vec<String>,
}

impl View for FillDedup {
    type V = Seq<Seq<char>>;

    closed spec fn view(&self) -> Seq<Seq<char>> {
        self.seen@.map_values(|s: String| s@)
    }
}

impl FillDedup {
    /// A record in which nothing has been seen.
    pub fn new() -> (r: FillDedup)
        ensures
            r@ == Seq::<Seq<char>>::empty(),
    {
        let r = FillDedup { seen: Vec::new() };
        assert(r@ =~= Seq::<Seq<char>>::empty());
        r
    }

    /// Whether a fill with this hash was seen before.
    pub fn contains(&self, hash: &String) -> (b: bool)
        ensures
            b == self@.contains(hash@),
    {
        let mut i: usize = 0;
        while i < self.seen.len()
            invariant
                i <= self.seen.len(),
                forall|j: int| 0 <= j < i ==> self@[j] != hash@,
            decreases self.seen.len() - i,
        {
            if self.seen[i] == *hash {
                assert(self@[i as int] == hash@);
                return true;
            }
            i = i + 1;
        }
        false
    }

    /// Lets a hash through once: returns whether it is new, and remembers
    /// it if it is.
    pub fn first_sight(&mut self, hash: String) -> (fresh: bool)
        ensures
            fresh == !old(self)@.contains(hash@),
            fresh ==> final(self)@ == old(self)@.push(hash@),
            !fresh ==> final(self)@ == old(self)@,
    {
        if self.contains(&hash) {
            false
        } else {
            let ghost key = hash@;
            self.seen.push(hash);
            assert(self@ =~= old(self)@.push(key));
            true
        }
    }

    /// The fill events of one message of the venue's stream. A snapshot of
    /// past fills gives none and is not looked into. Of the other fills each
    /// is let through once per hash, and those whose client order id names
    /// an order become events; the rest are not ours and are dropped. A fill
    /// let through that cannot be read is an error; one that is held back
    /// is never read.
    pub fn on_user_fills(&mut self, is_snapshot: bool, fills: Vec<WireFill>) -> (r: Result<
        Vec<OmsEvent>,
        UnreadableFill,
    >)
        ensures
            is_snapshot ==> (r matches Ok(out) && out@.len() == 0) && final(self)@ == old(self)@,
            !is_snapshot ==> final(self)@ == old(self)@ + let_through(
                old(self)@,
                hashes_of(fills@),
            ),
            !is_snapshot && lets_unreadable_through(old(self)@, fills@) ==> r is Err,
            !is_snapshot && !lets_unreadable_through(old(self)@, fills@) ==> (r matches Ok(out)
                && out@ == fill_events(old(self)@, fills@)),
    {
        let mut out: Vec<OmsEvent> = Vec::new();
        let mut unreadable = false;
        if is_snapshot {
            return Ok(out);
        }
        let ghost hashes = hashes_of(fills@);
        let ghost start = self@;
        let mut i: usize = 0;
        proof {
            assert(fills@.skip(0) =~= fills@);
            assert(start + let_through(start, hashes) =~= self@ + let_through(
                self@,
                hashes_of(fills@.skip(0)),
            ));
            assert(out@ + fill_events(self@, fills@.skip(0)) =~= fill_events(start, fills@));
        }
        while i < fills.len()
            invariant
                i <= fills.len(),
                start + let_through(start, hashes_of(fills@)) == self@ + let_through(
                    self@,
                    hashes_of(fills@.skip(i as int)),
                ),
                fill_events(start, fills@) == out@ + fill_events(self@, fills@.skip(i as int)),
                lets_unreadable_through(start, fills@) == (unreadable || lets_unreadable_through(
                    self@,
                    fills@.skip(i as int),
                )),
            decreases fills.len() - i,
        {
            let fill = &fills[i];
            let ghost before = self@;
            let ghost seen_out = out@;
            let ghost rest = fills@.skip(i as int);
            proof {
                assert(rest.first() == fills@[i as int]);
                assert(rest.drop_first() =~= fills@.skip(i + 1));
                assert(hashes_of(rest).first() == fill.hash@);
                assert(hashes_of(rest).drop_first() =~= hashes_of(fills@.skip(i + 1)));
            }
            let fresh = self.first_sight(fill.hash.clone());
            if fresh {
                proof {
                    assert(before + let_through(before, hashes_of(rest)) =~= before.push(
                        fill.hash@,
                    ) + let_through(before.push(fill.hash@), hashes_of(rest).drop_first()));
                }
                match (&fill.cloid, fill.qty, fill.price) {
                    (Some(text), Some(qty), Some(price)) => match parse_cloid(text.as_str()) {
                        Some(order_id) => {
                            out.push(OmsEvent::Fill { order_id, qty, price });
                        },
                        None => {},
                    },
                    (_, None, _) => {
                        unreadable = true;
                    },
                    (_, _, None) => {
                        unreadable = true;
                    },
                    _ => {},
                }
                proof {
                    let here = match event_of(fills@[i as int]) {
                        Some(e) => seq![e],
                        None => Seq::<OmsEvent>::empty(),
                    };
                    assert(out@ =~= seen_out + here);
                    assert(seen_out + (here + fill_events(self@, rest.drop_first())) =~= out@
                        + fill_events(self@, rest.drop_first()));
                }
            }
            i = i + 1;
        }
        proof {
            assert(fills@.skip(i as int) =~= Seq::<WireFill>::empty());
            assert(hashes_of(fills@.skip(i as int)) =~= Seq::<Seq<char>>::empty());
            assert(self@ + Seq::<Seq<char>>::empty() =~= self@);
            assert(out@ + Seq::<OmsEvent>::empty() =~= out@);
        }
        if unreadable {
            Err(UnreadableFill)
        } else {
            Ok(out)
        }
    }
}

} // verus!
