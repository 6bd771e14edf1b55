//! The local order book and the merge of price levels into it.
//!
//! A side of the book is modelled as a map from price to quantity, both in
//! decimal units. The book stores each side as a listing ordered by price,
//! best price first, without empty levels.

use vstd::prelude::*;

use crate::decimal::Decimal;

verus! {

/// A price and the quantity resting at it. A quantity of zero denotes, in an
/// update, that the level is to be removed.
#[derive(Clone, Copy, Debug, PartialEq, Eq, Structural)]
pub struct PriceLevel {
    pub price: Decimal,
    pub quantity: Decimal,
}

/// The side of the book that a level belongs to.
#[derive(Clone, Copy, Debug, PartialEq, Eq, Structural)]
pub enum Side {
    Bid,
    Ask,
}

/// A full picture of the book as fetched on demand.
#[derive(Debug, Clone, PartialEq, Eq)]
pub struct FetchedDepth {
    pub update_id: u64,
    pub time: i64,
    pub bids: Vec<PriceLevel>,
    pub asks: Vec<PriceLevel>,
}

/// An incremental update of the book, tagged with the range of sequence
/// numbers that it covers.
#[derive(Debug, Clone, PartialEq, Eq)]
pub struct DepthDiff {
    pub time: i64,
    pub first_id: u64,
    pub final_id: u64,
    pub prev_final_id: u64,
    pub bids: Vec<PriceLevel>,
    pub asks: Vec<PriceLevel>,
}

/// The levels of both sides at one moment, best price first.
#[derive(Debug, Clone, PartialEq, Eq)]
pub struct Depth {
    pub time: i64,
    pub bids: Vec<PriceLevel>,
    pub asks: Vec<PriceLevel>,
}

/// What a [`FetchedDepth`] holds.
pub struct FetchedDepthView {
    pub update_id: u64,
    pub time: i64,
    pub bids: Seq<PriceLevel>,
    pub asks: Seq<PriceLevel>,
}

/// What a [`DepthDiff`] holds.
pub struct DepthDiffView {
    pub time: i64,
    pub first_id: u64,
    pub final_id: u64,
    pub prev_final_id: u64,
    pub bids: Seq<PriceLevel>,
    pub asks: Seq<PriceLevel>,
}

/// What a [`Depth`] holds.
pub struct DepthView {
    pub time: i64,
    pub bids: Seq<PriceLevel>,
    pub asks: Seq<PriceLevel>,
}

impl View for FetchedDepth {
    type V = FetchedDepthView;

    open spec fn view(&self) -> FetchedDepthView {
        FetchedDepthView {
            update_id: self.update_id,
            time: self.time,
            bids: self.bids@,
            asks: self.asks@,
        }
    }
}

impl View for DepthDiff {
    type V = DepthDiffView;

    open spec fn view(&self) -> DepthDiffView {
        DepthDiffView {
            time: self.time,
            first_id: self.first_id,
            final_id: self.final_id,
            prev_final_id: self.prev_final_id,
            bids: self.bids@,
            asks: self.asks@,
        }
    }
}

impl View for Depth {
    type V = DepthView;

    open spec fn view(&self) -> DepthView {
        DepthView { time: self.time, bids: self.bids@, asks: self.asks@ }
    }
}

/// The effect of one level on a side: a zero quantity removes the price, any
/// other quantity is stored under the price, replacing what was there.
pub open spec fn apply_level(side: Map<u64, u64>, level: PriceLevel) -> Map<u64, u64> {
    if level.quantity.units == 0 {
        side.remove(level.price.units)
    } else {
        side.insert(level.price.units, level.quantity.units)
    }
}

/// The effect of a sequence of levels on a side, applied first to last.
pub open spec fn apply_levels(side: Map<u64, u64>, levels: Seq<PriceLevel>) -> Map<u64, u64>
    decreases levels.len(),
{
    if levels.len() == 0 {
        side
    } else {
        apply_level(apply_levels(side, levels.drop_last()), levels.last())
    }
}

/// Whether every price of `side` carries a quantity above zero.
pub open spec fn no_empty_level(side: Map<u64, u64>) -> bool {
    forall|p: u64| side.contains_key(p) ==> #[trigger] side[p] > 0
}

/// Whether price `a` is listed ahead of price `b`: bids run from the highest
/// price down, asks from the lowest price up.
pub open spec fn comes_before(side: Side, a: u64, b: u64) -> bool {
    match side {
        Side::Bid => a > b,
        Side::Ask => a < b,
    }
}

/// Whether `levels` is listed strictly in the order of `side`; no price then
/// occurs twice.
pub open spec fn ordered(side: Side, levels: Seq<PriceLevel>) -> bool {
    forall|i: int, j: int|
        0 <= i < j < levels.len() ==> comes_before(
            side,
            (#[trigger] levels[i]).price.units,
            (#[trigger] levels[j]).price.units,
        )
}

/// Whether every level of `levels` has a quantity above zero.
pub open spec fn all_positive(levels: Seq<PriceLevel>) -> bool {
    forall|i: int| 0 <= i < levels.len() ==> (#[trigger] levels[i]).quantity.units > 0
}

/// Whether some level of `levels` is at price `p`.
pub open spec fn has_price(levels: Seq<PriceLevel>, p: u64) -> bool {
    exists|i: int| 0 <= i < levels.len() && (#[trigger] levels[i]).price.units == p
}

/// The index of a level of `levels` at price `p`.
pub open spec fn index_of_price(levels: Seq<PriceLevel>, p: u64) -> int {
    choose|i: int| 0 <= i < levels.len() && (#[trigger] levels[i]).price.units == p
}

/// The map from price to quantity that a listing stands for.
pub open spec fn listing_map(levels: Seq<PriceLevel>) -> Map<u64, u64> {
    Map::new(
        |p: u64| has_price(levels, p),
        |p: u64| levels[index_of_price(levels, p)].quantity.units,
    )
}

/// In an ordered listing every level is found under its price.
pub proof fn lemma_listing_lookup(side: Side, levels: Seq<PriceLevel>, i: int)
    requires
        ordered(side, levels),
        0 <= i < levels.len(),
    ensures
        listing_map(levels).contains_key(levels[i].price.units),
        listing_map(levels)[levels[i].price.units] == levels[i].quantity.units,
{
    let p = levels[i].price.units;
    assert(has_price(levels, p));
    let j = index_of_price(levels, p);
    assert(0 <= j < levels.len() && levels[j].price.units == p);
    if j < i {
        assert(comes_before(side, levels[j].price.units, levels[i].price.units));
    } else if i < j {
        assert(comes_before(side, levels[i].price.units, levels[j].price.units));
    }
}

/// An ordered listing without empty levels stands for a side without empty
/// levels.
pub proof fn lemma_listing_no_empty_level(side: Side, levels: Seq<PriceLevel>)
    requires
        ordered(side, levels),
        all_positive(levels),
    ensures
        no_empty_level(listing_map(levels)),
{
    assert forall|p: u64| listing_map(levels).contains_key(p) implies #[trigger] listing_map(
        levels,
    )[p] > 0 by {
        let j = index_of_price(levels, p);
        assert(0 <= j < levels.len() && levels[j].price.units == p);
        lemma_listing_lookup(side, levels, j);
    }
}

/// Whether price `a` is listed ahead of price `b` on `side`.
pub fn before(side: Side, a: Decimal, b: Decimal) -> (result: bool)
    ensures
        result == comes_before(side, a.units, b.units),
{
    match side {
        Side::Bid => a.units > b.units,
        Side::Ask => a.units < b.units,
    }
}

/// The number of levels of an ordered listing that are listed ahead of
/// `price`: the index at which `price` stands or would be inserted.
pub fn position(levels: &Vec<PriceLevel>, side: Side, price: Decimal) -> (index: usize)
    requires
        ordered(side, levels@),
    ensures
        index <= levels@.len(),
        forall|j: int| 0 <= j < index ==> comes_before(side, levels@[j].price.units, price.units),
        forall|j: int|
            index <= j < levels@.len() ==> !comes_before(side, levels@[j].price.units, price.units),
{
    let mut low: usize = 0;
    let mut high: usize = levels.len();
    while low < high
        invariant
            low <= high <= levels@.len(),
            ordered(side, levels@),
            forall|j: int| 0 <= j < low ==> comes_before(side, levels@[j].price.units, price.units),
            forall|j: int|
                high <= j < levels@.len() ==> !comes_before(
                    side,
                    levels@[j].price.units,
                    price.units,
                ),
        decreases high - low,
    {
        let mid = low + (high - low) / 2;
        if before(side, levels[mid].price, price) {
            assert forall|j: int| 0 <= j < mid + 1 implies comes_before(
                side,
                levels@[j].price.units,
                price.units,
            ) by {
                if j < mid {
                    assert(comes_before(side, levels@[j].price.units, levels@[mid as int].price.units));
                }
            }
            low = mid + 1;
        } else {
            assert forall|j: int| mid <= j < levels@.len() implies !comes_before(
                side,
                levels@[j].price.units,
                price.units,
            ) by {
                if mid < j {
                    assert(comes_before(side, levels@[mid as int].price.units, levels@[j].price.units));
                }
            }
            high = mid;
        }
    }
    low
}

/// Merges one level into an ordered listing.
///
/// A level of quantity zero removes its price where the listing has it and
/// changes nothing where it has not; any other level is stored under its
/// price, replacing the quantity that was there.
pub fn merge_level(levels: &mut Vec<PriceLevel>, side: Side, level: PriceLevel)
    requires
        ordered(side, old(levels)@),
        all_positive(old(levels)@),
    ensures
        ordered(side, final(levels)@),
        all_positive(final(levels)@),
        listing_map(final(levels)@) == apply_level(listing_map(old(levels)@), level),
{
    let index = position(levels, side, level.price);
    let ghost before_merge = levels@;
    let ghost price = level.price.units;
    let found = index < levels.len() && levels[index].price.units == level.price.units;
    proof {
        if !found {
            assert forall|j: int| 0 <= j < before_merge.len() implies before_merge[j].price.units
                != price by {
                if j == index {
                } else if j > index {
                    assert(comes_before(
                        side,
                        before_merge[index as int].price.units,
                        before_merge[j].price.units,
                    ));
                }
            }
            assert(!has_price(before_merge, price));
        }
    }
    if level.quantity.units == 0 {
        if found {
            levels.remove(index);
            proof {
                lemma_remove_listing(side, before_merge, index as int);
            }
        } else {
            assert(listing_map(before_merge).remove(price) =~= listing_map(before_merge));
        }
    } else if found {
        levels.set(index, level);
        proof {
            lemma_update_listing(side, before_merge, index as int, level);
        }
    } else {
        levels.insert(index, level);
        proof {
            lemma_insert_listing(side, before_merge, index as int, level);
        }
    }
}

/// Removing the level at `index` from an ordered listing removes its price
/// from the side.
proof fn lemma_remove_listing(side: Side, levels: Seq<PriceLevel>, index: int)
    requires
        ordered(side, levels),
        all_positive(levels),
        0 <= index < levels.len(),
    ensures
        ordered(side, levels.remove(index)),
        all_positive(levels.remove(index)),
        listing_map(levels.remove(index)) == listing_map(levels).remove(
            levels[index].price.units,
        ),
{
    let after = levels.remove(index);
    let price = levels[index].price.units;
    let source = |j: int| if j < index { j } else { j + 1 };
    assert forall|j: int| 0 <= j < after.len() implies #[trigger] after[j] == levels[source(j)] by {}
    assert forall|i: int, j: int| 0 <= i < j < after.len() implies comes_before(
        side,
        (#[trigger] after[i]).price.units,
        (#[trigger] after[j]).price.units,
    ) by {
        assert(after[i] == levels[source(i)] && after[j] == levels[source(j)]);
    }
    assert forall|j: int| 0 <= j < after.len() implies (#[trigger] after[j]).quantity.units
        > 0 by {
        assert(after[j] == levels[source(j)]);
    }
    let expected = listing_map(levels).remove(price);
    assert forall|p: u64| listing_map(after).contains_key(p) implies expected.contains_key(p)
        && expected[p] == listing_map(after)[p] by {
        let j = index_of_price(after, p);
        assert(0 <= j < after.len() && after[j].price.units == p);
        assert(after[j] == levels[source(j)]);
        if source(j) < index {
            assert(comes_before(side, levels[source(j)].price.units, levels[index].price.units));
        } else {
            assert(comes_before(side, levels[index].price.units, levels[source(j)].price.units));
        }
        lemma_listing_lookup(side, levels, source(j));
        lemma_listing_lookup(side, after, j);
    }
    assert forall|p: u64| expected.contains_key(p) implies listing_map(after).contains_key(p) by {
        let j = index_of_price(levels, p);
        assert(0 <= j < levels.len() && levels[j].price.units == p);
        assert(j != index);
        let k = if j < index { j } else { j - 1 };
        assert(after[k] == levels[source(k)]);
    }
    assert(listing_map(after) =~= expected);
}

/// Replacing the level at `index` by one of the same price stores the new
/// quantity under that price.
proof fn lemma_update_listing(side: Side, levels: Seq<PriceLevel>, index: int, level: PriceLevel)
    requires
        ordered(side, levels),
        all_positive(levels),
        0 <= index < levels.len(),
        levels[index].price.units == level.price.units,
        level.quantity.units > 0,
    ensures
        ordered(side, levels.update(index, level)),
        all_positive(levels.update(index, level)),
        listing_map(levels.update(index, level)) == listing_map(levels).insert(
            level.price.units,
            level.quantity.units,
        ),
{
    let after = levels.update(index, level);
    assert forall|j: int| 0 <= j < after.len() implies (#[trigger] after[j]).price
        == levels[j].price by {}
    assert forall|i: int, j: int| 0 <= i < j < after.len() implies comes_before(
        side,
        (#[trigger] after[i]).price.units,
        (#[trigger] after[j]).price.units,
    ) by {
        assert(after[i].price == levels[i].price && after[j].price == levels[j].price);
    }
    assert forall|j: int| 0 <= j < after.len() implies (#[trigger] after[j]).quantity.units
        > 0 by {
        if j != index {
            assert(after[j] == levels[j]);
        }
    }
    let expected = listing_map(levels).insert(level.price.units, level.quantity.units);
    assert forall|p: u64| listing_map(after).contains_key(p) implies expected.contains_key(p)
        && expected[p] == listing_map(after)[p] by {
        let j = index_of_price(after, p);
        assert(0 <= j < after.len() && after[j].price.units == p);
        assert(after[j].price == levels[j].price);
        lemma_listing_lookup(side, levels, j);
        lemma_listing_lookup(side, after, j);
        if j != index {
            assert(after[j] == levels[j]);
            if j < index {
                assert(comes_before(side, levels[j].price.units, levels[index].price.units));
            } else {
                assert(comes_before(side, levels[index].price.units, levels[j].price.units));
            }
        }
    }
    assert forall|p: u64| expected.contains_key(p) implies listing_map(after).contains_key(p) by {
        if p == level.price.units {
            assert(after[index].price.units == p);
        } else {
            let j = index_of_price(levels, p);
            assert(0 <= j < levels.len() && levels[j].price.units == p);
            assert(after[j].price == levels[j].price);
        }
    }
    assert(listing_map(after) =~= expected);
}

/// Inserting a level of a new price at its position stores its quantity under
/// that price.
proof fn lemma_insert_listing(side: Side, levels: Seq<PriceLevel>, index: int, level: PriceLevel)
    requires
        ordered(side, levels),
        all_positive(levels),
        0 <= index <= levels.len(),
        level.quantity.units > 0,
        !has_price(levels, level.price.units),
        forall|j: int| 0 <= j < index ==> comes_before(side, levels[j].price.units, level.price.units),
        forall|j: int|
            index <= j < levels.len() ==> !comes_before(side, levels[j].price.units, level.price.units),
    ensures
        ordered(side, levels.insert(index, level)),
        all_positive(levels.insert(index, level)),
        listing_map(levels.insert(index, level)) == listing_map(levels).insert(
            level.price.units,
            level.quantity.units,
        ),
{
    let after = levels.insert(index, level);
    let price = level.price.units;
    let source = |j: int| if j < index { j } else { j - 1 };
    assert forall|j: int| 0 <= j < after.len() && j != index implies #[trigger] after[j]
        == levels[source(j)] by {}
    assert(after[index] == level);
    assert forall|j: int| index <= j < levels.len() implies comes_before(
        side,
        price,
        levels[j].price.units,
    ) by {
        assert(levels[j].price.units != price);
    }
    assert forall|i: int, j: int| 0 <= i < j < after.len() implies comes_before(
        side,
        (#[trigger] after[i]).price.units,
        (#[trigger] after[j]).price.units,
    ) by {
        if i != index {
            assert(after[i] == levels[source(i)]);
        }
        if j != index {
            assert(after[j] == levels[source(j)]);
        }
    }
    assert forall|j: int| 0 <= j < after.len() implies (#[trigger] after[j]).quantity.units
        > 0 by {
        if j != index {
            assert(after[j] == levels[source(j)]);
        }
    }
    let expected = listing_map(levels).insert(price, level.quantity.units);
    assert forall|p: u64| listing_map(after).contains_key(p) implies expected.contains_key(p)
        && expected[p] == listing_map(after)[p] by {
        let j = index_of_price(after, p);
        assert(0 <= j < after.len() && after[j].price.units == p);
        lemma_listing_lookup(side, after, j);
        if j != index {
            assert(after[j] == levels[source(j)]);
            lemma_listing_lookup(side, levels, source(j));
        }
    }
    assert forall|p: u64| expected.contains_key(p) implies listing_map(after).contains_key(p) by {
        if p == price {
            assert(after[index].price.units == p);
        } else {
            let j = index_of_price(levels, p);
            assert(0 <= j < levels.len() && levels[j].price.units == p);
            let k = if j < index { j } else { j + 1 };
            assert(after[k] == levels[source(k)]);
        }
    }
    assert(listing_map(after) =~= expected);
}

/// Merges a sequence of levels into an ordered listing, first to last.
pub fn merge_levels(levels: &mut Vec<PriceLevel>, side: Side, updates: &Vec<PriceLevel>)
    requires
        ordered(side, old(levels)@),
        all_positive(old(levels)@),
    ensures
        ordered(side, final(levels)@),
        all_positive(final(levels)@),
        listing_map(final(levels)@) == apply_levels(listing_map(old(levels)@), updates@),
{
    let ghost start = listing_map(levels@);
    let mut i: usize = 0;
    while i < updates.len()
        invariant
            i <= updates@.len(),
            ordered(side, levels@),
            all_positive(levels@),
            listing_map(levels@) == apply_levels(start, updates@.subrange(0, i as int)),
        decreases updates@.len() - i,
    {
        merge_level(levels, side, updates[i]);
        proof {
            assert(updates@.subrange(0, i + 1).drop_last() =~= updates@.subrange(0, i as int));
        }
        i += 1;
    }
    assert(updates@.subrange(0, i as int) =~= updates@);
}

/// A copy of a listing.
pub fn copy_levels(levels: &Vec<PriceLevel>) -> (result: Vec<PriceLevel>)
    ensures
        result@ == levels@,
{
    let mut result: Vec<PriceLevel> = Vec::new();
    let mut i: usize = 0;
    while i < levels.len()
        invariant
            i <= levels@.len(),
            result@ == levels@.subrange(0, i as int),
        decreases levels@.len() - i,
    {
        result.push(levels[i]);
        assert(result@ =~= levels@.subrange(0, i + 1));
        i += 1;
    }
    assert(result@ =~= levels@);
    result
}

/// What an order book holds: the listing of each side, the sequence number
/// it was last brought up to, and the time of that update.
pub struct BookView {
    pub bids: Seq<PriceLevel>,
    pub asks: Seq<PriceLevel>,
    pub last_applied_id: u64,
    pub time: i64,
}

impl BookView {
    /// The bids as a map from price to quantity.
    pub open spec fn bid_map(self) -> Map<u64, u64> {
        listing_map(self.bids)
    }

    /// The asks as a map from price to quantity.
    pub open spec fn ask_map(self) -> Map<u64, u64> {
        listing_map(self.asks)
    }

    /// The invariant of a book: bids listed from the highest price down, asks
    /// from the lowest price up, no price twice on a side, no empty level.
    pub open spec fn valid(self) -> bool {
        &&& ordered(Side::Bid, self.bids)
        &&& all_positive(self.bids)
        &&& ordered(Side::Ask, self.asks)
        &&& all_positive(self.asks)
    }

    /// Whether the book is valid and holds the given sides, sequence number
    /// and time.
    pub open spec fn holds(self, bids: Map<u64, u64>, asks: Map<u64, u64>, id: u64, time: i64)
        -> bool {
        &&& self.valid()
        &&& self.bid_map() == bids
        &&& self.ask_map() == asks
        &&& self.last_applied_id == id
        &&& self.time == time
    }

    /// Whether `book` is the book that `snapshot` describes: the levels of
    /// the snapshot merged, in the order given, into empty sides.
    pub open spec fn describes(snapshot: FetchedDepthView, book: BookView) -> bool {
        book.holds(
            apply_levels(Map::<u64, u64>::empty(), snapshot.bids),
            apply_levels(Map::<u64, u64>::empty(), snapshot.asks),
            snapshot.update_id,
            snapshot.time,
        )
    }

    /// Whether `after` is this book with `diff` applied: the levels of the
    /// diff merged, first to last, into the sides, and the final sequence
    /// number and the time of the diff taken over.
    pub open spec fn merged(self, diff: DepthDiffView, after: BookView) -> bool {
        after.holds(
            apply_levels(self.bid_map(), diff.bids),
            apply_levels(self.ask_map(), diff.asks),
            diff.final_id,
            diff.time,
        )
    }
}

/// The reconstructed order book of one instrument.
///
/// Bids are listed from the highest price down and asks from the lowest price
/// up; no price occurs twice on a side and no listed quantity is zero. A
/// `last_applied_id` of zero marks a book that has no snapshot yet.
#[derive(Debug, Clone, PartialEq, Eq)]
pub struct OrderBook {
    bids: Vec<PriceLevel>,
    asks: Vec<PriceLevel>,
    last_applied_id: u64,
    time: i64,
}

impl View for OrderBook {
    type V = BookView;

    closed spec fn view(&self) -> BookView {
        BookView {
            bids: self.bids@,
            asks: self.asks@,
            last_applied_id: self.last_applied_id,
            time: self.time,
        }
    }
}

impl OrderBook {
    /// The invariant of the book; see [`BookView::valid`].
    pub open spec fn wf(&self) -> bool {
        self@.valid()
    }

    /// A book without levels and without a snapshot.
    pub fn new() -> (book: OrderBook)
        ensures
            book.wf(),
            book@.bids == Seq::<PriceLevel>::empty(),
            book@.asks == Seq::<PriceLevel>::empty(),
            book@.last_applied_id == 0,
            book@.time == 0,
    {
        OrderBook { bids: Vec::new(), asks: Vec::new(), last_applied_id: 0, time: 0 }
    }

    /// The book that a snapshot describes: its levels merged, in the order
    /// given, into empty sides.
    pub fn from_snapshot(snapshot: &FetchedDepth) -> (book: OrderBook)
        ensures
            BookView::describes(snapshot@, book@),
    {
        let mut book = OrderBook::new();
        proof {
            lemma_empty_listing();
        }
        merge_levels(&mut book.bids, Side::Bid, &snapshot.bids);
        merge_levels(&mut book.asks, Side::Ask, &snapshot.asks);
        book.last_applied_id = snapshot.update_id;
        book.time = snapshot.time;
        book
    }

    /// Replaces the whole book by the one that a snapshot describes.
    pub fn fetched(&mut self, snapshot: &FetchedDepth)
        ensures
            BookView::describes(snapshot@, final(self)@),
    {
        *self = OrderBook::from_snapshot(snapshot);
    }

    /// Merges one level into a side of the book.
    pub fn upsert(&mut self, side: Side, level: PriceLevel)
        requires
            old(self).wf(),
        ensures
            final(self).wf(),
            final(self)@.last_applied_id == old(self)@.last_applied_id,
            final(self)@.time == old(self)@.time,
            side == Side::Bid ==> final(self)@.bid_map() == apply_level(old(self)@.bid_map(), level)
                && final(self)@.asks == old(self)@.asks,
            side == Side::Ask ==> final(self)@.ask_map() == apply_level(old(self)@.ask_map(), level)
                && final(self)@.bids == old(self)@.bids,
    {
        match side {
            Side::Bid => merge_level(&mut self.bids, Side::Bid, level),
            Side::Ask => merge_level(&mut self.asks, Side::Ask, level),
        }
    }

    /// Applies a diff: merges its bid levels and its ask levels, first to
    /// last, and records its final sequence number and its time.
    pub fn apply(&mut self, diff: &DepthDiff)
        requires
            old(self).wf(),
        ensures
            old(self)@.merged(diff@, final(self)@),
    {
        merge_levels(&mut self.bids, Side::Bid, &diff.bids);
        merge_levels(&mut self.asks, Side::Ask, &diff.asks);
        self.last_applied_id = diff.final_id;
        self.time = diff.time;
    }

    /// The sequence number that the book was last brought up to; zero while
    /// it has no snapshot.
    pub fn last_applied_id(&self) -> (id: u64)
        ensures
            id == self@.last_applied_id,
    {
        self.last_applied_id
    }

    /// The time of the snapshot or diff that the book was last brought up to.
    pub fn time(&self) -> (time: i64)
        ensures
            time == self@.time,
    {
        self.time
    }

    /// The bids, from the highest price down.
    pub fn bids(&self) -> (levels: &Vec<PriceLevel>)
        ensures
            levels@ == self@.bids,
    {
        &self.bids
    }

    /// The asks, from the lowest price up.
    pub fn asks(&self) -> (levels: &Vec<PriceLevel>)
        ensures
            levels@ == self@.asks,
    {
        &self.asks
    }

    /// The quantity resting at `price` on `side`, if the book lists that
    /// price.
    pub fn quantity_at(&self, side: Side, price: Decimal) -> (result: Option<Decimal>)
        requires
            self.wf(),
        ensures
            side == Side::Bid ==> result == lookup(self@.bid_map(), price.units),
            side == Side::Ask ==> result == lookup(self@.ask_map(), price.units),
    {
        match side {
            Side::Bid => find_quantity(&self.bids, Side::Bid, price),
            Side::Ask => find_quantity(&self.asks, Side::Ask, price),
        }
    }

    /// A copy of both listings with the time of the book.
    pub fn depth(&self) -> (depth: Depth)
        ensures
            depth@.time == self@.time,
            depth@.bids == self@.bids,
            depth@.asks == self@.asks,
    {
        Depth { time: self.time, bids: copy_levels(&self.bids), asks: copy_levels(&self.asks) }
    }
}

/// The empty listing is ordered, has no empty level and stands for the empty
/// side.
pub proof fn lemma_empty_listing()
    ensures
        ordered(Side::Bid, Seq::<PriceLevel>::empty()),
        ordered(Side::Ask, Seq::<PriceLevel>::empty()),
        all_positive(Seq::<PriceLevel>::empty()),
        listing_map(Seq::<PriceLevel>::empty()) == Map::<u64, u64>::empty(),
{
    assert(listing_map(Seq::<PriceLevel>::empty()) =~= Map::<u64, u64>::empty());
}

/// The quantity that `side` holds under `price`, as a decimal.
pub open spec fn lookup(side: Map<u64, u64>, price: u64) -> Option<Decimal> {
    if side.contains_key(price) {
        Some(Decimal { units: side[price] })
    } else {
        None
    }
}

/// The quantity listed under `price` in an ordered listing.
pub fn find_quantity(levels: &Vec<PriceLevel>, side: Side, price: Decimal) -> (result: Option<
    Decimal,
>)
    requires
        ordered(side, levels@),
    ensures
        result == lookup(listing_map(levels@), price.units),
{
    let index = position(levels, side, price);
    if index < levels.len() && levels[index].price.units == price.units {
        proof {
            lemma_listing_lookup(side, levels@, index as int);
        }
        Some(levels[index].quantity)
    } else {
        proof {
            assert forall|j: int| 0 <= j < levels@.len() implies levels@[j].price.units
                != price.units by {
                if j > index {
                    assert(comes_before(
                        side,
                        levels@[index as int].price.units,
                        levels@[j].price.units,
                    ));
                }
            }
            assert(!has_price(levels@, price.units));
        }
        None
    }
}

} // verus!
