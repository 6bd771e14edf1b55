//! What holds of the book and of a session over any inputs.

use vstd::prelude::*;

use crate::book::{
    apply_level, apply_levels, comes_before, has_price, index_of_price,
    lemma_listing_lookup, lemma_listing_no_empty_level, listing_map, no_empty_level, ordered,
    BookView, DepthDiffView, FetchedDepthView, PriceLevel, Side,
};
use crate::decimal::Decimal;
use crate::decode::{frame_of, DecodeError, StreamDataView};
use crate::latency::{age, mean_latency, FeedLatency, Trade, TradeSample};
use crate::session::{
    awaited, merges, on_depth_spec, on_trade_spec, quiet, step_spec, streaming, Command,
    EventView, InputView, PhaseView, SessionView, StepView,
};
use crate::sync::{verdict_of, Verdict};

verus! {

/// A stale diff changes nothing: where the final sequence number of a diff
/// is not above the one that the book was brought up to, the step on the
/// diff leaves the session, and with it the book, exactly as it was and
/// hands on no event.
pub proof fn law_stale_diff_changes_nothing(
    pre: SessionView,
    diff: DepthDiffView,
    now: i64,
    post: SessionView,
    out: StepView,
)
    requires
        on_depth_spec(pre, diff, now, post, out),
        diff.final_id <= pre.book.last_applied_id,
    ensures
        post == pre,
        post.book == pre.book,
        out == quiet(awaited(pre.config, pre.phase)),
{
}

/// A stale diff changes nothing, seen from the driver: a text frame that
/// holds a stale diff leaves a session that reads frames exactly as it was.
pub proof fn law_stale_frame_changes_nothing(
    pre: SessionView,
    frame: Seq<u8>,
    diff: DepthDiffView,
    now: i64,
    post: SessionView,
    out: StepView,
)
    requires
        pre.phase == PhaseView::Streaming,
        frame_of(frame) == Ok::<StreamDataView, DecodeError>(
            StreamDataView::Depth(diff),
        ),
        diff.final_id <= pre.book.last_applied_id,
        step_spec(pre, InputView::Text(frame), now, post, out),
    ensures
        post == pre,
        out == quiet(Command::ReadFrame),
{
}

/// Merging one sequence of levels after another is merging the two joined.
pub proof fn lemma_apply_levels_joined(
    side: Map<u64, u64>,
    first: Seq<PriceLevel>,
    second: Seq<PriceLevel>,
)
    ensures
        apply_levels(apply_levels(side, first), second) == apply_levels(side, first + second),
    decreases second.len(),
{
    if second.len() == 0 {
        assert(first + second =~= first);
    } else {
        lemma_apply_levels_joined(side, first, second.drop_last());
        assert((first + second).drop_last() =~= first + second.drop_last());
        assert((first + second).last() == second.last());
    }
}

/// The bid levels of a sequence of diffs, joined in order.
pub open spec fn all_bids(diffs: Seq<DepthDiffView>) -> Seq<PriceLevel>
    decreases diffs.len(),
{
    if diffs.len() == 0 {
        Seq::empty()
    } else {
        all_bids(diffs.drop_last()) + diffs.last().bids
    }
}

/// The ask levels of a sequence of diffs, joined in order.
pub open spec fn all_asks(diffs: Seq<DepthDiffView>) -> Seq<PriceLevel>
    decreases diffs.len(),
{
    if diffs.len() == 0 {
        Seq::empty()
    } else {
        all_asks(diffs.drop_last()) + diffs.last().asks
    }
}

/// Whether diff `k` of `diffs` is accepted in state `k` of `states`: frames
/// are read there, the verdict on the diff is to merge it, and the step on
/// it, taken at time `nows[k]`, leads to state `k + 1` with outcome
/// `outs[k]`.
pub open spec fn accepted_step(
    states: Seq<SessionView>,
    diffs: Seq<DepthDiffView>,
    nows: Seq<i64>,
    outs: Seq<StepView>,
    k: int,
) -> bool {
    &&& streaming(states[k])
    &&& verdict_of(states[k].book.last_applied_id, states[k].prev_applied_final_id, diffs[k])
        == Verdict::Apply
    &&& on_depth_spec(states[k], diffs[k], nows[k], states[k + 1], outs[k])
}

/// Whether `states` is a run of a session over `diffs` in which every diff
/// is accepted.
pub open spec fn accepted_run(
    states: Seq<SessionView>,
    diffs: Seq<DepthDiffView>,
    nows: Seq<i64>,
    outs: Seq<StepView>,
) -> bool {
    &&& states.len() == diffs.len() + 1
    &&& nows.len() == diffs.len()
    &&& outs.len() == diffs.len()
    &&& forall|k: int|
        0 <= k < diffs.len() ==> #[trigger] accepted_step(states, diffs, nows, outs, k)
}

/// Merge correctness: after any run of accepted diffs on the book that a
/// snapshot describes, each side of the book is the side of the snapshot
/// with the levels of all the diffs merged in, one after the other in the
/// order of arrival, and no level of the book is empty.
pub proof fn law_merge_correctness(
    snapshot: FetchedDepthView,
    states: Seq<SessionView>,
    diffs: Seq<DepthDiffView>,
    nows: Seq<i64>,
    outs: Seq<StepView>,
)
    requires
        accepted_run(states, diffs, nows, outs),
        BookView::describes(snapshot, states[0].book),
    ensures
        states.last().book.valid(),
        states.last().book.bid_map() == apply_levels(
            Map::<u64, u64>::empty(),
            snapshot.bids + all_bids(diffs),
        ),
        states.last().book.ask_map() == apply_levels(
            Map::<u64, u64>::empty(),
            snapshot.asks + all_asks(diffs),
        ),
        no_empty_level(states.last().book.bid_map()),
        no_empty_level(states.last().book.ask_map()),
    decreases diffs.len(),
{
    if diffs.len() == 0 {
        assert(snapshot.bids + all_bids(diffs) =~= snapshot.bids);
        assert(snapshot.asks + all_asks(diffs) =~= snapshot.asks);
    } else {
        let n = diffs.len() as int;
        let earlier_states = states.drop_last();
        let earlier = diffs.drop_last();
        assert forall|k: int| 0 <= k < earlier.len() implies #[trigger] accepted_step(
            earlier_states,
            earlier,
            nows.drop_last(),
            outs.drop_last(),
            k,
        ) by {
            assert(accepted_step(states, diffs, nows, outs, k));
        }
        law_merge_correctness(snapshot, earlier_states, earlier, nows.drop_last(), outs.drop_last());
        assert(earlier_states.last() == states[n - 1]);
        assert(states.last() == states[n]);
        let last = diffs[n - 1];
        assert(diffs.last() == last);
        assert(accepted_step(states, diffs, nows, outs, n - 1));
        lemma_apply_levels_joined(
            Map::<u64, u64>::empty(),
            snapshot.bids + all_bids(earlier),
            last.bids,
        );
        lemma_apply_levels_joined(
            Map::<u64, u64>::empty(),
            snapshot.asks + all_asks(earlier),
            last.asks,
        );
        assert(snapshot.bids + all_bids(diffs) =~= (snapshot.bids + all_bids(earlier))
            + last.bids);
        assert(snapshot.asks + all_asks(diffs) =~= (snapshot.asks + all_asks(earlier))
            + last.asks);
    }
    lemma_listing_no_empty_level(Side::Bid, states.last().book.bids);
    lemma_listing_no_empty_level(Side::Ask, states.last().book.asks);
}

/// A side has one listing: two ordered listings that stand for the same side
/// are the same listing. What is stated of the sides of a book therefore
/// settles its listings.
pub proof fn law_listing_determined_by_side(side: Side, a: Seq<PriceLevel>, b: Seq<PriceLevel>)
    requires
        ordered(side, a),
        ordered(side, b),
        listing_map(a) == listing_map(b),
    ensures
        a == b,
    decreases a.len(),
{
    if a.len() == 0 {
        if b.len() > 0 {
            lemma_listing_lookup(side, b, 0);
            assert(has_price(a, b[0].price.units));
        }
        assert(a =~= b);
    } else {
        lemma_listing_lookup(side, a, 0);
        assert(has_price(b, a[0].price.units));
        let j = index_of_price(b, a[0].price.units);
        assert(0 <= j < b.len() && b[j].price.units == a[0].price.units);
        lemma_listing_lookup(side, b, 0);
        assert(has_price(a, b[0].price.units));
        let k = index_of_price(a, b[0].price.units);
        assert(0 <= k < a.len() && a[k].price.units == b[0].price.units);
        // The first price of each listing occurs in the other, and each is
        // ahead of the rest of its own listing: they are the same price.
        if j > 0 {
            assert(comes_before(side, b[0].price.units, b[j].price.units));
            if k > 0 {
                assert(comes_before(side, a[0].price.units, a[k].price.units));
            }
        }
        assert(a[0].price.units == b[0].price.units);
        lemma_listing_lookup(side, b, 0);
        assert(a[0] == b[0]);
        let ta = a.drop_first();
        let tb = b.drop_first();
        lemma_drop_first_listing(side, a);
        lemma_drop_first_listing(side, b);
        assert(listing_map(ta) =~= listing_map(tb));
        law_listing_determined_by_side(side, ta, tb);
        assert(a =~= seq![a[0]] + ta);
        assert(b =~= seq![b[0]] + tb);
    }
}

/// Dropping the first level of an ordered listing removes its price from the
/// side and leaves the rest as it was.
proof fn lemma_drop_first_listing(side: Side, levels: Seq<PriceLevel>)
    requires
        ordered(side, levels),
        levels.len() > 0,
    ensures
        ordered(side, levels.drop_first()),
        listing_map(levels.drop_first()) == listing_map(levels).remove(levels[0].price.units),
{
    let rest = levels.drop_first();
    let first = levels[0].price.units;
    assert forall|i: int, j: int| 0 <= i < j < rest.len() implies comes_before(
        side,
        (#[trigger] rest[i]).price.units,
        (#[trigger] rest[j]).price.units,
    ) by {
        assert(rest[i] == levels[i + 1] && rest[j] == levels[j + 1]);
    }
    let expected = listing_map(levels).remove(first);
    assert forall|p: u64| listing_map(rest).contains_key(p) implies expected.contains_key(p)
        && expected[p] == listing_map(rest)[p] by {
        let j = index_of_price(rest, p);
        assert(0 <= j < rest.len() && rest[j].price.units == p);
        assert(rest[j] == levels[j + 1]);
        assert(comes_before(side, levels[0].price.units, levels[j + 1].price.units));
        lemma_listing_lookup(side, levels, j + 1);
        lemma_listing_lookup(side, rest, j);
    }
    assert forall|p: u64| expected.contains_key(p) implies listing_map(rest).contains_key(p) by {
        let j = index_of_price(levels, p);
        assert(0 <= j < levels.len() && levels[j].price.units == p);
        assert(j > 0);
        assert(rest[j - 1] == levels[j]);
    }
    assert(listing_map(rest) =~= expected);
}

/// Whether `levels` holds no level at price `price` from index `from` on.
pub open spec fn untouched_from(levels: Seq<PriceLevel>, price: u64, from: int) -> bool {
    forall|j: int| from <= j < levels.len() ==> (#[trigger] levels[j]).price.units != price
}

/// The last level at a price decides: after a sequence of levels is merged
/// into a side, a price holds the quantity of the last level at that price,
/// and is absent where that quantity is zero.
pub proof fn law_last_write_wins(side: Map<u64, u64>, levels: Seq<PriceLevel>, index: int)
    requires
        0 <= index < levels.len(),
        untouched_from(levels, levels[index].price.units, index + 1),
    ensures
        levels[index].quantity.units == 0 ==> !apply_levels(side, levels).contains_key(
            levels[index].price.units,
        ),
        levels[index].quantity.units > 0 ==> apply_levels(side, levels).contains_key(
            levels[index].price.units,
        ) && apply_levels(side, levels)[levels[index].price.units] == levels[index].quantity.units,
    decreases levels.len(),
{
    if index < levels.len() - 1 {
        let earlier = levels.drop_last();
        assert(earlier[index] == levels[index]);
        assert forall|j: int| index + 1 <= j < earlier.len() implies (#[trigger] earlier[j]).price.units
            != levels[index].price.units by {
            assert(earlier[j] == levels[j]);
        }
        law_last_write_wins(side, earlier, index);
        assert(levels.last() == levels[levels.len() - 1]);
    }
}

/// A price that no level of a sequence names is left as it was when the
/// sequence is merged into a side.
pub proof fn law_other_prices_untouched(side: Map<u64, u64>, levels: Seq<PriceLevel>, price: u64)
    requires
        untouched_from(levels, price, 0),
    ensures
        apply_levels(side, levels).contains_key(price) == side.contains_key(price),
        side.contains_key(price) ==> apply_levels(side, levels)[price] == side[price],
    decreases levels.len(),
{
    if levels.len() > 0 {
        let earlier = levels.drop_last();
        assert forall|j: int| 0 <= j < earlier.len() implies (#[trigger] earlier[j]).price.units
            != price by {
            assert(earlier[j] == levels[j]);
        }
        law_other_prices_untouched(side, earlier, price);
        assert(levels.last() == levels[levels.len() - 1]);
    }
}

/// Removal and restore: a level of quantity zero at a price that the side
/// holds removes the price; merging, later, a level of a quantity above zero
/// at that price restores it with the new quantity, whatever was merged at
/// other prices in between.
pub proof fn law_removal_and_restore(
    side: Map<u64, u64>,
    price: Decimal,
    between: Seq<PriceLevel>,
    quantity: Decimal,
)
    requires
        side.contains_key(price.units),
        untouched_from(between, price.units, 0),
        quantity.units > 0,
    ensures
        ({
            let removed = apply_level(side, PriceLevel { price, quantity: Decimal { units: 0 } });
            let later = apply_levels(removed, between);
            let restored = apply_level(later, PriceLevel { price, quantity });
            &&& !removed.contains_key(price.units)
            &&& !later.contains_key(price.units)
            &&& restored.contains_key(price.units)
            &&& restored[price.units] == quantity.units
        }),
{
    let removed = apply_level(side, PriceLevel { price, quantity: Decimal { units: 0 } });
    law_other_prices_untouched(removed, between, price.units);
}

/// Merging is idempotent per price: merging the same level twice in a row
/// is merging it once.
pub proof fn law_merge_idempotent(side: Map<u64, u64>, level: PriceLevel)
    ensures
        apply_level(apply_level(side, level), level) == apply_level(side, level),
{
    assert(apply_level(apply_level(side, level), level) =~= apply_level(side, level));
}

/// A trade together with the time at which it arrived.
pub struct Arrival {
    pub trade: Trade,
    pub now: i64,
}

/// The samples that a sequence of arrivals leaves in the buffer.
pub open spec fn samples_of(arrivals: Seq<Arrival>) -> Seq<TradeSample> {
    Seq::new(
        arrivals.len(),
        |i: int|
            TradeSample {
                trade: arrivals[i].trade,
                latency: age(arrivals[i].now, arrivals[i].trade.time),
            },
    )
}

/// Whether frames are read in state `k` of `states` and the step on trade
/// `k` of `arrivals` leads from there to state `k + 1`.
pub open spec fn trade_step(states: Seq<SessionView>, arrivals: Seq<Arrival>, k: int) -> bool {
    &&& streaming(states[k])
    &&& on_trade_spec(
        states[k],
        arrivals[k].trade,
        arrivals[k].now,
        states[k + 1],
        quiet(Command::ReadFrame),
    )
}

/// Whether `states` is a run of a session over the trades of `arrivals`,
/// one step for each trade.
pub open spec fn trade_run(states: Seq<SessionView>, arrivals: Seq<Arrival>) -> bool {
    &&& states.len() == arrivals.len() + 1
    &&& forall|k: int| 0 <= k < arrivals.len() ==> #[trigger] trade_step(states, arrivals, k)
}

/// A run over trades adds the sample of each trade to the buffer, in order,
/// and changes nothing else.
pub proof fn lemma_trade_run(states: Seq<SessionView>, arrivals: Seq<Arrival>)
    requires
        trade_run(states, arrivals),
    ensures
        states.last() == (SessionView {
            buffer: states[0].buffer + samples_of(arrivals),
            ..states[0]
        }),
    decreases arrivals.len(),
{
    if arrivals.len() == 0 {
        assert(states[0].buffer + samples_of(arrivals) =~= states[0].buffer);
    } else {
        let n = arrivals.len() as int;
        let earlier_states = states.drop_last();
        let earlier = arrivals.drop_last();
        assert forall|k: int| 0 <= k < earlier.len() implies #[trigger] trade_step(
            earlier_states,
            earlier,
            k,
        ) by {
            assert(trade_step(states, arrivals, k));
        }
        lemma_trade_run(earlier_states, earlier);
        assert(trade_step(states, arrivals, n - 1));
        assert(states[0].buffer + samples_of(arrivals) =~= (states[0].buffer + samples_of(
            earlier,
        )).push(samples_of(arrivals)[n - 1]));
    }
}

/// Latency reset: the trade latency that a depth event carries is taken
/// from the trades that arrived since the depth event before it. Where none
/// arrived it is `None`; where some arrived it is the mean of the latencies
/// that they had on arrival.
///
/// The diff `earlier` is accepted in the state `before` and leaves the
/// first state of `states`, the run over the trades that arrived after it;
/// `post` and `out` are what the step on the next accepted diff gives.
pub proof fn law_latency_reset(
    before: SessionView,
    earlier: DepthDiffView,
    earlier_now: i64,
    earlier_out: StepView,
    states: Seq<SessionView>,
    arrivals: Seq<Arrival>,
    diff: DepthDiffView,
    now: i64,
    post: SessionView,
    out: StepView,
)
    requires
        streaming(before),
        verdict_of(before.book.last_applied_id, before.prev_applied_final_id, earlier)
            == Verdict::Apply,
        trade_run(states, arrivals),
        on_depth_spec(before, earlier, earlier_now, states[0], earlier_out),
        verdict_of(states.last().book.last_applied_id, states.last().prev_applied_final_id, diff)
            == Verdict::Apply,
        on_depth_spec(states.last(), diff, now, post, out),
    ensures
        out.event matches Some(EventView::DepthReceived(_, latency, _, _, _)) && latency
            == (FeedLatency {
            time: diff.time,
            depth_latency: age(now, diff.time),
            trade_latency: mean_latency(samples_of(arrivals)),
        }),
        arrivals.len() == 0 ==> (out.event matches Some(
            EventView::DepthReceived(_, latency, _, _, _),
        ) && latency.trade_latency is None),
        arrivals.len() > 0 ==> (out.event matches Some(
            EventView::DepthReceived(_, latency, _, _, _),
        ) && latency.trade_latency is Some),
        post.buffer == Seq::<TradeSample>::empty(),
{
    lemma_trade_run(states, arrivals);
    assert(states[0].buffer + samples_of(arrivals) =~= samples_of(arrivals));
}

/// Two valid books that hold the same sides, sequence number and time are
/// the same book.
pub proof fn lemma_book_determined(
    a: BookView,
    b: BookView,
    bids: Map<u64, u64>,
    asks: Map<u64, u64>,
    id: u64,
    time: i64,
)
    requires
        a.holds(bids, asks, id, time),
        b.holds(bids, asks, id, time),
    ensures
        a == b,
{
    law_listing_determined_by_side(Side::Bid, a.bids, b.bids);
    law_listing_determined_by_side(Side::Ask, a.asks, b.asks);
}

/// The step that merges a diff has one outcome.
proof fn lemma_merge_determined(
    pre: SessionView,
    bids: Map<u64, u64>,
    asks: Map<u64, u64>,
    diff: DepthDiffView,
    now: i64,
    first: SessionView,
    first_out: StepView,
    second: SessionView,
    second_out: StepView,
)
    requires
        merges(pre, bids, asks, diff, now, first, first_out),
        merges(pre, bids, asks, diff, now, second, second_out),
    ensures
        first == second,
        first_out == second_out,
{
    lemma_book_determined(
        first.book,
        second.book,
        apply_levels(bids, diff.bids),
        apply_levels(asks, diff.asks),
        diff.final_id,
        diff.time,
    );
}

/// A step has one outcome: the state before it, what the driver reports and
/// the time settle the state after it and what is handed on.
pub proof fn law_step_is_determined(
    pre: SessionView,
    input: InputView,
    now: i64,
    first: SessionView,
    first_out: StepView,
    second: SessionView,
    second_out: StepView,
)
    requires
        step_spec(pre, input, now, first, first_out),
        step_spec(pre, input, now, second, second_out),
    ensures
        first == second,
        first_out == second_out,
{
    match pre.phase {
        PhaseView::AwaitingSnapshot => {
            if let InputView::Snapshot(snapshot) = input {
                lemma_book_determined(
                    first.book,
                    second.book,
                    apply_levels(Map::<u64, u64>::empty(), snapshot.bids),
                    apply_levels(Map::<u64, u64>::empty(), snapshot.asks),
                    snapshot.update_id,
                    snapshot.time,
                );
            }
        },
        PhaseView::Streaming => {
            if let InputView::Text(frame) = input {
                if let Ok(StreamDataView::Depth(diff)) = frame_of(frame) {
                    if verdict_of(pre.book.last_applied_id, pre.prev_applied_final_id, diff)
                        == Verdict::Apply {
                        lemma_merge_determined(
                            pre,
                            pre.book.bid_map(),
                            pre.book.ask_map(),
                            diff,
                            now,
                            first,
                            first_out,
                            second,
                            second_out,
                        );
                    }
                }
            }
        },
        PhaseView::Resyncing(diff) => {
            if let InputView::Snapshot(snapshot) = input {
                lemma_merge_determined(
                    pre,
                    apply_levels(Map::<u64, u64>::empty(), snapshot.bids),
                    apply_levels(Map::<u64, u64>::empty(), snapshot.asks),
                    diff,
                    now,
                    first,
                    first_out,
                    second,
                    second_out,
                );
            }
        },
        _ => {},
    }
}

} // verus!
