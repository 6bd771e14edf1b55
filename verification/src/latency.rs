//! Trades, the buffer that holds them between two depth events, and the
//! latency of the feed.

use vstd::prelude::*;

use crate::decimal::Decimal;

verus! {

/// A trade as the exchange reports it. Times are in milliseconds since the
/// epoch.
#[derive(Debug, Clone, Copy, PartialEq, Eq, Structural)]
pub struct Trade {
    pub time: i64,
    pub price: Decimal,
    pub quantity: Decimal,
    pub is_sell: bool,
}

/// A buffered trade with the latency that was measured when it arrived.
#[derive(Debug, Clone, Copy, PartialEq, Eq, Structural)]
pub struct TradeSample {
    pub trade: Trade,
    pub latency: i64,
}

/// The latency of the feed at one depth event, in milliseconds.
///
/// `trade_latency` is the mean latency of the trades that arrived since the
/// previous depth event, and `None` when none arrived.
#[derive(Debug, Clone, Copy, PartialEq, Eq, Structural)]
pub struct FeedLatency {
    pub time: i64,
    pub depth_latency: i64,
    pub trade_latency: Option<i64>,
}

/// The value of `x` brought into the range of `i64`.
pub open spec fn clamp(x: int) -> i64 {
    if x < i64::MIN {
        i64::MIN
    } else if x > i64::MAX {
        i64::MAX
    } else {
        x as i64
    }
}

/// The time that has passed at `now` since `time`. The difference of any two
/// times that a clock can show within 292 million years of each other is
/// exact; beyond that it stops at the bounds of `i64`.
pub open spec fn age(now: i64, time: i64) -> i64 {
    clamp(now - time)
}

/// The sum of the latencies of `samples`.
pub open spec fn latency_sum(samples: Seq<TradeSample>) -> int
    decreases samples.len(),
{
    if samples.len() == 0 {
        0
    } else {
        latency_sum(samples.drop_last()) + samples.last().latency
    }
}

/// The quotient of `a` by a positive `b`, rounded towards zero.
pub open spec fn quotient_towards_zero(a: int, b: int) -> int {
    if a >= 0 {
        a / b
    } else {
        -((-a) / b)
    }
}

/// The mean latency of `samples`, rounded towards zero; `None` when there are
/// no samples.
pub open spec fn mean_latency(samples: Seq<TradeSample>) -> Option<i64> {
    if samples.len() == 0 {
        None
    } else {
        Some(quotient_towards_zero(latency_sum(samples), samples.len() as int) as i64)
    }
}

/// The trades of `samples`, in order.
pub open spec fn trades_of(samples: Seq<TradeSample>) -> Seq<Trade> {
    Seq::new(samples.len(), |i: int| samples[i].trade)
}

/// The sum of `n` latencies lies within `n` times the bounds of one.
proof fn lemma_latency_sum_bounds(samples: Seq<TradeSample>)
    ensures
        samples.len() * (i64::MIN as int) <= latency_sum(samples) <= samples.len() * (
        i64::MAX as int),
    decreases samples.len(),
{
    if samples.len() > 0 {
        lemma_latency_sum_bounds(samples.drop_last());
        let n = samples.len() as int;
        assert((n - 1) * (i64::MIN as int) + (i64::MIN as int) == n * (i64::MIN as int))
            by (nonlinear_arith);
        assert((n - 1) * (i64::MAX as int) + (i64::MAX as int) == n * (i64::MAX as int))
            by (nonlinear_arith);
    }
}

/// The mean of latencies is itself within the bounds of a latency.
pub proof fn lemma_mean_in_range(samples: Seq<TradeSample>)
    requires
        samples.len() > 0,
    ensures
        i64::MIN <= quotient_towards_zero(latency_sum(samples), samples.len() as int) <= i64::MAX,
{
    lemma_latency_sum_bounds(samples);
    let n = samples.len() as int;
    let s = latency_sum(samples);
    if s >= 0 {
        assert(0 <= s / n <= i64::MAX) by (nonlinear_arith)
            requires
                n > 0,
                0 <= s <= n * (i64::MAX as int),
        ;
    } else {
        assert(0 <= (-s) / n <= -(i64::MIN as int)) by (nonlinear_arith)
            requires
                n > 0,
                0 <= -s <= n * (-(i64::MIN as int)),
        ;
    }
}

/// The time that has passed at `now` since `time`.
pub fn elapsed(now: i64, time: i64) -> (result: i64)
    ensures
        result == age(now, time),
{
    let difference: i128 = now as i128 - time as i128;
    if difference < i64::MIN as i128 {
        i64::MIN
    } else if difference > i64::MAX as i128 {
        i64::MAX
    } else {
        difference as i64
    }
}

/// The mean latency of the buffered trades, rounded towards zero; `None`
/// when the buffer is empty.
pub fn mean(samples: &Vec<TradeSample>) -> (result: Option<i64>)
    ensures
        result == mean_latency(samples@),
{
    let n = samples.len();
    if n == 0 {
        return None;
    }
    let mut sum: i128 = 0;
    let mut i: usize = 0;
    while i < n
        invariant
            i <= n,
            n == samples@.len(),
            sum == latency_sum(samples@.subrange(0, i as int)),
        decreases n - i,
    {
        proof {
            lemma_latency_sum_bounds(samples@.subrange(0, i as int));
            assert(samples@.subrange(0, i + 1).drop_last() =~= samples@.subrange(0, i as int));
            assert(i * (i64::MIN as int) >= -0x8000_0000_0000_0000 * 0xffff_ffff_ffff_ffff)
                by (nonlinear_arith)
                requires
                    0 <= i <= 0xffff_ffff_ffff_ffff,
                    i64::MIN == -0x8000_0000_0000_0000,
            ;
            assert(i * (i64::MAX as int) <= 0x7fff_ffff_ffff_ffff * 0xffff_ffff_ffff_ffff)
                by (nonlinear_arith)
                requires
                    0 <= i <= 0xffff_ffff_ffff_ffff,
                    i64::MAX == 0x7fff_ffff_ffff_ffff,
            ;
        }
        sum = sum + samples[i].latency as i128;
        i += 1;
    }
    proof {
        assert(samples@.subrange(0, n as int) =~= samples@);
        lemma_mean_in_range(samples@);
        lemma_latency_sum_bounds(samples@);
        assert(n * (i64::MIN as int) >= -0x8000_0000_0000_0000 * 0xffff_ffff_ffff_ffff)
            by (nonlinear_arith)
            requires
                0 <= n <= 0xffff_ffff_ffff_ffff,
                i64::MIN == -0x8000_0000_0000_0000,
        ;
    }
    if sum >= 0 {
        let magnitude: u128 = sum as u128;
        let quotient: u128 = magnitude / (n as u128);
        Some(quotient as i64)
    } else {
        let magnitude: u128 = (-sum) as u128;
        let quotient: u128 = magnitude / (n as u128);
        if quotient > i64::MAX as u128 {
            Some(i64::MIN)
        } else {
            Some(-(quotient as i64))
        }
    }
}

/// Empties the buffer and hands out the trades it held, in their order of
/// arrival.
pub fn take_trades(samples: &mut Vec<TradeSample>) -> (trades: Vec<Trade>)
    ensures
        trades@ == trades_of(old(samples)@),
        final(samples)@ == Seq::<TradeSample>::empty(),
{
    let mut trades: Vec<Trade> = Vec::new();
    let n = samples.len();
    let mut i: usize = 0;
    while i < n
        invariant
            i <= n,
            n == samples@.len(),
            samples@ == old(samples)@,
            trades@ == trades_of(samples@.subrange(0, i as int)),
        decreases n - i,
    {
        trades.push(samples[i].trade);
        assert(trades@ =~= trades_of(samples@.subrange(0, i + 1)));
        i += 1;
    }
    assert(samples@.subrange(0, n as int) =~= samples@);
    samples.clear();
    trades
}

} // verus!
