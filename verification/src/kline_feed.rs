//! The life of a candle subscription as a state machine.
//!
//! It is driven like a [`crate::session::Session`]: the driver reports what
//! happened on the transport and is told what to do next. A candle
//! subscription has no book and fetches no snapshot.

use vstd::prelude::*;

use crate::decode::{feed_de, frame_of, KlineUpdateView, StreamData, StreamDataView};
use crate::session::{
    quiet, Command, Connection, ConnectionState, Event, EventView, Input, InputView, Step,
    StepView,
};
use crate::symbols::{Ticker, Timeframe};

verus! {

/// Where a candle subscription stands.
#[derive(Debug, Clone, Copy, PartialEq, Eq, Structural)]
pub enum FeedPhase {
    /// No connection; the driver pauses or is about to be told to connect.
    Disconnected,
    /// The driver is connecting.
    Connecting,
    /// The connection stands and frames are read.
    Streaming,
}

/// The state of a candle subscription.
#[derive(Debug, Clone, PartialEq, Eq)]
pub struct KlineFeed {
    /// The instruments and widths subscribed to.
    pub subscriptions: Vec<(Ticker, Timeframe)>,
    /// The pause, in milliseconds, before a connect attempt that follows a
    /// disconnect.
    pub backoff_millis: u64,
    pub phase: FeedPhase,
}

/// What a [`KlineFeed`] holds.
pub struct KlineFeedView {
    pub subscriptions: Seq<(Ticker, Timeframe)>,
    pub backoff_millis: u64,
    pub phase: FeedPhase,
}

impl View for KlineFeed {
    type V = KlineFeedView;

    open spec fn view(&self) -> KlineFeedView {
        KlineFeedView {
            subscriptions: self.subscriptions@,
            backoff_millis: self.backoff_millis,
            phase: self.phase,
        }
    }
}

/// The width of the first subscription whose width is named `interval`.
pub open spec fn width_named(subscriptions: Seq<(Ticker, Timeframe)>, interval: Seq<char>)
    -> Option<Timeframe>
    decreases subscriptions.len(),
{
    if subscriptions.len() == 0 {
        None
    } else {
        let (_, timeframe) = subscriptions[0];
        if timeframe.interval() == interval {
            Some(timeframe)
        } else {
            width_named(subscriptions.drop_first(), interval)
        }
    }
}

/// The event that a candle update becomes: none where no subscription is of
/// its width.
pub open spec fn kline_event(subscriptions: Seq<(Ticker, Timeframe)>, update: KlineUpdateView)
    -> Option<EventView> {
    match width_named(subscriptions, update.interval) {
        Some(timeframe) => Some(EventView::KlineReceived(update.ticker, update.kline, timeframe)),
        None => None,
    }
}

/// The event that a decoded message becomes for a candle subscription: only
/// candles count.
pub open spec fn message_event(subscriptions: Seq<(Ticker, Timeframe)>, data: StreamDataView)
    -> Option<EventView> {
    match data {
        StreamDataView::Kline(update) => kline_event(subscriptions, update),
        _ => None,
    }
}

/// The event that a text frame becomes for a candle subscription. A frame
/// that cannot be decoded is dropped.
pub open spec fn frame_event(subscriptions: Seq<(Ticker, Timeframe)>, frame: Seq<u8>) -> Option<
    EventView,
> {
    match frame_of(frame) {
        Ok(data) => message_event(subscriptions, data),
        Err(_) => None,
    }
}

/// What the driver was last told to do in a phase.
pub open spec fn feed_awaited(backoff_millis: u64, phase: FeedPhase) -> Command {
    match phase {
        FeedPhase::Disconnected => Command::Wait(backoff_millis),
        FeedPhase::Connecting => Command::Connect,
        FeedPhase::Streaming => Command::ReadFrame,
    }
}

/// The state of `pre` in another phase.
pub open spec fn in_phase(pre: KlineFeedView, phase: FeedPhase) -> KlineFeedView {
    KlineFeedView { phase, ..pre }
}

/// The step into `Disconnected`.
pub open spec fn feed_disconnects(pre: KlineFeedView, post: KlineFeedView, out: StepView) -> bool {
    &&& post == in_phase(pre, FeedPhase::Disconnected)
    &&& out == StepView {
        event: Some(EventView::Disconnected),
        command: Command::Wait(pre.backoff_millis),
    }
}

/// The step of a candle subscription: how the state `post` and the outcome
/// `out` follow from the state `pre` and what the driver reports.
pub open spec fn feed_step(pre: KlineFeedView, input: InputView, post: KlineFeedView, out: StepView)
    -> bool {
    match pre.phase {
        FeedPhase::Disconnected => match input {
            InputView::Tick => post == in_phase(pre, FeedPhase::Connecting) && out == quiet(
                Command::Connect,
            ),
            _ => post == pre && out == quiet(feed_awaited(pre.backoff_millis, pre.phase)),
        },
        FeedPhase::Connecting => match input {
            InputView::Connected => post == in_phase(pre, FeedPhase::Streaming) && out
                == StepView { event: Some(EventView::Connected), command: Command::ReadFrame },
            InputView::ConnectFailed => feed_disconnects(pre, post, out),
            _ => post == pre && out == quiet(feed_awaited(pre.backoff_millis, pre.phase)),
        },
        FeedPhase::Streaming => match input {
            InputView::Text(frame) => post == pre && out == StepView {
                event: frame_event(pre.subscriptions, frame),
                command: Command::ReadFrame,
            },
            InputView::Closed => feed_disconnects(pre, post, out),
            InputView::ReadFailed => feed_disconnects(pre, post, out),
            _ => post == pre && out == quiet(feed_awaited(pre.backoff_millis, pre.phase)),
        },
    }
}

/// The width of the first subscription whose width is named `interval`.
pub fn find_width(subscriptions: &Vec<(Ticker, Timeframe)>, interval: &str) -> (width: Option<
    Timeframe,
>)
    ensures
        width == width_named(subscriptions@, interval@),
{
    let ghost all = subscriptions@;
    let mut i: usize = 0;
    assert(all.subrange(0, all.len() as int) =~= all);
    while i < subscriptions.len()
        invariant
            i <= subscriptions@.len(),
            all == subscriptions@,
            width_named(all, interval@) == width_named(
                all.subrange(i as int, all.len() as int),
                interval@,
            ),
        decreases subscriptions@.len() - i,
    {
        let ghost rest = all.subrange(i as int, all.len() as int);
        proof {
            assert(rest[0] == all[i as int]);
            assert(rest.drop_first() =~= all.subrange(i + 1, all.len() as int));
        }
        let (_, timeframe) = subscriptions[i];
        if timeframe.is_named(interval) {
            return Some(timeframe);
        }
        i += 1;
    }
    None
}

/// What an optional event holds.
pub open spec fn event_view(event: Option<Event>) -> Option<EventView> {
    match event {
        Some(event) => Some(event@),
        None => None,
    }
}

impl KlineFeed {
    /// A candle subscription that has not connected yet.
    pub fn new(subscriptions: Vec<(Ticker, Timeframe)>, backoff_millis: u64) -> (feed: KlineFeed)
        ensures
            feed@ == (KlineFeedView {
                subscriptions: subscriptions@,
                backoff_millis,
                phase: FeedPhase::Disconnected,
            }),
    {
        KlineFeed { subscriptions, backoff_millis, phase: FeedPhase::Disconnected }
    }

    /// Whether the subscription has a live connection.
    pub fn connection(&self) -> (state: ConnectionState)
        ensures
            state == if self@.phase == FeedPhase::Streaming {
                ConnectionState::Connected
            } else {
                ConnectionState::Disconnected
            },
    {
        match self.phase {
            FeedPhase::Streaming => ConnectionState::Connected,
            _ => ConnectionState::Disconnected,
        }
    }

    /// The event that a decoded message becomes.
    pub fn on_message(&self, data: StreamData) -> (event: Option<Event>)
        ensures
            event_view(event) == message_event(self@.subscriptions, data@),
    {
        match data {
            StreamData::Kline(update) => {
                match find_width(&self.subscriptions, update.interval.as_str()) {
                    Some(timeframe) => Some(
                        Event::KlineReceived(update.ticker, update.kline, timeframe),
                    ),
                    None => None,
                }
            },
            _ => None,
        }
    }

    /// The event that a text frame becomes.
    pub fn on_frame(&self, frame: &[u8]) -> (event: Option<Event>)
        ensures
            event_view(event) == frame_event(self@.subscriptions, frame@),
    {
        match feed_de(frame) {
            Ok(data) => self.on_message(data),
            Err(_) => None,
        }
    }

    /// Moves into `Disconnected` and hands on the event `Disconnected`.
    fn disconnect(&mut self) -> (step: Step)
        ensures
            feed_disconnects(old(self)@, final(self)@, step@),
    {
        self.phase = FeedPhase::Disconnected;
        Step { event: Some(Event::Disconnected), command: Command::Wait(self.backoff_millis) }
    }

    /// Takes a step; see [`feed_step`].
    pub fn handle(&mut self, input: Input) -> (step: Step)
        ensures
            feed_step(old(self)@, input@, final(self)@, step@),
    {
        match self.phase {
            FeedPhase::Disconnected => match input {
                Input::Tick => {
                    self.phase = FeedPhase::Connecting;
                    Step { event: None, command: Command::Connect }
                },
                _ => Step { event: None, command: Command::Wait(self.backoff_millis) },
            },
            FeedPhase::Connecting => match input {
                Input::Connected => {
                    self.phase = FeedPhase::Streaming;
                    Step { event: Some(Event::Connected(Connection)), command: Command::ReadFrame }
                },
                Input::ConnectFailed => self.disconnect(),
                _ => Step { event: None, command: Command::Connect },
            },
            FeedPhase::Streaming => match input {
                Input::Text(frame) => {
                    let event = self.on_frame(frame.as_slice());
                    Step { event, command: Command::ReadFrame }
                },
                Input::Closed => self.disconnect(),
                Input::ReadFailed => self.disconnect(),
                _ => Step { event: None, command: Command::ReadFrame },
            },
        }
    }
}

} // verus!
