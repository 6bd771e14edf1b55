//! The life of one subscription as a state machine.
//!
//! A driver owns the transport. It reports to the [`Session`] what happened
//! (a connect attempt ended, a snapshot arrived, a frame was read) and is
//! told what to do next; in between, the session decodes frames, buffers
//! trades, reconciles depth diffs with the book and says which event is to be
//! handed to the consumer.

use vstd::prelude::*;

use crate::book::{
    apply_levels, lemma_empty_listing, BookView, Depth, DepthDiff, DepthDiffView, DepthView,
    FetchedDepth, FetchedDepthView, OrderBook, PriceLevel,
};
use crate::clock::now_millis;
use crate::decode::{feed_de, frame_of, Kline, StreamData, StreamDataView};
use crate::latency::{
    age, elapsed, mean, mean_latency, take_trades, trades_of, FeedLatency, Trade, TradeSample,
};
use crate::symbols::{Ticker, Timeframe};
use crate::sync::{classify, verdict_of, Verdict};

verus! {

/// What a subscription is set up with.
#[derive(Debug, Clone, Copy, PartialEq, Eq, Structural)]
pub struct Config {
    /// The instrument subscribed to.
    pub ticker: Ticker,
    /// The number of levels per side that a snapshot is asked for.
    pub depth_limit: u32,
    /// The interval, in milliseconds, at which the exchange gathers depth
    /// diffs.
    pub interval_millis: u32,
    /// The pause, in milliseconds, before a connect attempt that follows a
    /// disconnect.
    pub backoff_millis: u64,
}

/// Whether the subscription has a live connection.
#[derive(Debug, Clone, Copy, PartialEq, Eq, Structural)]
pub enum ConnectionState {
    Disconnected,
    Connected,
}

/// The token that an event `Connected` carries.
#[derive(Debug, Clone, Copy, PartialEq, Eq, Structural)]
pub struct Connection;

/// Where a session stands.
#[derive(Debug, Clone, PartialEq, Eq)]
pub enum Phase {
    /// No connection; the driver pauses or is about to be told to connect.
    Disconnected,
    /// The driver is connecting.
    Connecting,
    /// The connection stands and the first snapshot is being fetched.
    AwaitingSnapshot,
    /// The connection stands, the book has a snapshot and frames are read.
    Streaming,
    /// Frames are not read while a fresh snapshot is fetched; the diff that
    /// showed the gap waits to be merged into it.
    Resyncing(DepthDiff),
}

/// What the driver reports.
#[derive(Debug, Clone, PartialEq, Eq)]
pub enum Input {
    /// The pause is over, or the driver has just started.
    Tick,
    /// The connect attempt succeeded.
    Connected,
    /// The connect attempt failed.
    ConnectFailed,
    /// The snapshot that was asked for.
    Snapshot(FetchedDepth),
    /// The snapshot could not be fetched or read.
    SnapshotFailed,
    /// A text frame.
    Text(Vec<u8>),
    /// A close frame.
    Closed,
    /// Reading a frame failed.
    ReadFailed,
    /// A frame of another kind.
    Other,
}

/// What the driver is to do next.
#[derive(Debug, Clone, Copy, PartialEq, Eq, Structural)]
pub enum Command {
    /// Open the connection and report `Connected` or `ConnectFailed`.
    Connect,
    /// Fetch a snapshot and report `Snapshot` or `SnapshotFailed`; read no
    /// frame meanwhile.
    FetchSnapshot,
    /// Read a frame and report it.
    ReadFrame,
    /// Drop the connection, pause for so many milliseconds, then report
    /// `Tick`.
    Wait(u64),
}

/// What is handed to the consumer.
#[derive(Debug, Clone, PartialEq, Eq)]
pub enum Event {
    Connected(Connection),
    Disconnected,
    /// A depth diff was merged: the instrument, the latency of the feed, the
    /// time of the diff, the book after the merge and the trades that arrived
    /// since the previous such event.
    DepthReceived(Ticker, FeedLatency, i64, Depth, Vec<Trade>),
    KlineReceived(Ticker, Kline, Timeframe),
}

/// The outcome of a step: the event to hand on, if any, and what to do next.
#[derive(Debug, Clone, PartialEq, Eq)]
pub struct Step {
    pub event: Option<Event>,
    pub command: Command,
}

/// The state of one subscription.
#[derive(Debug, Clone, PartialEq, Eq)]
pub struct Session {
    pub config: Config,
    pub phase: Phase,
    pub book: OrderBook,
    /// The final sequence number of the diff that was merged last, or zero
    /// when none was merged since the snapshot.
    pub prev_applied_final_id: u64,
    /// The trades that arrived since the last depth event.
    pub buffer: Vec<TradeSample>,
}

/// What a [`Phase`] holds.
pub enum PhaseView {
    Disconnected,
    Connecting,
    AwaitingSnapshot,
    Streaming,
    Resyncing(DepthDiffView),
}

/// What an [`Input`] holds.
pub enum InputView {
    Tick,
    Connected,
    ConnectFailed,
    Snapshot(FetchedDepthView),
    SnapshotFailed,
    Text(Seq<u8>),
    Closed,
    ReadFailed,
    Other,
}

/// What an [`Event`] holds.
pub enum EventView {
    Connected,
    Disconnected,
    DepthReceived(Ticker, FeedLatency, i64, DepthView, Seq<Trade>),
    KlineReceived(Ticker, Kline, Timeframe),
}

/// What a [`Step`] holds.
pub struct StepView {
    pub event: Option<EventView>,
    pub command: Command,
}

/// What a [`Session`] holds.
pub struct SessionView {
    pub config: Config,
    pub phase: PhaseView,
    pub book: BookView,
    pub prev_applied_final_id: u64,
    pub buffer: Seq<TradeSample>,
}

impl View for Phase {
    type V = PhaseView;

    open spec fn view(&self) -> PhaseView {
        match self {
            Phase::Disconnected => PhaseView::Disconnected,
            Phase::Connecting => PhaseView::Connecting,
            Phase::AwaitingSnapshot => PhaseView::AwaitingSnapshot,
            Phase::Streaming => PhaseView::Streaming,
            Phase::Resyncing(diff) => PhaseView::Resyncing(diff@),
        }
    }
}

impl View for Input {
    type V = InputView;

    open spec fn view(&self) -> InputView {
        match self {
            Input::Tick => InputView::Tick,
            Input::Connected => InputView::Connected,
            Input::ConnectFailed => InputView::ConnectFailed,
            Input::Snapshot(snapshot) => InputView::Snapshot(snapshot@),
            Input::SnapshotFailed => InputView::SnapshotFailed,
            Input::Text(bytes) => InputView::Text(bytes@),
            Input::Closed => InputView::Closed,
            Input::ReadFailed => InputView::ReadFailed,
            Input::Other => InputView::Other,
        }
    }
}

impl View for Event {
    type V = EventView;

    open spec fn view(&self) -> EventView {
        match self {
            Event::Connected(_) => EventView::Connected,
            Event::Disconnected => EventView::Disconnected,
            Event::DepthReceived(ticker, latency, time, depth, trades) => EventView::DepthReceived(
                *ticker,
                *latency,
                *time,
                depth@,
                trades@,
            ),
            Event::KlineReceived(ticker, kline, timeframe) => EventView::KlineReceived(
                *ticker,
                *kline,
                *timeframe,
            ),
        }
    }
}

impl View for Step {
    type V = StepView;

    open spec fn view(&self) -> StepView {
        StepView {
            event: match self.event {
                Some(event) => Some(event@),
                None => None,
            },
            command: self.command,
        }
    }
}

impl View for Session {
    type V = SessionView;

    open spec fn view(&self) -> SessionView {
        SessionView {
            config: self.config,
            phase: self.phase@,
            book: self.book@,
            prev_applied_final_id: self.prev_applied_final_id,
            buffer: self.buffer@,
        }
    }
}

impl PhaseView {
    /// Whether the connection stands in this phase.
    pub open spec fn connection(self) -> ConnectionState {
        match self {
            PhaseView::Streaming | PhaseView::Resyncing(_) => ConnectionState::Connected,
            _ => ConnectionState::Disconnected,
        }
    }
}

/// The outcome that hands on no event and has the driver do `command`.
pub open spec fn quiet(command: Command) -> StepView {
    StepView { event: None, command }
}

/// What the driver was last told to do in a phase; it is told so again when
/// it reports what the phase does not await.
pub open spec fn awaited(config: Config, phase: PhaseView) -> Command {
    match phase {
        PhaseView::Disconnected => Command::Wait(config.backoff_millis),
        PhaseView::Connecting => Command::Connect,
        PhaseView::AwaitingSnapshot => Command::FetchSnapshot,
        PhaseView::Streaming => Command::ReadFrame,
        PhaseView::Resyncing(_) => Command::FetchSnapshot,
    }
}

/// The step that changes nothing and repeats what the phase awaits.
pub open spec fn idles(pre: SessionView, post: SessionView, out: StepView) -> bool {
    post == pre && out == quiet(awaited(pre.config, pre.phase))
}

/// The step that only moves to another phase.
pub open spec fn moves(pre: SessionView, phase: PhaseView, post: SessionView) -> bool {
    post == (SessionView { phase, ..pre })
}

/// The step into `Disconnected`: the event `Disconnected` is handed on and
/// the driver pauses before it connects again.
pub open spec fn disconnects(pre: SessionView, post: SessionView, out: StepView) -> bool {
    &&& moves(pre, PhaseView::Disconnected, post)
    &&& out == StepView {
        event: Some(EventView::Disconnected),
        command: Command::Wait(pre.config.backoff_millis),
    }
}

/// The step that installs the first snapshot after a connect: the book is
/// the one the snapshot describes, no diff counts as merged, and frames are
/// read from now on. Only now is the subscription connected, and the event
/// `Connected` is handed on.
pub open spec fn installs(
    pre: SessionView,
    snapshot: FetchedDepthView,
    post: SessionView,
    out: StepView,
) -> bool {
    &&& post.config == pre.config
    &&& post.phase == PhaseView::Streaming
    &&& BookView::describes(snapshot, post.book)
    &&& post.prev_applied_final_id == 0
    &&& post.buffer == pre.buffer
    &&& out == StepView { event: Some(EventView::Connected), command: Command::ReadFrame }
}

/// The step that merges `diff` into sides `bids` and `asks` and hands on the
/// depth event.
///
/// The book then holds the sides with the levels of the diff merged in, and
/// the sequence number and time of the diff; the diff counts as the one
/// merged last. The event carries the latency of the diff at `now`, the mean
/// latency of the buffered trades (none where the buffer is empty), the book
/// after the merge and the buffered trades; the buffer is empty afterwards.
pub open spec fn merges(
    pre: SessionView,
    bids: Map<u64, u64>,
    asks: Map<u64, u64>,
    diff: DepthDiffView,
    now: i64,
    post: SessionView,
    out: StepView,
) -> bool {
    &&& post.config == pre.config
    &&& post.phase == PhaseView::Streaming
    &&& post.book.holds(
        apply_levels(bids, diff.bids),
        apply_levels(asks, diff.asks),
        diff.final_id,
        diff.time,
    )
    &&& post.prev_applied_final_id == diff.final_id
    &&& post.buffer == Seq::<TradeSample>::empty()
    &&& out == StepView {
        event: Some(
            EventView::DepthReceived(
                pre.config.ticker,
                FeedLatency {
                    time: diff.time,
                    depth_latency: age(now, diff.time),
                    trade_latency: mean_latency(pre.buffer),
                },
                diff.time,
                DepthView { time: diff.time, bids: post.book.bids, asks: post.book.asks },
                trades_of(pre.buffer),
            ),
        ),
        command: Command::ReadFrame,
    }
}

/// Whether frames are read in the state `pre`.
pub open spec fn streaming(pre: SessionView) -> bool {
    pre.phase == PhaseView::Streaming
}

/// The step on a trade while frames are read: it joins the buffer with its
/// latency at `now`. In any other phase nothing changes.
pub open spec fn on_trade_spec(
    pre: SessionView,
    trade: Trade,
    now: i64,
    post: SessionView,
    out: StepView,
) -> bool {
    if streaming(pre) {
        &&& post == SessionView {
            buffer: pre.buffer.push(TradeSample { trade, latency: age(now, trade.time) }),
            ..pre
        }
        &&& out == quiet(Command::ReadFrame)
    } else {
        idles(pre, post, out)
    }
}

/// The step on a depth diff while frames are read.
///
/// A stale diff and a diff out of sync change nothing. A diff that shows a
/// gap behind the snapshot is kept while a fresh snapshot is fetched. Any
/// other diff is merged into the book; see [`merges`]. In any other phase
/// nothing changes.
pub open spec fn on_depth_spec(
    pre: SessionView,
    diff: DepthDiffView,
    now: i64,
    post: SessionView,
    out: StepView,
) -> bool {
    if streaming(pre) {
        match verdict_of(pre.book.last_applied_id, pre.prev_applied_final_id, diff) {
            Verdict::Stale => post == pre && out == quiet(Command::ReadFrame),
            Verdict::OutOfSync => post == pre && out == quiet(Command::ReadFrame),
            Verdict::Resync => moves(pre, PhaseView::Resyncing(diff), post) && out == quiet(
                Command::FetchSnapshot,
            ),
            Verdict::Apply => merges(
                pre,
                pre.book.bid_map(),
                pre.book.ask_map(),
                diff,
                now,
                post,
                out,
            ),
        }
    } else {
        idles(pre, post, out)
    }
}

/// The step on a decoded message while frames are read. Candles are not
/// part of this subscription and change nothing. In any other phase nothing
/// changes.
pub open spec fn on_message_spec(
    pre: SessionView,
    data: StreamDataView,
    now: i64,
    post: SessionView,
    out: StepView,
) -> bool {
    match data {
        StreamDataView::Trade(trade) => on_trade_spec(pre, trade, now, post, out),
        StreamDataView::Depth(diff) => on_depth_spec(pre, diff, now, post, out),
        StreamDataView::Kline(_) => idles(pre, post, out),
    }
}

/// The step on a text frame while frames are read. A frame that cannot be
/// decoded is dropped. In any other phase nothing changes.
pub open spec fn on_frame_spec(
    pre: SessionView,
    frame: Seq<u8>,
    now: i64,
    post: SessionView,
    out: StepView,
) -> bool {
    match frame_of(frame) {
        Ok(data) => on_message_spec(pre, data, now, post, out),
        Err(_) => idles(pre, post, out),
    }
}

/// The step on the snapshot that a resync fetched: the book is replaced by
/// the one the snapshot describes, and the diff that waited is merged into
/// it as the first diff after a snapshot.
pub open spec fn resumes(
    pre: SessionView,
    snapshot: FetchedDepthView,
    diff: DepthDiffView,
    now: i64,
    post: SessionView,
    out: StepView,
) -> bool {
    merges(
        pre,
        apply_levels(Map::<u64, u64>::empty(), snapshot.bids),
        apply_levels(Map::<u64, u64>::empty(), snapshot.asks),
        diff,
        now,
        post,
        out,
    )
}

/// The step of a session: how the state `post` and the outcome `out` follow
/// from the state `pre`, what the driver reports and the time `now`.
pub open spec fn step_spec(
    pre: SessionView,
    input: InputView,
    now: i64,
    post: SessionView,
    out: StepView,
) -> bool {
    match pre.phase {
        PhaseView::Disconnected => match input {
            InputView::Tick => moves(pre, PhaseView::Connecting, post) && out == quiet(
                Command::Connect,
            ),
            _ => idles(pre, post, out),
        },
        PhaseView::Connecting => match input {
            InputView::Connected => moves(pre, PhaseView::AwaitingSnapshot, post) && out == quiet(
                Command::FetchSnapshot,
            ),
            InputView::ConnectFailed => disconnects(pre, post, out),
            _ => idles(pre, post, out),
        },
        PhaseView::AwaitingSnapshot => match input {
            InputView::Snapshot(snapshot) => installs(pre, snapshot, post, out),
            InputView::SnapshotFailed => disconnects(pre, post, out),
            _ => idles(pre, post, out),
        },
        PhaseView::Streaming => match input {
            InputView::Text(frame) => on_frame_spec(pre, frame, now, post, out),
            InputView::Closed => disconnects(pre, post, out),
            InputView::ReadFailed => disconnects(pre, post, out),
            _ => idles(pre, post, out),
        },
        PhaseView::Resyncing(diff) => match input {
            InputView::Snapshot(snapshot) => resumes(pre, snapshot, diff, now, post, out),
            InputView::SnapshotFailed => disconnects(pre, post, out),
            _ => idles(pre, post, out),
        },
    }
}

impl Config {
    /// The usual setup for `ticker`: snapshots of 500 levels per side, depth
    /// diffs every 100 milliseconds, a pause of one second before a
    /// reconnect.
    pub fn new(ticker: Ticker) -> (config: Config)
        ensures
            config == (Config {
                ticker,
                depth_limit: 500,
                interval_millis: 100,
                backoff_millis: 1000,
            }),
    {
        Config { ticker, depth_limit: 500, interval_millis: 100, backoff_millis: 1000 }
    }
}

impl Session {
    /// The invariant of a session: that of its book.
    pub open spec fn wf(&self) -> bool {
        self.book.wf()
    }

    /// A session that has not connected yet: its book has no snapshot, no
    /// diff counts as merged and no trade is buffered.
    pub fn new(config: Config) -> (session: Session)
        ensures
            session.wf(),
            session@.config == config,
            session@.phase == PhaseView::Disconnected,
            session@.book.bids == Seq::<PriceLevel>::empty(),
            session@.book.asks == Seq::<PriceLevel>::empty(),
            session@.book.last_applied_id == 0,
            session@.book.time == 0,
            session@.prev_applied_final_id == 0,
            session@.buffer == Seq::<TradeSample>::empty(),
    {
        proof {
            lemma_empty_listing();
        }
        Session {
            config,
            phase: Phase::Disconnected,
            book: OrderBook::new(),
            prev_applied_final_id: 0,
            buffer: Vec::new(),
        }
    }

    /// Whether the session has a live connection.
    pub fn connection(&self) -> (state: ConnectionState)
        ensures
            state == self@.phase.connection(),
    {
        match &self.phase {
            Phase::Streaming => ConnectionState::Connected,
            Phase::Resyncing(_) => ConnectionState::Connected,
            _ => ConnectionState::Disconnected,
        }
    }

    /// What the driver was last told to do.
    pub fn awaits(&self) -> (command: Command)
        ensures
            command == awaited(self@.config, self@.phase),
    {
        match &self.phase {
            Phase::Disconnected => Command::Wait(self.config.backoff_millis),
            Phase::Connecting => Command::Connect,
            Phase::AwaitingSnapshot => Command::FetchSnapshot,
            Phase::Streaming => Command::ReadFrame,
            Phase::Resyncing(_) => Command::FetchSnapshot,
        }
    }

    /// Whether frames are read.
    pub fn is_streaming(&self) -> (result: bool)
        ensures
            result == streaming(self@),
    {
        match &self.phase {
            Phase::Streaming => true,
            _ => false,
        }
    }

    /// The step that changes nothing.
    fn idle(&self) -> (step: Step)
        ensures
            idles(self@, self@, step@),
    {
        Step { event: None, command: self.awaits() }
    }

    /// Moves into `Disconnected` and hands on the event `Disconnected`.
    fn disconnect(&mut self) -> (step: Step)
        requires
            old(self).wf(),
        ensures
            final(self).wf(),
            disconnects(old(self)@, final(self)@, step@),
    {
        self.phase = Phase::Disconnected;
        Step { event: Some(Event::Disconnected), command: Command::Wait(self.config.backoff_millis) }
    }

    /// Merges `diff` into the book and makes the depth event.
    fn accept(&mut self, diff: DepthDiff, now: i64) -> (step: Step)
        requires
            old(self).wf(),
        ensures
            final(self).wf(),
            merges(
                old(self)@,
                old(self)@.book.bid_map(),
                old(self)@.book.ask_map(),
                diff@,
                now,
                final(self)@,
                step@,
            ),
    {
        self.book.apply(&diff);
        let latency = FeedLatency {
            time: diff.time,
            depth_latency: elapsed(now, diff.time),
            trade_latency: mean(&self.buffer),
        };
        let trades = take_trades(&mut self.buffer);
        let depth = self.book.depth();
        self.prev_applied_final_id = diff.final_id;
        self.phase = Phase::Streaming;
        Step {
            event: Some(Event::DepthReceived(self.config.ticker, latency, diff.time, depth, trades)),
            command: Command::ReadFrame,
        }
    }

    /// Buffers a trade that arrived at `now`.
    pub fn on_trade(&mut self, trade: Trade, now: i64) -> (step: Step)
        requires
            old(self).wf(),
        ensures
            final(self).wf(),
            on_trade_spec(old(self)@, trade, now, final(self)@, step@),
    {
        if !self.is_streaming() {
            return self.idle();
        }
        self.buffer.push(TradeSample { trade, latency: elapsed(now, trade.time) });
        Step { event: None, command: Command::ReadFrame }
    }

    /// Holds a depth diff that arrived at `now` against the book and acts on
    /// the verdict; see [`on_depth_spec`]. A diff that the book already
    /// covers leaves the session as it was.
    pub fn on_depth(&mut self, diff: DepthDiff, now: i64) -> (step: Step)
        requires
            old(self).wf(),
        ensures
            final(self).wf(),
            on_depth_spec(old(self)@, diff@, now, final(self)@, step@),
            diff.final_id <= old(self)@.book.last_applied_id ==> *final(self) == *old(self),
    {
        if !self.is_streaming() {
            return self.idle();
        }
        match classify(self.book.last_applied_id(), self.prev_applied_final_id, &diff) {
            Verdict::Stale => Step { event: None, command: Command::ReadFrame },
            Verdict::OutOfSync => Step { event: None, command: Command::ReadFrame },
            Verdict::Resync => {
                self.phase = Phase::Resyncing(diff);
                Step { event: None, command: Command::FetchSnapshot }
            },
            Verdict::Apply => self.accept(diff, now),
        }
    }

    /// Acts on a decoded message that arrived at `now`.
    pub fn on_message(&mut self, data: StreamData, now: i64) -> (step: Step)
        requires
            old(self).wf(),
        ensures
            final(self).wf(),
            on_message_spec(old(self)@, data@, now, final(self)@, step@),
    {
        match data {
            StreamData::Trade(trade) => self.on_trade(trade, now),
            StreamData::Depth(diff) => self.on_depth(diff, now),
            StreamData::Kline(_) => self.idle(),
        }
    }

    /// Decodes a text frame that arrived at `now` and acts on its message.
    pub fn on_frame(&mut self, frame: &[u8], now: i64) -> (step: Step)
        requires
            old(self).wf(),
        ensures
            final(self).wf(),
            on_frame_spec(old(self)@, frame@, now, final(self)@, step@),
    {
        match feed_de(frame) {
            Ok(data) => self.on_message(data, now),
            Err(_) => self.idle(),
        }
    }

    /// Takes a step at the time `now`; see [`step_spec`].
    pub fn handle_at(&mut self, input: Input, now: i64) -> (step: Step)
        requires
            old(self).wf(),
        ensures
            final(self).wf(),
            step_spec(old(self)@, input@, now, final(self)@, step@),
    {
        let mut phase = Phase::Disconnected;
        core::mem::swap(&mut self.phase, &mut phase);
        match phase {
            Phase::Disconnected => match input {
                Input::Tick => {
                    self.phase = Phase::Connecting;
                    Step { event: None, command: Command::Connect }
                },
                _ => {
                    self.phase = Phase::Disconnected;
                    Step { event: None, command: Command::Wait(self.config.backoff_millis) }
                },
            },
            Phase::Connecting => match input {
                Input::Connected => {
                    self.phase = Phase::AwaitingSnapshot;
                    Step { event: None, command: Command::FetchSnapshot }
                },
                Input::ConnectFailed => self.disconnect(),
                _ => {
                    self.phase = Phase::Connecting;
                    Step { event: None, command: Command::Connect }
                },
            },
            Phase::AwaitingSnapshot => match input {
                Input::Snapshot(snapshot) => {
                    self.book.fetched(&snapshot);
                    self.prev_applied_final_id = 0;
                    self.phase = Phase::Streaming;
                    Step { event: Some(Event::Connected(Connection)), command: Command::ReadFrame }
                },
                Input::SnapshotFailed => self.disconnect(),
                _ => {
                    self.phase = Phase::AwaitingSnapshot;
                    Step { event: None, command: Command::FetchSnapshot }
                },
            },
            Phase::Streaming => {
                self.phase = Phase::Streaming;
                match input {
                    Input::Text(frame) => self.on_frame(frame.as_slice(), now),
                    Input::Closed => self.disconnect(),
                    Input::ReadFailed => self.disconnect(),
                    _ => Step { event: None, command: Command::ReadFrame },
                }
            },
            Phase::Resyncing(diff) => match input {
                Input::Snapshot(snapshot) => {
                    self.book.fetched(&snapshot);
                    self.prev_applied_final_id = 0;
                    self.accept(diff, now)
                },
                Input::SnapshotFailed => self.disconnect(),
                _ => {
                    self.phase = Phase::Resyncing(diff);
                    Step { event: None, command: Command::FetchSnapshot }
                },
            },
        }
    }

    /// Takes a step at the time that the system clock shows.
    pub fn handle(&mut self, input: Input) -> (step: Step)
        requires
            old(self).wf(),
        ensures
            final(self).wf(),
            exists|now: i64| step_spec(old(self)@, input@, now, final(self)@, step@),
    {
        let now = now_millis();
        let ghost before = self@;
        let ghost reported = input@;
        let step = self.handle_at(input, now);
        assert(step_spec(before, reported, now, self@, step@));
        step
    }
}

} // verus!
