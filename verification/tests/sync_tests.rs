use market_feed::book::{DepthDiff, FetchedDepth};
use market_feed::session::{Command, Config, Event, Input, Phase, Session, Step};
use market_feed::symbols::Ticker;
use market_feed::sync::{classify, Verdict};

fn ids(first_id: u64, final_id: u64, prev_final_id: u64) -> DepthDiff {
    DepthDiff { time: 10, first_id, final_id, prev_final_id, bids: vec![], asks: vec![] }
}

fn streaming_at(update_id: u64) -> Session {
    let mut session = Session::new(Config::new(Ticker::BTCUSDT));
    session.handle_at(Input::Tick, 0);
    session.handle_at(Input::Connected, 0);
    session.handle_at(
        Input::Snapshot(FetchedDepth { update_id, time: 1, bids: vec![], asks: vec![] }),
        0,
    );
    session
}

#[test]
fn stale_diffs() {
    assert_eq!(classify(1000, 0, &ids(990, 1000, 0)), Verdict::Stale);
    assert_eq!(classify(1000, 0, &ids(990, 999, 0)), Verdict::Stale);
    assert_eq!(classify(1000, 999, &ids(990, 1000, 999)), Verdict::Stale);
    assert_eq!(classify(0, 0, &ids(1, 5, 0)), Verdict::Stale);
    assert_eq!(classify(0, 7, &ids(1, 5, 7)), Verdict::Stale);
    assert_eq!(classify(u64::MAX, 0, &ids(1, u64::MAX, 0)), Verdict::Stale);
}

#[test]
fn first_diff_has_to_join_the_snapshot() {
    assert_eq!(classify(1000, 0, &ids(1001, 1005, 0)), Verdict::Apply);
    assert_eq!(classify(1000, 0, &ids(995, 1005, 0)), Verdict::Apply);
    assert_eq!(classify(1000, 0, &ids(995, 1001, 0)), Verdict::Apply);
    assert_eq!(classify(1000, 0, &ids(1002, 1005, 0)), Verdict::Resync);
    assert_eq!(classify(1000, 0, &ids(5000, 5005, 4999)), Verdict::Resync);
    assert_eq!(classify(u64::MAX - 1, 0, &ids(u64::MAX, u64::MAX, 0)), Verdict::Apply);
}

#[test]
fn later_diffs_have_to_continue_the_last_one() {
    assert_eq!(classify(1005, 1005, &ids(1006, 1010, 1005)), Verdict::Apply);
    assert_eq!(classify(1005, 1005, &ids(1008, 1010, 1005)), Verdict::Apply);
    assert_eq!(classify(1005, 1005, &ids(1006, 1010, 1004)), Verdict::OutOfSync);
    assert_eq!(classify(1005, 1005, &ids(1006, 1010, 0)), Verdict::OutOfSync);
    assert_eq!(classify(1010, 1010, &ids(1011, 1020, 999)), Verdict::OutOfSync);
}

#[test]
fn boundary_resync_example() {
    let mut session = streaming_at(1000);
    let step = session.on_depth(ids(995, 1005, 0), 20);
    assert!(matches!(step.event, Some(Event::DepthReceived(..))));
    assert_eq!(step.command, Command::ReadFrame);
    assert_eq!(session.prev_applied_final_id, 1005);
    assert_eq!(session.book.last_applied_id(), 1005);
    assert_eq!(session.phase, Phase::Streaming);
}

#[test]
fn continuity_example() {
    let mut session = streaming_at(1000);
    session.on_depth(ids(995, 1005, 0), 20);
    let step = session.on_depth(ids(1006, 1010, 1005), 30);
    assert!(matches!(step.event, Some(Event::DepthReceived(..))));
    assert_eq!(session.prev_applied_final_id, 1010);
    assert_eq!(session.book.last_applied_id(), 1010);
}

#[test]
fn gap_without_resync_example() {
    let mut session = streaming_at(1000);
    session.on_depth(ids(995, 1005, 0), 20);
    session.on_depth(ids(1006, 1010, 1005), 30);
    let before_gap = session.clone();
    let step = session.on_depth(ids(1011, 1015, 999), 40);
    assert_eq!(step, Step { event: None, command: Command::ReadFrame });
    assert_eq!(session, before_gap);
    assert_eq!(session.prev_applied_final_id, 1010);
    assert_eq!(session.book.last_applied_id(), 1010);
    assert_eq!(session.phase, Phase::Streaming);
}

#[test]
fn stale_diff_leaves_the_session_unchanged() {
    let mut session = streaming_at(1000);
    session.on_depth(ids(995, 1005, 0), 20);
    let before_stale = session.clone();
    for final_id in [0, 1, 1004, 1005] {
        let step = session.on_depth(
            DepthDiff {
                time: 99,
                first_id: 1,
                final_id,
                prev_final_id: 1005,
                bids: vec![],
                asks: vec![],
            },
            50,
        );
        assert_eq!(step, Step { event: None, command: Command::ReadFrame });
        assert_eq!(session, before_stale);
    }
}
