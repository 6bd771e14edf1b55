use market_feed::decimal::{Decimal, SignedDecimal};
use market_feed::table::{Icon, Pane, PaneId, PosTableRow, TableRow};
use market_feed::user_data::{
    AccBalance, AccountUpdate, Event, EventType, NewOrder, OrderTradeUpdate, Position,
    PositionInTable,
};

fn amount(units: u64) -> SignedDecimal {
    SignedDecimal { negative: false, magnitude: Decimal { units } }
}

fn order(order_id: i64) -> NewOrder {
    NewOrder {
        order_id,
        symbol: "BTCUSDT".to_string(),
        side: "BUY".to_string(),
        price: "65000".to_string(),
        orig_qty: "0.01".to_string(),
        executed_qty: "0".to_string(),
        time_in_force: "GTC".to_string(),
        order_type: "LIMIT".to_string(),
        reduce_only: false,
        update_time: 1_700_000_000_000,
    }
}

fn order_update(exec_type: &str) -> OrderTradeUpdate {
    OrderTradeUpdate {
        symbol: "BTCUSDT".to_string(),
        side: "BUY".to_string(),
        order_type: "LIMIT".to_string(),
        exec_type: exec_type.to_string(),
        order_status: "NEW".to_string(),
        time_in_force: "GTC".to_string(),
        working_type: "CONTRACT_PRICE".to_string(),
        order_id: 42,
        price: "65000".to_string(),
        orig_qty: "0.01".to_string(),
    }
}

fn held(symbol: &str) -> PositionInTable {
    PositionInTable {
        symbol: symbol.to_string(),
        size: amount(1),
        entry_price: amount(2),
        breakeven_price: amount(3),
        mark_price: amount(4),
        liquidation_price: amount(5),
        margin_amt: amount(6),
        unrealized_pnl: amount(7),
    }
}

fn account_update(event_type: &str) -> AccountUpdate {
    AccountUpdate {
        event_type: event_type.to_string(),
        balances: vec![AccBalance {
            asset: "USDT".to_string(),
            wallet_bal: "100".to_string(),
            cross_bal: "100".to_string(),
            balance_chg: "0".to_string(),
        }],
        positions: vec![Position {
            symbol: "BTCUSDT".to_string(),
            pos_amt: SignedDecimal { negative: true, magnitude: Decimal { units: 5 } },
            entry_price: amount(1),
            breakeven_price: amount(2),
            cum_realized_pnl: "0".to_string(),
            unrealized_pnl: "0".to_string(),
            margin_type: "cross".to_string(),
            isolated_wallet: "0".to_string(),
            pos_side: "BOTH".to_string(),
        }],
    }
}

#[test]
fn kinds_of_report() {
    assert_eq!(EventType::from_name("ACCOUNT_UPDATE"), Some(EventType::AccountUpdate));
    assert_eq!(EventType::from_name("ORDER_TRADE_UPDATE"), Some(EventType::OrderTradeUpdate));
    assert_eq!(EventType::from_name("listenKeyExpired"), None);
    assert_eq!(EventType::from_name(""), None);
}

#[test]
fn order_updates_become_events() {
    assert_eq!(
        Event::of_order_update(order_update("NEW")),
        Event::TestEvent("New Order".to_string())
    );
    assert_eq!(Event::of_order_update(order_update("TRADE")), Event::TestEvent("Trade".to_string()));
    assert_eq!(
        Event::of_order_update(order_update("CANCELED")),
        Event::CancelOrder(order_update("CANCELED"))
    );
    assert_eq!(
        Event::of_order_update(order_update("EXPIRED")),
        Event::TestEvent("Unknown".to_string())
    );
    assert_eq!(Event::of_order_update(order_update("")), Event::TestEvent("Unknown".to_string()));
    assert_eq!(Event::unknown(), Event::TestEvent("Unknown".to_string()));
}

#[test]
fn account_updates_become_events() {
    assert_eq!(
        Event::of_account_update(account_update("ORDER")),
        Event::NewPositions(account_update("ORDER").positions)
    );
    assert_eq!(
        Event::of_account_update(account_update("FUNDING_FEE")),
        Event::TestEvent("Account Update".to_string())
    );
}

#[test]
fn panes_start_without_their_settings_shown() {
    assert_eq!(Pane::new(PaneId::HeatmapChart), Pane { id: PaneId::HeatmapChart, show_modal: false });
    assert_eq!(Pane::new(PaneId::TradePanel), Pane { id: PaneId::TradePanel, show_modal: false });
}

#[test]
fn order_rows() {
    let mut row = TableRow::add_row(order(1));
    assert_eq!(row.order, order(1));
    row.update_row(order(2));
    assert_eq!(row.order, order(2));
    let mut rows = vec![
        TableRow::add_row(order(1)),
        TableRow::add_row(order(2)),
        TableRow::add_row(order(1)),
        TableRow::add_row(order(3)),
    ];
    TableRow::remove_row(9, &mut rows);
    assert_eq!(rows.len(), 4);
    TableRow::remove_row(1, &mut rows);
    assert_eq!(
        rows,
        vec![TableRow::add_row(order(2)), TableRow::add_row(order(1)), TableRow::add_row(order(3))]
    );
    TableRow::remove_row(3, &mut rows);
    TableRow::remove_row(1, &mut rows);
    TableRow::remove_row(1, &mut rows);
    assert_eq!(rows, vec![TableRow::add_row(order(2))]);
    TableRow::remove_row(2, &mut rows);
    assert!(rows.is_empty());
    TableRow::remove_row(2, &mut rows);
    assert!(rows.is_empty());
}

#[test]
fn position_rows() {
    assert_eq!(PosTableRow::add_row(held("BTCUSDT")).position, held("BTCUSDT"));
    let mut rows = vec![
        PosTableRow::add_row(held("BTCUSDT")),
        PosTableRow::add_row(held("ETHUSDT")),
        PosTableRow::add_row(held("BTCUSDT")),
    ];
    PosTableRow::remove_row(&"SOLUSDT".to_string(), &mut rows);
    assert_eq!(rows.len(), 3);
    PosTableRow::remove_row(&"BTCUSDT".to_string(), &mut rows);
    assert_eq!(
        rows,
        vec![PosTableRow::add_row(held("ETHUSDT")), PosTableRow::add_row(held("BTCUSDT"))]
    );
    PosTableRow::remove_row(&"BTCUSDT".to_string(), &mut rows);
    assert_eq!(rows, vec![PosTableRow::add_row(held("ETHUSDT"))]);
}

#[test]
fn icons_have_their_glyphs() {
    assert_eq!(char::from(Icon::Unlocked), '\u{E800}');
    assert_eq!(char::from(Icon::Locked), '\u{E801}');
    assert_eq!(char::from(Icon::ResizeFull), '\u{E802}');
    assert_eq!(char::from(Icon::ResizeSmall), '\u{E803}');
    assert_eq!(char::from(Icon::Close), '\u{E804}');
    assert_eq!(char::from(Icon::Layout), '\u{E805}');
    assert_eq!(char::from(Icon::Cog), '\u{E806}');
}
