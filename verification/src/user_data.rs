//! What the user data stream of the exchange reports: orders, balances and
//! positions, and the event that each report becomes.

use vstd::prelude::*;
use vstd::string::StringExecFns;

use crate::decimal::SignedDecimal;
use crate::text::str_equals;

verus! {

/// The balance of one asset in an account update.
#[derive(Debug, Clone, PartialEq, Eq)]
pub struct AccBalance {
    pub asset: String,
    pub wallet_bal: String,
    pub cross_bal: String,
    pub balance_chg: String,
}

/// A position as an account update reports it.
#[derive(Debug, Clone, PartialEq, Eq)]
pub struct Position {
    pub symbol: String,
    pub pos_amt: SignedDecimal,
    pub entry_price: SignedDecimal,
    pub breakeven_price: SignedDecimal,
    pub cum_realized_pnl: String,
    pub unrealized_pnl: String,
    pub margin_type: String,
    pub isolated_wallet: String,
    pub pos_side: String,
}

/// A position as it is fetched on demand.
#[derive(Debug, Clone, PartialEq, Eq)]
pub struct FetchedPosition {
    pub symbol: String,
    pub pos_amt: SignedDecimal,
    pub entry_price: SignedDecimal,
    pub breakeven_price: SignedDecimal,
    pub mark_price: SignedDecimal,
    pub unrealized_pnl: SignedDecimal,
    pub liquidation_price: SignedDecimal,
    pub leverage: SignedDecimal,
    pub margin_type: String,
}

/// A position as the position table shows it.
#[derive(Debug, Clone, PartialEq, Eq)]
pub struct PositionInTable {
    pub symbol: String,
    pub size: SignedDecimal,
    pub entry_price: SignedDecimal,
    pub breakeven_price: SignedDecimal,
    pub mark_price: SignedDecimal,
    pub liquidation_price: SignedDecimal,
    pub margin_amt: SignedDecimal,
    pub unrealized_pnl: SignedDecimal,
}

/// The kind of a report of the user data stream.
#[derive(Debug, Clone, Copy, PartialEq, Eq, Structural)]
pub enum EventType {
    AccountUpdate,
    OrderTradeUpdate,
}

/// An account update: why it was sent, and the balances and positions that
/// changed.
#[derive(Debug, Clone, PartialEq, Eq)]
pub struct AccountUpdate {
    pub event_type: String,
    pub balances: Vec<AccBalance>,
    pub positions: Vec<Position>,
}

/// An update of an order.
#[derive(Debug, Clone, PartialEq, Eq)]
pub struct OrderTradeUpdate {
    pub symbol: String,
    pub side: String,
    pub order_type: String,
    pub exec_type: String,
    pub order_status: String,
    pub time_in_force: String,
    pub working_type: String,
    pub order_id: i64,
    pub price: String,
    pub orig_qty: String,
}

/// An order as the exchange confirms it.
#[derive(Debug, Clone, PartialEq, Eq)]
pub struct NewOrder {
    pub order_id: i64,
    pub symbol: String,
    pub side: String,
    pub price: String,
    pub orig_qty: String,
    pub executed_qty: String,
    pub time_in_force: String,
    pub order_type: String,
    pub reduce_only: bool,
    pub update_time: u64,
}

/// The token that an event `Connected` carries.
#[derive(Debug, Clone, Copy, PartialEq, Eq, Structural)]
pub struct Connection;

/// What the user data stream hands to the consumer.
#[derive(Debug, Clone, PartialEq, Eq)]
pub enum Event {
    Connected(Connection),
    Disconnected,
    NewOrder(NewOrder),
    CancelOrder(OrderTradeUpdate),
    TestEvent(String),
    NewPositions(Vec<Position>),
    FetchedPositions(Vec<FetchedPosition>),
}

impl EventType {
    /// The kind that a report names under `e`.
    pub open spec fn named(name: Seq<char>) -> Option<EventType> {
        if name == "ACCOUNT_UPDATE"@ {
            Some(EventType::AccountUpdate)
        } else if name == "ORDER_TRADE_UPDATE"@ {
            Some(EventType::OrderTradeUpdate)
        } else {
            None
        }
    }

    /// The kind that a report names under `e`, if it names one.
    pub fn from_name(name: &str) -> (kind: Option<EventType>)
        ensures
            kind == EventType::named(name@),
    {
        if str_equals(name, "ACCOUNT_UPDATE") {
            Some(EventType::AccountUpdate)
        } else if str_equals(name, "ORDER_TRADE_UPDATE") {
            Some(EventType::OrderTradeUpdate)
        } else {
            None
        }
    }
}

/// The note that stands for an order update which is not a cancellation, by
/// the kind of execution it reports.
pub open spec fn order_note(exec_type: Seq<char>) -> Seq<char> {
    if exec_type == "NEW"@ {
        "New Order"@
    } else if exec_type == "TRADE"@ {
        "Trade"@
    } else {
        "Unknown"@
    }
}

impl Event {
    /// The event for a report that is of no known kind or lacks its body: a
    /// note that says `Unknown`.
    pub fn unknown() -> (event: Event)
        ensures
            event matches Event::TestEvent(note) && note@ == "Unknown"@,
    {
        Event::TestEvent(String::from_str("Unknown"))
    }

    /// The event that an account update becomes: the positions it reports
    /// where it was sent for an order, else a note that says
    /// `Account Update`.
    pub fn of_account_update(update: AccountUpdate) -> (event: Event)
        ensures
            update.event_type@ == "ORDER"@ ==> event == Event::NewPositions(update.positions),
            update.event_type@ != "ORDER"@ ==> (event matches Event::TestEvent(note) && note@
                == "Account Update"@),
    {
        if str_equals(update.event_type.as_str(), "ORDER") {
            Event::NewPositions(update.positions)
        } else {
            Event::TestEvent(String::from_str("Account Update"))
        }
    }

    /// The event that an order update becomes: the cancellation it reports,
    /// else a note that names the kind of execution.
    pub fn of_order_update(update: OrderTradeUpdate) -> (event: Event)
        ensures
            update.exec_type@ == "CANCELED"@ ==> event == Event::CancelOrder(update),
            update.exec_type@ != "CANCELED"@ ==> (event matches Event::TestEvent(note) && note@
                == order_note(update.exec_type@)),
    {
        proof {
            reveal_strlit("NEW");
            reveal_strlit("TRADE");
            reveal_strlit("CANCELED");
        }
        if str_equals(update.exec_type.as_str(), "NEW") {
            assert("NEW"@.len() == 3);
            assert("CANCELED"@.len() == 8);
            assert(update.exec_type@ != "CANCELED"@);
            Event::TestEvent(String::from_str("New Order"))
        } else if str_equals(update.exec_type.as_str(), "TRADE") {
            assert("TRADE"@.len() == 5);
            assert(update.exec_type@ != "CANCELED"@);
            Event::TestEvent(String::from_str("Trade"))
        } else if str_equals(update.exec_type.as_str(), "CANCELED") {
            Event::CancelOrder(update)
        } else {
            Event::TestEvent(String::from_str("Unknown"))
        }
    }
}

} // verus!
