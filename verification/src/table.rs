//! The panes of the dashboard and the rows of its order and position tables.

use vstd::prelude::*;
use vstd::std_specs::convert::FromSpecImpl;

use crate::text::str_equals;
use crate::user_data::{NewOrder, PositionInTable};

verus! {

/// The kinds of pane.
#[derive(Debug, Clone, Copy, PartialEq, Eq, Structural, Hash)]
pub enum PaneId {
    HeatmapChart,
    CandlestickChart,
    TimeAndSales,
    TradePanel,
}

/// The icons of the dashboard.
#[derive(Debug, Clone, Copy, PartialEq, Eq, Structural)]
pub enum Icon {
    Locked,
    Unlocked,
    ResizeFull,
    ResizeSmall,
    Close,
    Layout,
    Cog,
}

impl Icon {
    /// The character of the icon font that shows the icon.
    pub open spec fn glyph(self) -> char {
        match self {
            Icon::Unlocked => '\u{E800}',
            Icon::Locked => '\u{E801}',
            Icon::ResizeFull => '\u{E802}',
            Icon::ResizeSmall => '\u{E803}',
            Icon::Close => '\u{E804}',
            Icon::Layout => '\u{E805}',
            Icon::Cog => '\u{E806}',
        }
    }
}

impl From<Icon> for char {
    fn from(icon: Icon) -> (glyph: char) {
        match icon {
            Icon::Unlocked => '\u{E800}',
            Icon::Locked => '\u{E801}',
            Icon::ResizeFull => '\u{E802}',
            Icon::ResizeSmall => '\u{E803}',
            Icon::Close => '\u{E804}',
            Icon::Layout => '\u{E805}',
            Icon::Cog => '\u{E806}',
        }
    }
}

impl FromSpecImpl<Icon> for char {
    open spec fn obeys_from_spec() -> bool {
        true
    }

    open spec fn from_spec(icon: Icon) -> char {
        icon.glyph()
    }
}

/// A pane and whether its settings are shown.
#[derive(Debug, Clone, Copy, PartialEq, Eq, Structural)]
pub struct Pane {
    pub id: PaneId,
    pub show_modal: bool,
}

/// A row of the order table.
#[derive(Debug, Clone, PartialEq, Eq)]
pub struct TableRow {
    pub order: NewOrder,
}

/// A row of the position table.
#[derive(Debug, Clone, PartialEq, Eq)]
pub struct PosTableRow {
    pub position: PositionInTable,
}

/// The index of the first row of `rows` that holds the order `order_id`, or
/// the number of rows where none does.
pub open spec fn order_row(rows: Seq<TableRow>, order_id: i64) -> int
    decreases rows.len(),
{
    if rows.len() == 0 {
        0
    } else if rows[0].order.order_id == order_id {
        0
    } else {
        1 + order_row(rows.drop_first(), order_id)
    }
}

/// The index of the first row of `rows` that holds a position in `symbol`,
/// or the number of rows where none does.
pub open spec fn position_row(rows: Seq<PosTableRow>, symbol: Seq<char>) -> int
    decreases rows.len(),
{
    if rows.len() == 0 {
        0
    } else if rows[0].position.symbol@ == symbol {
        0
    } else {
        1 + position_row(rows.drop_first(), symbol)
    }
}

/// `rows` without the row at `index`; `rows` itself where `index` is the
/// number of rows.
pub open spec fn without<T>(rows: Seq<T>, index: int) -> Seq<T> {
    if 0 <= index < rows.len() {
        rows.remove(index)
    } else {
        rows
    }
}

proof fn lemma_order_row(rows: Seq<TableRow>, order_id: i64, index: int)
    requires
        0 <= index <= rows.len(),
        forall|j: int| 0 <= j < index ==> (#[trigger] rows[j]).order.order_id != order_id,
        index < rows.len() ==> rows[index].order.order_id == order_id,
    ensures
        order_row(rows, order_id) == index,
    decreases rows.len(),
{
    if rows.len() > 0 && index > 0 {
        let rest = rows.drop_first();
        assert(rows[0].order.order_id != order_id);
        assert forall|j: int| 0 <= j < index - 1 implies (#[trigger] rest[j]).order.order_id
            != order_id by {
            assert(rest[j] == rows[j + 1]);
        }
        lemma_order_row(rest, order_id, index - 1);
    }
}

proof fn lemma_position_row(rows: Seq<PosTableRow>, symbol: Seq<char>, index: int)
    requires
        0 <= index <= rows.len(),
        forall|j: int| 0 <= j < index ==> (#[trigger] rows[j]).position.symbol@ != symbol,
        index < rows.len() ==> rows[index].position.symbol@ == symbol,
    ensures
        position_row(rows, symbol) == index,
    decreases rows.len(),
{
    if rows.len() > 0 && index > 0 {
        let rest = rows.drop_first();
        assert(rows[0].position.symbol@ != symbol);
        assert forall|j: int| 0 <= j < index - 1 implies (#[trigger] rest[j]).position.symbol@
            != symbol by {
            assert(rest[j] == rows[j + 1]);
        }
        lemma_position_row(rest, symbol, index - 1);
    }
}

impl Pane {
    /// A pane of the given kind whose settings are not shown.
    pub fn new(id: PaneId) -> (pane: Pane)
        ensures
            pane == (Pane { id, show_modal: false }),
    {
        Pane { id, show_modal: false }
    }
}

impl TableRow {
    /// The row that shows `order`.
    pub fn add_row(order: NewOrder) -> (row: TableRow)
        ensures
            row.order == order,
    {
        TableRow { order }
    }

    /// Has the row show `order` instead of what it showed.
    pub fn update_row(&mut self, order: NewOrder)
        ensures
            final(self).order == order,
    {
        self.order = order;
    }

    /// Removes the first row that holds the order `order_id`; leaves the rows
    /// as they are where none holds it.
    pub fn remove_row(order_id: i64, rows: &mut Vec<TableRow>)
        ensures
            final(rows)@ == without(old(rows)@, order_row(old(rows)@, order_id)),
    {
        let mut index: usize = 0;
        while index < rows.len() && rows[index].order.order_id != order_id
            invariant
                index <= rows@.len(),
                rows@ == old(rows)@,
                forall|j: int| 0 <= j < index ==> (#[trigger] rows@[j]).order.order_id != order_id,
            decreases rows@.len() - index,
        {
            index += 1;
        }
        proof {
            lemma_order_row(rows@, order_id, index as int);
        }
        if index < rows.len() {
            rows.remove(index);
        }
    }
}

impl PosTableRow {
    /// The row that shows `position`.
    pub fn add_row(position: PositionInTable) -> (row: PosTableRow)
        ensures
            row.position == position,
    {
        PosTableRow { position }
    }

    /// Removes the first row that holds a position in `symbol`; leaves the
    /// rows as they are where none holds one.
    pub fn remove_row(symbol: &String, rows: &mut Vec<PosTableRow>)
        ensures
            final(rows)@ == without(old(rows)@, position_row(old(rows)@, symbol@)),
    {
        let mut index: usize = 0;
        while index < rows.len() && !str_equals(
            rows[index].position.symbol.as_str(),
            symbol.as_str(),
        )
            invariant
                index <= rows@.len(),
                rows@ == old(rows)@,
                forall|j: int| 0 <= j < index ==> (#[trigger] rows@[j]).position.symbol@ != symbol@,
            decreases rows@.len() - index,
        {
            index += 1;
        }
        proof {
            lemma_position_row(rows@, symbol@, index as int);
        }
        if index < rows.len() {
            rows.remove(index);
        }
    }
}

} // verus!
