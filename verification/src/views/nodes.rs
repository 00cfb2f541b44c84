//! The Nodes table: one row per ROS 2 node, read from `/rewire/nodes`.

pub mod system;

use std::cmp::Ordering;
use crate::order::{
    law_count_order_numeric,
    compare_count, compare_text, count_order, flipped, law_text_order_antisymmetric,
    law_text_order_equal, law_text_order_transitive, text_order,
};
use crate::text::parsed_usize;
use crate::views::nodes::system::node_entries;
use crate::views::table::{Cell, CellView, Columns, column_of, count_at, row_count_of, text_at};
use vstd::prelude::*;

verus! {

/// Table of discovered ROS 2 nodes. Its columns are, in order: node name, publisher
/// count, subscriber count, transport.
pub struct Nodes;

/// One node.
pub struct NodeRow {
    pub node_name: String,
    pub publishers: usize,
    pub subscribers: usize,
    pub transport: String,
}

/// The values of a node row.
pub struct NodeRowView {
    pub node_name: Seq<char>,
    pub publishers: usize,
    pub subscribers: usize,
    pub transport: Seq<char>,
}

impl View for NodeRow {
    type V = NodeRowView;

    open spec fn view(&self) -> NodeRowView {
        NodeRowView {
            node_name: self.node_name@,
            publishers: self.publishers,
            subscribers: self.subscribers,
            transport: self.transport@,
        }
    }
}

/// Row `i` of the nodes table: missing texts are empty, missing or malformed counts
/// are 0.
pub open spec fn node_row_of(cols: Seq<Seq<Seq<char>>>, i: int) -> NodeRowView {
    NodeRowView {
        node_name: text_at(column_of(cols, 0), i),
        publishers: count_at(column_of(cols, 1), i),
        subscribers: count_at(column_of(cols, 2), i),
        transport: text_at(column_of(cols, 3), i),
    }
}

/// All rows of the nodes table, one per row of its first column.
pub open spec fn node_rows(cols: Seq<Seq<Seq<char>>>) -> Seq<NodeRowView> {
    Seq::new(row_count_of(cols), |i: int| node_row_of(cols, i))
}

/// The views of a sequence of node rows.
pub open spec fn node_row_views(rows: Seq<NodeRow>) -> Seq<NodeRowView> {
    rows.map_values(|r: NodeRow| r@)
}

/// The order of two node rows by column `col`: names and transports as texts, the
/// counts as numbers; any column past the third sorts by transport.
pub open spec fn node_row_order(a: NodeRowView, b: NodeRowView, col: usize) -> Ordering {
    if col == 0 {
        text_order(a.node_name, b.node_name)
    } else if col == 1 {
        count_order(a.publishers, b.publishers)
    } else if col == 2 {
        count_order(a.subscribers, b.subscribers)
    } else {
        text_order(a.transport, b.transport)
    }
}

/// What column `col` of a node row shows: the name, the publisher count, the
/// subscriber count, and, for any later column, the transport.
pub open spec fn node_cell(r: NodeRowView, col: usize) -> CellView {
    if col == 0 {
        CellView::Text(r.node_name)
    } else if col == 1 {
        CellView::Count(r.publishers)
    } else if col == 2 {
        CellView::Count(r.subscribers)
    } else {
        CellView::Text(r.transport)
    }
}

impl Nodes {
    /// What column `col` of a row shows.
    pub fn cell(row: &NodeRow, col: usize) -> (c: Cell)
        ensures
            c@ == node_cell(row@, col),
    {
        if col == 0 {
            Cell::Text(row.node_name.clone())
        } else if col == 1 {
            Cell::Count(row.publishers)
        } else if col == 2 {
            Cell::Count(row.subscribers)
        } else {
            Cell::Text(row.transport.clone())
        }
    }


    /// The name of the table view.
    pub const NAME: &'static str = "Nodes";

    /// The entity whose components the table reads.
    pub const ENTITY_PATH: &'static str = "/rewire/nodes";

    /// Shown in place of the table when it has no rows.
    pub const EMPTY: &'static str = "No nodes yet";

    /// The rows of the table, one per row of the node-name column.
    pub fn rows(cols: &Columns) -> (rows: Vec<NodeRow>)
        ensures
            node_row_views(rows@) == node_rows(cols@),
    {
        let n = cols.row_count();
        let mut rows: Vec<NodeRow> = Vec::new();
        let mut i: usize = 0;
        while i < n
            invariant
                n == row_count_of(cols@),
                i <= n,
                rows@.len() == i,
                forall|j: int| 0 <= j < i ==> #[trigger] rows@[j]@ == node_row_of(cols@, j),
            decreases n - i,
        {
            let publishers = match cols.parse_count(1, i) {
                Some(c) => c,
                None => 0,
            };
            let subscribers = match cols.parse_count(2, i) {
                Some(c) => c,
                None => 0,
            };
            let row = NodeRow {
                node_name: cols.text(0, i),
                publishers,
                subscribers,
                transport: cols.text(3, i),
            };
            rows.push(row);
            i = i + 1;
        }
        assert(node_row_views(rows@) =~= node_rows(cols@));
        rows
    }

    /// Compares two rows by column `col`, for sorting the table.
    pub fn cmp(a: &NodeRow, b: &NodeRow, col: usize) -> (o: Ordering)
        ensures
            o == node_row_order(a@, b@, col),
    {
        if col == 0 {
            compare_text(a.node_name.as_str(), b.node_name.as_str())
        } else if col == 1 {
            compare_count(a.publishers, b.publishers)
        } else if col == 2 {
            compare_count(a.subscribers, b.subscribers)
        } else {
            compare_text(a.transport.as_str(), b.transport.as_str())
        }
    }
}

/// Law: the nodes table has one row per cell of its first column (none without
/// columns), and row `i` holds cell `i` of each column, in the order node name,
/// publisher count, subscriber count, transport: texts as they are, counts parsed as
/// `usize`; a cell the column does not have gives the empty text, and a count that is
/// missing or not a `usize` gives 0.
pub proof fn law_node_rows_read_the_columns(cols: Seq<Seq<Seq<char>>>)
    ensures
        node_rows(cols).len() == (if cols.len() == 0 {
            0
        } else {
            cols[0].len()
        }),
        forall|i: int|
            0 <= i < node_rows(cols).len() ==> {
                let r = #[trigger] node_rows(cols)[i];
                &&& r.node_name == cols[0][i]
                &&& r.publishers == (if cols.len() > 1 && i < cols[1].len() {
                    match parsed_usize(cols[1][i]) {
                        Some(n) => n,
                        None => 0,
                    }
                } else {
                    0
                })
                &&& r.subscribers == (if cols.len() > 2 && i < cols[2].len() {
                    match parsed_usize(cols[2][i]) {
                        Some(n) => n,
                        None => 0,
                    }
                } else {
                    0
                })
                &&& r.transport == (if cols.len() > 3 && i < cols[3].len() {
                    cols[3][i]
                } else {
                    Seq::<char>::empty()
                })
            },
{
}

/// Law: sorting by the name (column 0) orders rows by name, by column 1 or 2 by
/// publisher or subscriber count as numbers, and by any later column by transport.
pub proof fn law_node_row_order_by_column(a: NodeRowView, b: NodeRowView, col: usize)
    ensures
        col == 0 ==> node_row_order(a, b, col) == text_order(a.node_name, b.node_name),
        col == 1 && a.publishers < b.publishers ==> node_row_order(a, b, col) == Ordering::Less,
        col == 1 && a.publishers == b.publishers ==> node_row_order(a, b, col) == Ordering::Equal,
        col == 1 && a.publishers > b.publishers ==> node_row_order(a, b, col) == Ordering::Greater,
        col == 2 && a.subscribers < b.subscribers ==> node_row_order(a, b, col) == Ordering::Less,
        col == 2 && a.subscribers == b.subscribers ==> node_row_order(a, b, col)
            == Ordering::Equal,
        col == 2 && a.subscribers > b.subscribers ==> node_row_order(a, b, col)
            == Ordering::Greater,
        col >= 3 ==> node_row_order(a, b, col) == text_order(a.transport, b.transport),
{
    law_count_order_numeric(a.publishers, b.publishers);
    law_count_order_numeric(a.subscribers, b.subscribers);
}

/// Law: exchanging two rows reverses their order, in every column.
pub proof fn law_node_row_order_antisymmetric(a: NodeRowView, b: NodeRowView, col: usize)
    ensures
        node_row_order(a, b, col) == flipped(node_row_order(b, a, col)),
{
    law_text_order_antisymmetric(a.node_name, b.node_name);
    law_text_order_antisymmetric(a.transport, b.transport);
}

/// Law: a row is equal to itself in every column.
pub proof fn law_node_row_order_reflexive(a: NodeRowView, col: usize)
    ensures
        node_row_order(a, a, col) == Ordering::Equal,
{
    law_text_order_equal(a.node_name, a.node_name);
    law_text_order_equal(a.transport, a.transport);
}

/// Law: in every column, the order of rows is transitive.
pub proof fn law_node_row_order_transitive(
    a: NodeRowView,
    b: NodeRowView,
    c: NodeRowView,
    col: usize,
)
    requires
        node_row_order(a, b, col) != Ordering::Greater,
        node_row_order(b, c, col) != Ordering::Greater,
    ensures
        node_row_order(a, c, col) != Ordering::Greater,
        node_row_order(a, b, col) == Ordering::Less || node_row_order(b, c, col) == Ordering::Less
            ==> node_row_order(a, c, col) == Ordering::Less,
{
    if col == 0 {
        law_text_order_transitive(a.node_name, b.node_name, c.node_name);
    } else if col >= 3 {
        law_text_order_transitive(a.transport, b.transport, c.transport);
    }
}

/// Law: the Nodes table, read from the node columns (names, publisher counts,
/// subscriber counts, transports), lists the same nodes with the same values as the
/// Nodes system reading the same columns.
pub proof fn law_node_rows_agree_with_node_entries(
    names: Seq<Seq<char>>,
    pub_counts: Seq<Seq<char>>,
    sub_counts: Seq<Seq<char>>,
    transports: Seq<Seq<char>>,
)
    ensures
        ({
            let rows = node_rows(seq![names, pub_counts, sub_counts, transports]);
            let entries = node_entries(names, pub_counts, sub_counts, transports);
            &&& rows.len() == entries.len()
            &&& forall|i: int|
                0 <= i < rows.len() ==> {
                    &&& #[trigger] rows[i].node_name == entries[i].node_name
                    &&& rows[i].publishers == entries[i].publishers
                    &&& rows[i].subscribers == entries[i].subscribers
                    &&& rows[i].transport == entries[i].transport
                }
        }),
{
    let cols = seq![names, pub_counts, sub_counts, transports];
    assert(column_of(cols, 0) == names);
    assert(column_of(cols, 1) == pub_counts);
    assert(column_of(cols, 2) == sub_counts);
    assert(column_of(cols, 3) == transports);
}

/// Law: column 0 of a node row shows its name, column 1 its publisher count, column
/// 2 its subscriber count, and any later column its transport.
pub proof fn law_node_cell_by_column(r: NodeRowView, col: usize)
    ensures
        col == 0 ==> node_cell(r, col) == CellView::Text(r.node_name),
        col == 1 ==> node_cell(r, col) == CellView::Count(r.publishers),
        col == 2 ==> node_cell(r, col) == CellView::Count(r.subscribers),
        col >= 3 ==> node_cell(r, col) == CellView::Text(r.transport),
{
}

/// Law: the view of a row holds the same values as the row, field by field, and the
/// views of a sequence of rows are the rows' views in order.
pub proof fn law_node_row_views(r: NodeRow, rows: Seq<NodeRow>)
    ensures
        r@.node_name == r.node_name@,
        r@.publishers == r.publishers,
        r@.subscribers == r.subscribers,
        r@.transport == r.transport@,
        node_row_views(rows).len() == rows.len(),
        forall|i: int| 0 <= i < rows.len() ==> #[trigger] node_row_views(rows)[i] == rows[i]@,
{
}

} // verus!
