//! The Topics table: one row per topic, read from `/rewire/topics`.

use std::cmp::Ordering;
use crate::order::{
    law_count_order_numeric,
    compare_count, compare_text, count_order, flipped, law_text_order_antisymmetric,
    law_text_order_equal, law_text_order_transitive, text_order,
};
use crate::text::parsed_usize;
use crate::views::table::{Cell, CellView, Columns, column_of, count_at, row_count_of, text_at};
use vstd::prelude::*;

verus! {

/// Table of discovered ROS 2 topics. Its columns are, in order: topic name, type
/// name, publisher count, subscriber count.
pub struct Topics;

/// One topic.
pub struct TopicRow {
    pub topic_name: String,
    pub topic_type: String,
    pub publishers: usize,
    pub subscribers: usize,
}

/// The values of a topic row.
pub struct TopicRowView {
    pub topic_name: Seq<char>,
    pub topic_type: Seq<char>,
    pub publishers: usize,
    pub subscribers: usize,
}

impl View for TopicRow {
    type V = TopicRowView;

    open spec fn view(&self) -> TopicRowView {
        TopicRowView {
            topic_name: self.topic_name@,
            topic_type: self.topic_type@,
            publishers: self.publishers,
            subscribers: self.subscribers,
        }
    }
}

/// Row `i` of the topics table: missing texts are empty, missing or malformed
/// counts are 0.
pub open spec fn topic_row_of(cols: Seq<Seq<Seq<char>>>, i: int) -> TopicRowView {
    TopicRowView {
        topic_name: text_at(column_of(cols, 0), i),
        topic_type: text_at(column_of(cols, 1), i),
        publishers: count_at(column_of(cols, 2), i),
        subscribers: count_at(column_of(cols, 3), i),
    }
}

/// All rows of the topics table, one per row of its first column.
pub open spec fn topic_rows(cols: Seq<Seq<Seq<char>>>) -> Seq<TopicRowView> {
    Seq::new(row_count_of(cols), |i: int| topic_row_of(cols, i))
}

/// The views of a sequence of topic rows.
pub open spec fn topic_row_views(rows: Seq<TopicRow>) -> Seq<TopicRowView> {
    rows.map_values(|r: TopicRow| r@)
}

/// The order of two topic rows by column `col`: names and types as texts, the
/// counts as numbers; any column past the third sorts by subscribers.
pub open spec fn topic_row_order(a: TopicRowView, b: TopicRowView, col: usize) -> Ordering {
    if col == 0 {
        text_order(a.topic_name, b.topic_name)
    } else if col == 1 {
        text_order(a.topic_type, b.topic_type)
    } else if col == 2 {
        count_order(a.publishers, b.publishers)
    } else {
        count_order(a.subscribers, b.subscribers)
    }
}

/// What column `col` of a topic row shows: the name, the type, the publisher count,
/// and, for any later column, the subscriber count.
pub open spec fn topic_cell(r: TopicRowView, col: usize) -> CellView {
    if col == 0 {
        CellView::Text(r.topic_name)
    } else if col == 1 {
        CellView::Text(r.topic_type)
    } else if col == 2 {
        CellView::Count(r.publishers)
    } else {
        CellView::Count(r.subscribers)
    }
}

impl Topics {
    /// What column `col` of a row shows.
    pub fn cell(row: &TopicRow, col: usize) -> (c: Cell)
        ensures
            c@ == topic_cell(row@, col),
    {
        if col == 0 {
            Cell::Text(row.topic_name.clone())
        } else if col == 1 {
            Cell::Text(row.topic_type.clone())
        } else if col == 2 {
            Cell::Count(row.publishers)
        } else {
            Cell::Count(row.subscribers)
        }
    }


    /// The name of the table view.
    pub const NAME: &'static str = "Topics";

    /// The entity whose components the table reads.
    pub const ENTITY_PATH: &'static str = "/rewire/topics";

    /// Shown in place of the table when it has no rows.
    pub const EMPTY: &'static str = "No topics yet";

    /// The rows of the table, one per row of the topic-name column.
    pub fn rows(cols: &Columns) -> (rows: Vec<TopicRow>)
        ensures
            topic_row_views(rows@) == topic_rows(cols@),
    {
        let n = cols.row_count();
        let mut rows: Vec<TopicRow> = Vec::new();
        let mut i: usize = 0;
        while i < n
            invariant
                n == row_count_of(cols@),
                i <= n,
                rows@.len() == i,
                forall|j: int| 0 <= j < i ==> #[trigger] rows@[j]@ == topic_row_of(cols@, j),
            decreases n - i,
        {
            let publishers = match cols.parse_count(2, i) {
                Some(c) => c,
                None => 0,
            };
            let subscribers = match cols.parse_count(3, i) {
                Some(c) => c,
                None => 0,
            };
            let row = TopicRow {
                topic_name: cols.text(0, i),
                topic_type: cols.text(1, i),
                publishers,
                subscribers,
            };
            rows.push(row);
            i = i + 1;
        }
        assert(topic_row_views(rows@) =~= topic_rows(cols@));
        rows
    }

    /// Compares two rows by column `col`, for sorting the table.
    pub fn cmp(a: &TopicRow, b: &TopicRow, col: usize) -> (o: Ordering)
        ensures
            o == topic_row_order(a@, b@, col),
    {
        if col == 0 {
            compare_text(a.topic_name.as_str(), b.topic_name.as_str())
        } else if col == 1 {
            compare_text(a.topic_type.as_str(), b.topic_type.as_str())
        } else if col == 2 {
            compare_count(a.publishers, b.publishers)
        } else {
            compare_count(a.subscribers, b.subscribers)
        }
    }
}

/// Law: the topics table has one row per cell of its first column (none without
/// columns), and row `i` holds cell `i` of each column, in the order topic name,
/// type name, publisher count, subscriber count: texts as they are, counts parsed
/// as `usize`; a cell the column does not have gives the empty text, and a count that
/// is missing or not a `usize` gives 0.
pub proof fn law_topic_rows_read_the_columns(cols: Seq<Seq<Seq<char>>>)
    ensures
        topic_rows(cols).len() == (if cols.len() == 0 {
            0
        } else {
            cols[0].len()
        }),
        forall|i: int|
            0 <= i < topic_rows(cols).len() ==> {
                let r = #[trigger] topic_rows(cols)[i];
                &&& r.topic_name == cols[0][i]
                &&& r.topic_type == (if cols.len() > 1 && i < cols[1].len() {
                    cols[1][i]
                } else {
                    Seq::<char>::empty()
                })
                &&& r.publishers == (if cols.len() > 2 && i < cols[2].len() {
                    match parsed_usize(cols[2][i]) {
                        Some(n) => n,
                        None => 0,
                    }
                } else {
                    0
                })
                &&& r.subscribers == (if cols.len() > 3 && i < cols[3].len() {
                    match parsed_usize(cols[3][i]) {
                        Some(n) => n,
                        None => 0,
                    }
                } else {
                    0
                })
            },
{
}

/// Law: sorting by the name (column 0) or type (column 1) orders rows by the text of
/// that column; sorting by column 2 orders them by publisher count, and by any later
/// column by subscriber count, as numbers.
pub proof fn law_topic_row_order_by_column(a: TopicRowView, b: TopicRowView, col: usize)
    ensures
        col == 0 ==> topic_row_order(a, b, col) == text_order(a.topic_name, b.topic_name),
        col == 1 ==> topic_row_order(a, b, col) == text_order(a.topic_type, b.topic_type),
        col == 2 && a.publishers < b.publishers ==> topic_row_order(a, b, col) == Ordering::Less,
        col == 2 && a.publishers == b.publishers ==> topic_row_order(a, b, col) == Ordering::Equal,
        col == 2 && a.publishers > b.publishers ==> topic_row_order(a, b, col) == Ordering::Greater,
        col >= 3 && a.subscribers < b.subscribers ==> topic_row_order(a, b, col) == Ordering::Less,
        col >= 3 && a.subscribers == b.subscribers ==> topic_row_order(a, b, col)
            == Ordering::Equal,
        col >= 3 && a.subscribers > b.subscribers ==> topic_row_order(a, b, col)
            == Ordering::Greater,
{
    law_count_order_numeric(a.publishers, b.publishers);
    law_count_order_numeric(a.subscribers, b.subscribers);
}

/// Law: exchanging two rows reverses their order, in every column.
pub proof fn law_topic_row_order_antisymmetric(a: TopicRowView, b: TopicRowView, col: usize)
    ensures
        topic_row_order(a, b, col) == flipped(topic_row_order(b, a, col)),
{
    law_text_order_antisymmetric(a.topic_name, b.topic_name);
    law_text_order_antisymmetric(a.topic_type, b.topic_type);
}

/// Law: a row is equal to itself in every column.
pub proof fn law_topic_row_order_reflexive(a: TopicRowView, col: usize)
    ensures
        topic_row_order(a, a, col) == Ordering::Equal,
{
    law_text_order_equal(a.topic_name, a.topic_name);
    law_text_order_equal(a.topic_type, a.topic_type);
}

/// Law: in every column, the order of rows is transitive.
pub proof fn law_topic_row_order_transitive(
    a: TopicRowView,
    b: TopicRowView,
    c: TopicRowView,
    col: usize,
)
    requires
        topic_row_order(a, b, col) != Ordering::Greater,
        topic_row_order(b, c, col) != Ordering::Greater,
    ensures
        topic_row_order(a, c, col) != Ordering::Greater,
        topic_row_order(a, b, col) == Ordering::Less || topic_row_order(b, c, col)
            == Ordering::Less ==> topic_row_order(a, c, col) == Ordering::Less,
{
    if col == 0 {
        law_text_order_transitive(a.topic_name, b.topic_name, c.topic_name);
    } else if col == 1 {
        law_text_order_transitive(a.topic_type, b.topic_type, c.topic_type);
    }
}

/// Law: column 0 of a topic row shows its name, column 1 its type, column 2 its
/// publisher count, and any later column its subscriber count.
pub proof fn law_topic_cell_by_column(r: TopicRowView, col: usize)
    ensures
        col == 0 ==> topic_cell(r, col) == CellView::Text(r.topic_name),
        col == 1 ==> topic_cell(r, col) == CellView::Text(r.topic_type),
        col == 2 ==> topic_cell(r, col) == CellView::Count(r.publishers),
        col >= 3 ==> topic_cell(r, col) == CellView::Count(r.subscribers),
{
}

/// Law: the view of a row holds the same values as the row, field by field, and the
/// views of a sequence of rows are the rows' views in order.
pub proof fn law_topic_row_views(r: TopicRow, rows: Seq<TopicRow>)
    ensures
        r@.topic_name == r.topic_name@,
        r@.topic_type == r.topic_type@,
        r@.publishers == r.publishers,
        r@.subscribers == r.subscribers,
        topic_row_views(rows).len() == rows.len(),
        forall|i: int| 0 <= i < rows.len() ==> #[trigger] topic_row_views(rows)[i] == rows[i]@,
{
}

} // verus!
