//! The integer and text parts of the Diagnostics visualizer's entries.

use crate::text::{parse_u64, parsed_u64};
use crate::util::string_views;
use crate::views::table::{cell_text, text_at};
use vstd::prelude::*;

verus! {

/// The drop count in row `i` of a column: the cell parsed as a `u64`, or 0 when the
/// column is shorter or the cell is not a count.
pub open spec fn drops_at(col: Seq<Seq<char>>, i: int) -> u64 {
    if 0 <= i < col.len() {
        match parsed_u64(col[i]) {
            Some(n) => n,
            None => 0,
        }
    } else {
        0
    }
}

/// Whether row `i` of a column holds a non-empty cell.
pub open spec fn logged_at(col: Seq<Seq<char>>, i: int) -> bool {
    0 <= i < col.len() && col[i].len() > 0
}

/// The parts of one topic's diagnostics that are not floating-point values: the
/// topic, its drop count, and whether a latency was logged for it.
pub struct DiagnosticsCounts {
    pub topic: String,
    pub drops: u64,
    pub latency_logged: bool,
}

/// The values of [`DiagnosticsCounts`].
pub struct DiagnosticsCountsView {
    pub topic: Seq<char>,
    pub drops: u64,
    pub latency_logged: bool,
}

impl View for DiagnosticsCounts {
    type V = DiagnosticsCountsView;

    open spec fn view(&self) -> DiagnosticsCountsView {
        DiagnosticsCountsView {
            topic: self.topic@,
            drops: self.drops,
            latency_logged: self.latency_logged,
        }
    }
}

/// One value per topic name, in order: the name, the drop count at the same position
/// (0 where missing or malformed), and whether a non-empty latency is logged there.
pub open spec fn diagnostics_counts_of(
    topics: Seq<Seq<char>>,
    drops: Seq<Seq<char>>,
    latencies: Seq<Seq<char>>,
) -> Seq<DiagnosticsCountsView> {
    Seq::new(
        topics.len(),
        |i: int|
            DiagnosticsCountsView {
                topic: text_at(topics, i),
                drops: drops_at(drops, i),
                latency_logged: logged_at(latencies, i),
            },
    )
}

/// Law: there is one value per topic name, in order, and value `i` holds the `i`-th
/// topic name, the `i`-th drop count parsed as a `u64` (0 where the column is shorter
/// or the cell is not a `u64`), and whether the `i`-th latency cell exists and is
/// non-empty.
pub proof fn law_diagnostics_counts_read_the_columns(
    topics: Seq<Seq<char>>,
    drops: Seq<Seq<char>>,
    latencies: Seq<Seq<char>>,
)
    ensures
        diagnostics_counts_of(topics, drops, latencies).len() == topics.len(),
        forall|i: int|
            0 <= i < topics.len() ==> {
                let c = #[trigger] diagnostics_counts_of(topics, drops, latencies)[i];
                &&& c.topic == topics[i]
                &&& c.drops == (if i < drops.len() {
                    match parsed_u64(drops[i]) {
                        Some(d) => d,
                        None => 0,
                    }
                } else {
                    0
                })
                &&& c.latency_logged == (i < latencies.len() && latencies[i].len() > 0)
            },
{
}

/// Reads the topics, drop counts and latency presence of the diagnostics columns:
/// one value per topic name.
pub fn diagnostics_counts(
    topics: &Vec<String>,
    drops: &Vec<String>,
    latencies: &Vec<String>,
) -> (counts: Vec<DiagnosticsCounts>)
    ensures
        counts@.map_values(|c: DiagnosticsCounts| c@) == diagnostics_counts_of(
            string_views(topics@),
            string_views(drops@),
            string_views(latencies@),
        ),
{
    let ghost want = diagnostics_counts_of(
        string_views(topics@),
        string_views(drops@),
        string_views(latencies@),
    );
    let n = topics.len();
    let mut counts: Vec<DiagnosticsCounts> = Vec::new();
    let mut i: usize = 0;
    while i < n
        invariant
            n == topics@.len(),
            i <= n,
            want == diagnostics_counts_of(
                string_views(topics@),
                string_views(drops@),
                string_views(latencies@),
            ),
            counts@.len() == i,
            forall|j: int| 0 <= j < i ==> #[trigger] counts@[j]@ == want[j],
        decreases n - i,
    {
        let dropped = if i < drops.len() {
            match parse_u64(drops[i].as_str()) {
                Some(d) => d,
                None => 0,
            }
        } else {
            0
        };
        let latency_logged = i < latencies.len() && !latencies[i].as_str().is_empty();
        let c = DiagnosticsCounts { topic: cell_text(topics, i), drops: dropped, latency_logged };
        counts.push(c);
        i = i + 1;
    }
    assert(counts@.map_values(|c: DiagnosticsCounts| c@) =~= want);
    counts
}

/// Law: the view of a value holds the same values, field by field.
pub proof fn law_diagnostics_counts_view(c: DiagnosticsCounts)
    ensures
        c@.topic == c.topic@,
        c@.drops == c.drops,
        c@.latency_logged == c.latency_logged,
{
}

} // verus!
