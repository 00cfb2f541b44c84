//! The Nodes visualizer system: one entry per node logged at `/rewire/nodes`.

use crate::text::parsed_usize;
use crate::util::string_views;
use crate::views::table::{cell_count, cell_text, count_at, text_at};
use vstd::prelude::*;

verus! {

/// One node, as listed by the Nodes system.
pub struct NodeEntry {
    pub node_name: String,
    pub publishers: usize,
    pub subscribers: usize,
    pub transport: String,
}

/// The values of a node entry.
pub struct NodeEntryView {
    pub node_name: Seq<char>,
    pub publishers: usize,
    pub subscribers: usize,
    pub transport: Seq<char>,
}

impl View for NodeEntry {
    type V = NodeEntryView;

    open spec fn view(&self) -> NodeEntryView {
        NodeEntryView {
            node_name: self.node_name@,
            publishers: self.publishers,
            subscribers: self.subscribers,
            transport: self.transport@,
        }
    }
}

/// The entries for the logged columns: one per node name, in order, each with the
/// counts and transport logged at the same position (0 and empty where missing or
/// malformed).
pub open spec fn node_entries(
    names: Seq<Seq<char>>,
    pub_counts: Seq<Seq<char>>,
    sub_counts: Seq<Seq<char>>,
    transports: Seq<Seq<char>>,
) -> Seq<NodeEntryView> {
    Seq::new(
        names.len(),
        |i: int|
            NodeEntryView {
                node_name: names[i],
                publishers: count_at(pub_counts, i),
                subscribers: count_at(sub_counts, i),
                transport: text_at(transports, i),
            },
    )
}

/// Law: there is one entry per node name, in order, and entry `i` holds the `i`-th
/// name, the `i`-th publisher and subscriber counts parsed as `usize` (0 where the
/// column is shorter or the cell is not a `usize`) and the `i`-th transport (empty
/// where the column is shorter).
pub proof fn law_node_entries_read_the_columns(
    names: Seq<Seq<char>>,
    pub_counts: Seq<Seq<char>>,
    sub_counts: Seq<Seq<char>>,
    transports: Seq<Seq<char>>,
)
    ensures
        node_entries(names, pub_counts, sub_counts, transports).len() == names.len(),
        forall|i: int|
            0 <= i < names.len() ==> {
                let e = #[trigger] node_entries(names, pub_counts, sub_counts, transports)[i];
                &&& e.node_name == names[i]
                &&& e.publishers == (if i < pub_counts.len() {
                    match parsed_usize(pub_counts[i]) {
                        Some(n) => n,
                        None => 0,
                    }
                } else {
                    0
                })
                &&& e.subscribers == (if i < sub_counts.len() {
                    match parsed_usize(sub_counts[i]) {
                        Some(n) => n,
                        None => 0,
                    }
                } else {
                    0
                })
                &&& e.transport == (if i < transports.len() {
                    transports[i]
                } else {
                    Seq::<char>::empty()
                })
            },
{
}

/// The views of a sequence of node entries.
pub open spec fn node_entry_views(es: Seq<NodeEntry>) -> Seq<NodeEntryView> {
    es.map_values(|e: NodeEntry| e@)
}

/// The state of the Nodes visualizer: the nodes found in the recording.
pub struct NodesSystem {
    pub entries: Vec<NodeEntry>,
}

impl View for NodesSystem {
    type V = Seq<NodeEntryView>;

    open spec fn view(&self) -> Seq<NodeEntryView> {
        node_entry_views(self.entries@)
    }
}

impl Default for NodesSystem {
    fn default() -> (s: Self)
        ensures
            s@ == Seq::<NodeEntryView>::empty(),
    {
        let s = NodesSystem { entries: Vec::new() };
        assert(s@ =~= Seq::<NodeEntryView>::empty());
        s
    }
}

impl NodesSystem {
    /// The identifier of the visualizer system.
    pub fn identifier() -> (id: &'static str)
        ensures
            id@ == seq!['N', 'o', 'd', 'e', 's'],
    {
        proof {
            reveal_strlit("Nodes");
        }
        "Nodes"
    }

    /// Replaces the entries with those of the latest logged node columns: names,
    /// publisher counts, subscriber counts and transports.
    pub fn execute(
        &mut self,
        names: &Vec<String>,
        pub_counts: &Vec<String>,
        sub_counts: &Vec<String>,
        transports: &Vec<String>,
    )
        ensures
            final(self)@ == node_entries(
                string_views(names@),
                string_views(pub_counts@),
                string_views(sub_counts@),
                string_views(transports@),
            ),
    {
        self.entries.clear();
        let n = names.len();
        let mut i: usize = 0;
        while i < n
            invariant
                n == names@.len(),
                i <= n,
                self.entries@.len() == i,
                forall|j: int|
                    0 <= j < i ==> #[trigger] self.entries@[j]@ == node_entries(
                        string_views(names@),
                        string_views(pub_counts@),
                        string_views(sub_counts@),
                        string_views(transports@),
                    )[j],
            decreases n - i,
        {
            let entry = NodeEntry {
                node_name: cell_text(names, i),
                publishers: cell_count(pub_counts, i),
                subscribers: cell_count(sub_counts, i),
                transport: cell_text(transports, i),
            };
            self.entries.push(entry);
            i = i + 1;
        }
        assert(self@ =~= node_entries(
            string_views(names@),
            string_views(pub_counts@),
            string_views(sub_counts@),
            string_views(transports@),
        ));
    }
}

/// Law: the view of an entry holds the same values as the entry, field by field, and
/// the view of the system is its entries' views in order.
pub proof fn law_node_entry_views(e: NodeEntry, sys: NodesSystem)
    ensures
        e@.node_name == e.node_name@,
        e@.publishers == e.publishers,
        e@.subscribers == e.subscribers,
        e@.transport == e.transport@,
        sys@.len() == sys.entries@.len(),
        forall|i: int| 0 <= i < sys.entries@.len() ==> #[trigger] sys@[i] == sys.entries@[i]@,
{
}

} // verus!
