use std::cmp::Ordering;

use rewire_viewer::views::nodes::system::NodesSystem;
use rewire_viewer::views::nodes::{NodeRow, Nodes};
use rewire_viewer::views::table::Columns;

fn node_column(values: &[&str]) -> Vec<String> {
    values.iter().map(|s| s.to_string()).collect()
}

#[test]
fn nodes_system_lists_one_entry_per_name() {
    let mut system = NodesSystem::default();
    system.execute(
        &node_column(&["/talker", "/listener", "/relay"]),
        &node_column(&["1", "x"]),
        &node_column(&["0", "2", "+4"]),
        &node_column(&["zenoh"]),
    );
    assert_eq!(system.entries.len(), 3);
    assert_eq!(system.entries[0].node_name, "/talker");
    assert_eq!(system.entries[0].publishers, 1);
    assert_eq!(system.entries[0].subscribers, 0);
    assert_eq!(system.entries[0].transport, "zenoh");
    assert_eq!(system.entries[1].publishers, 0);
    assert_eq!(system.entries[1].subscribers, 2);
    assert_eq!(system.entries[1].transport, "");
    assert_eq!(system.entries[2].publishers, 0);
    assert_eq!(system.entries[2].subscribers, 4);
}

#[test]
fn nodes_system_replaces_old_entries() {
    let mut system = NodesSystem::default();
    system.execute(&node_column(&["/a", "/b"]), &Vec::new(), &Vec::new(), &Vec::new());
    system.execute(&node_column(&["/c"]), &Vec::new(), &Vec::new(), &Vec::new());
    assert_eq!(system.entries.len(), 1);
    assert_eq!(system.entries[0].node_name, "/c");
    system.execute(&Vec::new(), &node_column(&["1"]), &Vec::new(), &Vec::new());
    assert!(system.entries.is_empty());
}

#[test]
fn nodes_rows_agree_with_nodes_system() {
    let names = node_column(&["/a", "/b"]);
    let pubs = node_column(&["3", " 4"]);
    let subs = node_column(&["007"]);
    let transports = node_column(&["dds", "shm", "extra"]);
    let mut system = NodesSystem::default();
    system.execute(&names, &pubs, &subs, &transports);
    let rows = Nodes::rows(&Columns::new(vec![names, pubs, subs, transports]));
    assert_eq!(rows.len(), system.entries.len());
    for (r, e) in rows.iter().zip(system.entries.iter()) {
        assert_eq!(r.node_name, e.node_name);
        assert_eq!(r.publishers, e.publishers);
        assert_eq!(r.subscribers, e.subscribers);
        assert_eq!(r.transport, e.transport);
    }
    assert_eq!(rows[0].publishers, 3);
    assert_eq!(rows[1].publishers, 0);
    assert_eq!(rows[0].subscribers, 7);
    assert_eq!(rows[1].transport, "shm");
}

#[test]
fn columns_cells_outside_the_table_are_defaults() {
    let cols = Columns::new(vec![node_column(&["a"]), node_column(&["12"])]);
    assert_eq!(cols.row_count(), 1);
    assert_eq!(cols.text(0, 0), "a");
    assert_eq!(cols.text(0, 5), "");
    assert_eq!(cols.text(7, 0), "");
    assert_eq!(cols.parse_count(1, 0), Some(12));
    assert_eq!(cols.parse_count(0, 0), None);
    assert_eq!(cols.parse_count(3, 0), None);
}

fn node_row(name: &str, publishers: usize, subscribers: usize, transport: &str) -> NodeRow {
    NodeRow { node_name: name.to_string(), publishers, subscribers, transport: transport.to_string() }
}

#[test]
fn nodes_cmp_orders_by_the_chosen_column() {
    let a = node_row("/a", 1, 9, "zenoh");
    let b = node_row("/b", 1, 2, "dds");
    assert_eq!(Nodes::cmp(&a, &b, 0), Ordering::Less);
    assert_eq!(Nodes::cmp(&a, &b, 1), Ordering::Equal);
    assert_eq!(Nodes::cmp(&a, &b, 2), Ordering::Greater);
    assert_eq!(Nodes::cmp(&a, &b, 3), Ordering::Greater);
    assert_eq!(Nodes::cmp(&a, &b, 4), Ordering::Greater);
    for col in 0..5 {
        assert_eq!(Nodes::cmp(&a, &b, col), Nodes::cmp(&b, &a, col).reverse());
        assert_eq!(Nodes::cmp(&b, &b, col), Ordering::Equal);
    }
    assert_eq!(Nodes::NAME, "Nodes");
    assert_eq!(Nodes::ENTITY_PATH, "/rewire/nodes");
    assert_eq!(Nodes::EMPTY, "No nodes yet");
}

use rewire_viewer::text::{parse_u64, parse_usize};
use rewire_viewer::views::diagnostics::system::diagnostics_counts;
use rewire_viewer::views::table::Cell;

#[test]
fn parse_usize_agrees_with_std() {
    let max = usize::MAX.to_string();
    let over = format!("{}0", usize::MAX);
    let samples = ["", "+", "-", "-0", "0", "+0", "007", "42", "+42", " 42", "42 ", "4_2", "٤٢", "1e3", &max, &over];
    for s in samples {
        assert_eq!(parse_usize(s), s.parse::<usize>().ok(), "{s:?}");
        assert_eq!(parse_u64(s), s.parse::<u64>().ok(), "{s:?}");
    }
    assert_eq!(parse_u64("18446744073709551615"), Some(u64::MAX));
    assert_eq!(parse_u64("18446744073709551616"), None);
}

#[test]
fn nodes_cell_shows_the_column_value() {
    let r = node_row("/talker", 3, 4, "zenoh");
    assert!(matches!(Nodes::cell(&r, 0), Cell::Text(t) if t == "/talker"));
    assert!(matches!(Nodes::cell(&r, 1), Cell::Count(3)));
    assert!(matches!(Nodes::cell(&r, 2), Cell::Count(4)));
    assert!(matches!(Nodes::cell(&r, 3), Cell::Text(t) if t == "zenoh"));
    assert!(matches!(Nodes::cell(&r, 7), Cell::Text(t) if t == "zenoh"));
}

#[test]
fn diagnostics_counts_one_per_topic() {
    let counts = diagnostics_counts(
        &node_column(&["/a", "/b", "/c"]),
        &node_column(&["5", "x"]),
        &node_column(&["1.5", ""]),
    );
    assert_eq!(counts.len(), 3);
    assert_eq!(counts[0].topic, "/a");
    assert_eq!(counts[0].drops, 5);
    assert!(counts[0].latency_logged);
    assert_eq!(counts[1].drops, 0);
    assert!(!counts[1].latency_logged);
    assert_eq!(counts[2].drops, 0);
    assert!(!counts[2].latency_logged);
    assert!(diagnostics_counts(&Vec::new(), &node_column(&["1"]), &Vec::new()).is_empty());
}

#[test]
fn columns_parse_u64() {
    let cols = Columns::new(vec![node_column(&["a"]), node_column(&["18446744073709551615", "-1"])]);
    assert_eq!(cols.parse_u64(1, 0), Some(u64::MAX));
    assert_eq!(cols.parse_u64(1, 1), None);
    assert_eq!(cols.parse_u64(1, 2), None);
    assert_eq!(cols.parse_u64(5, 0), None);
}
