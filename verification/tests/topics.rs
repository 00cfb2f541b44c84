use std::cmp::Ordering;

use rewire_viewer::topics_system::{is_topic_entity, topic_entry, TopicReading, TopicsSystem};
use rewire_viewer::view_class::TopicsView;
use rewire_viewer::views::table::Columns;
use rewire_viewer::views::topics::{TopicRow, Topics};

fn reading(path: &str, name: Option<&str>, ty: Option<&str>, status: Option<&str>) -> TopicReading {
    TopicReading {
        path: path.to_string(),
        topic_name: name.map(|s| s.to_string()),
        topic_type: ty.map(|s| s.to_string()),
        status: status.map(|s| s.to_string()),
    }
}

fn topic_column(values: &[&str]) -> Vec<String> {
    values.iter().map(|s| s.to_string()).collect()
}

#[test]
fn topic_paths_are_those_under_the_topics_root() {
    assert!(is_topic_entity("/rewire/topics/chatter"));
    assert!(!is_topic_entity("/rewire/topics"));
    assert!(!is_topic_entity("/rewire/nodes"));
    assert!(!is_topic_entity("rewire/topics/x"));
}

#[test]
fn topic_entry_uses_the_logged_values() {
    let e = topic_entry(&reading("/rewire/topics/a", Some("/chatter"), Some("std_msgs/String"), Some("ok")));
    assert_eq!(e.topic_name, "/chatter");
    assert_eq!(e.topic_type, "std_msgs/String");
    assert_eq!(e.status, "ok");
}

#[test]
fn topic_entry_falls_back_when_nothing_is_logged() {
    let e = topic_entry(&reading("/rewire/topics/cmd_vel", None, None, None));
    assert_eq!(e.topic_name, "/cmd_vel");
    assert_eq!(e.topic_type, "");
    assert_eq!(e.status, "unknown");
}

#[test]
fn execute_keeps_topic_paths_in_order_and_replaces_old_entries() {
    let mut system = TopicsSystem::default();
    system.execute(&vec![reading("/rewire/topics/old", None, None, None)]);
    assert_eq!(system.entries.len(), 1);
    let readings = vec![
        reading("/rewire/nodes", Some("ignored"), None, None),
        reading("/rewire/topics/b", Some("/b"), Some("T"), None),
        reading("/other", None, None, None),
        reading("/rewire/topics/a", None, None, Some("stale")),
    ];
    system.execute(&readings);
    let names: Vec<&str> = system.entries.iter().map(|e| e.topic_name.as_str()).collect();
    assert_eq!(names, vec!["/b", "/a"]);
    assert_eq!(system.entries[0].status, "unknown");
    assert_eq!(system.entries[1].status, "stale");
    assert_eq!(system.entries[1].topic_type, "");
}

#[test]
fn execute_on_no_readings_clears_the_entries() {
    let mut system = TopicsSystem::default();
    system.execute(&vec![reading("/rewire/topics/x", None, None, None)]);
    system.execute(&Vec::new());
    assert!(system.entries.is_empty());
}

#[test]
fn topics_rows_parse_counts_and_default_missing_cells() {
    let cols = Columns::new(vec![
        topic_column(&["/chatter", "/odom", "/scan"]),
        topic_column(&["std_msgs/String", "nav_msgs/Odometry"]),
        topic_column(&["2", "+3", "-1"]),
        topic_column(&["abc", "18446744073709551616", "0"]),
    ]);
    let rows = Topics::rows(&cols);
    assert_eq!(rows.len(), 3);
    assert_eq!(rows[0].topic_name, "/chatter");
    assert_eq!(rows[0].topic_type, "std_msgs/String");
    assert_eq!(rows[0].publishers, 2);
    assert_eq!(rows[0].subscribers, 0);
    assert_eq!(rows[1].publishers, 3);
    assert_eq!(rows[1].subscribers, 0);
    assert_eq!(rows[2].topic_type, "");
    assert_eq!(rows[2].publishers, 0);
    assert_eq!(rows[2].subscribers, 0);
}

#[test]
fn topics_rows_of_no_columns_is_empty() {
    assert!(Topics::rows(&Columns::new(Vec::new())).is_empty());
    assert_eq!(Topics::rows(&Columns::new(vec![topic_column(&["/a"])])).len(), 1);
}

fn topic_row(name: &str, ty: &str, publishers: usize, subscribers: usize) -> TopicRow {
    TopicRow { topic_name: name.to_string(), topic_type: ty.to_string(), publishers, subscribers }
}

#[test]
fn topics_cmp_orders_by_the_chosen_column() {
    let a = topic_row("/a", "z", 5, 1);
    let b = topic_row("/b", "y", 2, 1);
    assert_eq!(Topics::cmp(&a, &b, 0), Ordering::Less);
    assert_eq!(Topics::cmp(&a, &b, 1), Ordering::Greater);
    assert_eq!(Topics::cmp(&a, &b, 2), Ordering::Greater);
    assert_eq!(Topics::cmp(&a, &b, 3), Ordering::Equal);
    assert_eq!(Topics::cmp(&a, &b, 9), Ordering::Equal);
    for col in 0..5 {
        assert_eq!(Topics::cmp(&a, &b, col), Topics::cmp(&b, &a, col).reverse());
        assert_eq!(Topics::cmp(&a, &a, col), Ordering::Equal);
    }
}

#[test]
fn topics_cmp_sorts_a_table() {
    let mut rows = vec![topic_row("/c", "", 1, 0), topic_row("/a", "", 3, 0), topic_row("/b", "", 2, 0)];
    rows.sort_by(|x, y| Topics::cmp(x, y, 0));
    let names: Vec<&str> = rows.iter().map(|r| r.topic_name.as_str()).collect();
    assert_eq!(names, vec!["/a", "/b", "/c"]);
    rows.sort_by(|x, y| Topics::cmp(y, x, 2));
    let counts: Vec<usize> = rows.iter().map(|r| r.publishers).collect();
    assert_eq!(counts, vec![3, 2, 1]);
}

#[test]
fn topics_view_names_and_empty_message() {
    assert_eq!(TopicsView::identifier(), "Topics");
    assert_eq!(TopicsView.display_name(), "Topics");
    let mut system = TopicsSystem::default();
    assert_eq!(TopicsView::empty_message(&system), Some("No topics yet"));
    system.execute(&vec![reading("/rewire/topics/x", None, None, None)]);
    assert_eq!(TopicsView::empty_message(&system), None);
    assert_eq!(Topics::NAME, "Topics");
    assert_eq!(Topics::ENTITY_PATH, "/rewire/topics");
    assert_eq!(Topics::EMPTY, "No topics yet");
}

use rewire_viewer::views::table::Cell;

#[test]
fn topics_cell_shows_the_column_value() {
    let r = topic_row("/chatter", "std_msgs/String", 2, 5);
    assert!(matches!(Topics::cell(&r, 0), Cell::Text(t) if t == "/chatter"));
    assert!(matches!(Topics::cell(&r, 1), Cell::Text(t) if t == "std_msgs/String"));
    assert!(matches!(Topics::cell(&r, 2), Cell::Count(2)));
    assert!(matches!(Topics::cell(&r, 3), Cell::Count(5)));
    assert!(matches!(Topics::cell(&r, 9), Cell::Count(5)));
}
