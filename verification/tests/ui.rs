use rewire_viewer::topics_system::TopicsSystem;
use rewire_viewer::ui::{record_header_click, sort_indicator, SortIndicator};
use rewire_viewer::views::nodes::system::NodesSystem;

#[test]
fn sort_indicator_shows_only_on_the_active_column() {
    assert_eq!(sort_indicator(false, true), None);
    assert_eq!(sort_indicator(false, false), None);
    assert_eq!(sort_indicator(true, true), Some(SortIndicator::ArrowUp));
    assert_eq!(sort_indicator(true, false), Some(SortIndicator::ArrowDown));
}

#[test]
fn header_click_records_the_column() {
    let mut clicked = None;
    record_header_click(&mut clicked, false, 2);
    assert_eq!(clicked, None);
    record_header_click(&mut clicked, true, 2);
    assert_eq!(clicked, Some(2));
    record_header_click(&mut clicked, false, 3);
    assert_eq!(clicked, Some(2));
    record_header_click(&mut clicked, true, 0);
    assert_eq!(clicked, Some(0));
}

#[test]
fn system_identifiers() {
    assert_eq!(TopicsSystem::identifier(), "Topics");
    assert_eq!(NodesSystem::identifier(), "Nodes");
}
