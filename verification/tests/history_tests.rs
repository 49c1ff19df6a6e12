use portfolio_terminal::history::HistoryBuffer;

fn abc() -> HistoryBuffer {
    let mut h = HistoryBuffer::new();
    h.record("a".to_string());
    h.record("b".to_string());
    h.record("c".to_string());
    h
}

#[test]
fn recall_previous_walks_back_and_clamps_at_oldest() {
    let mut h = abc();
    let got: Vec<Option<String>> = (0..5).map(|_| h.recall_previous()).collect();
    assert_eq!(
        got,
        vec![
            Some("c".to_string()),
            Some("b".to_string()),
            Some("a".to_string()),
            Some("a".to_string()),
            Some("a".to_string()),
        ]
    );
}

#[test]
fn recall_next_steps_toward_newest() {
    let mut h = abc();
    h.recall_previous();
    h.recall_previous();
    h.recall_previous();
    assert_eq!(h.cursor, Some(0));
    assert_eq!(h.recall_next(), Some("b".to_string()));
    assert_eq!(h.cursor, Some(1));
}

#[test]
fn recall_next_past_newest_returns_to_blank_live_input() {
    let mut h = abc();
    assert_eq!(h.recall_previous(), Some("c".to_string()));
    assert_eq!(h.recall_next(), Some(String::new()));
    assert_eq!(h.cursor, None);
}

#[test]
fn recall_next_from_oldest_of_single_entry_history_blanks() {
    let mut h = HistoryBuffer::new();
    h.record("a".to_string());
    assert_eq!(h.recall_previous(), Some("a".to_string()));
    assert_eq!(h.cursor, Some(0));
    assert_eq!(h.recall_next(), Some(String::new()));
    assert_eq!(h.cursor, None);
}

#[test]
fn recall_next_without_navigation_is_a_no_op() {
    let mut h = abc();
    assert_eq!(h.recall_next(), None);
    assert_eq!(h.cursor, None);
}

#[test]
fn recall_previous_on_empty_buffer_is_a_no_op() {
    let mut h = HistoryBuffer::new();
    assert_eq!(h.recall_previous(), None);
    assert_eq!(h.cursor, None);
}

#[test]
fn record_resets_the_cursor() {
    let mut h = abc();
    h.recall_previous();
    assert_eq!(h.cursor, Some(2));
    h.record("d".to_string());
    assert_eq!(h.cursor, None);
    assert_eq!(h.entries.len(), 4);
}
