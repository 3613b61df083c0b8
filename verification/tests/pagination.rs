use redis_rover::types::KeyspaceState;

#[test]
fn test_pagination_advance_and_retreat() {
    let mut ks = KeyspaceState::default();
    assert_eq!(ks.cursor, None);
    assert_eq!(ks.next_cursor, None);
    assert!(ks.cursor_stack.is_empty());

    ks.set_next_cursor(5);
    ks.update_cursor();
    assert_eq!(ks.cursor, Some(5));
    assert_eq!(ks.next_cursor, None);
    assert!(ks.cursor_stack.is_empty());

    ks.set_next_cursor(9);
    ks.update_cursor();
    assert_eq!(ks.cursor, Some(9));
    assert_eq!(ks.cursor_stack.iter().copied().collect::<Vec<usize>>(), vec![5]);

    ks.set_previous_cursor();
    assert_eq!(ks.cursor, Some(5));
    assert!(ks.cursor_stack.is_empty());
}

#[test]
fn test_advance_on_done_sentinel_is_noop() {
    let mut ks = KeyspaceState::default();
    ks.set_next_cursor(7);
    ks.update_cursor();
    ks.set_next_cursor(0);
    let cursor_before = ks.cursor;
    let stack_before: Vec<usize> = ks.cursor_stack.iter().copied().collect();
    ks.update_cursor();
    assert_eq!(ks.cursor, cursor_before);
    assert_eq!(ks.next_cursor, Some(0));
    assert_eq!(ks.cursor_stack.iter().copied().collect::<Vec<usize>>(), stack_before);
}

#[test]
fn test_retreat_with_empty_history_returns_to_start() {
    let mut ks = KeyspaceState::default();
    ks.set_next_cursor(4);
    ks.update_cursor();
    assert_eq!(ks.cursor, Some(4));
    ks.set_previous_cursor();
    assert_eq!(ks.cursor, None);
    ks.set_previous_cursor();
    assert_eq!(ks.cursor, None);
}

#[test]
fn test_advance_without_staged_cursor_clears_cursor() {
    let mut ks = KeyspaceState::default();
    ks.set_next_cursor(3);
    ks.update_cursor();
    ks.update_cursor();
    assert_eq!(ks.cursor, None);
    assert_eq!(ks.cursor_stack.iter().copied().collect::<Vec<usize>>(), vec![3]);
}

#[test]
fn test_set_filter_keeps_cursor_and_history() {
    let mut ks = KeyspaceState::default();
    ks.set_next_cursor(6);
    ks.update_cursor();
    ks.set_next_cursor(8);
    ks.update_cursor();
    ks.set_filter(Some("user:*".to_owned()));
    assert_eq!(ks.pattern.as_deref(), Some("user:*"));
    assert_eq!(ks.cursor, Some(8));
    assert_eq!(ks.cursor_stack.iter().copied().collect::<Vec<usize>>(), vec![6]);
    ks.set_filter(None);
    assert_eq!(ks.pattern, None);
}

#[test]
fn test_default_page_size_hint() {
    let ks = KeyspaceState::default();
    assert_eq!(ks.count, 10);
    assert_eq!(ks.pattern, None);
}
