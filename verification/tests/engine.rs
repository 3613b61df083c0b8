use redis_rover::action::Action;
use redis_rover::app::App;
use redis_rover::command::Command;
use redis_rover::errors::StoreError;
use redis_rover::event::{fetch_request_params, RedisEvent};
use redis_rover::keybindings::{KeyBindings, KeyInput};
use redis_rover::mode::{Mode, PopupMode};
use redis_rover::state::SharedState;
use redis_rover::storage::assemble_page;
use redis_rover::tabs::SelectedTab;
use redis_rover::types::{KeyMeta, KeysList, KeyValue, RedisType};

fn meta(key: &str) -> KeyMeta {
    KeyMeta::new(
        key.to_owned(),
        RedisType::String,
        KeyValue::String("value".to_owned()),
        32,
        -1,
    )
}

fn bindings() -> KeyBindings {
    let mut kb = KeyBindings::new();
    kb.bind(Mode::KeySpace, vec![KeyInput::Char('n')], Command::LoadNextPage);
    kb.bind(Mode::Common, vec![KeyInput::Char('q')], Command::Quit);
    kb
}

#[test]
fn test_end_to_end_first_page_load() {
    // The interface asks for the next page from the start of the
    // keyspace; the consumer scans, fans out, and publishes the result;
    // the cursor is staged but not applied until the next forward step.
    let mut app = App::new(bindings());
    let mut st = SharedState::default();
    assert_eq!(app.mode, Mode::KeySpace);
    assert_eq!(st.keyspace_state.pattern, None);
    assert_eq!(st.keyspace_state.cursor, None);

    // LoadNextPage steps pagination (a no-op from Start) and requests a fetch.
    let emit = app.handle_action(Action::LoadNextPage, &mut st);
    let ev = emit.expect("a fetch request is published");
    assert!(matches!(ev, RedisEvent::FetchKeys { cursor: None, pattern: None }));
    assert_eq!(st.keyspace_state.cursor, None);

    // The consumer reads the scan position from the shared state.
    let (cursor, pattern) = fetch_request_params(&st.keyspace_state, &ev);
    assert_eq!(cursor, None);
    assert_eq!(pattern, None);

    // The scan returns (12, ["k1", "k2"]) and the fan-out succeeds.
    let metas: Vec<Result<KeyMeta, StoreError>> = vec![Ok(meta("k1")), Ok(meta("k2"))];
    let page = assemble_page(12, metas);
    let follow_up = st.apply_fetch_outcome(page);
    assert_eq!(follow_up, Action::LoadKeysIntoKeySpace);

    assert_eq!(
        st.keys.iter().map(|m| m.key.as_str()).collect::<Vec<_>>(),
        vec!["k1", "k2"]
    );
    assert_eq!(st.keyspace_state.cursor, None);
    assert_eq!(st.keyspace_state.next_cursor, Some(12));

    // The follow-up action copies the page into the view.
    let emit = app.handle_action(follow_up, &mut st);
    assert_eq!(emit, None);
    assert_eq!(app.keyspace.keys.len(), 2);
    assert_eq!(app.keyspace.keys[0].key, "k1");
    assert_eq!(app.keyspace.keys[1].key, "k2");
}

#[test]
fn test_handle_key_event_resolves_and_accumulates() {
    let mut app = App::new(bindings());
    assert_eq!(app.handle_key_event(KeyInput::Char('n')), Some(Action::LoadNextPage));
    // fallback to the common table
    let mut app = App::new(bindings());
    assert_eq!(app.handle_key_event(KeyInput::Char('q')), Some(Action::Quit));
    // unresolved sequences accumulate until the next tick
    let mut app = App::new(bindings());
    assert_eq!(app.handle_key_event(KeyInput::Char('z')), None);
    assert_eq!(app.last_tick_key_events, vec![KeyInput::Char('z')]);
    assert_eq!(app.handle_key_event(KeyInput::Char('n')), None);
}

#[test]
fn test_tick_flushes_key_accumulator() {
    let mut app = App::new(bindings());
    let mut st = SharedState::default();
    app.handle_key_event(KeyInput::Char('z'));
    let emit = app.handle_action(Action::Tick, &mut st);
    assert_eq!(emit, None);
    assert!(app.last_tick_key_events.is_empty());
    // after the flush the single-key binding resolves again
    assert_eq!(app.handle_key_event(KeyInput::Char('n')), Some(Action::LoadNextPage));
}

#[test]
fn test_quit_raises_flag() {
    let mut app = App::new(bindings());
    let mut st = SharedState::default();
    assert!(!app.should_quit);
    app.handle_action(Action::Quit, &mut st);
    assert!(app.should_quit);
}

#[test]
fn test_refresh_space_clears_selection_and_requests_fetch() {
    let mut app = App::new(bindings());
    let mut st = SharedState::default();
    st.keys = vec![meta("a"), meta("b")];
    app.handle_action(Action::LoadKeysIntoKeySpace, &mut st);
    app.handle_action(Action::ScrollDown, &mut st);
    assert_eq!(app.keyspace.selected, Some(0));
    let emit = app.handle_action(Action::RefreshSpace, &mut st);
    assert!(matches!(
        emit,
        Some(RedisEvent::FetchKeys { cursor: None, pattern: None })
    ));
    assert_eq!(app.keyspace.selected, None);
}

#[test]
fn test_scrolling_only_in_keyspace_mode() {
    let mut app = App::new(bindings());
    let mut st = SharedState::default();
    st.keys = vec![meta("a")];
    app.handle_action(Action::LoadKeysIntoKeySpace, &mut st);
    app.enter_mode(Mode::Popup(PopupMode::Info));
    app.handle_action(Action::ScrollDown, &mut st);
    assert_eq!(app.keyspace.selected, None);
    app.handle_action(Action::PreviousMode, &mut st);
    assert_eq!(app.mode, Mode::KeySpace);
    app.handle_action(Action::ScrollDown, &mut st);
    assert_eq!(app.keyspace.selected, Some(0));
}

#[test]
fn test_previous_mode_falls_back_to_keyspace() {
    let mut app = App::new(bindings());
    let mut st = SharedState::default();
    app.handle_action(Action::PreviousMode, &mut st);
    assert_eq!(app.mode, Mode::KeySpace);
    app.enter_mode(Mode::Popup(PopupMode::Confirm));
    assert_eq!(app.previous_mode, Some(Mode::KeySpace));
    app.switch_to_previous_mode();
    assert_eq!(app.mode, Mode::KeySpace);
    // returning is itself tracked in the single slot: the popup just
    // left is the one level of "back" now recoverable
    assert_eq!(app.previous_mode, Some(Mode::Popup(PopupMode::Confirm)));
    app.switch_to_previous_mode();
    assert_eq!(app.mode, Mode::Popup(PopupMode::Confirm));
    assert_eq!(app.previous_mode, Some(Mode::KeySpace));
}

#[test]
fn test_page_navigation_syncs_view_filters() {
    let mut app = App::new(bindings());
    let mut st = SharedState::default();
    st.keyspace_state.set_filter(Some("user:*".to_owned()));
    st.keyspace_state.set_next_cursor(12);

    let emit = app.handle_action(Action::LoadNextPage, &mut st);
    assert!(emit.is_some());
    assert_eq!(st.keyspace_state.cursor, Some(12));
    assert_eq!(app.keyspace.cursor, Some(12));
    assert_eq!(app.keyspace.pattern.as_deref(), Some("user:*"));

    let emit = app.handle_action(Action::LoadPreviousPage, &mut st);
    assert!(emit.is_some());
    assert_eq!(st.keyspace_state.cursor, None);
    assert_eq!(app.keyspace.cursor, None);
}

#[test]
fn test_unhandled_actions_leave_engine_untouched() {
    let mut app = App::new(bindings());
    let mut st = SharedState::default();
    for action in [
        Action::Render,
        Action::Resize(80, 24),
        Action::Help,
        Action::Refresh,
        Action::SetKeyspaceFilter,
        Action::DeleteKeyspaceFilter,
        Action::ConfirmKeyspacePopup,
        Action::DiscardKeyspacePopup,
        Action::Error("boom".to_owned()),
    ] {
        let emit = app.handle_action(action, &mut st);
        assert_eq!(emit, None);
    }
    assert_eq!(app.mode, Mode::KeySpace);
    assert!(!app.should_quit);
    assert!(st.keys.is_empty());
}

#[test]
fn test_selected_tab_select() {
    let mut tab = SelectedTab::default();
    assert_eq!(tab, SelectedTab::KeySpace);
    tab.select(SelectedTab::Info);
    assert_eq!(tab, SelectedTab::Info);
}

#[test]
fn test_stale_empty_page_after_populated_page() {
    // both "no keys at all" and "no keys after a populated page" clear
    // the shared key list; the view then shows an empty table
    let mut app = App::new(bindings());
    let mut st = SharedState::default();
    st.apply_fetch_outcome(Ok(KeysList::Keys { cursor: 3, keys: vec![meta("a")] }));
    app.handle_action(Action::LoadKeysIntoKeySpace, &mut st);
    assert_eq!(app.keyspace.keys.len(), 1);
    st.apply_fetch_outcome(Ok(KeysList::Empty));
    app.handle_action(Action::LoadKeysIntoKeySpace, &mut st);
    assert!(app.keyspace.keys.is_empty());
}
