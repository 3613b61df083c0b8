use redis_rover::action::Action;
use redis_rover::errors::StoreError;
use redis_rover::event::{fetch_request_params, RedisEvent};
use redis_rover::state::SharedState;
use redis_rover::storage::{assemble_page, FetchKeysWithMeta};
use redis_rover::types::{CommonInfo, KeyMeta, KeysList, KeyValue, RedisInfo, RedisType, ValueQuery};

fn meta(key: &str) -> KeyMeta {
    KeyMeta::new(
        key.to_owned(),
        RedisType::Hash,
        KeyValue::Hash(vec![("f".to_owned(), "v".to_owned())]),
        64,
        120,
    )
}

#[test]
fn test_fanout_join_keeps_input_order() {
    // However the per-key fetches complete, the join is positional: the
    // records come out in the order of the key list handed in.
    let metas: Vec<Result<KeyMeta, StoreError>> =
        vec![Ok(meta("a")), Ok(meta("b")), Ok(meta("c"))];
    match assemble_page(12, metas) {
        Ok(KeysList::Keys { cursor, keys }) => {
            assert_eq!(cursor, 12);
            let names: Vec<&str> = keys.iter().map(|m| m.key.as_str()).collect();
            assert_eq!(names, vec!["a", "b", "c"]);
        }
        other => panic!("expected a populated page, got {:?}", other),
    }
}

#[test]
fn test_empty_batch_yields_no_keys_result() {
    let r = assemble_page(0, Vec::new());
    assert_eq!(r, Ok(KeysList::Empty));
}

#[test]
fn test_single_failure_fails_whole_page() {
    let metas: Vec<Result<KeyMeta, StoreError>> = vec![
        Ok(meta("a")),
        Err(StoreError::Fetch("first".to_owned())),
        Err(StoreError::Fetch("second".to_owned())),
    ];
    assert_eq!(assemble_page(1, metas), Err(StoreError::Fetch("first".to_owned())));
}

#[test]
fn test_apply_fetch_outcome_populated_page() {
    let mut st = SharedState::default();
    let keys = vec![meta("k1"), meta("k2")];
    let a = st.apply_fetch_outcome(Ok(KeysList::Keys { cursor: 12, keys }));
    assert_eq!(a, Action::LoadKeysIntoKeySpace);
    assert_eq!(st.keys.len(), 2);
    assert_eq!(st.keyspace_state.next_cursor, Some(12));
    assert_eq!(st.keyspace_state.cursor, None);
}

#[test]
fn test_apply_fetch_outcome_empty_clears_previous_page() {
    let mut st = SharedState::default();
    st.apply_fetch_outcome(Ok(KeysList::Keys { cursor: 5, keys: vec![meta("k")] }));
    assert_eq!(st.keys.len(), 1);
    let a = st.apply_fetch_outcome(Ok(KeysList::Empty));
    assert_eq!(a, Action::LoadKeysIntoKeySpace);
    assert!(st.keys.is_empty());
    // the staged cursor of the earlier page is untouched by an empty result
    assert_eq!(st.keyspace_state.next_cursor, Some(5));
}

#[test]
fn test_apply_fetch_outcome_failure_keeps_last_good_page() {
    let mut st = SharedState::default();
    st.apply_fetch_outcome(Ok(KeysList::Keys { cursor: 5, keys: vec![meta("k")] }));
    let a = st.apply_fetch_outcome(Err(StoreError::Connection("refused".to_owned())));
    assert_eq!(a, Action::Error("connection error: refused".to_owned()));
    assert_eq!(st.keys.len(), 1);
    assert_eq!(st.keys[0].key, "k");
    assert_eq!(st.keyspace_state.next_cursor, Some(5));
}

#[test]
fn test_apply_info_outcome_prefers_stale_over_none() {
    let mut st = SharedState::default();
    st.apply_info_outcome(None);
    assert!(st.info.is_none());
    let info = RedisInfo {
        common: CommonInfo {
            os: "Linux".to_owned(),
            version: "7.2.0".to_owned(),
            memory: "1M".to_owned(),
            total_memory: "2M".to_owned(),
            cpu: "0.5".to_owned(),
            clients: "1".to_owned(),
            max_clients: "100".to_owned(),
        },
    };
    st.apply_info_outcome(Some(info.clone()));
    assert_eq!(st.info, Some(info.clone()));
    st.apply_info_outcome(None);
    assert_eq!(st.info, Some(info));
}

#[test]
fn test_scan_args_defaults() {
    let plan = FetchKeysWithMeta::new();
    assert_eq!(plan.scan_args(), (0, "*".to_owned()));
    let plan = FetchKeysWithMeta::new()
        .cursor(Some(42))
        .pattern(Some("sess:*".to_owned()))
        .size(Some(10));
    assert_eq!(plan.scan_args(), (42, "sess:*".to_owned()));
}

#[test]
fn test_fetch_request_params_override_and_fallback() {
    let mut st = SharedState::default();
    st.keyspace_state.set_next_cursor(9);
    st.keyspace_state.update_cursor();
    st.keyspace_state.set_filter(Some("a*".to_owned()));

    let ev = RedisEvent::FetchKeys { cursor: None, pattern: None };
    let (c, p) = fetch_request_params(&st.keyspace_state, &ev);
    assert_eq!(c, Some(9));
    assert_eq!(p.as_deref(), Some("a*"));

    let ev = RedisEvent::FetchKeys { cursor: Some(77), pattern: Some("b*".to_owned()) };
    let (c, p) = fetch_request_params(&st.keyspace_state, &ev);
    assert_eq!(c, Some(77));
    assert_eq!(p.as_deref(), Some("b*"));
}

#[test]
fn test_key_meta_duplicate_is_faithful() {
    let m = KeyMeta::new(
        "zs".to_owned(),
        RedisType::Zset,
        KeyValue::Zset(vec![("m1".to_owned(), "1.5".to_owned())]),
        128,
        -1,
    );
    let d = m.duplicate();
    assert_eq!(d, m);
}

#[test]
fn test_value_query_dispatch() {
    assert_eq!(RedisType::String.value_query(), ValueQuery::GetString);
    assert_eq!(RedisType::List.value_query(), ValueQuery::ListRange);
    assert_eq!(RedisType::SetType.value_query(), ValueQuery::SetMembers);
    assert_eq!(RedisType::Hash.value_query(), ValueQuery::HashGetAll);
    assert_eq!(RedisType::Zset.value_query(), ValueQuery::ZsetRangeWithScores);
    assert_eq!(RedisType::Json.value_query(), ValueQuery::NoQuery);
    assert_eq!(RedisType::Unknown.value_query(), ValueQuery::NoQuery);
}
