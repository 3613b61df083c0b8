use vstd::prelude::*;

use crate::types::KeyspaceState;

verus! {

/// An in-process request that the key-refresh consumer load one page of
/// the keyspace now, optionally overriding the cursor or the filter
/// pattern of the shared pagination state.
#[derive(Debug, Clone, PartialEq, Eq)]
pub enum RedisEvent {
    FetchKeys { cursor: Option<usize>, pattern: Option<String> },
}

/// The scan position one fetch request uses: the event's override where
/// it carries one, else the shared pagination state's cursor and pattern.
pub fn fetch_request_params(ks: &KeyspaceState, ev: &RedisEvent) -> (r: (
    Option<usize>,
    Option<String>,
))
    ensures
        match *ev {
            RedisEvent::FetchKeys { cursor, pattern } => {
                &&& r.0 == (match cursor {
                    Some(c) => Some(c),
                    None => ks.cursor,
                })
                &&& r.1 == (match pattern {
                    Some(p) => Some(p),
                    None => ks.pattern,
                })
            },
        },
{
    match ev {
        RedisEvent::FetchKeys { cursor, pattern } => {
            let c: Option<usize> = match cursor {
                Some(c) => Some(*c),
                None => ks.cursor,
            };
            let p: Option<String> = match pattern {
                Some(p) => Some(p.clone()),
                None => match &ks.pattern {
                    Some(q) => Some(q.clone()),
                    None => None,
                },
            };
            (c, p)
        }
    }
}

} // verus!
