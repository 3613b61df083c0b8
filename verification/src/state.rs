use vstd::prelude::*;

use crate::action::Action;
use crate::errors::StoreError;
use crate::types::{KeyMeta, KeysList, KeyspaceState, RedisInfo};

verus! {

/// The shared snapshot the presentation layer renders: the latest server
/// info, the latest page of key records, and the pagination state.  The
/// engine mutates it only through the transition functions below; callers
/// that share it across tasks guard it with a lock of their own.
#[derive(Debug)]
pub struct SharedState {
    pub info: Option<RedisInfo>,
    pub keys: Vec<KeyMeta>,
    pub keyspace_state: KeyspaceState,
}

impl Default for SharedState {
    /// An empty snapshot: no server info yet, no keys, pagination at the
    /// start.
    fn default() -> (r: Self)
        ensures
            r.info is None,
            r.keys@ == Seq::<KeyMeta>::empty(),
            r.keyspace_state.cursor is None,
            r.keyspace_state.next_cursor is None,
            r.keyspace_state.pattern is None,
            r.keyspace_state.count == 10,
            r.keyspace_state.cursor_stack@ == Seq::<usize>::empty(),
    {
        SharedState { info: None, keys: Vec::new(), keyspace_state: KeyspaceState::default() }
    }
}

impl SharedState {
    /// Applies one tick of the info poller: a successful refresh replaces
    /// the snapshot wholesale, a failed one leaves the previous snapshot
    /// in place — stale data is preferred over none.
    pub fn apply_info_outcome(&mut self, outcome: Option<RedisInfo>)
        ensures
            match outcome {
                Some(i) => final(self).info == Some(i),
                None => final(self).info == old(self).info,
            },
            final(self).keys == old(self).keys,
            final(self).keyspace_state == old(self).keyspace_state,
    {
        if let Some(i) = outcome {
            self.info = Some(i);
        }
    }

    /// Applies the outcome of one page fetch and says what to tell the
    /// interface.
    ///
    /// A populated page replaces the key records wholesale and stages the
    /// scan's next cursor; an empty one clears them; both announce the
    /// new data.  A failure leaves the whole snapshot untouched — the
    /// last known good page stays visible — and surfaces the error as a
    /// user-visible action.
    pub fn apply_fetch_outcome(&mut self, outcome: Result<KeysList, StoreError>) -> (a: Action)
        ensures
            match outcome {
                Ok(KeysList::Keys { cursor, keys }) => {
                    &&& final(self).keys == keys
                    &&& final(self).info == old(self).info
                    &&& final(self).keyspace_state.next_cursor == Some(cursor)
                    &&& final(self).keyspace_state.cursor == old(self).keyspace_state.cursor
                    &&& final(self).keyspace_state.pattern == old(self).keyspace_state.pattern
                    &&& final(self).keyspace_state.count == old(self).keyspace_state.count
                    &&& final(self).keyspace_state.cursor_stack == old(
                        self,
                    ).keyspace_state.cursor_stack
                    &&& a == Action::LoadKeysIntoKeySpace
                },
                Ok(KeysList::Empty) => {
                    &&& final(self).keys@ == Seq::<KeyMeta>::empty()
                    &&& final(self).info == old(self).info
                    &&& final(self).keyspace_state == old(self).keyspace_state
                    &&& a == Action::LoadKeysIntoKeySpace
                },
                Err(e) => {
                    &&& *final(self) == *old(self)
                    &&& a matches Action::Error(m) && m@ == e.spec_message()
                },
            },
    {
        match outcome {
            Ok(KeysList::Keys { cursor, keys }) => {
                self.keyspace_state.set_next_cursor(cursor);
                self.keys = keys;
                Action::LoadKeysIntoKeySpace
            }
            Ok(KeysList::Empty) => {
                self.keys = Vec::new();
                Action::LoadKeysIntoKeySpace
            }
            Err(e) => Action::Error(e.message()),
        }
    }
}

} // verus!
