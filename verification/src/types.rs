use std::collections::VecDeque;

use vstd::prelude::*;
use vstd::string::StringExecFns;

use crate::text::str_eq;

verus! {

/// The flat record of server facts read from the info reply.
#[derive(Debug, Clone, PartialEq, Eq)]
pub struct CommonInfo {
    pub os: String,
    pub version: String,
    pub memory: String,
    pub total_memory: String,
    pub cpu: String,
    pub clients: String,
    pub max_clients: String,
}

/// The latest snapshot of server information; replaced wholesale on every
/// refresh tick.
#[derive(Debug, Clone, PartialEq, Eq)]
pub struct RedisInfo {
    pub common: CommonInfo,
}

impl RedisInfo {
    /// The server version, labelled for display.
    pub fn redis_version(&self) -> (r: String)
        ensures
            r@ == "Redis version: "@ + self.common.version@,
    {
        let mut s = "Redis version: ".to_owned();
        s.append(self.common.version.as_str());
        s
    }

    /// The operating system line, labelled for display.
    pub fn os(&self) -> (r: String)
        ensures
            r@ == "OS: "@ + self.common.os@,
    {
        let mut s = "OS: ".to_owned();
        s.append(self.common.os.as_str());
        s
    }

    /// The cumulative system cpu time, labelled for display.
    pub fn cpu(&self) -> (r: String)
        ensures
            r@ == "CPU: "@ + self.common.cpu@,
    {
        let mut s = "CPU: ".to_owned();
        s.append(self.common.cpu.as_str());
        s
    }

    /// Used and total memory, labelled for display.
    pub fn memory(&self) -> (r: String)
        ensures
            r@ == "RAM: "@ + self.common.memory@ + "/"@ + self.common.total_memory@,
    {
        let mut s = "RAM: ".to_owned();
        s.append(self.common.memory.as_str());
        s.append("/");
        s.append(self.common.total_memory.as_str());
        s
    }

    /// Connected and maximum clients, labelled for display.
    pub fn clients(&self) -> (r: String)
        ensures
            r@ == "Connected clients: "@ + self.common.clients@ + "/"@
                + self.common.max_clients@,
    {
        let mut s = "Connected clients: ".to_owned();
        s.append(self.common.clients.as_str());
        s.append("/");
        s.append(self.common.max_clients.as_str());
        s
    }
}

/// The store's per-key type tag.
#[derive(Debug, Clone, Copy, PartialEq, Eq, Structural)]
pub enum RedisType {
    SetType,
    List,
    Hash,
    Zset,
    Json,
    String,
    Unknown,
}

/// Classification of the store's textual type tag; every unrecognised tag
/// is `Unknown`.
pub open spec fn redis_type_of(s: Seq<char>) -> RedisType {
    if s == "string"@ {
        RedisType::String
    } else if s == "hash"@ {
        RedisType::Hash
    } else if s == "set"@ {
        RedisType::SetType
    } else if s == "zset"@ {
        RedisType::Zset
    } else if s == "json"@ {
        RedisType::Json
    } else if s == "list"@ {
        RedisType::List
    } else {
        RedisType::Unknown
    }
}

/// The bulk read that retrieves a full value of a given type: a raw get
/// for strings, the full range for lists, all members for sets, the whole
/// mapping for hashes, and the full range with scores for sorted sets.
/// `NoQuery` means no value read is issued and the value stays unknown.
#[derive(Debug, Clone, Copy, PartialEq, Eq, Structural)]
pub enum ValueQuery {
    GetString,
    ListRange,
    SetMembers,
    HashGetAll,
    ZsetRangeWithScores,
    NoQuery,
}

/// The read each type tag dispatches to.  Document values and unknown
/// tags get no value read.
pub open spec fn value_query_of(t: RedisType) -> ValueQuery {
    match t {
        RedisType::String => ValueQuery::GetString,
        RedisType::List => ValueQuery::ListRange,
        RedisType::SetType => ValueQuery::SetMembers,
        RedisType::Hash => ValueQuery::HashGetAll,
        RedisType::Zset => ValueQuery::ZsetRangeWithScores,
        RedisType::Json => ValueQuery::NoQuery,
        RedisType::Unknown => ValueQuery::NoQuery,
    }
}

impl RedisType {
    /// Classifies the textual type tag the store returns.
    pub fn from_str(value: &str) -> (r: Self)
        ensures
            r == redis_type_of(value@),
    {
        if str_eq(value, "string") {
            RedisType::String
        } else if str_eq(value, "hash") {
            RedisType::Hash
        } else if str_eq(value, "set") {
            RedisType::SetType
        } else if str_eq(value, "zset") {
            RedisType::Zset
        } else if str_eq(value, "json") {
            RedisType::Json
        } else if str_eq(value, "list") {
            RedisType::List
        } else {
            RedisType::Unknown
        }
    }

    /// The bulk read used to retrieve a value of this type.
    pub fn value_query(&self) -> (q: ValueQuery)
        ensures
            q == value_query_of(*self),
    {
        match self {
            RedisType::String => ValueQuery::GetString,
            RedisType::List => ValueQuery::ListRange,
            RedisType::SetType => ValueQuery::SetMembers,
            RedisType::Hash => ValueQuery::HashGetAll,
            RedisType::Zset => ValueQuery::ZsetRangeWithScores,
            RedisType::Json => ValueQuery::NoQuery,
            RedisType::Unknown => ValueQuery::NoQuery,
        }
    }
}

/// A key's value, as a closed sum with one constructor per store type.
/// Sorted-set scores are carried in their textual protocol form, so the
/// pair lists hold plain strings.
#[derive(Debug, Clone, PartialEq, Eq)]
pub enum KeyValue {
    String(String),
    List(Vec<String>),
    SetValue(Vec<String>),
    Hash(Vec<(String, String)>),
    Zset(Vec<(String, String)>),
    Unknown,
}

/// Same variant and same contents, compared by view.
pub open spec fn key_value_matches(a: KeyValue, b: KeyValue) -> bool {
    match (a, b) {
        (KeyValue::String(x), KeyValue::String(y)) => x@ == y@,
        (KeyValue::List(x), KeyValue::List(y)) => x.deep_view() == y.deep_view(),
        (KeyValue::SetValue(x), KeyValue::SetValue(y)) => x.deep_view() == y.deep_view(),
        (KeyValue::Hash(x), KeyValue::Hash(y)) => x.deep_view() == y.deep_view(),
        (KeyValue::Zset(x), KeyValue::Zset(y)) => x.deep_view() == y.deep_view(),
        (KeyValue::Unknown, KeyValue::Unknown) => true,
        _ => false,
    }
}

fn dup_strings(v: &Vec<String>) -> (r: Vec<String>)
    ensures
        r.deep_view() == v.deep_view(),
{
    let mut r: Vec<String> = Vec::new();
    let mut i: usize = 0;
    while i < v.len()
        invariant
            i <= v.len(),
            r@.len() == i,
            forall|j: int| 0 <= j < i ==> r@[j]@ == #[trigger] v@[j]@,
        decreases v.len() - i,
    {
        r.push(v[i].clone());
        i += 1;
    }
    proof {
        assert(r.deep_view() =~= v.deep_view());
    }
    r
}

fn dup_pairs(v: &Vec<(String, String)>) -> (r: Vec<(String, String)>)
    ensures
        r.deep_view() == v.deep_view(),
{
    let mut r: Vec<(String, String)> = Vec::new();
    let mut i: usize = 0;
    while i < v.len()
        invariant
            i <= v.len(),
            r@.len() == i,
            forall|j: int| 0 <= j < i ==> r@[j].0@ == #[trigger] v@[j].0@ && r@[j].1@
                == v@[j].1@,
        decreases v.len() - i,
    {
        let pair = &v[i];
        r.push((pair.0.clone(), pair.1.clone()));
        i += 1;
    }
    proof {
        assert(r.deep_view() =~= v.deep_view());
    }
    r
}

impl KeyValue {
    /// Re-creates the value; an explicit copy with a full contract, where
    /// a derived clone would promise nothing.
    pub fn duplicate(&self) -> (r: KeyValue)
        ensures
            key_value_matches(r, *self),
    {
        match self {
            KeyValue::String(s) => KeyValue::String(s.clone()),
            KeyValue::List(v) => KeyValue::List(dup_strings(v)),
            KeyValue::SetValue(v) => KeyValue::SetValue(dup_strings(v)),
            KeyValue::Hash(v) => KeyValue::Hash(dup_pairs(v)),
            KeyValue::Zset(v) => KeyValue::Zset(dup_pairs(v)),
            KeyValue::Unknown => KeyValue::Unknown,
        }
    }
}

/// The metadata record of one key, immutable once constructed and
/// replaced wholesale on each page fetch.
#[derive(Debug, Clone, PartialEq, Eq)]
pub struct KeyMeta {
    pub key: String,
    pub r_type: RedisType,
    pub size: u128,
    pub ttl: isize,
    pub value: KeyValue,
}

/// Field-for-field agreement of two metadata records, compared by view.
pub open spec fn key_meta_matches(a: KeyMeta, b: KeyMeta) -> bool {
    &&& a.key@ == b.key@
    &&& a.r_type == b.r_type
    &&& a.size == b.size
    &&& a.ttl == b.ttl
    &&& key_value_matches(a.value, b.value)
}

impl KeyMeta {
    /// Joins the independently fetched parts of one key's metadata into
    /// the record the page holds.
    pub fn new(key: String, r_type: RedisType, value: KeyValue, size: u128, ttl: isize) -> (r:
        KeyMeta)
        ensures
            r.key == key,
            r.r_type == r_type,
            r.value == value,
            r.size == size,
            r.ttl == ttl,
    {
        KeyMeta { key, r_type, size, ttl, value }
    }

    /// Re-creates the record; an explicit copy with a full contract,
    /// where a derived clone would promise nothing.
    pub fn duplicate(&self) -> (r: KeyMeta)
        ensures
            key_meta_matches(r, *self),
    {
        KeyMeta {
            key: self.key.clone(),
            r_type: self.r_type,
            size: self.size,
            ttl: self.ttl,
            value: self.value.duplicate(),
        }
    }
}

/// An explicit copy of a whole page of records, record for record, with
/// a full contract.
pub fn dup_key_metas(v: &Vec<KeyMeta>) -> (r: Vec<KeyMeta>)
    ensures
        r@.len() == v@.len(),
        forall|i: int| 0 <= i < v@.len() ==> key_meta_matches(#[trigger] r@[i], v@[i]),
{
    let mut r: Vec<KeyMeta> = Vec::new();
    let mut i: usize = 0;
    while i < v.len()
        invariant
            i <= v.len(),
            r@.len() == i,
            forall|j: int| 0 <= j < i ==> key_meta_matches(#[trigger] r@[j], v@[j]),
        decreases v.len() - i,
    {
        r.push(v[i].duplicate());
        i += 1;
    }
    r
}

/// The outcome of one page fetch: either the explicit "no keys" result —
/// distinct from a populated page — or a batch of records with the next
/// cursor the scan returned.
#[derive(Debug, PartialEq, Eq)]
pub enum KeysList {
    Empty,
    Keys { cursor: usize, keys: Vec<KeyMeta> },
}


/// Pagination over the store's resumable scan.
///
/// `cursor` is the token of the page currently shown (`None` at the
/// start), `next_cursor` the staged result of the last fetch, not yet
/// applied, `pattern` the active glob filter (passed through to the store
/// uninterpreted), `count` the page-size hint, and `cursor_stack` the
/// history of cursors that were actually navigated forward from —
/// popping it is the only way to go backward.
#[derive(Debug, Clone, PartialEq, Eq)]
pub struct KeyspaceState {
    pub cursor: Option<usize>,
    pub next_cursor: Option<usize>,
    pub pattern: Option<String>,
    pub count: usize,
    pub cursor_stack: VecDeque<usize>,
}

impl KeyspaceState {
    /// A staged cursor of zero is the store's "scan complete" sentinel:
    /// iteration has cycled back to the start.
    pub open spec fn exhausted(self) -> bool {
        self.next_cursor == Some(0usize)
    }

    /// How one forward step relates the state before to the state after:
    /// a no-op when the scan is exhausted; otherwise the current cursor
    /// (if any) is pushed onto history and the staged cursor is consumed.
    pub open spec fn advance_rel(pre: KeyspaceState, post: KeyspaceState) -> bool {
        if pre.exhausted() {
            post == pre
        } else {
            &&& post.cursor == pre.next_cursor
            &&& post.next_cursor is None
            &&& post.pattern == pre.pattern
            &&& post.count == pre.count
            &&& post.cursor_stack@ == (match pre.cursor {
                Some(c) => pre.cursor_stack@.push(c),
                None => pre.cursor_stack@,
            })
        }
    }

    /// How one backward step relates the state before to the state
    /// after: the most recent history entry is popped into the cursor;
    /// with no history the cursor returns to the start.
    pub open spec fn retreat_rel(pre: KeyspaceState, post: KeyspaceState) -> bool {
        &&& post.next_cursor == pre.next_cursor
        &&& post.pattern == pre.pattern
        &&& post.count == pre.count
        &&& if pre.cursor_stack@.len() > 0 {
            &&& post.cursor == Some(pre.cursor_stack@.last())
            &&& post.cursor_stack@ == pre.cursor_stack@.drop_last()
        } else {
            &&& post.cursor is None
            &&& post.cursor_stack@ == pre.cursor_stack@
        }
    }

    /// Stages the cursor a completed fetch returned; nothing is applied
    /// until the next forward step.
    pub fn set_next_cursor(&mut self, cursor: usize)
        ensures
            final(self).next_cursor == Some(cursor),
            final(self).cursor == old(self).cursor,
            final(self).pattern == old(self).pattern,
            final(self).count == old(self).count,
            final(self).cursor_stack == old(self).cursor_stack,
    {
        self.next_cursor = Some(cursor);
    }

    /// One forward step: consumes the staged cursor, remembering the page
    /// it came from, unless the scan is already exhausted.
    pub fn update_cursor(&mut self)
        ensures
            Self::advance_rel(*old(self), *final(self)),
            old(self).exhausted() ==> *final(self) == *old(self),
    {
        match self.next_cursor {
            Some(nc) if nc == 0 => {
                return ;
            }
            _ => {}
        }
        if let Some(c) = self.cursor {
            self.cursor_stack.push_back(c);
        }
        self.cursor = self.next_cursor;
        self.next_cursor = None;
    }

    /// One backward step: pops the most recently left page off history.
    pub fn set_previous_cursor(&mut self)
        ensures
            Self::retreat_rel(*old(self), *final(self)),
    {
        self.cursor = self.cursor_stack.pop_back();
        proof {
            if old(self).cursor_stack@.len() > 0 {
                assert(final(self).cursor_stack@ =~= old(self).cursor_stack@.drop_last());
            }
        }
    }

    /// Replaces the filter pattern.  Deliberately leaves cursor and
    /// history untouched: restarting pagination is the caller's explicit
    /// move.
    pub fn set_filter(&mut self, pattern: Option<String>)
        ensures
            final(self).pattern == pattern,
            final(self).cursor == old(self).cursor,
            final(self).next_cursor == old(self).next_cursor,
            final(self).count == old(self).count,
            final(self).cursor_stack == old(self).cursor_stack,
    {
        self.pattern = pattern;
    }
}

impl Default for KeyspaceState {
    /// A fresh pagination: at the start of the keyspace, no staged
    /// cursor, no filter, empty history, and a page-size hint of ten.
    fn default() -> (r: Self)
        ensures
            r.cursor is None,
            r.next_cursor is None,
            r.pattern is None,
            r.count == 10,
            r.cursor_stack@ == Seq::<usize>::empty(),
    {
        KeyspaceState {
            count: 10,
            pattern: None,
            cursor: None,
            next_cursor: None,
            cursor_stack: VecDeque::new(),
        }
    }
}

/// Going forward and then back restores where you were: whenever there is
/// a current page to return to (or no history at all), a forward step to
/// a freshly staged, non-sentinel cursor followed by a backward step
/// leaves the cursor and the history stack as they were.
pub proof fn lemma_advance_then_retreat(
    pre: KeyspaceState,
    mid: KeyspaceState,
    post: KeyspaceState,
)
    requires
        !pre.exhausted(),
        pre.cursor is Some || pre.cursor_stack@.len() == 0,
        KeyspaceState::advance_rel(pre, mid),
        KeyspaceState::retreat_rel(mid, post),
    ensures
        post.cursor == pre.cursor,
        post.cursor_stack@ == pre.cursor_stack@,
        post.pattern == pre.pattern,
        post.count == pre.count,
{
    match pre.cursor {
        Some(c) => {
            assert(mid.cursor_stack@ == pre.cursor_stack@.push(c));
            assert(mid.cursor_stack@.last() == c);
            assert(mid.cursor_stack@.drop_last() =~= pre.cursor_stack@);
        }
        None => {}
    }
}

} // verus!
