use vstd::prelude::*;
use vstd::string::{StrSliceExecFns, StringExecFns};

use crate::errors::StoreError;
use crate::text::{push_char, str_eq};
use crate::types::{CommonInfo, RedisInfo};

verus! {

/// The whitespace stripped from a value: blanks, tabs and the line
/// endings the protocol uses.
pub open spec fn is_ws(c: char) -> bool {
    c == ' ' || c == '\t' || c == '\r' || c == '\n'
}

/// `s` with leading and trailing whitespace removed.
pub open spec fn trimmed(s: Seq<char>) -> Seq<char>
    decreases s.len(),
{
    if s.len() == 0 {
        s
    } else if is_ws(s[0]) {
        trimmed(s.drop_first())
    } else if is_ws(s.last()) {
        trimmed(s.drop_last())
    } else {
        s
    }
}

/// The position of the first occurrence of `c` in `s`, if any.
pub open spec fn find_char(s: Seq<char>, c: char) -> Option<int>
    decreases s.len(),
{
    if s.len() == 0 {
        None
    } else if s[0] == c {
        Some(0int)
    } else {
        match find_char(s.drop_first(), c) {
            Some(i) => Some(i + 1),
            None => None,
        }
    }
}

/// What `find_char` finds is the first occurrence, and a `None` means
/// there is none at all.
pub proof fn lemma_find_char(s: Seq<char>, c: char)
    ensures
        match find_char(s, c) {
            Some(i) => 0 <= i < s.len() && s[i] == c && (forall|j: int| 0 <= j < i ==> s[j] != c),
            None => forall|j: int| 0 <= j < s.len() ==> s[j] != c,
        },
    decreases s.len(),
{
    if s.len() == 0 {
    } else if s[0] == c {
    } else {
        let t = s.drop_first();
        lemma_find_char(t, c);
        match find_char(t, c) {
            Some(i) => {
                assert(s[i + 1] == t[i]);
                assert forall|j: int| 0 <= j < i + 1 implies s[j] != c by {
                    if j > 0 {
                        assert(t[j - 1] != c);
                    }
                }
            }
            None => {
                assert forall|j: int| 0 <= j < s.len() implies s[j] != c by {
                    if j > 0 {
                        assert(t[j - 1] != c);
                    }
                }
            }
        }
    }
}

/// The entry one line of the reply contributes: none for an empty line,
/// a comment line, or a line without a separator; otherwise the text
/// before the first colon paired with the text after it, the latter with
/// surrounding whitespace removed.
pub open spec fn line_entry(line: Seq<char>) -> Option<(Seq<char>, Seq<char>)> {
    if line.len() == 0 {
        None
    } else if line[0] == '#' {
        None
    } else {
        match find_char(line, ':') {
            Some(i) => Some((line.take(i), trimmed(line.skip(i + 1)))),
            None => None,
        }
    }
}

/// A line's entry as a batch of zero or one.
pub open spec fn opt_entry_seq(e: Option<(Seq<char>, Seq<char>)>) -> Seq<(Seq<char>, Seq<char>)> {
    match e {
        Some(x) => seq![x],
        None => Seq::empty(),
    }
}

/// The entries of the remaining reply text `s`, with `line` the part of
/// the current line already consumed.
pub open spec fn entries_acc(s: Seq<char>, line: Seq<char>) -> Seq<(Seq<char>, Seq<char>)>
    decreases s.len(),
{
    if s.len() == 0 {
        opt_entry_seq(line_entry(line))
    } else if s[0] == '\n' {
        opt_entry_seq(line_entry(line)) + entries_acc(s.drop_first(), Seq::empty())
    } else {
        entries_acc(s.drop_first(), line.push(s[0]))
    }
}

/// Every entry of the reply, line by line, in order of appearance.
pub open spec fn info_entries(s: Seq<char>) -> Seq<(Seq<char>, Seq<char>)> {
    entries_acc(s, Seq::empty())
}

/// The value recorded for `key`: that of the last line carrying it, so
/// later lines override earlier ones.
pub open spec fn lookup_entry(
    entries: Seq<(Seq<char>, Seq<char>)>,
    key: Seq<char>,
) -> Option<Seq<char>>
    decreases entries.len(),
{
    if entries.len() == 0 {
        None
    } else if entries.last().0 == key {
        Some(entries.last().1)
    } else {
        lookup_entry(entries.drop_last(), key)
    }
}

/// The value the whole reply records for `key`, if any.
pub open spec fn info_field(s: Seq<char>, key: Seq<char>) -> Option<Seq<char>> {
    lookup_entry(info_entries(s), key)
}

/// Whether the reply carries every field the info record requires.
pub open spec fn info_complete(s: Seq<char>) -> bool {
    &&& info_field(s, "os"@) is Some
    &&& info_field(s, "redis_version"@) is Some
    &&& info_field(s, "used_memory_human"@) is Some
    &&& info_field(s, "total_system_memory_human"@) is Some
    &&& info_field(s, "used_cpu_sys"@) is Some
    &&& info_field(s, "connected_clients"@) is Some
    &&& info_field(s, "maxclients"@) is Some
}

fn is_ws_char(c: char) -> (r: bool)
    ensures
        r == is_ws(c),
{
    c == ' ' || c == '\t' || c == '\r' || c == '\n'
}

/// `s` with leading and trailing whitespace removed.
#[verifier::loop_isolation(false)]
fn trim_str(s: &str) -> (r: String)
    ensures
        r@ == trimmed(s@),
{
    let n = s.unicode_len();
    let mut start: usize = 0;
    let mut end: usize = n;
    proof {
        assert(s@.subrange(0, n as int) =~= s@);
    }
    while start < end && is_ws_char(s.get_char(start))
        invariant
            0 <= start <= end <= n,
            trimmed(s@) == trimmed(s@.subrange(start as int, end as int)),
        decreases end - start,
    {
        proof {
            let sub = s@.subrange(start as int, end as int);
            assert(sub.drop_first() =~= s@.subrange(start as int + 1, end as int));
        }
        start += 1;
    }
    while end > start && is_ws_char(s.get_char(end - 1))
        invariant
            0 <= start <= end <= n,
            trimmed(s@) == trimmed(s@.subrange(start as int, end as int)),
            start == end || !is_ws(s@[start as int]),
        decreases end,
    {
        proof {
            let sub = s@.subrange(start as int, end as int);
            assert(sub.drop_last() =~= s@.subrange(start as int, end as int - 1));
        }
        end -= 1;
    }
    let r = s.substring_char(start, end);
    r.to_owned()
}

/// Appends the entry `line` contributes, if it contributes one.
#[verifier::loop_isolation(false)]
fn push_line_entry(out: &mut Vec<(String, String)>, line: &String)
    ensures
        final(out).deep_view() == old(out).deep_view() + opt_entry_seq(line_entry(line@)),
{
    proof {
        assert(old(out).deep_view() + Seq::<(Seq<char>, Seq<char>)>::empty() =~= old(
            out,
        ).deep_view());
    }
    let n = line.as_str().unicode_len();
    if n == 0 {
        return ;
    }
    if line.as_str().get_char(0) == '#' {
        return ;
    }
    let mut idx: usize = 0;
    while idx < n && line.as_str().get_char(idx) != ':'
        invariant
            idx <= n,
            forall|j: int| 0 <= j < idx ==> line@[j] != ':',
        decreases n - idx,
    {
        idx += 1;
    }
    proof {
        lemma_find_char(line@, ':');
    }
    if idx == n {
        return ;
    }
    let header = line.as_str().substring_char(0, idx).to_owned();
    let raw_value = line.as_str().substring_char(idx + 1, n);
    let value = trim_str(raw_value);
    proof {
        assert(line@.subrange(0, idx as int) =~= line@.take(idx as int));
        assert(line@.subrange(idx as int + 1, n as int) =~= line@.skip(idx as int + 1));
    }
    out.push((header, value));
    proof {
        assert(out.deep_view() =~= old(out).deep_view() + opt_entry_seq(line_entry(line@)));
    }
}

/// Splits the reply into its entries, line by line.
#[verifier::loop_isolation(false)]
fn parse_entries(blob: &str) -> (r: Vec<(String, String)>)
    ensures
        r.deep_view() == info_entries(blob@),
{
    let n = blob.unicode_len();
    let mut out: Vec<(String, String)> = Vec::new();
    let mut line = String::new();
    let mut i: usize = 0;
    proof {
        assert(blob@.skip(0) =~= blob@);
        assert(out.deep_view() =~= Seq::<(Seq<char>, Seq<char>)>::empty());
        assert(out.deep_view() + entries_acc(blob@, line@) =~= entries_acc(blob@, line@));
    }
    while i < n
        invariant
            i <= n,
            info_entries(blob@) == out.deep_view() + entries_acc(
                blob@.skip(i as int),
                line@,
            ),
        decreases n - i,
    {
        let c = blob.get_char(i);
        proof {
            assert(blob@.skip(i as int).drop_first() =~= blob@.skip(i as int + 1));
            assert(blob@.skip(i as int)[0] == blob@[i as int]);
        }
        if c == '\n' {
            push_line_entry(&mut out, &line);
            line = String::new();
            proof {
                assert(out.deep_view() + entries_acc(blob@.skip(i as int + 1), line@)
                    =~= info_entries(blob@));
            }
        } else {
            push_char(&mut line, c);
        }
        i += 1;
    }
    proof {
        assert(blob@.skip(n as int) =~= Seq::<char>::empty());
    }
    push_line_entry(&mut out, &line);
    proof {
        assert(out.deep_view() =~= info_entries(blob@));
    }
    out
}

/// Finds the value recorded for `key`, scanning from the most recent
/// line backwards.
#[verifier::loop_isolation(false)]
fn lookup(entries: &Vec<(String, String)>, key: &str) -> (r: Option<String>)
    ensures
        match r {
            Some(v) => lookup_entry(entries.deep_view(), key@) == Some(v@),
            None => lookup_entry(entries.deep_view(), key@) is None,
        },
{
    let ghost full = entries.deep_view();
    let mut idx: usize = entries.len();
    proof {
        assert(full.take(idx as int) =~= full);
    }
    while idx > 0
        invariant
            idx <= entries.len(),
            lookup_entry(full, key@) == lookup_entry(full.take(idx as int), key@),
        decreases idx,
    {
        idx -= 1;
        let e = &entries[idx];
        if str_eq(e.0.as_str(), key) {
            proof {
                assert(full.take(idx as int + 1).last() == full[idx as int]);
            }
            return Some(e.1.clone());
        }
        proof {
            assert(full.take(idx as int + 1).last() == full[idx as int]);
            assert(full.take(idx as int + 1).drop_last() =~= full.take(idx as int));
        }
    }
    proof {
        assert(full.take(0) =~= Seq::<(Seq<char>, Seq<char>)>::empty());
    }
    None
}

/// Parses the server's info reply: newline-delimited `key:value` lines,
/// with empty lines and comment lines skipped, unknown keys ignored, and
/// later lines overriding earlier ones.  Fails with a protocol error
/// exactly when a required field is absent.
pub fn parse_info(blob: &str) -> (r: Result<RedisInfo, StoreError>)
    ensures
        r is Ok <==> info_complete(blob@),
        r matches Ok(info) ==> {
            &&& Some(info.common.os@) == info_field(blob@, "os"@)
            &&& Some(info.common.version@) == info_field(blob@, "redis_version"@)
            &&& Some(info.common.memory@) == info_field(blob@, "used_memory_human"@)
            &&& Some(info.common.total_memory@) == info_field(blob@, "total_system_memory_human"@)
            &&& Some(info.common.cpu@) == info_field(blob@, "used_cpu_sys"@)
            &&& Some(info.common.clients@) == info_field(blob@, "connected_clients"@)
            &&& Some(info.common.max_clients@) == info_field(blob@, "maxclients"@)
        },
        r matches Err(e) ==> e matches StoreError::Protocol(m) && m@
            == "info reply is missing a required field"@,
{
    let entries = parse_entries(blob);
    let os = match lookup(&entries, "os") {
        Some(v) => v,
        None => {
            return Err(missing_field());
        }
    };
    let version = match lookup(&entries, "redis_version") {
        Some(v) => v,
        None => {
            return Err(missing_field());
        }
    };
    let memory = match lookup(&entries, "used_memory_human") {
        Some(v) => v,
        None => {
            return Err(missing_field());
        }
    };
    let total_memory = match lookup(&entries, "total_system_memory_human") {
        Some(v) => v,
        None => {
            return Err(missing_field());
        }
    };
    let cpu = match lookup(&entries, "used_cpu_sys") {
        Some(v) => v,
        None => {
            return Err(missing_field());
        }
    };
    let clients = match lookup(&entries, "connected_clients") {
        Some(v) => v,
        None => {
            return Err(missing_field());
        }
    };
    let max_clients = match lookup(&entries, "maxclients") {
        Some(v) => v,
        None => {
            return Err(missing_field());
        }
    };
    Ok(
        RedisInfo {
            common: CommonInfo { os, version, memory, total_memory, cpu, clients, max_clients },
        },
    )
}

fn missing_field() -> (e: StoreError)
    ensures
        e matches StoreError::Protocol(m) && m@ == "info reply is missing a required field"@,
{
    StoreError::Protocol("info reply is missing a required field".to_owned())
}

} // verus!
