use vstd::prelude::*;

use crate::errors::StoreError;
use crate::types::{KeyMeta, KeysList};

verus! {

/// Whether every per-key fetch of a page succeeded.
pub open spec fn all_fetches_ok(metas: Seq<Result<KeyMeta, StoreError>>) -> bool {
    forall|i: int| 0 <= i < metas.len() ==> metas[i] is Ok
}

/// Description of one page fetch: an optional batch-size hint, an
/// optional cursor to resume from, and an optional filter pattern.  The
/// connection that executes it is supplied by the caller.
#[derive(Debug, Clone)]
pub struct FetchKeysWithMeta {
    pub size: Option<usize>,
    pub cursor: Option<usize>,
    pub pattern: Option<String>,
}

impl FetchKeysWithMeta {
    /// An unconstrained fetch: from the start of the keyspace, matching
    /// everything.
    pub fn new() -> (r: Self)
        ensures
            r.size is None,
            r.cursor is None,
            r.pattern is None,
    {
        FetchKeysWithMeta { size: None, cursor: None, pattern: None }
    }

    /// Replaces the batch-size hint.
    pub fn size(self, size: Option<usize>) -> (r: Self)
        ensures
            r.size == size,
            r.cursor == self.cursor,
            r.pattern == self.pattern,
    {
        FetchKeysWithMeta { size, ..self }
    }

    /// Replaces the cursor to resume from.
    pub fn cursor(self, cursor: Option<usize>) -> (r: Self)
        ensures
            r.cursor == cursor,
            r.size == self.size,
            r.pattern == self.pattern,
    {
        FetchKeysWithMeta { cursor, ..self }
    }

    /// Replaces the filter pattern.
    pub fn pattern(self, pattern: Option<String>) -> (r: Self)
        ensures
            r.pattern == pattern,
            r.size == self.size,
            r.cursor == self.cursor,
    {
        FetchKeysWithMeta { pattern, ..self }
    }

    /// The arguments one scan step issues: the cursor defaults to the
    /// start of the keyspace, the pattern to "match everything".
    pub fn scan_args(&self) -> (r: (usize, String))
        ensures
            r.0 == (match self.cursor {
                Some(c) => c,
                None => 0usize,
            }),
            r.1@ == (match self.pattern {
                Some(p) => p@,
                None => "*"@,
            }),
    {
        let c: usize = match self.cursor {
            Some(c) => c,
            None => 0,
        };
        let p: String = match &self.pattern {
            Some(p) => p.clone(),
            None => "*".to_owned(),
        };
        (c, p)
    }
}

/// Joins the per-key fetch results of one page, positionally.
///
/// An empty batch yields the explicit "no keys" result, distinct from a
/// populated page.  When every fetch succeeded the records appear in
/// exactly the order of the batch — results are joined by position, never
/// by completion order — together with the cursor the scan staged.  The
/// first failure fails the whole page: no partial page is ever produced.
#[verifier::loop_isolation(false)]
pub fn assemble_page(cursor: usize, metas: Vec<Result<KeyMeta, StoreError>>) -> (r: Result<
    KeysList,
    StoreError,
>)
    ensures
        metas@.len() == 0 ==> r == Ok::<KeysList, StoreError>(KeysList::Empty),
        all_fetches_ok(metas@) && metas@.len() > 0 ==> {
            &&& r is Ok
            &&& r->Ok_0 matches KeysList::Keys { cursor: c, keys }
                && c == cursor
                && keys@.len() == metas@.len()
                && (forall|i: int| 0 <= i < metas@.len() ==> keys@[i] == metas@[i]->Ok_0)
        },
        !all_fetches_ok(metas@) ==> {
            &&& r is Err
            &&& exists|j: int|
                0 <= j < metas@.len()
                && metas@[j] is Err
                && r == Err::<KeysList, StoreError>(metas@[j]->Err_0)
                && (forall|k: int| 0 <= k < j ==> metas@[k] is Ok)
        },
{
    let ghost orig = metas@;
    let n = metas.len();
    if n == 0 {
        return Ok(KeysList::Empty);
    }
    let mut metas = metas;
    let mut keys: Vec<KeyMeta> = Vec::new();
    let mut i: usize = 0;
    proof {
        assert(metas@ =~= orig.subrange(0, n as int));
    }
    while i < n
        invariant
            n == orig.len(),
            i <= n,
            metas@ == orig.subrange(i as int, n as int),
            keys@.len() == i,
            forall|k: int| 0 <= k < i ==> (#[trigger] orig[k]) is Ok,
            forall|k: int| 0 <= k < i ==> (#[trigger] keys@[k]) == orig[k]->Ok_0,
        decreases n - i,
    {
        let m = metas.remove(0);
        assert(m == orig[i as int]);
        match m {
            Ok(meta) => {
                proof {
                    assert(orig[i as int] is Ok);
                    assert(orig[i as int]->Ok_0 == meta);
                }
                keys.push(meta);
                proof {
                    assert(metas@ =~= orig.subrange(i + 1, n as int));
                }
                i += 1;
            }
            Err(e) => {
                proof {
                    assert(0 <= i < orig.len() && orig[i as int] is Err && (forall|k: int|
                        0 <= k < i ==> orig[k] is Ok));
                }
                return Err(e);
            }
        }
    }
    proof {
        assert forall|t: int| 0 <= t < orig.len() implies orig[t] is Ok by {
            assert(orig[t] is Ok && keys@[t] == orig[t]->Ok_0);
        }
    }
    Ok(KeysList::Keys { cursor, keys })
}

} // verus!
