//! Keyset pagination over the canonical listing order `(created_at, id)`.
//!
//! A page starts strictly after a cursor (the key of the last record of the
//! previous page) and holds at most `limit` records; one record more is
//! fetched to learn whether another page follows.

use vstd::prelude::*;

use crate::timestamp::Timestamp;
use crate::user::{users_view, User, UserView};

verus! {

/// Largest number of records on one page.
pub const MAX_PAGE_SIZE: usize = 200;

/// Page size used when the caller names none.
pub const DEFAULT_PAGE_SIZE: i32 = 200;

/// The key `(ts1, id1)` comes strictly before `(ts2, id2)`: earlier creation
/// time first, ties broken by id.
pub open spec fn key_before(ts1: Timestamp, id1: i32, ts2: Timestamp, id2: i32) -> bool {
    ts1.spec_before(ts2) || (ts1 == ts2 && id1 < id2)
}

/// `a` comes strictly before `b` in listing order.
pub open spec fn user_before(a: UserView, b: UserView) -> bool {
    key_before(a.created_at, a.id, b.created_at, b.id)
}

/// The records are in strictly increasing listing order (so no key repeats).
pub open spec fn sorted_by_key(s: Seq<UserView>) -> bool {
    forall|i: int, j: int| 0 <= i < j < s.len() ==> user_before(#[trigger] s[i], #[trigger] s[j])
}

/// `u` lies strictly after the cursor; every record lies after no cursor.
pub open spec fn is_after(u: UserView, cursor: Option<(i32, Timestamp)>) -> bool {
    match cursor {
        None => true,
        Some((id, ts)) => key_before(ts, id, u.created_at, u.id),
    }
}

/// The records of `store` that lie strictly after the cursor, in store order.
pub open spec fn records_after(store: Seq<UserView>, cursor: Option<(i32, Timestamp)>) -> Seq<
    UserView,
> {
    store.filter(|u: UserView| is_after(u, cursor))
}

/// The first `n` elements of `s`, or all of `s` if it is shorter.
pub open spec fn first_n<A>(s: Seq<A>, n: nat) -> Seq<A> {
    if s.len() <= n {
        s
    } else {
        s.take(n as int)
    }
}

/// The cursor that points at `u`.
pub open spec fn cursor_at(u: UserView) -> (i32, Timestamp) {
    (u.id, u.created_at)
}

/// The page size that a requested limit stands for: the default when none is
/// given, otherwise the request clamped to `[1, MAX_PAGE_SIZE]`.
pub open spec fn clamped_limit(requested: Option<i32>) -> int {
    match requested {
        None => DEFAULT_PAGE_SIZE as int,
        Some(l) => if l < 1 {
            1
        } else if l > MAX_PAGE_SIZE {
            MAX_PAGE_SIZE as int
        } else {
            l as int
        },
    }
}

/// The page size for a requested limit.
pub fn clamp_limit(requested: Option<i32>) -> (r: usize)
    ensures
        r == clamped_limit(requested),
        1 <= r <= MAX_PAGE_SIZE,
{
    let l = match requested {
        Some(l) => l,
        None => DEFAULT_PAGE_SIZE,
    };
    if l < 1 {
        1
    } else if l as usize > MAX_PAGE_SIZE {
        MAX_PAGE_SIZE
    } else {
        l as usize
    }
}

/// The exec form of `key_before`.
pub fn key_precedes(ts1: &Timestamp, id1: i32, ts2: &Timestamp, id2: i32) -> (r: bool)
    ensures
        r == key_before(*ts1, id1, *ts2, id2),
{
    ts1.before(ts2) || (*ts1 == *ts2 && id1 < id2)
}

/// A planned fetch: the records strictly after `cursor`, `limit` of them for
/// the page and one more to tell whether another page follows.
#[derive(Debug, Clone, Copy)]
pub struct PageQuery {
    pub cursor: Option<(i32, Timestamp)>,
    pub limit: usize,
}

impl PageQuery {
    /// The query for a page of the clamped size after `cursor`.
    pub fn new(cursor: Option<(i32, Timestamp)>, requested: Option<i32>) -> (r: PageQuery)
        ensures
            r.cursor == cursor,
            r.limit == clamped_limit(requested),
            r.wf(),
    {
        PageQuery { cursor, limit: clamp_limit(requested) }
    }

    /// The page size lies in `[1, MAX_PAGE_SIZE]`.
    pub open spec fn wf(self) -> bool {
        1 <= self.limit <= MAX_PAGE_SIZE
    }

    /// Number of records to ask the store for.
    pub fn fetch_count(&self) -> (r: usize)
        requires
            self.wf(),
        ensures
            r == self.limit + 1,
    {
        self.limit + 1
    }

    /// What a store in listing order answers to this query.
    pub open spec fn answer(self, store: Seq<UserView>) -> Seq<UserView> {
        first_n(records_after(store, self.cursor), (self.limit + 1) as nat)
    }
}

/// `u` lies after the cursor, as an exec test.
pub fn user_is_after(u: &User, cursor: &Option<(i32, Timestamp)>) -> (r: bool)
    ensures
        r == is_after(u@, *cursor),
{
    match cursor {
        None => true,
        Some((id, ts)) => key_precedes(ts, *id, &u.created_at, u.id),
    }
}

/// On a store in listing order, the records after a cursor are a suffix:
/// those from the first one past the cursor on.
pub proof fn lemma_records_after_is_suffix(
    store: Seq<UserView>,
    cursor: Option<(i32, Timestamp)>,
    k: int,
)
    requires
        0 <= k <= store.len(),
        forall|i: int| 0 <= i < k ==> !is_after(#[trigger] store[i], cursor),
        forall|i: int| k <= i < store.len() ==> is_after(#[trigger] store[i], cursor),
    ensures
        records_after(store, cursor) == store.skip(k),
    decreases store.len(),
{
    reveal(Seq::filter);
    let pred = |u: UserView| is_after(u, cursor);
    if store.len() == 0 {
        assert(store.skip(k) =~= store);
    } else if k == store.len() {
        lemma_filter_none(store, cursor);
        assert(store.skip(k) =~= Seq::<UserView>::empty());
    } else {
        let rest = store.drop_last();
        assert forall|i: int| 0 <= i < k implies !is_after(#[trigger] rest[i], cursor) by {
            assert(rest[i] == store[i]);
        }
        assert forall|i: int| k <= i < rest.len() implies is_after(#[trigger] rest[i], cursor) by {
            assert(rest[i] == store[i]);
        }
        lemma_records_after_is_suffix(rest, cursor, k);
        assert(pred(store.last()));
        assert(store.filter(pred) == rest.filter(pred).push(store.last()));
        assert(rest.skip(k).push(store.last()) =~= store.skip(k));
    }
}

proof fn lemma_filter_none(store: Seq<UserView>, cursor: Option<(i32, Timestamp)>)
    requires
        forall|i: int| 0 <= i < store.len() ==> !is_after(#[trigger] store[i], cursor),
    ensures
        records_after(store, cursor) == Seq::<UserView>::empty(),
    decreases store.len(),
{
    reveal(Seq::filter);
    let pred = |u: UserView| is_after(u, cursor);
    if store.len() > 0 {
        let rest = store.drop_last();
        assert forall|i: int| 0 <= i < rest.len() implies !is_after(#[trigger] rest[i], cursor) by {
            assert(rest[i] == store[i]);
        }
        lemma_filter_none(rest, cursor);
        assert(!pred(store.last()));
        assert(store.filter(pred) == rest.filter(pred));
    }
}

/// On a store in listing order, whether a record lies after a cursor only
/// switches from no to yes along the store.
pub proof fn lemma_after_is_monotone(
    store: Seq<UserView>,
    cursor: Option<(i32, Timestamp)>,
    i: int,
    j: int,
)
    requires
        sorted_by_key(store),
        0 <= i < j < store.len(),
        is_after(store[i], cursor),
    ensures
        is_after(store[j], cursor),
{
    assert(user_before(store[i], store[j]));
}

/// The in-memory record store's answer to a query: the records after the
/// cursor, in listing order, at most `limit + 1` of them.
pub fn keyset_fetch(records: &Vec<User>, query: &PageQuery) -> (r: Vec<User>)
    requires
        sorted_by_key(users_view(records@)),
        query.wf(),
    ensures
        users_view(r@) == query.answer(users_view(records@)),
{
    let ghost store = users_view(records@);
    let n = records.len();
    let mut k: usize = 0;
    while k < n && !user_is_after(&records[k], &query.cursor)
        invariant
            n == records@.len(),
            store == users_view(records@),
            0 <= k <= n,
            forall|i: int| 0 <= i < k ==> !is_after(#[trigger] store[i], query.cursor),
        decreases n - k,
    {
        k = k + 1;
    }
    proof {
        assert forall|i: int| k <= i < store.len() implies is_after(#[trigger] store[i], query.cursor) by {
            if i > k {
                lemma_after_is_monotone(store, query.cursor, k as int, i);
            }
        }
        lemma_records_after_is_suffix(store, query.cursor, k as int);
    }
    let want = query.fetch_count();
    let mut out: Vec<User> = Vec::new();
    let mut i: usize = k;
    while i < n && out.len() < want
        invariant
            n == records@.len(),
            store == users_view(records@),
            k <= i <= n,
            out@.len() == i - k,
            out@.len() <= want,
            users_view(out@) == store.subrange(k as int, i as int),
        decreases n - i,
    {
        let u = records[i].duplicate();
        out.push(u);
        proof {
            assert(users_view(out@) =~= store.subrange(k as int, i + 1));
        }
        i = i + 1;
    }
    proof {
        let after = store.skip(k as int);
        if after.len() <= want {
            assert(users_view(out@) =~= after);
        } else {
            assert(users_view(out@) =~= after.take(want as int));
        }
    }
    out
}

} // verus!
