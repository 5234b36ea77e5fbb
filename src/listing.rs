//! What paging through a store yields, as laws over the page functions'
//! contracts: `keyset_fetch` answers `PageQuery::answer`, `assemble_page`
//! keeps `first_n(.., limit)` of that answer and issues the token of its last
//! record exactly when more records follow, and `plan_page` turns that token
//! back into the cursor of that record.

use vstd::prelude::*;

use crate::keyset::{
    cursor_at, first_n, is_after, key_before, lemma_records_after_is_suffix, records_after,
    sorted_by_key, user_before,
};
use crate::keyset::PageQuery;
use crate::read_service::assembled_from;
use crate::timestamp::Timestamp;
use crate::token::token_of;
use crate::user::{users_view, PaginatedUsersResponse, User, UserView};

verus! {

/// The page after `cursor` on `store` with page size `limit`: its records
/// and, if more records follow, the cursor of its last record.
pub open spec fn page_after(store: Seq<UserView>, cursor: Option<(i32, Timestamp)>, limit: nat) -> (
    Seq<UserView>,
    Option<(i32, Timestamp)>,
) {
    let fetched = first_n(records_after(store, cursor), limit + 1);
    let rows = first_n(fetched, limit);
    if fetched.len() > limit {
        (rows, Some(cursor_at(rows.last())))
    } else {
        (rows, None)
    }
}

/// A page assembled from a store's answer to a query is the page after the
/// query's cursor: the same records, `has_more` exactly when a next cursor
/// exists, and a next token that stands for that cursor.
pub proof fn lemma_assembled_page_is_page_after(
    store: Seq<UserView>,
    query: PageQuery,
    fetched: Seq<User>,
    r: PaginatedUsersResponse,
)
    requires
        query.wf(),
        users_view(fetched) == query.answer(store),
        assembled_from(r, fetched, query.limit as nat),
    ensures
        ({
            let (rows, next) = page_after(store, query.cursor, query.limit as nat);
            &&& users_view(r.users@) == rows
            &&& r.has_more == next is Some
            &&& next matches Some((id, ts)) ==> (r.next_token matches Some(t) && t@ == token_of(
                id,
                ts,
            ))
        }),
{
    let (rows, next) = page_after(store, query.cursor, query.limit as nat);
    assert(users_view(fetched).len() == fetched.len());
    if r.has_more {
        let users = r.users@;
        assert(users.len() > 0);
        assert(users_view(users).last() == users.last()@);
    }
}

/// The records of at most `pages` pages, from the one after `cursor` on,
/// following each next cursor until a page says that none follows; `None`
/// when that takes more than `pages` pages.
pub open spec fn listing_from(
    store: Seq<UserView>,
    cursor: Option<(i32, Timestamp)>,
    limit: nat,
    pages: nat,
) -> Option<Seq<UserView>>
    decreases pages,
{
    if pages == 0 {
        None
    } else {
        let (rows, next) = page_after(store, cursor, limit);
        match next {
            None => Some(rows),
            Some(c) => match listing_from(store, Some(c), limit, (pages - 1) as nat) {
                Some(rest) => Some(rows + rest),
                None => None,
            },
        }
    }
}

/// The cursor that the first `k` records of `store` leave behind: none for
/// the first page, else the key of record `k - 1`.
pub open spec fn cursor_before(store: Seq<UserView>, k: int) -> Option<(i32, Timestamp)> {
    if k == 0 {
        None
    } else {
        Some(cursor_at(store[k - 1]))
    }
}

/// Listing order is a strict order: no key comes before itself, nor before
/// a key that comes before it.
pub proof fn lemma_key_before_strict(ts1: Timestamp, id1: i32, ts2: Timestamp, id2: i32)
    ensures
        !key_before(ts1, id1, ts1, id1),
        key_before(ts1, id1, ts2, id2) ==> !key_before(ts2, id2, ts1, id1),
{
}

/// On a store in listing order, the records after the cursor of the first
/// `k` records are the rest of the store.
pub proof fn lemma_records_after_cursor_before(store: Seq<UserView>, k: int)
    requires
        sorted_by_key(store),
        0 <= k <= store.len(),
    ensures
        records_after(store, cursor_before(store, k)) == store.skip(k),
{
    let c = cursor_before(store, k);
    assert forall|i: int| 0 <= i < k implies !is_after(#[trigger] store[i], c) by {
        let last = store[k - 1];
        if i < k - 1 {
            assert(user_before(store[i], store[k - 1]));
        }
        lemma_key_before_strict(store[i].created_at, store[i].id, last.created_at, last.id);
    }
    assert forall|i: int| k <= i < store.len() implies is_after(#[trigger] store[i], c) by {
        if k > 0 {
            assert(user_before(store[k - 1], store[i]));
        }
    }
    lemma_records_after_is_suffix(store, c, k);
}

/// Paging through a store in listing order from the first page with any
/// page size of at least one, following each next cursor until no more
/// records follow, lists every record exactly once and in listing order.
pub proof fn lemma_listing_covers_store(store: Seq<UserView>, limit: nat)
    requires
        sorted_by_key(store),
        limit >= 1,
    ensures
        listing_from(store, None, limit, (store.len() + 1) as nat) == Some(store),
{
    lemma_listing_from_position(store, limit, 0, (store.len() + 1) as nat);
    assert(store.skip(0) =~= store);
}

proof fn lemma_listing_from_position(store: Seq<UserView>, limit: nat, k: int, pages: nat)
    requires
        sorted_by_key(store),
        limit >= 1,
        0 <= k <= store.len(),
        pages >= store.len() - k + 1,
    ensures
        listing_from(store, cursor_before(store, k), limit, pages) == Some(store.skip(k)),
    decreases store.len() - k,
{
    let c = cursor_before(store, k);
    lemma_records_after_cursor_before(store, k);
    let after = store.skip(k);
    if after.len() <= limit {
        assert(page_after(store, c, limit) == (after, None::<(i32, Timestamp)>));
    } else {
        let fetched = after.take(limit + 1 as int);
        let rows = after.take(limit as int);
        assert(fetched.take(limit as int) =~= rows);
        assert(rows.last() == store[k + limit - 1]);
        assert(page_after(store, c, limit) == (rows, Some(cursor_at(store[k + limit - 1]))));
        assert(cursor_before(store, k + limit) == Some(cursor_at(store[k + limit - 1])));
        lemma_listing_from_position(store, limit, k + limit, (pages - 1) as nat);
        assert(rows + store.skip(k + limit) =~= after);
    }
}

/// Inserting, between the fetch of one page and the next, a record whose
/// key comes after every stored key: the next page is the one the store
/// would have given with the new record at its end, and every record on it
/// still comes after every record of the page already fetched, so none is
/// listed twice.
pub proof fn lemma_insert_at_end_between_pages(
    store: Seq<UserView>,
    added: UserView,
    k: int,
    limit: nat,
)
    requires
        sorted_by_key(store),
        forall|i: int| 0 <= i < store.len() ==> user_before(#[trigger] store[i], added),
        0 <= k <= store.len(),
        limit >= 1,
    ensures
        ({
            let (rows1, next) = page_after(store, cursor_before(store, k), limit);
            let (rows2, _) = page_after(store.push(added), next, limit);
            next is Some ==> {
                &&& rows2 == first_n(records_after(store, next).push(added), limit)
                &&& forall|i: int, j: int|
                    0 <= i < rows1.len() && 0 <= j < rows2.len() ==> user_before(
                        #[trigger] rows1[i],
                        #[trigger] rows2[j],
                    )
            }
        }),
{
    let c = cursor_before(store, k);
    let (rows1, next) = page_after(store, c, limit);
    lemma_records_after_cursor_before(store, k);
    let after = store.skip(k);
    if after.len() > limit {
        let m = k + limit;
        assert(rows1 =~= store.subrange(k, m));
        assert(next == cursor_before(store, m));
        lemma_records_after_cursor_before(store, m);
        let store2 = store.push(added);
        assert(store2.drop_last() =~= store);
        assert(is_after(added, next)) by {
            assert(user_before(store[m - 1], added));
        }
        assert(records_after(store2, next) == records_after(store, next).push(added)) by {
            reveal(Seq::filter);
        }
        let (rows2, _) = page_after(store2, next, limit);
        let tail = store.skip(m).push(added);
        assert(first_n(first_n(tail, limit + 1), limit) == first_n(tail, limit));
        assert forall|i: int, j: int|
            0 <= i < rows1.len() && 0 <= j < rows2.len() implies user_before(
            #[trigger] rows1[i],
            #[trigger] rows2[j],
        ) by {
            assert(rows1[i] == store[k + i]);
            assert(rows2[j] == tail[j]);
            if j < store.len() - m {
                assert(tail[j] == store[m + j]);
            }
        }
    }
}

} // verus!
