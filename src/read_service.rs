//! Reading users: planning a page and assembling it from what the store
//! returned.

use vstd::prelude::*;

use crate::keyset::{clamped_limit, first_n, PageQuery, MAX_PAGE_SIZE};
use crate::token::{is_token, token_of, PaginationToken};
use crate::user::{users_view, PaginatedUsersResponse, PaginationParams, User, UserError};

verus! {

/// The page `r` was assembled from `fetched` for a page size of `limit`: the
/// extra record, if any, is dropped, and the next token is that of the last
/// record kept, present exactly when another page follows.
pub open spec fn assembled_from(r: PaginatedUsersResponse, fetched: Seq<User>, limit: nat) -> bool {
    &&& users_view(r.users@) == first_n(users_view(fetched), limit)
    &&& r.has_more == (fetched.len() > limit)
    &&& r.count == r.users@.len()
    &&& r.has_more ==> (r.next_token matches Some(t) && t@ == token_of(
        r.users@.last().id,
        r.users@.last().created_at,
    ))
    &&& !r.has_more ==> r.next_token is None
}

/// Service for reading users.
pub struct ReadUserService;

impl ReadUserService {
    /// The store query for a listing request: the page size clamped to
    /// `[1, MAX_PAGE_SIZE]` (default `MAX_PAGE_SIZE`), starting after the
    /// cursor of the token if one is given. A token that this service could
    /// not have issued is `InvalidToken`.
    pub fn plan_page(params: &PaginationParams) -> (r: Result<PageQuery, UserError>)
        ensures
            match params.next_token {
                None => r matches Ok(q) && q.cursor is None,
                Some(t) => {
                    &&& is_token(t@) <==> r is Ok
                    &&& r matches Err(e) ==> e is InvalidToken
                    &&& forall|id, ts| #[trigger]
                        token_of(id, ts) == t@ ==> (r matches Ok(q) && q.cursor == Some((id, ts)))
                },
            },
            r matches Ok(q) ==> q.wf() && q.limit == clamped_limit(params.limit),
    {
        let cursor = match &params.next_token {
            Some(token) => match PaginationToken::decode(token.as_str()) {
                Ok(c) => Some(c),
                Err(_) => {
                    return Err(UserError::InvalidToken);
                },
            },
            None => None,
        };
        Ok(PageQuery::new(cursor, params.limit))
    }

    /// The page made from the store's answer `fetched` to a query of page
    /// size `limit` (which asks for `limit + 1` records).
    ///
    /// Turning a cursor into a token cannot fail, so the next token is there
    /// exactly when another page follows.
    pub fn assemble_page(fetched: Vec<User>, limit: usize) -> (r: PaginatedUsersResponse)
        requires
            1 <= limit <= MAX_PAGE_SIZE,
        ensures
            assembled_from(r, fetched@, limit as nat),
    {
        let has_more = fetched.len() > limit;
        let mut users = fetched;
        users.truncate(limit);
        proof {
            if has_more {
                assert(users_view(users@) =~= users_view(fetched@).take(limit as int));
            } else {
                assert(users@ == fetched@);
            }
        }
        let next_token = if has_more {
            let last = &users[users.len() - 1];
            match PaginationToken::encode(last.id, last.created_at) {
                Ok(t) => Some(t),
                Err(_) => None,
            }
        } else {
            None
        };
        let count = users.len();
        let r = PaginatedUsersResponse { users, next_token, has_more, count };
        assert(assembled_from(r, fetched@, limit as nat));
        r
    }
}

} // verus!
