use rust_kickstart::keyset::{clamp_limit, keyset_fetch, PageQuery, MAX_PAGE_SIZE};
use rust_kickstart::read_service::ReadUserService;
use rust_kickstart::timestamp::Timestamp;
use rust_kickstart::token::PaginationToken;
use rust_kickstart::user::{PaginatedUsersResponse, PaginationParams, User, UserError};

fn user(id: i32, secs: i64, nanos: u32) -> User {
    User::new(id, format!("User {id}"), 30, Timestamp::new(secs, nanos))
}

fn page(store: &Vec<User>, next_token: Option<String>, limit: Option<i32>) -> PaginatedUsersResponse {
    let params = PaginationParams { next_token, limit };
    let query = ReadUserService::plan_page(&params).unwrap();
    let fetched = keyset_fetch(store, &query);
    ReadUserService::assemble_page(fetched, query.limit)
}

fn ids(r: &PaginatedUsersResponse) -> Vec<i32> {
    r.users.iter().map(|u| u.id).collect()
}

fn seeded_store() -> Vec<User> {
    // listing order: creation time, then id (ties at secs 20 and 40)
    vec![
        user(4, 10, 0),
        user(1, 20, 0),
        user(2, 20, 0),
        user(7, 20, 5),
        user(3, 30, 0),
        user(5, 40, 0),
        user(6, 40, 0),
        user(9, 40, 0),
        user(8, 50, 999_999_999),
        user(10, 51, 0),
        user(11, 60, 0),
    ]
}

#[test]
fn empty_store_gives_empty_last_page() {
    let store: Vec<User> = Vec::new();
    let r = page(&store, None, None);
    assert!(r.users.is_empty());
    assert!(!r.has_more);
    assert!(r.next_token.is_none());
    assert_eq!(r.count, 0);
}

#[test]
fn three_records_two_pages() {
    let store = vec![user(1, 100, 0), user(2, 200, 0), user(3, 300, 0)];
    let first = page(&store, None, Some(2));
    assert_eq!(ids(&first), vec![1, 2]);
    assert!(first.has_more);
    assert_eq!(first.count, 2);
    let token = first.next_token.clone().unwrap();
    assert_eq!(PaginationToken::decode(&token), Ok((2, Timestamp::new(200, 0))));

    let second = page(&store, Some(token), Some(2));
    assert_eq!(ids(&second), vec![3]);
    assert!(!second.has_more);
    assert!(second.next_token.is_none());
    assert_eq!(second.count, 1);
}

#[test]
fn paging_lists_every_record_once_in_order_for_any_limit() {
    let store = seeded_store();
    let expected: Vec<i32> = store.iter().map(|u| u.id).collect();
    for limit in 1..=12 {
        let mut seen = Vec::new();
        let mut token = None;
        let mut pages = 0;
        loop {
            let r = page(&store, token, Some(limit));
            assert!(r.count <= limit as usize);
            assert_eq!(r.count, r.users.len());
            seen.extend(ids(&r));
            pages += 1;
            if !r.has_more {
                assert!(r.next_token.is_none());
                break;
            }
            token = r.next_token;
            assert!(token.is_some());
        }
        assert_eq!(seen, expected, "limit {limit}");
        assert!(pages <= store.len() + 1);
    }
}

#[test]
fn limit_is_clamped() {
    assert_eq!(clamp_limit(Some(0)), 1);
    assert_eq!(clamp_limit(Some(-5)), 1);
    assert_eq!(clamp_limit(Some(10000)), MAX_PAGE_SIZE);
    assert_eq!(clamp_limit(None), 200);
    assert_eq!(clamp_limit(Some(37)), 37);

    let store: Vec<User> = (0..250).map(|i| user(i, i as i64, 0)).collect();
    assert_eq!(page(&store, None, Some(0)).count, 1);
    assert_eq!(page(&store, None, Some(-5)).count, 1);
    assert_eq!(page(&store, None, Some(10000)).count, 200);
    assert_eq!(page(&store, None, None).count, 200);
    assert!(page(&store, None, None).has_more);
}

#[test]
fn insert_at_end_between_pages_adds_no_duplicates() {
    let mut store = vec![user(1, 100, 0), user(2, 200, 0), user(3, 300, 0)];
    let first = page(&store, None, Some(2));
    let first_ids = ids(&first);
    store.push(user(4, 400, 0));
    assert_eq!(ids(&first), first_ids);
    let second = page(&store, first.next_token.clone(), Some(2));
    assert_eq!(ids(&second), vec![3, 4]);
    assert!(!second.has_more);
}

#[test]
fn invalid_token_is_rejected_before_any_fetch() {
    let params = PaginationParams { next_token: Some("invalid_token".to_string()), limit: None };
    assert!(matches!(ReadUserService::plan_page(&params), Err(UserError::InvalidToken)));
    let params = PaginationParams { next_token: Some("not-base64!!".to_string()), limit: Some(5) };
    assert!(matches!(ReadUserService::plan_page(&params), Err(UserError::InvalidToken)));
}

#[test]
fn plan_without_token_starts_at_the_first_record() {
    let params = PaginationParams { next_token: None, limit: Some(3) };
    let q = ReadUserService::plan_page(&params).unwrap();
    assert!(q.cursor.is_none());
    assert_eq!(q.limit, 3);
    assert_eq!(q.fetch_count(), 4);
}

#[test]
fn fetch_asks_for_one_record_more_than_the_page() {
    let store = seeded_store();
    let q = PageQuery::new(Some((2, Timestamp::new(20, 0))), Some(3));
    let fetched = keyset_fetch(&store, &q);
    let got: Vec<i32> = fetched.iter().map(|u| u.id).collect();
    assert_eq!(got, vec![7, 3, 5, 6]);
}

#[test]
fn assemble_trims_the_extra_record() {
    let rows = vec![user(1, 1, 0), user(2, 2, 0), user(3, 3, 0)];
    let r = ReadUserService::assemble_page(rows, 2);
    assert_eq!(ids(&r), vec![1, 2]);
    assert!(r.has_more);
    assert_eq!(
        PaginationToken::decode(r.next_token.as_deref().unwrap()),
        Ok((2, Timestamp::new(2, 0)))
    );
    let rows = vec![user(1, 1, 0), user(2, 2, 0)];
    let r = ReadUserService::assemble_page(rows, 2);
    assert_eq!(ids(&r), vec![1, 2]);
    assert!(!r.has_more);
    assert!(r.next_token.is_none());
}
