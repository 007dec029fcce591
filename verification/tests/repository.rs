use argonath::repository::{CreateSessionRequest, MemoryRepository, RepositoryError};

fn uuid_of(text: &str) -> u128 {
    let hex: String = text.chars().filter(|c| *c != '-').collect();
    u128::from_str_radix(&hex, 16).expect("an identifier in hexadecimal")
}

fn request(user_id: i32, expires_at: i64) -> CreateSessionRequest {
    CreateSessionRequest {
        user_id,
        access_token: "AT1".to_string(),
        refresh_token: "RT1".to_string(),
        expires_at,
    }
}

#[test]
fn same_login_gives_the_same_user_and_one_row() {
    let mut store = MemoryRepository::new();
    let first = store.get_or_create_user("octocat").expect("a user");
    assert_eq!(store.user_count(), 1);
    let second = store.get_or_create_user("octocat").expect("a user");
    assert_eq!(store.user_count(), 1);
    assert_eq!(first.id, second.id);
    assert_eq!(first.github_login, "octocat");
    assert_eq!(second.github_login, "octocat");
}

#[test]
fn users_are_numbered_from_one() {
    let mut store = MemoryRepository::new();
    assert_eq!(store.user_count(), 0);
    assert_eq!(store.get_or_create_user("a").expect("a user").id, 1);
    assert_eq!(store.get_or_create_user("b").expect("a user").id, 2);
    assert_eq!(store.get_or_create_user("").expect("a user").id, 3);
    assert_eq!(store.get_or_create_user("a").expect("a user").id, 1);
    assert_eq!(store.get_or_create_user("b").expect("a user").id, 2);
    assert_eq!(store.get_or_create_user("A").expect("a user").id, 4);
    assert_eq!(store.user_count(), 4);
    assert_eq!(store.session_count(), 0);
}

#[test]
fn session_holds_what_the_request_held() {
    let mut store = MemoryRepository::new();
    let user = store.get_or_create_user("octocat").expect("a user");
    let session = store.insert_session(42, request(user.id, 1_700_000_000)).expect("a session");
    assert_eq!(session.id, "00000000-0000-0000-0000-00000000002a");
    assert_eq!(session.user_id, 1);
    assert_eq!(session.access_token, "AT1");
    assert_eq!(session.refresh_token, "RT1");
    assert_eq!(session.expires_at, Some(1_700_000_000));
    assert_eq!(store.session_count(), 1);
    assert_eq!(store.user_count(), 1);
}

#[test]
fn session_identifier_is_written_in_hyphenated_lower_case() {
    let mut store = MemoryRepository::new();
    store.get_or_create_user("octocat").expect("a user");
    let session = store
        .insert_session(0xA1A2A3A4_B1B2_C1C2_D1D2_D3D4D5D6D7D8, request(1, 0))
        .expect("a session");
    assert_eq!(session.id, "a1a2a3a4-b1b2-c1c2-d1d2-d3d4d5d6d7d8");
}

#[test]
fn session_for_an_unknown_user_is_refused() {
    let mut store = MemoryRepository::new();
    store.get_or_create_user("octocat").expect("a user");
    for user_id in [0, 2, -1, i32::MAX, i32::MIN] {
        let refused = store.insert_session(7, request(user_id, 0));
        assert_eq!(refused.err(), Some(RepositoryError::FailedToCreateSessionError));
        let refused = store.create_session(request(user_id, 0));
        assert_eq!(refused.err(), Some(RepositoryError::FailedToCreateSessionError));
    }
    assert_eq!(store.session_count(), 0);
}

#[test]
fn identifier_in_use_is_refused() {
    let mut store = MemoryRepository::new();
    store.get_or_create_user("octocat").expect("a user");
    store.insert_session(7, request(1, 0)).expect("a session");
    let refused = store.insert_session(7, request(1, 5));
    assert_eq!(refused.err(), Some(RepositoryError::FailedToCreateSessionError));
    assert_eq!(store.session_count(), 1);
    let kept = store.get_session(7).expect("an answer").expect("a session");
    assert_eq!(kept.expires_at, Some(0));
}

#[test]
fn each_login_creates_a_new_session() {
    let mut store = MemoryRepository::new();
    store.get_or_create_user("octocat").expect("a user");
    let first = store.create_session(request(1, 10)).expect("a session");
    let second = store.create_session(request(1, 10)).expect("a session");
    assert_ne!(first.id, second.id);
    assert_eq!(store.session_count(), 2);
    assert_eq!(first.id.len(), 36);
    assert_eq!(first.id.as_bytes()[14], b'4');
    assert_eq!(first.user_id, 1);
    assert_eq!(first.access_token, "AT1");
    assert_eq!(first.refresh_token, "RT1");
    assert_eq!(first.expires_at, Some(10));
}

#[test]
fn lookup_finds_the_session_under_its_identifier() {
    let mut store = MemoryRepository::new();
    store.get_or_create_user("a").expect("a user");
    store.get_or_create_user("b").expect("a user");
    store.insert_session(1, request(1, 10)).expect("a session");
    store.insert_session(2, request(2, 20)).expect("a session");
    let found = store.get_session(2).expect("an answer").expect("a session");
    assert_eq!(found.user_id, 2);
    assert_eq!(found.expires_at, Some(20));
    assert_eq!(found.id, "00000000-0000-0000-0000-000000000002");
    let found = store.get_session(1).expect("an answer").expect("a session");
    assert_eq!(found.user_id, 1);
    assert!(store.get_session(3).expect("an answer").is_none());
    assert!(store.get_session(0).expect("an answer").is_none());
    assert_eq!(store.session_count(), 2);
}

#[test]
fn lookup_does_not_look_at_the_expiry() {
    let mut store = MemoryRepository::new();
    store.get_or_create_user("octocat").expect("a user");
    store.insert_session(1, request(1, i64::MIN)).expect("a session");
    store.insert_session(2, request(1, 0)).expect("a session");
    store.insert_session(3, request(1, i64::MAX)).expect("a session");
    assert_eq!(store.get_session(1).expect("an answer").expect("a session").expires_at, Some(i64::MIN));
    assert_eq!(store.get_session(2).expect("an answer").expect("a session").expires_at, Some(0));
    assert_eq!(store.get_session(3).expect("an answer").expect("a session").expires_at, Some(i64::MAX));
}

#[test]
fn empty_store_finds_nothing() {
    let store = MemoryRepository::new();
    assert!(store.get_session(0).expect("an answer").is_none());
    assert_eq!(store.user_count(), 0);
    assert_eq!(store.session_count(), 0);
}

#[test]
fn store_failures_describe_themselves_alike() {
    assert_eq!(
        RepositoryError::FailedToCreateSessionError.message(),
        "Failed to create session: Database insert failed"
    );
    assert_eq!(
        RepositoryError::FailedToCreateUserError.message(),
        "Failed to create session: Database insert failed"
    );
}

#[test]
fn session_requests_are_equal_when_all_their_fields_are() {
    assert!(request(1, 2) == request(1, 2));
    assert!(request(1, 2) != request(2, 2));
    assert!(request(1, 2) != request(1, 3));
    let mut other = request(1, 2);
    other.access_token = "AT2".to_string();
    assert!(request(1, 2) != other);
    let mut other = request(1, 2);
    other.refresh_token = "RT2".to_string();
    assert!(request(1, 2) != other);
}

#[test]
fn store_without_room_refuses_a_new_user() {
    let mut store = MemoryRepository::with_user_limit(2);
    assert_eq!(store.get_or_create_user("a").expect("a user").id, 1);
    assert_eq!(store.get_or_create_user("b").expect("a user").id, 2);
    let refused = store.get_or_create_user("c");
    assert_eq!(refused.err(), Some(RepositoryError::FailedToCreateUserError));
    assert_eq!(store.user_count(), 2);
    assert_eq!(store.get_or_create_user("a").expect("a user").id, 1);
    assert_eq!(store.get_or_create_user("b").expect("a user").id, 2);
    assert_eq!(store.user_count(), 2);
}

#[test]
fn store_with_no_room_takes_no_user() {
    for limit in [0, -1, i32::MIN] {
        let mut store = MemoryRepository::with_user_limit(limit);
        let refused = store.get_or_create_user("a");
        assert_eq!(refused.err(), Some(RepositoryError::FailedToCreateUserError));
        assert_eq!(store.user_count(), 0);
    }
}

#[test]
fn first_session_of_a_known_user_is_created() {
    let mut store = MemoryRepository::new();
    let user = store.get_or_create_user("octocat").expect("a user");
    assert_eq!(user.id, 1);
    assert_eq!(store.session_count(), 0);
    let session = store.create_session(request(user.id, 10)).expect("a session");
    assert_eq!(session.user_id, 1);
    assert_eq!(store.session_count(), 1);
    let found = store.get_session(uuid_of(&session.id)).expect("an answer").expect("a session");
    assert_eq!(found.id, session.id);
}
