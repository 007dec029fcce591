use argonath::extractors::{ExtractSession, Guard, SessionCookie};
use argonath::model::Session;
use argonath::repository::{CreateSessionRequest, MemoryRepository, RepositoryError};

const ID_TEXT: &str = "550e8400-e29b-41d4-a716-446655440000";
const ID: u128 = 0x550e8400_e29b_41d4_a716_446655440000;

fn session(id: &str) -> Session {
    Session {
        id: id.to_string(),
        user_id: 1,
        access_token: "AT1".to_string(),
        refresh_token: "RT1".to_string(),
        expires_at: Some(0),
    }
}

fn redirect_of(guard: Guard) -> String {
    match guard {
        Guard::Unauthenticated(redirect) => redirect.location,
        other => panic!("the request should be unauthenticated: {:?}", other),
    }
}

#[test]
fn every_rejection_is_the_same_redirect() {
    let no_cookie = redirect_of(ExtractSession::from_request_parts(None));
    let malformed = redirect_of(ExtractSession::from_request_parts(Some("not-a-session")));
    let empty = redirect_of(ExtractSession::from_request_parts(Some("")));
    let unknown = redirect_of(ExtractSession::from_request_parts(Some(ID_TEXT)).resume(Ok(None)));
    let store_failed = redirect_of(
        ExtractSession::from_request_parts(Some(ID_TEXT))
            .resume(Err(RepositoryError::FailedToCreateSessionError)),
    );
    assert_eq!(no_cookie, "/login");
    assert_eq!(malformed, no_cookie);
    assert_eq!(empty, no_cookie);
    assert_eq!(unknown, no_cookie);
    assert_eq!(store_failed, no_cookie);
}

#[test]
fn well_formed_cookie_asks_the_store() {
    assert!(matches!(ExtractSession::from_request_parts(Some(ID_TEXT)), Guard::Lookup(ID)));
}

#[test]
fn cookie_is_read_in_every_form_of_the_identifier() {
    assert_eq!(SessionCookie::read(Some(ID_TEXT)), SessionCookie::Id(ID));
    assert_eq!(SessionCookie::read(Some("550e8400e29b41d4a716446655440000")), SessionCookie::Id(ID));
    assert_eq!(SessionCookie::read(Some("550E8400-E29B-41D4-A716-446655440000")), SessionCookie::Id(ID));
    assert_eq!(
        SessionCookie::read(Some("urn:uuid:550e8400-e29b-41d4-a716-446655440000")),
        SessionCookie::Id(ID)
    );
    assert_eq!(
        SessionCookie::read(Some("{550e8400-e29b-41d4-a716-446655440000}")),
        SessionCookie::Id(ID)
    );
    assert_eq!(
        SessionCookie::read(Some("00000000-0000-0000-0000-000000000000")),
        SessionCookie::Id(0)
    );
    assert_eq!(
        SessionCookie::read(Some("ffffffff-ffff-ffff-ffff-ffffffffffff")),
        SessionCookie::Id(u128::MAX)
    );
}

#[test]
fn cookie_that_is_no_identifier_is_malformed() {
    assert_eq!(SessionCookie::read(None), SessionCookie::Absent);
    assert_eq!(SessionCookie::read(Some("")), SessionCookie::Malformed);
    assert_eq!(SessionCookie::read(Some("sid-1")), SessionCookie::Malformed);
    assert_eq!(
        SessionCookie::read(Some("550e8400-e29b-41d4-a716-44665544000")),
        SessionCookie::Malformed
    );
    assert_eq!(
        SessionCookie::read(Some("550e8400-e29b-41d4-a716-44665544000g")),
        SessionCookie::Malformed
    );
    assert_eq!(
        SessionCookie::read(Some("550e8400_e29b_41d4_a716_446655440000")),
        SessionCookie::Malformed
    );
}

#[test]
fn parsed_cookie_is_an_identifier_or_malformed() {
    assert_eq!(SessionCookie::parsed(Some(7)), SessionCookie::Id(7));
    assert_eq!(SessionCookie::parsed(None), SessionCookie::Malformed);
}

#[test]
fn guard_begins_with_a_lookup_only_for_an_identifier() {
    assert!(matches!(Guard::begin(SessionCookie::Id(9)), Guard::Lookup(9)));
    assert_eq!(redirect_of(Guard::begin(SessionCookie::Absent)), "/login");
    assert_eq!(redirect_of(Guard::begin(SessionCookie::Malformed)), "/login");
}

#[test]
fn found_session_authorizes_the_request() {
    let guard = ExtractSession::from_request_parts(Some(ID_TEXT)).resume(Ok(Some(session(ID_TEXT))));
    match guard {
        Guard::Authorized(ExtractSession(found)) => {
            assert_eq!(found.id, ID_TEXT);
            assert_eq!(found.user_id, 1);
            assert_eq!(found.access_token, "AT1");
            assert_eq!(found.refresh_token, "RT1");
            assert_eq!(found.expires_at, Some(0));
        }
        other => panic!("the request should be authorized: {:?}", other),
    }
}

#[test]
fn decided_guard_takes_no_other_answer() {
    let rejected = ExtractSession::from_request_parts(None).resume(Ok(Some(session(ID_TEXT))));
    assert_eq!(redirect_of(rejected), "/login");

    let authorized = Guard::Lookup(ID).resume(Ok(Some(session(ID_TEXT)))).resume(Ok(None));
    assert!(matches!(authorized, Guard::Authorized(_)));
}

#[test]
fn guard_finds_the_session_that_the_store_created() {
    let mut store = MemoryRepository::new();
    let user = store.get_or_create_user("octocat").expect("a user");
    let created = store
        .create_session(CreateSessionRequest {
            user_id: user.id,
            access_token: "AT1".to_string(),
            refresh_token: "RT1".to_string(),
            expires_at: 1,
        })
        .expect("a session");

    let guard = ExtractSession::from_request_parts(Some(created.id.as_str()));
    let id = match guard {
        Guard::Lookup(id) => id,
        other => panic!("the store should be asked: {:?}", other),
    };
    match Guard::Lookup(id).resume(store.get_session(id)) {
        Guard::Authorized(ExtractSession(found)) => {
            assert_eq!(found.id, created.id);
            assert_eq!(found.access_token, "AT1");
        }
        other => panic!("the request should be authorized: {:?}", other),
    }

    let other = id ^ 1;
    assert_eq!(redirect_of(Guard::Lookup(other).resume(store.get_session(other))), "/login");
}
