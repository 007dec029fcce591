//! The guard in front of the protected routes: from the session cookie of a
//! request to the session, or to the login page.

use vstd::prelude::*;

use crate::model::{Session, SessionView};
use crate::repository::{RepositoryError, StoreView};
use crate::response::{Redirect, LOGIN_PATH};
use crate::session_id::{parse_uuid, parsed_uuid};

verus! {

/// The session of an authorized request.
#[derive(Debug)]
pub struct ExtractSession(pub Session);

/// What the session cookie of a request holds.
#[derive(Debug, Clone, Copy, PartialEq, Eq, Structural)]
pub enum SessionCookie {
    /// The request carries no session cookie.
    Absent,
    /// The cookie's value is no session identifier.
    Malformed,
    /// The cookie names this session.
    Id(u128),
}

/// What the cookie value `cookie` holds, if the request carries one.
pub open spec fn read_cookie(cookie: Option<&str>) -> SessionCookie {
    match cookie {
        None => SessionCookie::Absent,
        Some(value) => match parsed_uuid(value@) {
            Some(id) => SessionCookie::Id(id),
            None => SessionCookie::Malformed,
        },
    }
}

/// What holds of a cookie's value once it is parsed.
pub open spec fn after_parsing(parsed: Option<u128>) -> SessionCookie {
    match parsed {
        Some(id) => SessionCookie::Id(id),
        None => SessionCookie::Malformed,
    }
}

impl SessionCookie {
    /// Tells what a cookie's value holds from what parsing it gave.
    pub fn parsed(parsed: Option<u128>) -> (cookie: SessionCookie)
        ensures
            cookie == after_parsing(parsed),
    {
        match parsed {
            Some(id) => SessionCookie::Id(id),
            None => SessionCookie::Malformed,
        }
    }

    /// Reads the value of the session cookie, if the request carries one.
    pub fn read(cookie: Option<&str>) -> (read: SessionCookie)
        ensures
            read == read_cookie(cookie),
    {
        match cookie {
            None => SessionCookie::Absent,
            Some(value) => SessionCookie::parsed(parse_uuid(value)),
        }
    }
}

/// Where the guard stands with a request.
#[derive(Debug)]
pub enum Guard {
    /// The store is to be asked for the session with this identifier, and its
    /// answer handed to [`Guard::resume`].
    Lookup(u128),
    /// The request belongs to this session.
    Authorized(ExtractSession),
    /// The request belongs to no session: the client is sent to the login
    /// page, whatever the reason.
    Unauthenticated(Redirect),
}

/// What a [`Guard`] holds, as mathematical values.
pub enum GuardView {
    Lookup(u128),
    Authorized(SessionView),
    Unauthenticated(Seq<char>),
}

impl View for Guard {
    type V = GuardView;

    open spec fn view(&self) -> GuardView {
        match self {
            Guard::Lookup(id) => GuardView::Lookup(*id),
            Guard::Authorized(session) => GuardView::Authorized(session.0@),
            Guard::Unauthenticated(redirect) => GuardView::Unauthenticated(redirect@),
        }
    }
}

/// The outcome that every request without a session ends in.
pub open spec fn unauthenticated() -> GuardView {
    GuardView::Unauthenticated(LOGIN_PATH@)
}

/// The guard's first state for a request with this session cookie: the
/// session that the cookie names is to be looked up; a request without a
/// well-formed cookie is unauthenticated.
pub open spec fn guard_begin(cookie: SessionCookie) -> GuardView {
    match cookie {
        SessionCookie::Id(id) => GuardView::Lookup(id),
        _ => unauthenticated(),
    }
}

/// The state that follows `state` when the store has answered with `found`:
/// the request is authorized by the session that the store found, and
/// unauthenticated where it found none or failed. A state that asks for no
/// lookup stays as it is.
pub open spec fn guard_step(state: GuardView, found: Result<Option<Session>, RepositoryError>) -> GuardView {
    match state {
        GuardView::Lookup(_) => match found {
            Ok(Some(session)) => GuardView::Authorized(session@),
            _ => unauthenticated(),
        },
        _ => state,
    }
}

impl Guard {
    /// Starts the guard on a request with this session cookie.
    pub fn begin(cookie: SessionCookie) -> (state: Guard)
        ensures
            state@ == guard_begin(cookie),
    {
        match cookie {
            SessionCookie::Id(id) => Guard::Lookup(id),
            _ => Guard::Unauthenticated(Redirect::temporary(LOGIN_PATH)),
        }
    }

    /// Takes the store's answer to the lookup and decides.
    pub fn resume(self, found: Result<Option<Session>, RepositoryError>) -> (state: Guard)
        ensures
            state@ == guard_step(self@, found),
    {
        match self {
            Guard::Lookup(_) => match found {
                Ok(Some(session)) => Guard::Authorized(ExtractSession(session)),
                _ => Guard::Unauthenticated(Redirect::temporary(LOGIN_PATH)),
            },
            Guard::Authorized(session) => Guard::Authorized(session),
            Guard::Unauthenticated(redirect) => Guard::Unauthenticated(redirect),
        }
    }
}

impl ExtractSession {
    /// Starts the guard on a request whose session cookie, if it carries
    /// one, has the value `cookie`.
    pub fn from_request_parts(cookie: Option<&str>) -> (state: Guard)
        ensures
            state@ == guard_begin(read_cookie(cookie)),
    {
        Guard::begin(SessionCookie::read(cookie))
    }
}

/// A request without a session cookie, one whose cookie is malformed, one
/// whose cookie names a session that the store does not hold, and one for
/// which the store fails all end in the same outcome: the redirect to the
/// login page.
pub proof fn law_rejections_are_alike(malformed: &str, id: u128, error: RepositoryError)
    requires
        parsed_uuid(malformed@) is None,
    ensures
        guard_begin(read_cookie(None)) == unauthenticated(),
        guard_begin(read_cookie(Some(malformed))) == unauthenticated(),
        guard_step(GuardView::Lookup(id), Ok(None)) == unauthenticated(),
        guard_step(GuardView::Lookup(id), Err(error)) == unauthenticated(),
{
}

/// Whether `found` is what a store that holds `store` answers when it is
/// asked for the session `id`: the session that it holds under `id`, none
/// where it holds none, or a failure.
pub open spec fn is_answer(store: StoreView, id: u128, found: Result<Option<Session>, RepositoryError>) -> bool {
    match found {
        Ok(Some(session)) => store.session(id) == Some(session@),
        Ok(None) => store.session(id) is None,
        Err(_) => true,
    }
}

/// The guard authorizes a request only by the session that the store holds
/// under the identifier in the request's cookie: a request without a cookie,
/// with a malformed one, or with one that names a session that the store does
/// not hold is unauthenticated, whatever the store answers.
pub proof fn law_authorized_only_by_stored_session(
    store: StoreView,
    cookie: Option<&str>,
    found: Result<Option<Session>, RepositoryError>,
)
    requires
        read_cookie(cookie) matches SessionCookie::Id(id) ==> is_answer(store, id, found),
    ensures
        match guard_step(guard_begin(read_cookie(cookie)), found) {
            GuardView::Authorized(session) => read_cookie(cookie) matches SessionCookie::Id(id)
                && store.session(id) == Some(session),
            outcome => outcome == unauthenticated(),
        },
{
}

/// A request whose session cookie is the identifier, as text, of a session
/// that a well-formed store holds is authorized by that session, once the
/// store has answered without failing.
pub proof fn law_stored_session_authorizes(
    store: StoreView,
    k: int,
    cookie: &str,
    found: Result<Option<Session>, RepositoryError>,
)
    requires
        store.well_formed(),
        0 <= k < store.sessions.len(),
        cookie@ == store.sessions[k].1.id,
        found is Ok,
        is_answer(store, store.sessions[k].0, found),
    ensures
        guard_step(guard_begin(read_cookie(Some(cookie))), found) == GuardView::Authorized(
            store.sessions[k].1,
        ),
{
    assert(parsed_uuid(store.sessions[k].1.id) == Some(store.sessions[k].0));
    store.lemma_session_is_found(k);
}

} // verus!
