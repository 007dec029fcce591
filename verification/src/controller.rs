//! The login-completion flow and the failure that every request shares.

use vstd::prelude::*;

use crate::clock::{expires_at, expiry, unix_now};
use crate::github::{
    get_user, post_login_oauth_access_token, token_request, user_request, OauthResponse,
    OauthResponseView, TokenRequest, TokenRequestView, UserRequest, UserRequestView, UserResponse,
};
use crate::model::{Session, User};
use crate::repository::{CreateSessionRequest, CreateSessionRequestView, RepositoryError};
use crate::response::{Cookie, CookieView, Redirect, HOME_PATH};
use crate::AppSecrets;

verus! {

/// The name of the cookie that carries the session's identifier.
pub const SESSION_COOKIE: &'static str = "session";

/// The identifier under which the provider knows this application.
pub const CLIENT_ID: &'static str = "Iv23li3UZlzZ0kG6gw5s";

/// The one failure that a request can end in: whatever went wrong at the
/// provider or in the store, the client learns only that the request failed.
#[derive(Debug, Clone, Copy, PartialEq, Eq, Structural)]
pub struct AppError;

impl AppError {
    /// The HTTP status of the answer to a failed request.
    pub const STATUS: u16 = 500;

    /// The body of the answer to a failed request.
    pub fn message(&self) -> (text: String)
        ensures
            text@ == "Request failed"@,
    {
        "Request failed".to_owned()
    }
}

impl From<RepositoryError> for AppError {
    fn from(_error: RepositoryError) -> (error: AppError) {
        AppError
    }
}

impl vstd::std_specs::convert::FromSpecImpl<RepositoryError> for AppError {
    open spec fn obeys_from_spec() -> bool {
        true
    }

    open spec fn from_spec(_error: RepositoryError) -> AppError {
        AppError
    }
}

/// What the provider hands to the callback address: the authorization code.
#[derive(Debug)]
pub struct CallbackParams {
    pub code: String,
}

/// Where the completion of a login stands.
///
/// The first four states each name a call that is to be made; its outcome is
/// handed to [`Callback::resume`]. The last two are final.
#[derive(Debug)]
pub enum Callback {
    /// The authorization code is to be exchanged for a token pair.
    ExchangeCode(TokenRequest),
    /// The provider is to be asked who the access token of `tokens` belongs
    /// to.
    FetchUser { request: UserRequest, tokens: OauthResponse },
    /// The store is to find or create the user with this login.
    UpsertUser { login: String, tokens: OauthResponse },
    /// The store is to create this session.
    CreateSession(CreateSessionRequest),
    /// The login is complete: the cookie is to be set and the client sent on.
    Established { cookie: Cookie, redirect: Redirect },
    /// A step has failed, and with it the login.
    Failed(AppError),
}

/// What a [`Callback`] holds, as mathematical values.
pub enum CallbackView {
    ExchangeCode(TokenRequestView),
    FetchUser { request: UserRequestView, tokens: OauthResponseView },
    UpsertUser { login: Seq<char>, tokens: OauthResponseView },
    CreateSession(CreateSessionRequestView),
    Established { cookie: CookieView, redirect: Seq<char> },
    Failed,
}

impl View for Callback {
    type V = CallbackView;

    open spec fn view(&self) -> CallbackView {
        match self {
            Callback::ExchangeCode(request) => CallbackView::ExchangeCode(request@),
            Callback::FetchUser { request, tokens } => CallbackView::FetchUser {
                request: request@,
                tokens: tokens@,
            },
            Callback::UpsertUser { login, tokens } => CallbackView::UpsertUser {
                login: login@,
                tokens: tokens@,
            },
            Callback::CreateSession(request) => CallbackView::CreateSession(request@),
            Callback::Established { cookie, redirect } => CallbackView::Established {
                cookie: cookie@,
                redirect: redirect@,
            },
            Callback::Failed(_) => CallbackView::Failed,
        }
    }
}

/// The outcome of the call that a [`Callback`] has asked for.
#[derive(Debug)]
pub enum CallbackEvent {
    /// How the exchange of the authorization code ended.
    Tokens(Result<OauthResponse, AppError>),
    /// How the question for the user behind the tokens ended.
    Identity(Result<UserResponse, AppError>),
    /// How the store's search for the user, or the user's creation, ended.
    User(Result<User, RepositoryError>),
    /// How the session's creation ended.
    Session(Result<Session, RepositoryError>),
}

/// The first state of a login's completion: `code` is to be exchanged, under
/// this application's client identifier and secret.
pub open spec fn callback_begin(code: Seq<char>, client_secret: Seq<char>) -> CallbackView {
    CallbackView::ExchangeCode(token_request(CLIENT_ID@, code, client_secret))
}

/// The state that follows the store's answer with the user `user_id`, for a
/// session that is to hold `tokens` and to expire at `expires_at`: the session
/// is to be created, unless its expiry could not be represented.
pub open spec fn session_step(tokens: OauthResponseView, user_id: i32, expires_at: Option<i64>) -> CallbackView {
    match expires_at {
        Some(expires_at) => CallbackView::CreateSession(
            CreateSessionRequestView {
                user_id,
                access_token: tokens.access_token,
                refresh_token: tokens.refresh_token,
                expires_at,
            },
        ),
        None => CallbackView::Failed,
    }
}

/// The state that follows `state` when the call it asked for has ended in
/// `event`, at the time `now`.
///
/// Each call that succeeds leads to the next one: the token pair to the
/// question for its user, the user's login to the store's user, the store's
/// user to a session that holds the token pair and expires when the access
/// token does, and the session to the cookie with its identifier and the
/// redirect home. A call that fails, an expiry that cannot be represented,
/// and an outcome of a call that was not asked for all fail the login. A final
/// state stays as it is.
pub open spec fn callback_step(state: CallbackView, event: CallbackEvent, now: i64) -> CallbackView {
    match state {
        CallbackView::ExchangeCode(_) => match event {
            CallbackEvent::Tokens(Ok(tokens)) => CallbackView::FetchUser {
                request: user_request(tokens.access_token@),
                tokens: tokens@,
            },
            _ => CallbackView::Failed,
        },
        CallbackView::FetchUser { tokens, .. } => match event {
            CallbackEvent::Identity(Ok(user)) => CallbackView::UpsertUser { login: user.login@, tokens },
            _ => CallbackView::Failed,
        },
        CallbackView::UpsertUser { tokens, .. } => match event {
            CallbackEvent::User(Ok(user)) => session_step(
                tokens,
                user.id,
                expiry(now, tokens.expires_in),
            ),
            _ => CallbackView::Failed,
        },
        CallbackView::CreateSession(_) => match event {
            CallbackEvent::Session(Ok(session)) => CallbackView::Established {
                cookie: CookieView { name: SESSION_COOKIE@, value: session.id@ },
                redirect: HOME_PATH@,
            },
            _ => CallbackView::Failed,
        },
        CallbackView::Established { .. } => state,
        CallbackView::Failed => state,
    }
}

/// Starts the completion of a login from what the provider handed to the
/// callback address.
pub fn callback(params: CallbackParams, secrets: &AppSecrets) -> (state: Callback)
    ensures
        state@ == callback_begin(params.code@, secrets.client_secret@),
{
    Callback::ExchangeCode(
        post_login_oauth_access_token(
            CLIENT_ID,
            params.code.as_str(),
            secrets.client_secret.as_str(),
        ),
    )
}

impl Callback {
    /// The state that asks the store for a session of `user` that holds
    /// `tokens` and expires at `expires_at`; the failed state where the expiry
    /// could not be represented.
    pub fn for_session(tokens: OauthResponse, user: &User, expires_at: Option<i64>) -> (state: Callback)
        ensures
            state@ == session_step(tokens@, user.id, expires_at),
    {
        match expires_at {
            Some(expires_at) => Callback::CreateSession(
                CreateSessionRequest {
                    user_id: user.id,
                    access_token: tokens.access_token,
                    refresh_token: tokens.refresh_token,
                    expires_at,
                },
            ),
            None => Callback::Failed(AppError),
        }
    }

    /// Whether the state is final: the login is complete or has failed.
    pub fn is_final(&self) -> (done: bool)
        ensures
            done == (self@ is Established || self@ is Failed),
    {
        match self {
            Callback::Established { .. } => true,
            Callback::Failed(_) => true,
            _ => false,
        }
    }

    /// Takes the outcome of the call that was asked for and moves on, with
    /// `now` as the time at which the outcome arrived (Unix seconds).
    pub fn resume_at(self, event: CallbackEvent, now: i64) -> (state: Callback)
        ensures
            state@ == callback_step(self@, event, now),
            (self@, state@) matches (
                CallbackView::UpsertUser { tokens, .. },
                CallbackView::CreateSession(request),
            ) ==> request.expires_at == now + tokens.expires_in,
    {
        match self {
            Callback::ExchangeCode(_) => match event {
                CallbackEvent::Tokens(Ok(tokens)) => Callback::FetchUser {
                    request: get_user(tokens.access_token.as_str()),
                    tokens,
                },
                _ => Callback::Failed(AppError),
            },
            Callback::FetchUser { request: _, tokens } => match event {
                CallbackEvent::Identity(Ok(user)) => Callback::UpsertUser {
                    login: user.login,
                    tokens,
                },
                _ => Callback::Failed(AppError),
            },
            Callback::UpsertUser { login: _, tokens } => match event {
                CallbackEvent::User(Ok(user)) => {
                    let expires_at = expires_at(now, tokens.expires_in);
                    Callback::for_session(tokens, &user, expires_at)
                },
                _ => Callback::Failed(AppError),
            },
            Callback::CreateSession(_) => match event {
                CallbackEvent::Session(Ok(session)) => Callback::Established {
                    cookie: Cookie::new(SESSION_COOKIE, session.id),
                    redirect: Redirect::temporary(HOME_PATH),
                },
                _ => Callback::Failed(AppError),
            },
            Callback::Established { cookie, redirect } => Callback::Established { cookie, redirect },
            Callback::Failed(error) => Callback::Failed(error),
        }
    }

    /// Takes the outcome of the call that was asked for and moves on. The
    /// clock is read where the next state depends on the time: when the
    /// store has handed out the user.
    pub fn resume(self, event: CallbackEvent) -> (state: Callback)
        ensures
            exists|now: i64| state@ == #[trigger] callback_step(self@, event, now),
    {
        let now: i64 = match &self {
            Callback::UpsertUser { .. } => unix_now(),
            _ => 0,
        };
        self.resume_at(event, now)
    }
}

/// A login whose calls all succeed, and whose session's expiry can be
/// represented, exchanges the code, asks with the access token who its user
/// is, asks the store for the user with that login and then for a session
/// that holds the token pair, belongs to the user that the store handed out
/// and expires when the access token does; it ends with the cookie that
/// carries the session's identifier and the redirect home.
pub proof fn law_login_completes(
    code: Seq<char>,
    client_secret: Seq<char>,
    tokens: OauthResponse,
    identity: UserResponse,
    user: User,
    session: Session,
    now: i64,
)
    requires
        expiry(now, tokens.expires_in) is Some,
    ensures
        ({
            let asked = callback_begin(code, client_secret);
            let fetching = callback_step(asked, CallbackEvent::Tokens(Ok(tokens)), now);
            let upserting = callback_step(fetching, CallbackEvent::Identity(Ok(identity)), now);
            let creating = callback_step(upserting, CallbackEvent::User(Ok(user)), now);
            let established = callback_step(creating, CallbackEvent::Session(Ok(session)), now);
            &&& asked == CallbackView::ExchangeCode(token_request(CLIENT_ID@, code, client_secret))
            &&& fetching == CallbackView::FetchUser {
                request: user_request(tokens.access_token@),
                tokens: tokens@,
            }
            &&& upserting == CallbackView::UpsertUser { login: identity.login@, tokens: tokens@ }
            &&& creating == CallbackView::CreateSession(
                CreateSessionRequestView {
                    user_id: user.id,
                    access_token: tokens.access_token@,
                    refresh_token: tokens.refresh_token@,
                    expires_at: expiry(now, tokens.expires_in)->0,
                },
            )
            &&& established == CallbackView::Established {
                cookie: CookieView { name: SESSION_COOKIE@, value: session.id@ },
                redirect: HOME_PATH@,
            }
        }),
{
}

/// Whether `event` reports a call that failed.
pub open spec fn is_failure(event: CallbackEvent) -> bool {
    match event {
        CallbackEvent::Tokens(outcome) => outcome is Err,
        CallbackEvent::Identity(outcome) => outcome is Err,
        CallbackEvent::User(outcome) => outcome is Err,
        CallbackEvent::Session(outcome) => outcome is Err,
    }
}

/// A call that fails ends the login, at whatever step: no later call is asked
/// for, and no later outcome changes that.
pub proof fn law_failure_ends_login(state: CallbackView, failure: CallbackEvent, later: CallbackEvent, now: i64)
    requires
        !(state is Established),
        is_failure(failure),
    ensures
        callback_step(state, failure, now) == CallbackView::Failed,
        callback_step(CallbackView::Failed, later, now) == CallbackView::Failed,
{
}

} // verus!
