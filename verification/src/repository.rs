//! The session store: what it is asked, what it answers, and a store in
//! memory that keeps its promises.

use vstd::prelude::*;

use crate::model::{Session, SessionView, User, UserView};
use crate::session_id::{parsed_uuid, random_uuid, uuid_text};

verus! {

/// Why the store could not do what it was asked.
#[derive(Debug, Clone, Copy, PartialEq, Eq, Structural)]
pub enum RepositoryError {
    FailedToCreateSessionError,
    FailedToCreateUserError,
}

impl RepositoryError {
    /// The text that describes the failure: the same for both.
    pub fn message(&self) -> (text: String)
        ensures
            text@ == "Failed to create session: Database insert failed"@,
    {
        "Failed to create session: Database insert failed".to_owned()
    }
}

/// What a new session is made of. `expires_at` is a Unix time in seconds.
#[derive(Debug)]
pub struct CreateSessionRequest {
    pub user_id: i32,
    pub access_token: String,
    pub refresh_token: String,
    pub expires_at: i64,
}

/// What a [`CreateSessionRequest`] holds, as mathematical values.
pub struct CreateSessionRequestView {
    pub user_id: i32,
    pub access_token: Seq<char>,
    pub refresh_token: Seq<char>,
    pub expires_at: i64,
}

impl View for CreateSessionRequest {
    type V = CreateSessionRequestView;

    open spec fn view(&self) -> CreateSessionRequestView {
        CreateSessionRequestView {
            user_id: self.user_id,
            access_token: self.access_token@,
            refresh_token: self.refresh_token@,
            expires_at: self.expires_at,
        }
    }
}

impl Clone for CreateSessionRequest {
    fn clone(&self) -> (copy: CreateSessionRequest)
        ensures
            copy == *self,
    {
        CreateSessionRequest {
            user_id: self.user_id,
            access_token: self.access_token.clone(),
            refresh_token: self.refresh_token.clone(),
            expires_at: self.expires_at,
        }
    }
}

impl PartialEq for CreateSessionRequest {
    fn eq(&self, other: &CreateSessionRequest) -> (equal: bool) {
        self.user_id == other.user_id && self.access_token == other.access_token
            && self.refresh_token == other.refresh_token && self.expires_at == other.expires_at
    }
}

impl vstd::std_specs::cmp::PartialEqSpecImpl for CreateSessionRequest {
    open spec fn obeys_eq_spec() -> bool {
        true
    }

    open spec fn eq_spec(&self, other: &CreateSessionRequest) -> bool {
        self@ == other@
    }
}

/// What a session store holds: its users in the order of their creation,
/// its sessions, each under the identifier that it is looked up by, and the
/// number of users that it has room for.
pub struct StoreView {
    pub users: Seq<UserView>,
    pub sessions: Seq<(u128, SessionView)>,
    pub user_limit: i32,
}

impl StoreView {
    /// What the store promises of its contents: the users are numbered from
    /// one in the order of their creation, no two of them share a login, every
    /// session belongs to one of them, no two sessions share an identifier, and
    /// the identifier that a session carries as text is the one it is kept
    /// under.
    pub open spec fn well_formed(self) -> bool {
        &&& self.users.len() <= self.user_limit
        &&& forall|i: int| 0 <= i < self.users.len() ==> (#[trigger] self.users[i]).id == i + 1
        &&& forall|i: int, j: int|
            0 <= i < j < self.users.len() ==> (#[trigger] self.users[i]).github_login != (
            #[trigger] self.users[j]).github_login
        &&& forall|k: int|
            0 <= k < self.sessions.len() ==> 1 <= (#[trigger] self.sessions[k]).1.user_id
                <= self.users.len()
        &&& forall|k: int, l: int|
            0 <= k < l < self.sessions.len() ==> (#[trigger] self.sessions[k]).0 != (
            #[trigger] self.sessions[l]).0
        &&& forall|k: int|
            0 <= k < self.sessions.len() ==> parsed_uuid((#[trigger] self.sessions[k]).1.id)
                == Some(self.sessions[k].0)
    }

    /// Whether a user has this login.
    pub open spec fn has_login(self, login: Seq<char>) -> bool {
        exists|i: int| 0 <= i < self.users.len() && (#[trigger] self.users[i]).github_login == login
    }

    /// The user with this login, where there is one.
    pub open spec fn user_with_login(self, login: Seq<char>) -> UserView {
        let i = choose|i: int|
            0 <= i < self.users.len() && (#[trigger] self.users[i]).github_login == login;
        self.users[i]
    }

    /// Whether a user has this number.
    pub open spec fn has_user(self, id: i32) -> bool {
        exists|i: int| 0 <= i < self.users.len() && (#[trigger] self.users[i]).id == id
    }

    /// Whether a session is kept under this identifier.
    pub open spec fn has_session(self, id: u128) -> bool {
        exists|k: int| 0 <= k < self.sessions.len() && (#[trigger] self.sessions[k]).0 == id
    }

    /// The session that is kept under this identifier, if any.
    pub open spec fn session(self, id: u128) -> Option<SessionView> {
        if self.has_session(id) {
            let k = choose|k: int| 0 <= k < self.sessions.len() && (#[trigger] self.sessions[k]).0 == id;
            Some(self.sessions[k].1)
        } else {
            None
        }
    }

    /// The store after it was asked for the user with this login, and its
    /// answer: the user with the login where there is one, and else a new user
    /// with the next number, unless the store has no room for another.
    pub open spec fn upsert_user(self, login: Seq<char>) -> (StoreView, Result<UserView, RepositoryError>) {
        if self.has_login(login) {
            (self, Ok(self.user_with_login(login)))
        } else if self.users.len() < self.user_limit {
            let user = UserView { id: (self.users.len() + 1) as i32, github_login: login };
            (StoreView { users: self.users.push(user), ..self }, Ok(user))
        } else {
            (self, Err(RepositoryError::FailedToCreateUserError))
        }
    }

    /// Whether the store takes a new session under this identifier for this
    /// user: the user is there, and the identifier is not in use.
    pub open spec fn admits_session(self, id: u128, user_id: i32) -> bool {
        self.has_user(user_id) && !self.has_session(id)
    }

    /// The store with one more session.
    pub open spec fn with_session(self, id: u128, session: SessionView) -> StoreView {
        StoreView { sessions: self.sessions.push((id, session)), ..self }
    }

    /// In a well-formed store, the user at `i` is the user with its login.
    pub proof fn lemma_user_is_found(self, i: int)
        requires
            self.well_formed(),
            0 <= i < self.users.len(),
        ensures
            self.has_login(self.users[i].github_login),
            self.user_with_login(self.users[i].github_login) == self.users[i],
    {
        let login = self.users[i].github_login;
        let chosen = choose|c: int|
            0 <= c < self.users.len() && (#[trigger] self.users[c]).github_login == login;
        if chosen < i {
            assert(self.users[chosen].github_login != self.users[i].github_login);
        }
        if chosen > i {
            assert(self.users[i].github_login != self.users[chosen].github_login);
        }
    }

    /// In a well-formed store, the session at `k` is the session that is
    /// kept under its identifier.
    pub proof fn lemma_session_is_found(self, k: int)
        requires
            self.well_formed(),
            0 <= k < self.sessions.len(),
        ensures
            self.has_session(self.sessions[k].0),
            self.session(self.sessions[k].0) == Some(self.sessions[k].1),
    {
        let id = self.sessions[k].0;
        let chosen = choose|c: int| 0 <= c < self.sessions.len() && (#[trigger] self.sessions[c]).0 == id;
        if chosen < k {
            assert(self.sessions[chosen].0 != self.sessions[k].0);
        }
        if chosen > k {
            assert(self.sessions[k].0 != self.sessions[chosen].0);
        }
    }
}

/// A session as the store in memory keeps it.
struct StoredSession {
    id: u128,
    session: Session,
}

/// A session store in memory. It stands in for the relational store wherever
/// none is at hand, and keeps the same promises.
pub struct MemoryRepository {
    users: Vec<User>,
    sessions: Vec<StoredSession>,
    user_limit: i32,
}

impl View for MemoryRepository {
    type V = StoreView;

    closed spec fn view(&self) -> StoreView {
        StoreView {
            users: self.users@.map_values(|user: User| user@),
            sessions: self.sessions@.map_values(|stored: StoredSession| (stored.id, stored.session@)),
            user_limit: self.user_limit,
        }
    }
}

impl MemoryRepository {
    /// Whether the store's contents are as it promises.
    pub open spec fn well_formed(&self) -> bool {
        self@.well_formed()
    }

    /// A store without users and sessions, with room for as many users as
    /// there are numbers for them.
    pub fn new() -> (store: MemoryRepository)
        ensures
            store.well_formed(),
            store@.users.len() == 0,
            store@.sessions.len() == 0,
            store@.user_limit == i32::MAX,
    {
        MemoryRepository { users: Vec::new(), sessions: Vec::new(), user_limit: i32::MAX }
    }

    /// A store without users and sessions, with room for `limit` users; for
    /// none where `limit` is negative.
    pub fn with_user_limit(limit: i32) -> (store: MemoryRepository)
        ensures
            store.well_formed(),
            store@.users.len() == 0,
            store@.sessions.len() == 0,
            store@.user_limit == if limit < 0 {
                0
            } else {
                limit
            },
    {
        let user_limit: i32 = if limit < 0 {
            0
        } else {
            limit
        };
        MemoryRepository { users: Vec::new(), sessions: Vec::new(), user_limit }
    }

    /// How many users the store holds.
    pub fn user_count(&self) -> (count: usize)
        ensures
            count == self@.users.len(),
    {
        self.users.len()
    }

    /// How many sessions the store holds.
    pub fn session_count(&self) -> (count: usize)
        ensures
            count == self@.sessions.len(),
    {
        self.sessions.len()
    }

    /// The user with the login `login`: the one that the store holds, or a
    /// new one. Asking again gives the same user and adds none.
    pub fn get_or_create_user(&mut self, login: &str) -> (result: Result<User, RepositoryError>)
        requires
            old(self).well_formed(),
        ensures
            final(self).well_formed(),
            (final(self)@, result) matches (store, Ok(user)) ==> old(self)@.upsert_user(login@) == (
                store,
                Ok::<UserView, RepositoryError>(user@),
            ),
            (final(self)@, result) matches (store, Err(error)) ==> old(self)@.upsert_user(login@) == (
                store,
                Err::<UserView, RepositoryError>(error),
            ),
    {
        let wanted = login.to_owned();
        let mut i: usize = 0;
        while i < self.users.len()
            invariant
                i <= self.users.len(),
                *self == *old(self),
                self.well_formed(),
                wanted@ == login@,
                forall|j: int| 0 <= j < i ==> (#[trigger] self@.users[j]).github_login != login@,
            decreases self.users.len() - i,
        {
            if self.users[i].github_login == wanted {
                let user = self.users[i].clone();
                proof {
                    self@.lemma_user_is_found(i as int);
                }
                return Ok(user);
            }
            i += 1;
        }
        if self.users.len() >= self.user_limit as usize {
            return Err(RepositoryError::FailedToCreateUserError);
        }
        let id: i32 = (self.users.len() + 1) as i32;
        let user = User { id, github_login: wanted };
        let copy = user.clone();
        let ghost before = self@;
        self.users.push(user);
        proof {
            assert(self@.users =~= before.users.push(copy@));
            assert(self@.sessions =~= before.sessions);
            assert forall|a: int, b: int| 0 <= a < b < self@.users.len() implies (
            #[trigger] self@.users[a]).github_login != (#[trigger] self@.users[b]).github_login by {
                if b < before.users.len() {
                    assert(before.users[a].github_login != before.users[b].github_login);
                } else {
                    assert(before.users[a].github_login != login@);
                }
            }
        }
        Ok(copy)
    }

    /// Keeps a new session for `request` under the identifier `id`, unless
    /// the user is unknown or the identifier is in use.
    pub fn insert_session(&mut self, id: u128, request: CreateSessionRequest) -> (result: Result<
        Session,
        RepositoryError,
    >)
        requires
            old(self).well_formed(),
        ensures
            final(self).well_formed(),
            match result {
                Ok(session) => {
                    &&& old(self)@.admits_session(id, request.user_id)
                    &&& session.user_id == request.user_id
                    &&& session.access_token@ == request.access_token@
                    &&& session.refresh_token@ == request.refresh_token@
                    &&& session.expires_at == Some(request.expires_at)
                    &&& parsed_uuid(session.id@) == Some(id)
                    &&& final(self)@ == old(self)@.with_session(id, session@)
                },
                Err(error) => {
                    &&& !old(self)@.admits_session(id, request.user_id)
                    &&& error == RepositoryError::FailedToCreateSessionError
                    &&& final(self)@ == old(self)@
                },
            },
    {
        if request.user_id < 1 || request.user_id as usize > self.users.len() {
            proof {
                let store = self@;
                assert forall|i: int| 0 <= i < store.users.len() implies (#[trigger] store.users[i]).id
                    != request.user_id by {}
            }
            return Err(RepositoryError::FailedToCreateSessionError);
        }
        proof {
            assert(self@.users[request.user_id - 1].id == request.user_id);
        }
        let mut k: usize = 0;
        while k < self.sessions.len()
            invariant
                k <= self.sessions.len(),
                *self == *old(self),
                self.well_formed(),
                forall|l: int| 0 <= l < k ==> (#[trigger] self@.sessions[l]).0 != id,
            decreases self.sessions.len() - k,
        {
            if self.sessions[k].id == id {
                proof {
                    assert(self@.sessions[k as int].0 == id);
                }
                return Err(RepositoryError::FailedToCreateSessionError);
            }
            k += 1;
        }
        let session = Session {
            id: uuid_text(id),
            user_id: request.user_id,
            access_token: request.access_token,
            refresh_token: request.refresh_token,
            expires_at: Some(request.expires_at),
        };
        let copy = session.clone();
        let ghost before = self@;
        self.sessions.push(StoredSession { id, session });
        proof {
            assert(self@.sessions =~= before.sessions.push((id, copy@)));
            assert(self@.users =~= before.users);
            assert forall|a: int, b: int| 0 <= a < b < self@.sessions.len() implies (
            #[trigger] self@.sessions[a]).0 != (#[trigger] self@.sessions[b]).0 by {
                if b < before.sessions.len() {
                    assert(before.sessions[a].0 != before.sessions[b].0);
                } else {
                    assert(before.sessions[a].0 != id);
                }
            }
        }
        Ok(copy)
    }

    /// Creates a session for `request` under an identifier drawn at random.
    /// It fails where the user is unknown, and where the identifier drawn is
    /// in use: so it cannot fail for a known user while the store holds no
    /// session.
    pub fn create_session(&mut self, request: CreateSessionRequest) -> (result: Result<
        Session,
        RepositoryError,
    >)
        requires
            old(self).well_formed(),
        ensures
            final(self).well_formed(),
            match result {
                Ok(session) => {
                    &&& parsed_uuid(session.id@) matches Some(id)
                    &&& old(self)@.admits_session(id, request.user_id)
                    &&& session.user_id == request.user_id
                    &&& session.access_token@ == request.access_token@
                    &&& session.refresh_token@ == request.refresh_token@
                    &&& session.expires_at == Some(request.expires_at)
                    &&& final(self)@ == old(self)@.with_session(id, session@)
                },
                Err(error) => {
                    &&& error == RepositoryError::FailedToCreateSessionError
                    &&& final(self)@ == old(self)@
                },
            },
            !old(self)@.has_user(request.user_id) ==> result is Err,
            old(self)@.has_user(request.user_id) && old(self)@.sessions.len() == 0 ==> result is Ok,
    {
        let id: u128 = random_uuid();
        self.insert_session(id, request)
    }

    /// The session that is kept under `session_id`, if any, whenever it
    /// expires.
    pub fn get_session(&self, session_id: u128) -> (result: Result<Option<Session>, RepositoryError>)
        requires
            self.well_formed(),
        ensures
            match result {
                Ok(Some(session)) => self@.session(session_id) == Some(session@),
                Ok(None) => self@.session(session_id) is None,
                Err(_) => false,
            },
    {
        let mut k: usize = 0;
        while k < self.sessions.len()
            invariant
                k <= self.sessions.len(),
                self.well_formed(),
                forall|l: int| 0 <= l < k ==> (#[trigger] self@.sessions[l]).0 != session_id,
            decreases self.sessions.len() - k,
        {
            if self.sessions[k].id == session_id {
                let session = self.sessions[k].session.clone();
                proof {
                    self@.lemma_session_is_found(k as int);
                }
                return Ok(Some(session));
            }
            k += 1;
        }
        Ok(None)
    }
}

/// Asking a well-formed store twice for the user with one login gives the
/// same user both times, and the second time changes nothing: the store
/// holds one user with that login, not two.
pub proof fn law_upsert_is_idempotent(store: StoreView, login: Seq<char>)
    requires
        store.well_formed(),
    ensures
        ({
            let (once, first) = store.upsert_user(login);
            let (twice, second) = once.upsert_user(login);
            &&& once.well_formed()
            &&& first is Ok ==> second == first && twice == once
            &&& first is Ok ==> forall|i: int, j: int|
                0 <= i < once.users.len() && 0 <= j < once.users.len() && (
                #[trigger] once.users[i]).github_login == login && (
                #[trigger] once.users[j]).github_login == login ==> i == j
            &&& first is Err ==> once == store
        }),
{
    let (once, first) = store.upsert_user(login);
    if !store.has_login(login) && store.users.len() < store.user_limit {
        let last = store.users.len() as int;
        assert(once.users[last].github_login == login);
        assert forall|a: int, b: int| 0 <= a < b < once.users.len() implies (
        #[trigger] once.users[a]).github_login != (#[trigger] once.users[b]).github_login by {
            if b < last {
                assert(store.users[a].github_login != store.users[b].github_login);
            } else {
                assert(store.users[a].github_login != login);
            }
        }
        assert(once.sessions == store.sessions);
        once.lemma_user_is_found(last);
    }
    assert forall|i: int, j: int|
        0 <= i < once.users.len() && 0 <= j < once.users.len() && (
        #[trigger] once.users[i]).github_login == login && (
        #[trigger] once.users[j]).github_login == login implies i == j by {
        if i < j {
            assert(once.users[i].github_login != once.users[j].github_login);
        }
        if j < i {
            assert(once.users[j].github_login != once.users[i].github_login);
        }
    }
}

/// A session that a well-formed store has taken is the one that it finds
/// under the session's identifier, whenever the session expires; the sessions
/// that it held before are found as before.
pub proof fn law_created_session_is_found(store: StoreView, id: u128, session: SessionView, other: u128)
    requires
        store.well_formed(),
        store.admits_session(id, session.user_id),
        parsed_uuid(session.id) == Some(id),
        other != id,
    ensures
        store.with_session(id, session).well_formed(),
        store.with_session(id, session).session(id) == Some(session),
        store.with_session(id, session).session(other) == store.session(other),
{
    let after = store.with_session(id, session);
    let last = store.sessions.len() as int;
    assert(after.sessions[last] == (id, session));
    let witness = choose|i: int| 0 <= i < store.users.len() && (#[trigger] store.users[i]).id == session.user_id;
    assert(store.users[witness].id == witness + 1);
    assert forall|k: int, l: int| 0 <= k < l < after.sessions.len() implies (
    #[trigger] after.sessions[k]).0 != (#[trigger] after.sessions[l]).0 by {
        if l < last {
            assert(store.sessions[k].0 != store.sessions[l].0);
        } else {
            assert(store.sessions[k].0 != id);
        }
    }
    after.lemma_session_is_found(last);
    if store.has_session(other) {
        let k = choose|k: int| 0 <= k < store.sessions.len() && (#[trigger] store.sessions[k]).0 == other;
        assert(after.sessions[k] == store.sessions[k]);
        store.lemma_session_is_found(k);
        after.lemma_session_is_found(k);
    } else {
        assert forall|k: int| 0 <= k < after.sessions.len() implies (#[trigger] after.sessions[k]).0
            != other by {
            if k < last {
                assert(store.sessions[k].0 != other);
            }
        }
    }
}

} // verus!
