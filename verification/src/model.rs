//! The records that the session store keeps.

use vstd::prelude::*;

verus! {

/// A user, created once for each distinct external login.
#[derive(Debug)]
pub struct User {
    pub id: i32,
    pub github_login: String,
}

/// What a [`User`] holds, as mathematical values.
pub struct UserView {
    pub id: i32,
    pub github_login: Seq<char>,
}

impl View for User {
    type V = UserView;

    open spec fn view(&self) -> UserView {
        UserView { id: self.id, github_login: self.github_login@ }
    }
}

impl Clone for User {
    fn clone(&self) -> (copy: User)
        ensures
            copy == *self,
    {
        User { id: self.id, github_login: self.github_login.clone() }
    }
}

/// A session: the binding of a cookie value to a user and to the token pair
/// that the provider issued for that user.
///
/// `expires_at` is a Unix time in seconds, where one was recorded.
#[derive(Debug)]
pub struct Session {
    pub id: String,
    pub user_id: i32,
    pub access_token: String,
    pub refresh_token: String,
    pub expires_at: Option<i64>,
}

/// What a [`Session`] holds, as mathematical values.
pub struct SessionView {
    pub id: Seq<char>,
    pub user_id: i32,
    pub access_token: Seq<char>,
    pub refresh_token: Seq<char>,
    pub expires_at: Option<i64>,
}

impl View for Session {
    type V = SessionView;

    open spec fn view(&self) -> SessionView {
        SessionView {
            id: self.id@,
            user_id: self.user_id,
            access_token: self.access_token@,
            refresh_token: self.refresh_token@,
            expires_at: self.expires_at,
        }
    }
}

impl Clone for Session {
    fn clone(&self) -> (copy: Session)
        ensures
            copy == *self,
    {
        Session {
            id: self.id.clone(),
            user_id: self.user_id,
            access_token: self.access_token.clone(),
            refresh_token: self.refresh_token.clone(),
            expires_at: self.expires_at,
        }
    }
}

} // verus!
