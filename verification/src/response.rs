//! What a handler answers with, as plain values: the web framework turns
//! them into its own redirect and cookie.

use vstd::prelude::*;

verus! {

/// The path of the login page.
pub const LOGIN_PATH: &'static str = "/login";

/// The path that a completed login leads to.
pub const HOME_PATH: &'static str = "/";

/// A temporary redirect to `location`.
#[derive(Debug)]
pub struct Redirect {
    pub location: String,
}

impl View for Redirect {
    type V = Seq<char>;

    open spec fn view(&self) -> Seq<char> {
        self.location@
    }
}

impl Redirect {
    /// The HTTP status of a temporary redirect.
    pub const STATUS: u16 = 307;

    /// A temporary redirect to `location`.
    pub fn temporary(location: &str) -> (redirect: Redirect)
        ensures
            redirect@ == location@,
    {
        Redirect { location: location.to_owned() }
    }
}

/// A cookie to set: its name and its value.
#[derive(Debug)]
pub struct Cookie {
    pub name: String,
    pub value: String,
}

/// What a [`Cookie`] holds, as mathematical values.
pub struct CookieView {
    pub name: Seq<char>,
    pub value: Seq<char>,
}

impl View for Cookie {
    type V = CookieView;

    open spec fn view(&self) -> CookieView {
        CookieView { name: self.name@, value: self.value@ }
    }
}

impl Cookie {
    /// The cookie `name` with the value `value`.
    pub fn new(name: &str, value: String) -> (cookie: Cookie)
        ensures
            cookie@ == (CookieView { name: name@, value: value@ }),
    {
        Cookie { name: name.to_owned(), value }
    }
}

} // verus!
