//! Login by OAuth, server-side sessions, and the paginated fetch of the
//! work items of a project board that carry no task classification.
//!
//! The library decides; its caller performs the network and storage calls
//! that the decisions ask for and hands the outcomes back. Each flow is a
//! state that names the next call, and a function from the state and the
//! call's outcome to the next state:
//!
//! - [`controller`]: the completion of a login, from the authorization code
//!   to the session cookie;
//! - [`extractors`]: the guard in front of the protected routes;
//! - [`github`]: the requests to the provider, and the walk over the pages
//!   of a board;
//! - [`repository`]: what the session store promises, kept by a store in
//!   memory.
//!
//! Beside them stand the records ([`model`]), the answers ([`response`]),
//! the server's address ([`app`]), the stored secrets ([`secrets`]), and what
//! is taken from the libraries for time ([`clock`]) and for identifiers
//! ([`session_id`]).

pub mod app;
pub mod clock;
pub mod controller;
pub mod extractors;
pub mod github;
pub mod model;
pub mod repository;
pub mod response;
pub mod secrets;
pub mod session_id;

use vstd::prelude::*;

verus! {

/// The OAuth client secret and the address of the relational store. Both are
/// loaded once and handed to whatever needs them.
#[derive(Debug)]
pub struct AppSecrets {
    pub client_secret: String,
    pub pg_url: String,
}

} // verus!
