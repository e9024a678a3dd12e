//! The records the broker keeps and exchanges, and their mathematical views.
//!
//! Identifiers (user ids, event ids, collection ids) are held as the
//! hyphenated lower-case text of a UUID; event data is held as the compact
//! JSON text of the value that the client sent.

use vstd::prelude::*;

verus! {

/// The configuration the server runs with.
#[derive(Clone, Debug)]
pub struct Config {
    pub port: String,
    pub origin: String,
    pub expiry: i64,
    pub secret: String,
    pub save_path: String,
}

/// The part of the configuration read from the environment.
#[derive(Clone, Debug)]
pub struct Cfg {
    pub save_path: String,
}

/// The part of the configuration read from command-line flags.
#[derive(Clone, Debug)]
pub struct Flags {
    pub port: String,
    pub expiry: i64,
    pub origin: String,
    pub secret: String,
}

/// A registered user: the stored password is a bcrypt hash.
#[derive(Clone, Debug)]
pub struct User {
    pub id: String,
    pub username: String,
    pub password: String,
    pub collection_id: String,
}

pub struct UserView {
    pub id: Seq<char>,
    pub username: Seq<char>,
    pub password: Seq<char>,
    pub collection_id: Seq<char>,
}

impl View for User {
    type V = UserView;

    open spec fn view(&self) -> UserView {
        UserView {
            id: self.id@,
            username: self.username@,
            password: self.password@,
            collection_id: self.collection_id@,
        }
    }
}

impl DeepView for User {
    type V = UserView;

    open spec fn deep_view(&self) -> UserView {
        self@
    }
}

/// The body of a request that creates a user.
#[derive(Clone, Debug)]
pub struct UserForm {
    pub username: String,
    pub password: String,
    pub collection_id: String,
}

/// The body of a login request.
#[derive(Clone, Debug)]
pub struct Login {
    pub username: String,
    pub password: String,
}

pub struct LoginView {
    pub username: Seq<char>,
    pub password: Seq<char>,
}

impl View for Login {
    type V = LoginView;

    open spec fn view(&self) -> LoginView {
        LoginView { username: self.username@, password: self.password@ }
    }
}

/// The claims a login token carries.
#[derive(Clone, Debug)]
pub struct Claims {
    pub sub: String,
    pub company: String,
    pub exp: usize,
}

pub struct ClaimsView {
    pub sub: Seq<char>,
    pub company: Seq<char>,
    pub exp: usize,
}

impl View for Claims {
    type V = ClaimsView;

    open spec fn view(&self) -> ClaimsView {
        ClaimsView { sub: self.sub@, company: self.company@, exp: self.exp }
    }
}

impl Claims {
    /// The claims of a request that carries no valid token.
    pub open spec fn spec_empty() -> ClaimsView {
        ClaimsView { sub: Seq::empty(), company: Seq::empty(), exp: 0 }
    }

    pub fn empty() -> (c: Claims)
        ensures
            c@ == Claims::spec_empty(),
    {
        Claims { sub: String::new(), company: String::new(), exp: 0 }
    }

    pub fn duplicate(&self) -> (c: Claims)
        ensures
            c@ == self@,
    {
        Claims { sub: self.sub.clone(), company: self.company.clone(), exp: self.exp }
    }
}

/// The outcome of checking a request's authorization header.
pub struct JWT {
    pub check: bool,
    pub claims: Claims,
}

/// A stored event.
#[derive(Clone, Debug)]
pub struct Event {
    pub id: String,
    pub user_id: String,
    pub collection_id: String,
    pub event: String,
    pub timestamp: i64,
    pub published: bool,
    pub cancelled: bool,
    pub data: String,
}

pub struct EventView {
    pub id: Seq<char>,
    pub user_id: Seq<char>,
    pub collection_id: Seq<char>,
    pub event: Seq<char>,
    pub timestamp: i64,
    pub published: bool,
    pub cancelled: bool,
    pub data: Seq<char>,
}

impl View for Event {
    type V = EventView;

    open spec fn view(&self) -> EventView {
        EventView {
            id: self.id@,
            user_id: self.user_id@,
            collection_id: self.collection_id@,
            event: self.event@,
            timestamp: self.timestamp,
            published: self.published,
            cancelled: self.cancelled,
            data: self.data@,
        }
    }
}

impl DeepView for Event {
    type V = EventView;

    open spec fn deep_view(&self) -> EventView {
        self@
    }
}

impl Event {
    pub fn duplicate(&self) -> (e: Event)
        ensures
            e@ == self@,
    {
        Event {
            id: self.id.clone(),
            user_id: self.user_id.clone(),
            collection_id: self.collection_id.clone(),
            event: self.event.clone(),
            timestamp: self.timestamp,
            published: self.published,
            cancelled: self.cancelled,
            data: self.data.clone(),
        }
    }
}

/// The body of a request that inserts an event.
#[derive(Clone, Debug)]
pub struct EventForm {
    pub collection_id: String,
    pub event: String,
    pub timestamp: i64,
    pub data: String,
}

pub struct EventFormView {
    pub collection_id: Seq<char>,
    pub event: Seq<char>,
    pub timestamp: i64,
    pub data: Seq<char>,
}

impl View for EventForm {
    type V = EventFormView;

    open spec fn view(&self) -> EventFormView {
        EventFormView {
            collection_id: self.collection_id@,
            event: self.event@,
            timestamp: self.timestamp,
            data: self.data@,
        }
    }
}

/// A server-sent event: the name and data of a published event, a fresh
/// message id, and the retry interval in milliseconds.
#[derive(Clone, Debug)]
pub struct SSE {
    pub event: String,
    pub data: String,
    pub id: String,
    pub retry_ms: u64,
}

} // verus!
