//! What the HTTP routes answer.
//!
//! Creating a user answers 200 or 400; logging in answers 200 or 401. Every
//! other route is authenticated: it answers 401 with an empty body, and does
//! nothing, when the request does not carry a valid token.

use vstd::prelude::*;
use crate::events::{
    cancelled,
    cancelled_spec,
    collection,
    in_collection,
    insert,
    inserted_as,
    listed_by_time,
    owned,
    owned_by,
    Inserted,
};
use crate::ids::{parse_uuid, uuid_canonical};
use crate::json::{
    record_reply,
    record_reply_text,
    events_reply,
    events_reply_text,
    user_events_reply,
    user_events_reply_text,
};
use crate::model::{Event, EventForm, User, JWT};

verus! {

/// The routes whose answers depend on an outcome.
pub enum Route {
    UserCreate,
    Login,
    Insert,
    Events,
    Collection,
    UserEvents,
    Cancel,
}

/// The status of a route's answer, by whether its work succeeded.
pub open spec fn status_spec(route: Route, check: bool) -> u16 {
    if check {
        200
    } else {
        match route {
            Route::UserCreate => 400,
            _ => 401,
        }
    }
}

/// The status of a route's answer.
pub fn status_for(route: Route, check: bool) -> (r: u16)
    ensures
        r == status_spec(route, check),
{
    if check {
        200
    } else {
        match route {
            Route::UserCreate => 400,
            _ => 401,
        }
    }
}

/// The status of an answer about an event that is not stored.
pub fn not_found() -> (r: u16)
    ensures
        r == 404,
{
    404
}

/// The content type of every answer.
pub fn content_type() -> (r: &'static str)
    ensures
        r@ == "application/json"@,
{
    "application/json"
}

/// An answer: status and body.
pub struct Reply {
    pub status: u16,
    pub body: String,
}

/// Answers an insertion: an authorized request inserts the event on behalf
/// of the token's subject; any other request, and a token whose subject is
/// not a user id, is answered 401 with an empty body and inserts nothing.
pub fn handle_insert(jwt: &JWT, evt: EventForm) -> (r: (Reply, Option<Inserted>))
    ensures
        !jwt.check || uuid_canonical(jwt.claims.sub@) is None ==> {
            &&& r.0.status == 401
            &&& r.0.body@ == Seq::<char>::empty()
            &&& r.1 is None
        },
        jwt.check && uuid_canonical(jwt.claims.sub@) is Some ==> {
            &&& r.0.status == 200
            &&& r.1 matches Some(ins) && inserted_as(ins, jwt.claims.sub@, evt@) && r.0.body@
                == ins.value@
        },
{
    if !jwt.check {
        return (Reply { status: status_for(Route::Insert, false), body: String::new() }, None);
    }
    match parse_uuid(jwt.claims.sub.as_str()) {
        None => (Reply { status: status_for(Route::Insert, false), body: String::new() }, None),
        Some(_) => {
            let ins = insert(jwt.claims.sub.as_str(), evt);
            let body = ins.value.clone();
            (Reply { status: status_for(Route::Insert, true), body }, Some(ins))
        },
    }
}

/// Answers a request for the event stream: an authorized request is let
/// through to the stream (`None`); any other request is answered 401 with an
/// empty body and gets no stream.
pub fn handle_events(jwt: &JWT) -> (r: Option<Reply>)
    ensures
        jwt.check <==> r is None,
        r matches Some(rep) ==> rep.status == 401 && rep.body@ == Seq::<char>::empty(),
{
    if jwt.check {
        None
    } else {
        Some(Reply { status: status_for(Route::Events, false), body: String::new() })
    }
}

/// Answers a collection listing: an authorized request gets the events of
/// the collection, by ascending time.
pub fn handle_collection(jwt: &JWT, records: &Vec<Event>, collection_id: &str) -> (r: Reply)
    ensures
        !jwt.check ==> r.status == 401 && r.body@ == Seq::<char>::empty(),
        jwt.check ==> r.status == 200 && exists|idx: Seq<usize>|
            listed_by_time(records.deep_view(), in_collection(collection_id@), idx) && r.body@
                == events_reply_text(records.deep_view(), idx),
{
    if !jwt.check {
        return Reply { status: status_for(Route::Collection, false), body: String::new() };
    }
    let idx = collection(records, collection_id);
    let body = events_reply(records, &idx);
    Reply { status: status_for(Route::Collection, true), body }
}

/// Answers a user's listing: an authorized request of a stored user gets the
/// events the user inserted and the events of the user's collection, each by
/// ascending time. `user` is the user stored under the token's subject;
/// a token whose subject is no stored user is answered 401.
pub fn handle_user_events(jwt: &JWT, records: &Vec<Event>, user: Option<&User>) -> (r: Reply)
    ensures
        !jwt.check || user is None ==> r.status == 401 && r.body@ == Seq::<char>::empty(),
        jwt.check && user is Some ==> r.status == 200 && exists|mine: Seq<usize>, info: Seq<usize>|
            {
                &&& listed_by_time(records.deep_view(), owned_by(user.unwrap().id@), mine)
                &&& listed_by_time(
                    records.deep_view(),
                    in_collection(user.unwrap().collection_id@),
                    info,
                )
                &&& r.body@ == user_events_reply_text(records.deep_view(), mine, info)
            },
{
    if !jwt.check {
        return Reply { status: status_for(Route::UserEvents, false), body: String::new() };
    }
    match user {
        None => Reply { status: status_for(Route::UserEvents, false), body: String::new() },
        Some(u) => {
            let mine = owned(records, u.id.as_str());
            let info = collection(records, u.collection_id.as_str());
            let body = user_events_reply(records, &mine, &info);
            Reply { status: status_for(Route::UserEvents, true), body }
        },
    }
}

/// Answers a cancellation: an authorized request for a stored event marks it
/// cancelled; the answer carries the cancelled event, and the record goes
/// from the stored event to the cancelled one. `found` is the event stored
/// under the requested id; an event that is not stored is answered 404.
pub fn handle_cancel(jwt: &JWT, found: Option<&Event>) -> (r: (Reply, Option<Event>))
    ensures
        !jwt.check ==> r.0.status == 401 && r.0.body@ == Seq::<char>::empty() && r.1 is None,
        jwt.check && found is None ==> r.0.status == 404 && r.0.body@ == Seq::<char>::empty()
            && r.1 is None,
        jwt.check && found is Some ==> r.0.status == 200 && (r.1 matches Some(c) && c@
            == cancelled_spec(found.unwrap()@) && r.0.body@ == record_reply_text(c@)),
{
    if !jwt.check {
        return (Reply { status: status_for(Route::Cancel, false), body: String::new() }, None);
    }
    match found {
        None => (Reply { status: not_found(), body: String::new() }, None),
        Some(e) => {
            let c = cancelled(e);
            let body = record_reply(&c);
            (Reply { status: status_for(Route::Cancel, true), body }, Some(c))
        },
    }
}

} // verus!
