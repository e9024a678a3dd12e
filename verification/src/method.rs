//! HTTP method filters.
//!
//! The filters deal with the method of a request. `get()`, `post()` and the
//! others accept a request whose method is the one they require, and reject
//! any other with `405 Method Not Allowed`. `method()` never rejects and
//! extracts the method. A request's method is given by its token (`GET`,
//! `POST`, ...). Every filter is a value of size zero.

use vstd::prelude::*;

verus! {

/// The methods a filter can require.
#[derive(Clone, Copy, Debug, PartialEq, Eq)]
pub enum HttpMethod {
    Get,
    Post,
    Put,
    Delete,
    Head,
    Options,
    Patch,
}

/// The token of a method.
pub open spec fn method_token(m: HttpMethod) -> Seq<char> {
    match m {
        HttpMethod::Get => "GET"@,
        HttpMethod::Post => "POST"@,
        HttpMethod::Put => "PUT"@,
        HttpMethod::Delete => "DELETE"@,
        HttpMethod::Head => "HEAD"@,
        HttpMethod::Options => "OPTIONS"@,
        HttpMethod::Patch => "PATCH"@,
    }
}

impl HttpMethod {
    /// The token of the method.
    pub fn token(&self) -> (r: &'static str)
        ensures
            r@ == method_token(*self),
    {
        match self {
            HttpMethod::Get => "GET",
            HttpMethod::Post => "POST",
            HttpMethod::Put => "PUT",
            HttpMethod::Delete => "DELETE",
            HttpMethod::Head => "HEAD",
            HttpMethod::Options => "OPTIONS",
            HttpMethod::Patch => "PATCH",
        }
    }
}

/// Why a filter rejected a request.
#[derive(Clone, Copy, Debug, PartialEq, Eq)]
pub enum Rejection {
    MethodNotAllowed,
}

impl Rejection {
    /// The HTTP status of the rejection.
    pub fn status(&self) -> (r: u16)
        ensures
            r == 405,
    {
        405
    }
}

/// What a filter requiring `required` answers for a request whose method is
/// `request_method`.
pub open spec fn method_is_spec(required: HttpMethod, request_method: Seq<char>) -> Result<
    (),
    Rejection,
> {
    if request_method == method_token(required) {
        Ok(())
    } else {
        Err(Rejection::MethodNotAllowed)
    }
}

/// Accepts a request whose method is `required`, rejects any other with
/// `405 Method Not Allowed`.
pub fn method_is(required: HttpMethod, request_method: &str) -> (r: Result<(), Rejection>)
    ensures
        r == method_is_spec(required, request_method@),
{
    let wanted = String::from_str(required.token());
    let got = request_method.to_owned();
    if got == wanted {
        Ok(())
    } else {
        Err(Rejection::MethodNotAllowed)
    }
}

/// The filter that requires `GET`.
#[derive(Clone, Copy, Debug)]
pub struct Get;

/// The filter that requires `POST`.
#[derive(Clone, Copy, Debug)]
pub struct Post;

/// The filter that requires `PUT`.
#[derive(Clone, Copy, Debug)]
pub struct Put;

/// The filter that requires `DELETE`.
#[derive(Clone, Copy, Debug)]
pub struct Delete;

/// The filter that requires `HEAD`.
#[derive(Clone, Copy, Debug)]
pub struct Head;

/// The filter that requires `OPTIONS`.
#[derive(Clone, Copy, Debug)]
pub struct Options;

/// The filter that requires `PATCH`.
#[derive(Clone, Copy, Debug)]
pub struct Patch;

/// The filter that extracts the method and never rejects.
#[derive(Clone, Copy, Debug)]
pub struct MethodOf;

impl Get {
    pub fn filter(&self, request_method: &str) -> (r: Result<(), Rejection>)
        ensures
            r == method_is_spec(HttpMethod::Get, request_method@),
    {
        method_is(HttpMethod::Get, request_method)
    }
}

impl Post {
    pub fn filter(&self, request_method: &str) -> (r: Result<(), Rejection>)
        ensures
            r == method_is_spec(HttpMethod::Post, request_method@),
    {
        method_is(HttpMethod::Post, request_method)
    }
}

impl Put {
    pub fn filter(&self, request_method: &str) -> (r: Result<(), Rejection>)
        ensures
            r == method_is_spec(HttpMethod::Put, request_method@),
    {
        method_is(HttpMethod::Put, request_method)
    }
}

impl Delete {
    pub fn filter(&self, request_method: &str) -> (r: Result<(), Rejection>)
        ensures
            r == method_is_spec(HttpMethod::Delete, request_method@),
    {
        method_is(HttpMethod::Delete, request_method)
    }
}

impl Head {
    pub fn filter(&self, request_method: &str) -> (r: Result<(), Rejection>)
        ensures
            r == method_is_spec(HttpMethod::Head, request_method@),
    {
        method_is(HttpMethod::Head, request_method)
    }
}

impl Options {
    pub fn filter(&self, request_method: &str) -> (r: Result<(), Rejection>)
        ensures
            r == method_is_spec(HttpMethod::Options, request_method@),
    {
        method_is(HttpMethod::Options, request_method)
    }
}

impl Patch {
    pub fn filter(&self, request_method: &str) -> (r: Result<(), Rejection>)
        ensures
            r == method_is_spec(HttpMethod::Patch, request_method@),
    {
        method_is(HttpMethod::Patch, request_method)
    }
}

impl MethodOf {
    /// The request's method; never rejects.
    pub fn filter(&self, request_method: &str) -> (r: String)
        ensures
            r@ == request_method@,
    {
        request_method.to_owned()
    }
}

/// A filter that requires the request method to be `GET`.
pub fn get() -> Get {
    Get
}

/// A filter that requires the request method to be `POST`.
pub fn post() -> Post {
    Post
}

/// A filter that requires the request method to be `PUT`.
pub fn put() -> Put {
    Put
}

/// A filter that requires the request method to be `DELETE`.
pub fn delete() -> Delete {
    Delete
}

/// A filter that requires the request method to be `HEAD`.
pub fn head() -> Head {
    Head
}

/// A filter that requires the request method to be `OPTIONS`.
pub fn options() -> Options {
    Options
}

/// A filter that requires the request method to be `PATCH`.
pub fn patch() -> Patch {
    Patch
}

/// A filter that extracts the request's method and never rejects.
pub fn method() -> MethodOf {
    MethodOf
}

} // verus!
