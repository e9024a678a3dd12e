use broker::method::{delete, get, head, method, options, patch, post, put, HttpMethod, Rejection};

#[test]
fn method_size_of() {
    // Filters are values of size zero.
    assert_eq!(std::mem::size_of_val(&get()), 0,);
}

#[test]
fn every_method_filter_is_zero_sized() {
    assert_eq!(std::mem::size_of_val(&post()), 0);
    assert_eq!(std::mem::size_of_val(&put()), 0);
    assert_eq!(std::mem::size_of_val(&delete()), 0);
    assert_eq!(std::mem::size_of_val(&head()), 0);
    assert_eq!(std::mem::size_of_val(&options()), 0);
    assert_eq!(std::mem::size_of_val(&patch()), 0);
    assert_eq!(std::mem::size_of_val(&method()), 0);
}

#[test]
fn get_accepts_get_only() {
    assert_eq!(get().filter("GET"), Ok(()));
    assert_eq!(get().filter("POST"), Err(Rejection::MethodNotAllowed));
    assert_eq!(get().filter("get"), Err(Rejection::MethodNotAllowed));
    assert_eq!(get().filter(""), Err(Rejection::MethodNotAllowed));
}

#[test]
fn each_filter_accepts_its_method() {
    assert_eq!(post().filter("POST"), Ok(()));
    assert_eq!(put().filter("PUT"), Ok(()));
    assert_eq!(delete().filter("DELETE"), Ok(()));
    assert_eq!(head().filter("HEAD"), Ok(()));
    assert_eq!(options().filter("OPTIONS"), Ok(()));
    assert_eq!(patch().filter("PATCH"), Ok(()));
}

#[test]
fn each_filter_rejects_other_methods() {
    assert_eq!(post().filter("GET"), Err(Rejection::MethodNotAllowed));
    assert_eq!(put().filter("POST"), Err(Rejection::MethodNotAllowed));
    assert_eq!(delete().filter("PUT"), Err(Rejection::MethodNotAllowed));
    assert_eq!(head().filter("GET"), Err(Rejection::MethodNotAllowed));
    assert_eq!(options().filter("PATCH"), Err(Rejection::MethodNotAllowed));
    assert_eq!(patch().filter("DELETE"), Err(Rejection::MethodNotAllowed));
}

#[test]
fn rejection_is_method_not_allowed() {
    assert_eq!(Rejection::MethodNotAllowed.status(), 405);
}

#[test]
fn method_extracts_and_never_rejects() {
    assert_eq!(method().filter("GET"), "GET");
    assert_eq!(method().filter("BREW"), "BREW");
}

#[test]
fn method_tokens() {
    assert_eq!(HttpMethod::Get.token(), "GET");
    assert_eq!(HttpMethod::Options.token(), "OPTIONS");
    assert_eq!(broker::method::method_is(HttpMethod::Put, "PUT"), Ok(()));
    assert_eq!(
        broker::method::method_is(HttpMethod::Put, "PATCH"),
        Err(Rejection::MethodNotAllowed)
    );
}
