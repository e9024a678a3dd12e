use broker::auth::{jwt_decided, token_part};
use broker::keys::{event_key, names_event, names_latest, names_user, user_key};
use broker::model::Claims;
use broker::text::{chars_of, str_contains};

#[test]
fn contains_finds_substrings_anywhere() {
    assert!(str_contains("_u_abc", "_u_"));
    assert!(str_contains("abc_u_", "_u_"));
    assert!(str_contains("a_u_b", "_u_"));
    assert!(!str_contains("_u", "_u_"));
    assert!(!str_contains("", "_u_"));
    assert!(str_contains("", ""));
    assert!(str_contains("héllo wörld", "ö"));
}

#[test]
fn chars_are_unicode_scalars() {
    assert_eq!(chars_of("aé€"), vec!['a', 'é', '€']);
}

#[test]
fn token_part_skips_bearer() {
    assert_eq!(token_part("Bearer abc.def.ghi"), Some("abc.def.ghi".to_string()));
    assert_eq!(token_part("Bearer 1234"), Some("1234".to_string()));
}

#[test]
fn token_part_of_bare_token() {
    assert_eq!(token_part("foo"), Some("foo".to_string()));
}

#[test]
fn token_part_of_bearer_alone_is_none() {
    assert_eq!(token_part("Bearer"), None);
    assert_eq!(token_part("Bearer Bearer"), None);
}

#[test]
fn token_part_keeps_empty_pieces() {
    // Splitting on single spaces keeps empty pieces, as `str::split` does.
    assert_eq!(token_part("Bearer  x"), Some(String::new()));
    assert_eq!(token_part(""), Some(String::new()));
    assert_eq!(token_part("x Bearer"), Some("x".to_string()));
}

fn claims(sub: &str) -> Claims {
    Claims { sub: sub.to_string(), company: String::new(), exp: 99 }
}

#[test]
fn jwt_verify_accepts_decoded_token() {
    let jwt = jwt_decided("Bearer tok", Some(claims("someone")));
    assert!(jwt.check);
    assert_eq!(jwt.claims.sub, "someone");
    assert_eq!(jwt.claims.exp, 99);
}

#[test]
fn jwt_verify_refuses_undecodable_token() {
    let jwt = jwt_decided("Bearer 1234", None);
    assert!(!jwt.check);
    assert_eq!(jwt.claims.sub, "");
    assert_eq!(jwt.claims.company, "");
    assert_eq!(jwt.claims.exp, 0);
}

#[test]
fn jwt_verify_refuses_header_without_token() {
    let jwt = jwt_decided("Bearer", Some(claims("someone")));
    assert!(!jwt.check);
    assert_eq!(jwt.claims.sub, "");
}

#[test]
fn keys_have_their_markers() {
    assert_eq!(user_key("abc"), "_u_abc");
    assert_eq!(event_key("abc"), "_v_abc");
    let id = "3ca76743-8d99-4d3f-b85c-633ea456f90c";
    assert!(names_user(&user_key(id)));
    assert!(!names_event(&user_key(id)));
    assert!(!names_latest(&user_key(id)));
    assert!(names_event(&event_key(id)));
    assert!(!names_user(&event_key(id)));
    assert!(!names_latest(&event_key(id)));
}

#[test]
fn latest_keys_are_the_other_keys() {
    assert!(names_latest("test"));
    assert!(names_latest("user"));
    // Markers are found anywhere in a key.
    assert!(!names_latest("my_u_name"));
    assert!(names_user("my_u_name"));
    assert!(names_event("x_v_y"));
}
