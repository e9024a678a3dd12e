//! Login tokens: JSON Web Tokens signed with HMAC-SHA256 (`jsonwebtoken`).
//!
//! A token carries the claims `sub`, `company` and `exp`. Its payload is the
//! JSON object of the three claims, members in the order of the fields
//! (`claims_json`).

use vstd::prelude::*;
use crate::json::{claims_json, claims_to_json};
use crate::model::{Claims, ClaimsView};

verus! {

/// A character of a token: the URL-safe base64 alphabet, and the dot that
/// separates the token's three parts.
pub open spec fn is_token_char(c: char) -> bool {
    ||| ('A' <= c && c <= 'Z')
    ||| ('a' <= c && c <= 'z')
    ||| ('0' <= c && c <= '9')
    ||| c == '-'
    ||| c == '_'
    ||| c == '.'
}

/// The shape of every token: token characters only, and at least one dot.
pub open spec fn is_token_text(t: Seq<char>) -> bool {
    &&& forall|i: int| 0 <= i < t.len() ==> is_token_char(#[trigger] t[i])
    &&& exists|i: int| 0 <= i < t.len() && t[i] == '.'
}

/// The token `jsonwebtoken::encode` makes, under the default header (HS256)
/// and the secret, of a payload whose JSON text is `payload`.
pub uninterp spec fn jwt_token(payload: Seq<char>, secret: Seq<char>) -> Seq<char>;

/// The claims a token carries when its signature checks under the secret
/// (HS256) and its payload holds a string `sub`, a string `company` and an
/// unsigned integer `exp`; `None` otherwise. This is what
/// `jsonwebtoken::decode` reads with the default validation, its check of
/// `exp` against the clock switched off: a function of the token and the
/// secret alone.
pub uninterp spec fn jwt_claims(token: Seq<char>, secret: Seq<char>) -> Option<ClaimsView>;

/// The claims an optional decoding holds.
pub open spec fn claims_of(o: Option<Claims>) -> Option<ClaimsView> {
    match o {
        Some(c) => Some(c@),
        None => None,
    }
}

/// Signs the JSON text `payload` with `jsonwebtoken::encode` under the
/// default header (HS256) and the secret: the text goes in as a
/// `serde_json::value::RawValue`, which `encode` writes verbatim as the
/// token's payload. `None` stands for `RawValue::from_string`'s error, a text
/// that is not JSON; with an HMAC key and HS256, `encode` itself cannot fail.
/// The contract names the token (`jwt_token`) and claims what the crates'
/// sources show: a token is URL-safe base64 parts joined by dots, and the
/// JSON object of some claims is accepted and signed into a token that
/// carries exactly those claims.
#[verifier::external_body]
fn sign_payload(payload: &str, secret: &str) -> (r: Option<String>)
    ensures
        r matches Some(t) ==> t@ == jwt_token(payload@, secret@) && is_token_text(t@),
        r is None ==> forall|c: ClaimsView| claims_json(c) != payload@,
        r matches Some(t) ==> forall|c: ClaimsView|
            #[trigger] claims_json(c) == payload@ ==> jwt_claims(t@, secret@) == Some(c),
{
    let key = jsonwebtoken::EncodingKey::from_secret(secret.as_bytes());
    match serde_json::value::RawValue::from_string(payload.to_string()) {
        Ok(raw) => match jsonwebtoken::encode(&jsonwebtoken::Header::default(), &raw, &key) {
            Ok(t) => Some(t),
            Err(_) => None,
        },
        Err(_) => None,
    }
}

/// Signs claims under the secret: the token of their JSON object, members in
/// field order.
pub fn sign_claims(c: &Claims, secret: &str) -> (r: String)
    ensures
        r@ == jwt_token(claims_json(c@), secret@),
        jwt_claims(r@, secret@) == Some(c@),
        is_token_text(r@),
{
    let payload = claims_to_json(c);
    assert(claims_json(c@) == payload@);
    match sign_payload(payload.as_str(), secret) {
        Some(t) => t,
        None => {
            assert(false);
            String::new()
        },
    }
}

/// Decodes a token with `jsonwebtoken::decode` under the secret and the
/// default validation (HS256, `exp` required), its check of `exp` against
/// the clock switched off, and reads its `sub`, `company` and `exp`. The
/// contract names the outcome (`jwt_claims`), and claims what the crate's
/// source shows of a token that decodes: it is URL-safe base64 parts joined
/// by dots (the crate splits it at its dots and reads each part as base64).
#[verifier::external_body]
pub(crate) fn decode_claims(token: &str, secret: &str) -> (r: Option<Claims>)
    ensures
        claims_of(r) == jwt_claims(token@, secret@),
        claims_of(r) is Some ==> is_token_text(token@),
{
    let key = jsonwebtoken::DecodingKey::from_secret(secret.as_bytes());
    let mut validation = jsonwebtoken::Validation::default();
    validation.validate_exp = false;
    let v = match jsonwebtoken::decode::<serde_json::Value>(token, &key, &validation) {
        Ok(d) => d.claims,
        Err(_) => return None,
    };
    match (v.get("sub"), v.get("company"), v.get("exp").and_then(serde_json::Value::as_u64)) {
        (Some(serde_json::Value::String(s)), Some(serde_json::Value::String(c)), Some(e)) => {
            Some(Claims { sub: s.clone(), company: c.clone(), exp: e as usize })
        },
        _ => None,
    }
}

} // verus!
