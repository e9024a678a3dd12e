//! Authorization headers.
//!
//! The header is split on single spaces; the first piece that is not the
//! word `Bearer` is the token that decides: the request is authorized when
//! that token decodes under the server's secret.

use vstd::prelude::*;
use crate::clock::{now_timestamp, LATEST_TIMESTAMP};
use crate::model::{Claims, ClaimsView, Config, JWT};
use crate::token::{claims_of, decode_claims, is_token_text, jwt_claims};
use crate::text::{chars_of, lemma_split_head, split_on};

verus! {

/// The first piece that is not `skip`.
pub open spec fn first_other(pieces: Seq<Seq<char>>, skip: Seq<char>) -> Option<Seq<char>>
    decreases pieces.len(),
{
    if pieces.len() == 0 {
        None
    } else if pieces[0] != skip {
        Some(pieces[0])
    } else {
        first_other(pieces.drop_first(), skip)
    }
}

/// The token an authorization header carries: its first space-separated
/// piece that is not `Bearer`, if any.
pub open spec fn token_part_spec(header: Seq<char>) -> Option<Seq<char>> {
    first_other(split_on(header, ' '), "Bearer"@)
}

/// The first piece other than `skip` of a sequence that starts with `x`.
pub proof fn lemma_first_other_cons(x: Seq<char>, rest: Seq<Seq<char>>, skip: Seq<char>)
    ensures
        first_other(seq![x] + rest, skip) == if x != skip {
            Some(x)
        } else {
            first_other(rest, skip)
        },
{
    assert((seq![x] + rest).drop_first() =~= rest);
}

/// The token an authorization header carries, if any.
pub fn token_part(header: &str) -> (r: Option<String>)
    ensures
        match r {
            Some(t) => token_part_spec(header@) == Some(t@),
            None => token_part_spec(header@) is None,
        },
{
    let v = chars_of(header);
    let n = v.len();
    let bearer = String::from_str("Bearer");
    let mut start: usize = 0;
    let mut i: usize = 0;
    assert(header@.subrange(0, n as int) =~= header@);
    loop
        invariant
            v@ == header@,
            n == v@.len(),
            bearer@ == "Bearer"@,
            start <= i <= n,
            token_part_spec(header@) == first_other(
                split_on(header@.subrange(start as int, n as int), ' '),
                "Bearer"@,
            ),
            forall|j: int| start <= j < i ==> v@[j] != ' ',
        decreases n - i,
    {
        if i == n || v[i] == ' ' {
            let ghost t = header@.subrange(start as int, n as int);
            proof {
                assert forall|j: int| 0 <= j < i - start implies t[j] != ' ' by {
                    assert(t[j] == v@[start + j]);
                }
                lemma_split_head(t, ' ', i - start);
            }
            let piece = header.substring_char(start, i).to_owned();
            assert(piece@ == t.subrange(0, i - start));
            if i == n {
                proof {
                    assert(t.subrange(0, i - start) =~= t);
                    lemma_first_other_cons(t, Seq::empty(), "Bearer"@);
                    assert(seq![t] + Seq::<Seq<char>>::empty() =~= seq![t]);
                }
                if piece == bearer {
                    return None;
                }
                return Some(piece);
            }
            proof {
                lemma_first_other_cons(
                    t.subrange(0, i - start),
                    split_on(t.subrange(i - start + 1, t.len() as int), ' '),
                    "Bearer"@,
                );
                assert(t.subrange(i - start + 1, t.len() as int) =~= header@.subrange(
                    i + 1,
                    n as int,
                ));
            }
            if piece != bearer {
                return Some(piece);
            }
            start = i + 1;
        }
        i = i + 1;
    }
}

/// What checking a header decides, given what decoding its token gave.
pub open spec fn jwt_spec(header: Seq<char>, decoded: Option<ClaimsView>) -> (bool, ClaimsView) {
    match token_part_spec(header) {
        None => (false, Claims::spec_empty()),
        Some(_) => match decoded {
            Some(c) => (true, c),
            None => (false, Claims::spec_empty()),
        },
    }
}

/// `decoded` is an outcome of decoding the header's token under `secret`:
/// claims only where the token carries them, and only for a token made of
/// URL-safe base64 parts joined by dots.
pub open spec fn decoded_from(header: Seq<char>, secret: Seq<char>, decoded: Option<ClaimsView>) -> bool {
    match decoded {
        Some(c) => token_part_spec(header) matches Some(t) && jwt_claims(t, secret) == Some(c)
            && is_token_text(t),
        None => true,
    }
}

/// What checking a header decides, given what decoding its token gave:
/// `decoded` holds the claims when the token's signature and expiry are valid,
/// `None` otherwise. A header without a token is refused.
pub fn jwt_decided(token: &str, decoded: Option<Claims>) -> (r: JWT)
    ensures
        (r.check, r.claims@) == jwt_spec(token@, claims_of(decoded)),
{
    match token_part(token) {
        None => JWT { check: false, claims: Claims::empty() },
        Some(_) => match decoded {
            Some(c) => JWT { check: true, claims: c },
            None => JWT { check: false, claims: Claims::empty() },
        },
    }
}

/// Whether a token expiring at `exp` is still accepted at `now`: the
/// default validation of `jsonwebtoken` refuses it once `exp` is more than
/// its leeway of 60 seconds in the past.
pub open spec fn fresh(exp: usize, now: i64) -> bool {
    now - 60 <= exp
}

/// What checking a header at `now` decides: the header's token must decode
/// under `secret` and must not have expired at `now`; it is then authorized
/// with the claims it carries, and refused with empty claims otherwise.
pub open spec fn verify_at_spec(header: Seq<char>, secret: Seq<char>, now: i64) -> (bool, ClaimsView) {
    match token_part_spec(header) {
        None => (false, Claims::spec_empty()),
        Some(t) => match jwt_claims(t, secret) {
            Some(c) => if fresh(c.exp, now) {
                (true, c)
            } else {
                (false, Claims::spec_empty())
            },
            None => (false, Claims::spec_empty()),
        },
    }
}

/// Whether a token expiring at `exp` is still accepted at `now`.
fn is_fresh(exp: usize, now: i64) -> (r: bool)
    ensures
        r == fresh(exp, now),
{
    if now < 60 {
        true
    } else {
        (now - 60) as u64 <= exp as u64
    }
}

/// Checks an authorization header against the server's secret at `now`.
pub fn jwt_verify_at(config: &Config, token: &str, now: i64) -> (r: JWT)
    ensures
        (r.check, r.claims@) == verify_at_spec(token@, config.secret@, now),
        r.check ==> (token_part_spec(token@) matches Some(t) && is_token_text(t)),
{
    match token_part(token) {
        None => JWT { check: false, claims: Claims::empty() },
        Some(part) => {
            let decoded = decode_claims(part.as_str(), config.secret.as_str());
            match decoded {
                Some(c) => if is_fresh(c.exp, now) {
                    JWT { check: true, claims: c }
                } else {
                    JWT { check: false, claims: Claims::empty() }
                },
                None => JWT { check: false, claims: Claims::empty() },
            }
        },
    }
}

/// Checks an authorization header against the server's secret now: the
/// header's token is decoded under the secret, and the request is authorized
/// with the token's claims when it decodes and has not expired at the
/// instant the clock gives.
pub fn jwt_verify(config: &Config, token: &str) -> (r: JWT)
    ensures
        exists|now: i64|
            0 <= now <= LATEST_TIMESTAMP && (r.check, r.claims@) == verify_at_spec(
                token@,
                config.secret@,
                now,
            ),
        exists|d: Option<ClaimsView>|
            (r.check, r.claims@) == jwt_spec(token@, d) && decoded_from(token@, config.secret@, d),
        r.check ==> (token_part_spec(token@) matches Some(t) && is_token_text(t) && jwt_claims(
            t,
            config.secret@,
        ) == Some(r.claims@)),
{
    let now = now_timestamp();
    let r = jwt_verify_at(config, token, now);
    proof {
        let d = if r.check {
            Some(r.claims@)
        } else {
            None
        };
        assert((r.check, r.claims@) == jwt_spec(token@, d) && decoded_from(token@, config.secret@, d));
    }
    r
}

} // verus!
