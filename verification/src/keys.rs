//! The key scheme of the store.
//!
//! A user is stored under `_u_` followed by its id, an event under `_v_`
//! followed by its id, and the latest published event of each name under the
//! name itself. Keys are told apart by whether the markers occur anywhere in
//! them, as the store is scanned.

use vstd::prelude::*;
use crate::ids::{is_lower_hex, is_uuid_text};
use crate::text::{contains_seq, occurs_at, str_contains};

verus! {

/// A key under which a user is read.
pub open spec fn is_user_key(key: Seq<char>) -> bool {
    contains_seq(key, "_u_"@)
}

/// A key under which an event record is read.
pub open spec fn is_event_key(key: Seq<char>) -> bool {
    contains_seq(key, "_v_"@)
}

/// A key under which the latest event of a name is read: one that is
/// neither a user key nor an event key.
pub open spec fn is_latest_key(key: Seq<char>) -> bool {
    !is_user_key(key) && !is_event_key(key)
}

/// The key of the user with the given id.
pub open spec fn user_key_text(id: Seq<char>) -> Seq<char> {
    "_u_"@ + id
}

/// The key of the event with the given id.
pub open spec fn event_key_text(id: Seq<char>) -> Seq<char> {
    "_v_"@ + id
}

/// Whether a key is read as a user's.
pub fn names_user(key: &str) -> (r: bool)
    ensures
        r == is_user_key(key@),
{
    str_contains(key, "_u_")
}

/// Whether a key is read as an event record's.
pub fn names_event(key: &str) -> (r: bool)
    ensures
        r == is_event_key(key@),
{
    str_contains(key, "_v_")
}

/// Whether a key is read as the latest event of a name.
pub fn names_latest(key: &str) -> (r: bool)
    ensures
        r == is_latest_key(key@),
{
    !names_event(key) && !names_user(key)
}

/// The key of the user with the given id.
pub fn user_key(id: &str) -> (r: String)
    ensures
        r@ == user_key_text(id@),
{
    let mut k = String::from_str("_u_");
    k.append(id);
    k
}

/// The key of the event with the given id.
pub fn event_key(id: &str) -> (r: String)
    ensures
        r@ == event_key_text(id@),
{
    let mut k = String::from_str("_v_");
    k.append(id);
    k
}

proof fn lemma_marker_key(marker: Seq<char>, other: Seq<char>, id: Seq<char>)
    requires
        marker.len() == 3,
        other.len() == 3,
        marker[0] == '_',
        marker[2] == '_',
        other[0] == '_',
        other[2] == '_',
        marker[1] != other[1],
        !is_lower_hex(other[1]),
        other[1] != '-',
        is_uuid_text(id),
    ensures
        contains_seq(marker + id, marker),
        !contains_seq(marker + id, other),
{
    let k = marker + id;
    assert(k.subrange(0, 3) =~= marker);
    assert(occurs_at(k, marker, 0));
    assert forall|i: int| !occurs_at(k, other, i) by {
        if occurs_at(k, other, i) {
            let w = k.subrange(i, i + 3);
            assert(w[0] == other[0] && w[1] == other[1] && w[2] == other[2]);
            if i == 0 {
                assert(k[1] == marker[1]);
            } else if i == 1 {
                assert(k[1] == marker[1]);
                assert(w[0] == k[1]);
            } else if i == 2 {
                assert(w[1] == k[3]);
                assert(k[3] == id[0]);
            } else {
                assert(w[0] == k[i]);
                assert(k[i] == id[i - 3]);
                if i - 3 == 8 || i - 3 == 13 || i - 3 == 18 || i - 3 == 23 {
                    assert(id[i - 3] == '-');
                } else {
                    assert(is_lower_hex(id[i - 3]));
                }
            }
        }
    }
}

/// A user stored under its key is read back as a user, and never as an event
/// record or a latest event; an event stored under its key is read back as an
/// event record, and never as a user or a latest event.
pub proof fn lemma_keys_are_told_apart(id: Seq<char>)
    requires
        is_uuid_text(id),
    ensures
        is_user_key(user_key_text(id)),
        !is_event_key(user_key_text(id)),
        !is_latest_key(user_key_text(id)),
        is_event_key(event_key_text(id)),
        !is_user_key(event_key_text(id)),
        !is_latest_key(event_key_text(id)),
{
    reveal_strlit("_u_");
    reveal_strlit("_v_");
    lemma_marker_key("_u_"@, "_v_"@, id);
    lemma_marker_key("_v_"@, "_u_"@, id);
}

} // verus!
