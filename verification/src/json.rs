//! The JSON text of the broker's replies.
//!
//! Strings are escaped and integers written as `serde_json` writes them, and
//! the objects are framed around them. The reply to an insertion lists an event's members
//! sorted by key; listings and cancellations list them in the order of the
//! event's fields.

use vstd::prelude::*;
use crate::model::{Claims, ClaimsView, Event, EventView};

verus! {

/// A hexadecimal digit, lower case, for `0 <= n < 16`.
pub open spec fn hex_digit(n: int) -> char {
    seq!['0', '1', '2', '3', '4', '5', '6', '7', '8', '9', 'a', 'b', 'c', 'd', 'e', 'f'][n]
}

/// How one character stands inside a JSON string literal written by
/// `serde_json`: quote, backslash and the control characters are escaped,
/// every other character stands as it is.
pub open spec fn escape_char(c: char) -> Seq<char> {
    if c == '"' {
        seq!['\\', '"']
    } else if c == '\\' {
        seq!['\\', '\\']
    } else if c == '\u{08}' {
        seq!['\\', 'b']
    } else if c == '\t' {
        seq!['\\', 't']
    } else if c == '\n' {
        seq!['\\', 'n']
    } else if c == '\u{0c}' {
        seq!['\\', 'f']
    } else if c == '\r' {
        seq!['\\', 'r']
    } else if (c as int) < 0x20 {
        seq!['\\', 'u', '0', '0', hex_digit((c as int) / 16), hex_digit((c as int) % 16)]
    } else {
        seq![c]
    }
}

/// The escaped characters of a text.
pub open spec fn escape(s: Seq<char>) -> Seq<char>
    decreases s.len(),
{
    if s.len() == 0 {
        Seq::empty()
    } else {
        escape(s.drop_last()) + escape_char(s.last())
    }
}

/// A text as a JSON string literal.
pub open spec fn quoted(s: Seq<char>) -> Seq<char> {
    seq!['"'] + escape(s) + seq!['"']
}

/// A decimal digit.
pub open spec fn digit(n: int) -> char {
    hex_digit(n)
}

/// The decimal digits of a natural number, without leading zeros.
pub open spec fn digits(n: nat) -> Seq<char>
    decreases n,
{
    if n < 10 {
        seq![digit(n as int)]
    } else {
        digits(n / 10) + seq![digit((n % 10) as int)]
    }
}

/// An integer as a JSON number: a minus sign for negatives, then the digits.
pub open spec fn decimal(n: int) -> Seq<char> {
    if n < 0 {
        seq!['-'] + digits((-n) as nat)
    } else {
        digits(n as nat)
    }
}

/// A boolean as JSON.
pub open spec fn bool_text(b: bool) -> Seq<char> {
    if b {
        "true"@
    } else {
        "false"@
    }
}

/// One member of a JSON object: the quoted key, a colon, the value's text.
pub open spec fn member(key: Seq<char>, value: Seq<char>) -> Seq<char> {
    quoted(key) + seq![':'] + value
}

/// A JSON object with a single member.
pub open spec fn object1(key: Seq<char>, value: Seq<char>) -> Seq<char> {
    seq!['{'] + member(key, value) + seq!['}']
}

/// An event as a JSON object, members sorted by key; `data` stands as the
/// JSON text it holds.
pub open spec fn event_json(e: EventView) -> Seq<char> {
    seq!['{'] + member("cancelled"@, bool_text(e.cancelled)) + seq![','] + member(
        "collection_id"@,
        quoted(e.collection_id),
    ) + seq![','] + member("data"@, e.data) + seq![','] + member("event"@, quoted(e.event))
        + seq![','] + member("id"@, quoted(e.id)) + seq![','] + member(
        "published"@,
        bool_text(e.published),
    ) + seq![','] + member("timestamp"@, decimal(e.timestamp as int)) + seq![','] + member(
        "user_id"@,
        quoted(e.user_id),
    ) + seq!['}']
}

/// An event as a JSON object, members in the order of the event's fields;
/// `data` stands as the JSON text it holds.
pub open spec fn event_record_json(e: EventView) -> Seq<char> {
    seq!['{'] + member("id"@, quoted(e.id)) + seq![','] + member("user_id"@, quoted(e.user_id))
        + seq![','] + member("collection_id"@, quoted(e.collection_id)) + seq![','] + member(
        "event"@,
        quoted(e.event),
    ) + seq![','] + member("timestamp"@, decimal(e.timestamp as int)) + seq![','] + member(
        "published"@,
        bool_text(e.published),
    ) + seq![','] + member("cancelled"@, bool_text(e.cancelled)) + seq![','] + member(
        "data"@,
        e.data,
    ) + seq!['}']
}

/// The reply to a refused user creation.
pub open spec fn taken_reply_text() -> Seq<char> {
    object1("error"@, quoted("username already taken"@))
}

/// The reply to a successful user creation.
pub open spec fn id_reply_text(id: Seq<char>) -> Seq<char> {
    object1("id"@, quoted(id))
}

/// The reply to a successful login.
pub open spec fn token_reply_text(token: Seq<char>) -> Seq<char> {
    object1("jwt"@, quoted(token))
}

/// The claims of a login token as the JSON object that `serde_json` writes
/// for them: members in the order of the fields, `sub`, `company`, `exp`.
pub open spec fn claims_json(c: ClaimsView) -> Seq<char> {
    seq!['{'] + member("sub"@, quoted(c.sub)) + seq![','] + member("company"@, quoted(c.company))
        + seq![','] + member("exp"@, decimal(c.exp as int)) + seq!['}']
}

/// The reply to a cancellation: the event, members in field order.
pub open spec fn record_reply_text(e: EventView) -> Seq<char> {
    object1("event"@, event_record_json(e))
}

/// The reply to a successful insertion.
pub open spec fn event_reply_text(e: EventView) -> Seq<char> {
    object1("event"@, event_json(e))
}

/// The text of one hexadecimal digit, lower case.
fn hex_text(d: u64) -> (r: &'static str)
    requires
        d < 16,
    ensures
        r@ == seq![hex_digit(d as int)],
{
    match d {
        0 => {
            proof {
                reveal_strlit("0");
            }
            "0"
        },
        1 => {
            proof {
                reveal_strlit("1");
            }
            "1"
        },
        2 => {
            proof {
                reveal_strlit("2");
            }
            "2"
        },
        3 => {
            proof {
                reveal_strlit("3");
            }
            "3"
        },
        4 => {
            proof {
                reveal_strlit("4");
            }
            "4"
        },
        5 => {
            proof {
                reveal_strlit("5");
            }
            "5"
        },
        6 => {
            proof {
                reveal_strlit("6");
            }
            "6"
        },
        7 => {
            proof {
                reveal_strlit("7");
            }
            "7"
        },
        8 => {
            proof {
                reveal_strlit("8");
            }
            "8"
        },
        9 => {
            proof {
                reveal_strlit("9");
            }
            "9"
        },
        10 => {
            proof {
                reveal_strlit("a");
            }
            "a"
        },
        11 => {
            proof {
                reveal_strlit("b");
            }
            "b"
        },
        12 => {
            proof {
                reveal_strlit("c");
            }
            "c"
        },
        13 => {
            proof {
                reveal_strlit("d");
            }
            "d"
        },
        14 => {
            proof {
                reveal_strlit("e");
            }
            "e"
        },
        _ => {
            proof {
                reveal_strlit("f");
            }
            "f"
        },
    }
}

/// Appends one character of a text as it stands inside a JSON string literal.
fn push_escaped(out: &mut String, s: &str, i: usize)
    requires
        i < s@.len() <= usize::MAX,
    ensures
        final(out)@ == old(out)@ + escape_char(s@[i as int]),
{
    let c = s.get_char(i);
    if c == '"' {
        out.append("\\\"");
        proof {
            reveal_strlit("\\\"");
        }
    } else if c == '\\' {
        out.append("\\\\");
        proof {
            reveal_strlit("\\\\");
        }
    } else if c == '\u{08}' {
        out.append("\\b");
        proof {
            reveal_strlit("\\b");
        }
    } else if c == '\t' {
        out.append("\\t");
        proof {
            reveal_strlit("\\t");
        }
    } else if c == '\n' {
        out.append("\\n");
        proof {
            reveal_strlit("\\n");
        }
    } else if c == '\u{0c}' {
        out.append("\\f");
        proof {
            reveal_strlit("\\f");
        }
    } else if c == '\r' {
        out.append("\\r");
        proof {
            reveal_strlit("\\r");
        }
    } else if (c as u32) < 0x20 {
        let n: u64 = c as u32 as u64;
        out.append("\\u00");
        out.append(hex_text(n / 16));
        out.append(hex_text(n % 16));
        proof {
            reveal_strlit("\\u00");
        }
    } else {
        let one = s.substring_char(i, i + 1);
        out.append(one);
        assert(one@ =~= seq![c]);
    }
    assert(out@ =~= old(out)@ + escape_char(s@[i as int]));
}

/// A text as a JSON string literal, escaped as `serde_json` escapes it (its
/// `ESCAPE` table and `write_char_escape`): quote, backslash and the control
/// characters are escaped, every other character stands as it is.
pub(crate) fn quote(s: &str) -> (r: String)
    ensures
        r@ == quoted(s@),
{
    let n = s.unicode_len();
    let mut out = String::from_str("\"");
    proof {
        reveal_strlit("\"");
    }
    let mut i: usize = 0;
    while i < n
        invariant
            n == s@.len(),
            i <= n,
            out@ == seq!['"'] + escape(s@.subrange(0, i as int)),
        decreases n - i,
    {
        push_escaped(&mut out, s, i);
        proof {
            let t = s@.subrange(0, i + 1);
            assert(t.drop_last() =~= s@.subrange(0, i as int));
            assert(t.last() == s@[i as int]);
        }
        i = i + 1;
        assert(out@ =~= seq!['"'] + escape(s@.subrange(0, i as int)));
    }
    assert(s@.subrange(0, n as int) =~= s@);
    out.append("\"");
    assert(out@ =~= quoted(s@));
    out
}

/// The decimal digits of a natural number.
fn digits_of(n: u64) -> (r: String)
    ensures
        r@ == digits(n as nat),
    decreases n,
{
    if n < 10 {
        String::from_str(hex_text(n))
    } else {
        let mut s = digits_of(n / 10);
        s.append(hex_text(n % 10));
        s
    }
}

/// An integer as a JSON number: the decimal form that `serde_json` writes.
pub(crate) fn json_int(n: i64) -> (r: String)
    ensures
        r@ == decimal(n as int),
{
    if n < 0 {
        let k: i64 = 0 - (n + 1);
        let m: u64 = k as u64 + 1;
        let mut s = String::from_str("-");
        let d = digits_of(m);
        s.append(d.as_str());
        proof {
            reveal_strlit("-");
        }
        assert(s@ =~= decimal(n as int));
        s
    } else {
        digits_of(n as u64)
    }
}

/// A natural number as a JSON number.
pub(crate) fn json_uint(n: u64) -> (r: String)
    ensures
        r@ == decimal(n as int),
{
    digits_of(n)
}

fn push_text(out: &mut String, piece: &str)
    ensures
        final(out)@ == old(out)@ + piece@,
{
    out.append(piece);
}

fn push_member(out: &mut String, key: &str, value: &str)
    ensures
        final(out)@ == old(out)@ + member(key@, value@),
{
    let k = quote(key);
    out.append(k.as_str());
    out.append(":");
    out.append(value);
    proof {
        reveal_strlit(":");
    }
    assert(out@ =~= old(out)@ + member(key@, value@));
}

fn bool_json(b: bool) -> (r: &'static str)
    ensures
        r@ == bool_text(b),
{
    if b {
        "true"
    } else {
        "false"
    }
}

fn object_of(key: &str, value: &str) -> (r: String)
    ensures
        r@ == object1(key@, value@),
{
    let mut out = String::new();
    out.append("{");
    push_member(&mut out, key, value);
    out.append("}");
    proof {
        reveal_strlit("{");
        reveal_strlit("}");
    }
    assert(out@ =~= object1(key@, value@));
    out
}

/// The reply to a user creation refused because the name is taken.
pub fn taken_reply() -> (r: String)
    ensures
        r@ == taken_reply_text(),
{
    let q = quote("username already taken");
    object_of("error", q.as_str())
}

/// The reply to a successful user creation: the new user's id.
pub fn id_reply(id: &str) -> (r: String)
    ensures
        r@ == id_reply_text(id@),
{
    let q = quote(id);
    object_of("id", q.as_str())
}

/// The reply to a successful login: the signed token.
pub fn token_reply(token: &str) -> (r: String)
    ensures
        r@ == token_reply_text(token@),
{
    let q = quote(token);
    object_of("jwt", q.as_str())
}

/// The claims of a login token as JSON.
pub fn claims_to_json(c: &Claims) -> (r: String)
    ensures
        r@ == claims_json(c@),
{
    let mut out = String::new();
    out.append("{");
    let q = quote(c.sub.as_str());
    push_member(&mut out, "sub", q.as_str());
    out.append(",");
    let q = quote(c.company.as_str());
    push_member(&mut out, "company", q.as_str());
    out.append(",");
    let t = json_uint(c.exp as u64);
    push_member(&mut out, "exp", t.as_str());
    out.append("}");
    proof {
        reveal_strlit("{");
        reveal_strlit("}");
        reveal_strlit(",");
    }
    assert(out@ =~= claims_json(c@));
    out
}

/// An event as JSON.
pub fn event_to_json(e: &Event) -> (r: String)
    ensures
        r@ == event_json(e@),
{
    let mut out = String::new();
    out.append("{");
    push_member(&mut out, "cancelled", bool_json(e.cancelled));
    out.append(",");
    let q = quote(e.collection_id.as_str());
    push_member(&mut out, "collection_id", q.as_str());
    out.append(",");
    push_member(&mut out, "data", e.data.as_str());
    out.append(",");
    let q = quote(e.event.as_str());
    push_member(&mut out, "event", q.as_str());
    out.append(",");
    let q = quote(e.id.as_str());
    push_member(&mut out, "id", q.as_str());
    out.append(",");
    push_member(&mut out, "published", bool_json(e.published));
    out.append(",");
    let t = json_int(e.timestamp);
    push_member(&mut out, "timestamp", t.as_str());
    out.append(",");
    let q = quote(e.user_id.as_str());
    push_member(&mut out, "user_id", q.as_str());
    out.append("}");
    proof {
        reveal_strlit("{");
        reveal_strlit("}");
        reveal_strlit(",");
    }
    assert(out@ =~= event_json(e@));
    out
}

/// An event as JSON, members in field order.
pub fn event_record_to_json(e: &Event) -> (r: String)
    ensures
        r@ == event_record_json(e@),
{
    let mut out = String::new();
    out.append("{");
    let q = quote(e.id.as_str());
    push_member(&mut out, "id", q.as_str());
    out.append(",");
    let q = quote(e.user_id.as_str());
    push_member(&mut out, "user_id", q.as_str());
    out.append(",");
    let q = quote(e.collection_id.as_str());
    push_member(&mut out, "collection_id", q.as_str());
    out.append(",");
    let q = quote(e.event.as_str());
    push_member(&mut out, "event", q.as_str());
    out.append(",");
    let t = json_int(e.timestamp);
    push_member(&mut out, "timestamp", t.as_str());
    out.append(",");
    push_member(&mut out, "published", bool_json(e.published));
    out.append(",");
    push_member(&mut out, "cancelled", bool_json(e.cancelled));
    out.append(",");
    push_member(&mut out, "data", e.data.as_str());
    out.append("}");
    proof {
        reveal_strlit("{");
        reveal_strlit("}");
        reveal_strlit(",");
    }
    assert(out@ =~= event_record_json(e@));
    out
}

/// The reply to a cancellation: the cancelled event.
pub fn record_reply(e: &Event) -> (r: String)
    ensures
        r@ == record_reply_text(e@),
{
    let j = event_record_to_json(e);
    object_of("event", j.as_str())
}

/// The reply to a successful insertion: the stored event.
pub fn event_reply(e: &Event) -> (r: String)
    ensures
        r@ == event_reply_text(e@),
{
    let j = event_to_json(e);
    object_of("event", j.as_str())
}

/// Texts joined by commas.
pub open spec fn joined(items: Seq<Seq<char>>) -> Seq<char>
    decreases items.len(),
{
    if items.len() == 0 {
        Seq::empty()
    } else if items.len() == 1 {
        items[0]
    } else {
        joined(items.drop_last()) + seq![','] + items.last()
    }
}

proof fn lemma_joined_step(items: Seq<Seq<char>>, k: int)
    requires
        0 <= k < items.len(),
    ensures
        k == 0 ==> joined(items.take(k + 1)) == items[k],
        k > 0 ==> joined(items.take(k + 1)) == joined(items.take(k)) + seq![','] + items[k],
{
    assert(items.take(k + 1).drop_last() =~= items.take(k));
    assert(items.take(k + 1).last() == items[k]);
}

/// A JSON array of the given element texts.
pub open spec fn array_text(items: Seq<Seq<char>>) -> Seq<char> {
    seq!['['] + joined(items) + seq![']']
}

/// The JSON texts of the events at the listed positions, members in field
/// order.
pub open spec fn listed_events(records: Seq<EventView>, idx: Seq<usize>) -> Seq<Seq<char>> {
    Seq::new(idx.len(), |k: int| event_record_json(records[idx[k] as int]))
}

/// The reply to a collection listing.
pub open spec fn events_reply_text(records: Seq<EventView>, idx: Seq<usize>) -> Seq<char> {
    object1("events"@, array_text(listed_events(records, idx)))
}

/// The reply to a user's listing: the events of the user's own collection
/// (`info`), then the events the user inserted (`events`).
pub open spec fn user_events_reply_text(
    records: Seq<EventView>,
    owned: Seq<usize>,
    info: Seq<usize>,
) -> Seq<char> {
    seq!['{'] + member("info"@, array_text(listed_events(records, info))) + seq![','] + member(
        "events"@,
        array_text(listed_events(records, owned)),
    ) + seq!['}']
}

/// The events at the listed positions, as a JSON array.
pub fn events_array(records: &Vec<Event>, idx: &Vec<usize>) -> (r: String)
    requires
        forall|k: int| 0 <= k < idx@.len() ==> idx@[k] < records@.len(),
    ensures
        r@ == array_text(listed_events(records.deep_view(), idx@)),
{
    let ghost items = listed_events(records.deep_view(), idx@);
    let mut out = String::new();
    out.append("[");
    proof {
        reveal_strlit("[");
        reveal_strlit("]");
        reveal_strlit(",");
    }
    let mut k: usize = 0;
    while k < idx.len()
        invariant
            items == listed_events(records.deep_view(), idx@),
            forall|m: int| 0 <= m < idx@.len() ==> idx@[m] < records@.len(),
            k <= idx@.len(),
            out@ == seq!['['] + joined(items.take(k as int)),
        decreases idx.len() - k,
    {
        let e = idx[k];
        assert(records.deep_view()[e as int] == records@[e as int]@);
        let j = event_record_to_json(&records[e]);
        assert(items[k as int] == j@);
        let ghost before = out@;
        if k > 0 {
            out.append(",");
        }
        out.append(j.as_str());
        proof {
            reveal_strlit(",");
            lemma_joined_step(items, k as int);
            if k > 0 {
                assert(out@ =~= before + seq![','] + items[k as int]);
            } else {
                assert(out@ =~= before + items[k as int]);
            }
        }
        k = k + 1;
    }
    assert(items.take(idx@.len() as int) =~= items);
    out.append("]");
    out
}

/// The reply to a collection listing: the events at the listed positions.
pub fn events_reply(records: &Vec<Event>, idx: &Vec<usize>) -> (r: String)
    requires
        forall|k: int| 0 <= k < idx@.len() ==> idx@[k] < records@.len(),
    ensures
        r@ == events_reply_text(records.deep_view(), idx@),
{
    let a = events_array(records, idx);
    object_of("events", a.as_str())
}

/// The reply to a user's listing.
pub fn user_events_reply(records: &Vec<Event>, owned: &Vec<usize>, info: &Vec<usize>) -> (r: String)
    requires
        forall|k: int| 0 <= k < owned@.len() ==> owned@[k] < records@.len(),
        forall|k: int| 0 <= k < info@.len() ==> info@[k] < records@.len(),
    ensures
        r@ == user_events_reply_text(records.deep_view(), owned@, info@),
{
    let a = events_array(records, owned);
    let b = events_array(records, info);
    let mut out = String::new();
    out.append("{");
    push_member(&mut out, "info", b.as_str());
    out.append(",");
    push_member(&mut out, "events", a.as_str());
    out.append("}");
    proof {
        reveal_strlit("{");
        reveal_strlit("}");
        reveal_strlit(",");
    }
    assert(out@ =~= user_events_reply_text(records.deep_view(), owned@, info@));
    out
}

} // verus!
