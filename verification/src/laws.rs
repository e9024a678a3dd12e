//! Properties of the broker that span its operations.

use vstd::prelude::*;
use crate::auth::{decoded_from, fresh, jwt_spec, lemma_first_other_cons, token_part_spec, verify_at_spec};
use crate::clock::LATEST_TIMESTAMP;
use crate::events::{
    cancelled_spec,
    due_positions,
    in_collection,
    is_due_spec,
    listed_by_time,
    new_event_spec,
    owned_by,
    published_spec,
    time_before,
};
use crate::model::{Claims, ClaimsView, Config, EventFormView, EventView, LoginView, UserView};
use crate::token::{is_token_char, is_token_text, jwt_claims};
use crate::password::bcrypt_verdict;
use crate::json::{bool_text, decimal, escape, event_json, event_record_json, member, quoted};
use crate::text::{contains_seq, lemma_split_head, occurs_at, split_on};
use crate::users::{
    claims_for,
    first_named,
    is_first_named,
    lemma_first_named_unique,
    login_spec,
    username_taken,
    usernames_unique,
    LoginVerdict,
};

verus! {

/// Once a user is added, its name is taken: a second creation under the same
/// name is refused.
pub proof fn lemma_created_name_is_taken(users: Seq<UserView>, u: UserView)
    ensures
        username_taken(users.push(u), u.username),
{
    assert(users.push(u)[users.len() as int] == u);
}

/// Adding a user under a name that is not taken keeps the names unique.
pub proof fn lemma_creation_keeps_names_unique(users: Seq<UserView>, u: UserView)
    requires
        usernames_unique(users),
        !username_taken(users, u.username),
    ensures
        usernames_unique(users.push(u)),
{
    let s = users.push(u);
    assert forall|i: int, j: int|
        0 <= i < s.len() && 0 <= j < s.len() && i != j implies #[trigger] s[i].username
        != #[trigger] s[j].username by {
        if i == users.len() {
            assert(s[j] == users[j]);
        } else if j == users.len() {
            assert(s[i] == users[i]);
        } else {
            assert(s[i] == users[i] && s[j] == users[j]);
        }
    }
}

/// A user added under a free name, whose stored hash bcrypt accepts for a
/// password, logs in with that name and password: the login is granted the
/// claims of that user.
pub proof fn lemma_login_after_creation(
    users: Seq<UserView>,
    u: UserView,
    password: Seq<char>,
    expiry: i64,
    now: i64,
)
    requires
        !username_taken(users, u.username),
        bcrypt_verdict(password, u.password) == Some(true),
    ensures
        login_spec(
            users.push(u),
            LoginView { username: u.username, password },
            expiry,
            now,
        ) == Some(LoginVerdict::Granted(claims_for(u, expiry, now))),
{
    let s = users.push(u);
    let i = users.len() as int;
    assert forall|j: int| 0 <= j < i implies #[trigger] s[j].username != u.username by {
        assert(s[j] == users[j]);
    }
    assert(is_first_named(s, u.username, i));
    lemma_first_named_unique(s, u.username, i);
}

/// A user added under a free name, with a stored hash that bcrypt can read
/// whatever the password (as every hash `user_create` stores), is always
/// answered when logging in under that name: granted or denied, never left
/// undecided by an unreadable hash.
pub proof fn lemma_created_user_login_answered(
    users: Seq<UserView>,
    u: UserView,
    password: Seq<char>,
    expiry: i64,
    now: i64,
)
    requires
        !username_taken(users, u.username),
        forall|p: Seq<char>| #[trigger] bcrypt_verdict(p, u.password) is Some,
    ensures
        login_spec(users.push(u), LoginView { username: u.username, password }, expiry, now) is Some,
{
    let s = users.push(u);
    let i = users.len() as int;
    assert forall|j: int| 0 <= j < i implies #[trigger] s[j].username != u.username by {
        assert(s[j] == users[j]);
    }
    assert(is_first_named(s, u.username, i));
    lemma_first_named_unique(s, u.username, i);
    assert(bcrypt_verdict(password, u.password) is Some);
}

/// A login with a password that bcrypt refuses against the stored hash of
/// the first user of that name is denied.
pub proof fn lemma_wrong_password_denied(
    users: Seq<UserView>,
    form: LoginView,
    i: int,
    expiry: i64,
    now: i64,
)
    requires
        first_named(users, form.username) == Some(i),
        bcrypt_verdict(form.password, users[i].password) == Some(false),
    ensures
        login_spec(users, form, expiry, now) == Some(LoginVerdict::Denied),
{
}

/// A login under a name that no user has is denied.
pub proof fn lemma_unknown_name_denied(users: Seq<UserView>, form: LoginView, expiry: i64, now: i64)
    requires
        !username_taken(users, form.username),
    ensures
        login_spec(users, form, expiry, now) == Some(LoginVerdict::Denied),
{
    if first_named(users, form.username) is Some {
        let i = choose|i: int| is_first_named(users, form.username, i);
        assert(is_first_named(users, form.username, i));
        assert(users[i].username == form.username);
    }
}

proof fn lemma_no_space_single_piece(t: Seq<char>)
    requires
        forall|j: int| 0 <= j < t.len() ==> t[j] != ' ',
    ensures
        split_on(t, ' ') == seq![t],
{
    lemma_split_head(t, ' ', t.len() as int);
}

/// `Bearer <token>` carries the token, for a token without spaces that is not
/// itself the word `Bearer`.
pub proof fn lemma_bearer_header_carries_token(t: Seq<char>)
    requires
        forall|j: int| 0 <= j < t.len() ==> t[j] != ' ',
        t != "Bearer"@,
    ensures
        token_part_spec("Bearer "@ + t) == Some(t),
{
    reveal_strlit("Bearer ");
    reveal_strlit("Bearer");
    let h = "Bearer "@ + t;
    assert forall|j: int| 0 <= j < 6 implies h[j] != ' ' by {}
    lemma_split_head(h, ' ', 6);
    assert(h.subrange(0, 6) =~= "Bearer"@);
    assert(h.subrange(7, h.len() as int) =~= t);
    lemma_no_space_single_piece(t);
    assert(split_on(h, ' ') == seq!["Bearer"@] + seq![t]);
    lemma_first_other_cons("Bearer"@, seq![t], "Bearer"@);
    lemma_first_other_cons(t, Seq::empty(), "Bearer"@);
    assert(seq![t] + Seq::<Seq<char>>::empty() =~= seq![t]);
}

/// A header that is a bare token without spaces carries that token, unless
/// it is the word `Bearer`.
pub proof fn lemma_bare_token_is_the_token(t: Seq<char>)
    requires
        forall|j: int| 0 <= j < t.len() ==> t[j] != ' ',
        t != "Bearer"@,
    ensures
        token_part_spec(t) == Some(t),
{
    lemma_no_space_single_piece(t);
    lemma_first_other_cons(t, Seq::empty(), "Bearer"@);
    assert(seq![t] + Seq::<Seq<char>>::empty() =~= seq![t]);
}

/// The header `Bearer` alone carries no token.
pub proof fn lemma_bearer_alone_carries_nothing()
    ensures
        token_part_spec("Bearer"@) is None,
{
    reveal_strlit("Bearer");
    lemma_no_space_single_piece("Bearer"@);
    lemma_first_other_cons("Bearer"@, Seq::empty(), "Bearer"@);
    assert(seq!["Bearer"@] + Seq::<Seq<char>>::empty() =~= seq!["Bearer"@]);
}

/// A published event is never due again.
pub proof fn lemma_published_never_due(e: EventView, now: i64)
    ensures
        !is_due_spec(published_spec(e), now),
{
}

/// A cancelled event is never due, so it is never published.
pub proof fn lemma_cancelled_never_due(e: EventView, now: i64)
    ensures
        !is_due_spec(cancelled_spec(e), now),
{
}

/// An event neither published nor cancelled is due exactly when the clock
/// has reached its timestamp.
pub proof fn lemma_due_when_time_comes(e: EventView, now: i64)
    requires
        !e.published,
        !e.cancelled,
    ensures
        is_due_spec(e, now) <==> e.timestamp <= now,
{
}

/// A newly inserted event is due exactly when the clock has reached its
/// timestamp: events in the future wait, events in the past go out at once.
pub proof fn lemma_inserted_event_due_when_time_comes(
    id: Seq<char>,
    user_id: Seq<char>,
    form: EventFormView,
    now: i64,
)
    ensures
        is_due_spec(new_event_spec(id, user_id, form), now) <==> form.timestamp <= now,
{
}

/// An event that is due stays due as time goes on.
pub proof fn lemma_due_stays_due(e: EventView, t1: i64, t2: i64)
    requires
        is_due_spec(e, t1),
        t1 <= t2,
    ensures
        is_due_spec(e, t2),
{
}

/// Publishing twice is publishing once.
pub proof fn lemma_publish_idempotent(e: EventView)
    ensures
        published_spec(published_spec(e)) == published_spec(e),
{
}

/// Once the record of an event is replaced by its publication, the event is
/// not selected as due again.
pub proof fn lemma_published_record_not_selected(
    records: Seq<EventView>,
    i: int,
    now: i64,
    idx: Seq<usize>,
)
    requires
        0 <= i < records.len(),
        due_positions(records.update(i, published_spec(records[i])), now, idx),
    ensures
        forall|k: int| 0 <= k < idx.len() ==> idx[k] != i,
{
    let s = records.update(i, published_spec(records[i]));
    assert forall|k: int| 0 <= k < idx.len() implies idx[k] != i by {
        if idx[k] == i {
            assert(is_due_spec(s[idx[k] as int], now));
        }
    }
}

/// A stored event appears in the listing of its collection and in the
/// listing of the events its owner inserted.
pub proof fn lemma_stored_event_is_listed(
    records: Seq<EventView>,
    i: int,
    in_coll: Seq<usize>,
    mine: Seq<usize>,
)
    requires
        0 <= i < records.len(),
        listed_by_time(records, in_collection(records[i].collection_id), in_coll),
        listed_by_time(records, owned_by(records[i].user_id), mine),
    ensures
        exists|k: int| 0 <= k < in_coll.len() && in_coll[k] == i,
        exists|k: int| 0 <= k < mine.len() && mine[k] == i,
{
    assert(in_collection(records[i].collection_id)(records[i]));
    assert(owned_by(records[i].user_id)(records[i]));
}

/// A listing by time holds each selected event once, in ascending time.
pub proof fn lemma_listing_ascends(
    records: Seq<EventView>,
    chosen: spec_fn(EventView) -> bool,
    idx: Seq<usize>,
)
    requires
        listed_by_time(records, chosen, idx),
    ensures
        forall|k: int, l: int|
            0 <= k < l < idx.len() ==> idx[k] != idx[l] && records[idx[k] as int].timestamp
                <= records[idx[l] as int].timestamp,
{
    assert forall|k: int, l: int| 0 <= k < l < idx.len() implies idx[k] != idx[l]
        && records[idx[k] as int].timestamp <= records[idx[l] as int].timestamp by {
        assert(time_before(records, idx[k] as int, idx[l] as int));
    }
}

/// A header `Bearer <token>`, with a token signed for the claims `c` under
/// the server's secret, is authorized with exactly those claims whenever the
/// token decodes (it has not expired), and refused otherwise.
pub proof fn lemma_signed_token_authorizes(
    c: ClaimsView,
    secret: Seq<char>,
    t: Seq<char>,
    d: Option<ClaimsView>,
)
    requires
        is_token_text(t),
        jwt_claims(t, secret) == Some(c),
        decoded_from("Bearer "@ + t, secret, d),
    ensures
        d is Some ==> jwt_spec("Bearer "@ + t, d) == (true, c),
        d is None ==> jwt_spec("Bearer "@ + t, d) == (false, Claims::spec_empty()),
{
    reveal_strlit("Bearer");
    assert forall|j: int| 0 <= j < t.len() implies t[j] != ' ' by {
        assert(is_token_char(t[j]));
    }
    let k = choose|i: int| 0 <= i < t.len() && t[i] == '.';
    if t == "Bearer"@ {
        assert(t[k] == "Bearer"@[k]);
    }
    lemma_bearer_header_carries_token(t);
}

/// Two events agree on everything that was inserted: id, owner, collection,
/// name, timestamp and data.
pub open spec fn same_content(a: EventView, b: EventView) -> bool {
    &&& a.id == b.id
    &&& a.user_id == b.user_id
    &&& a.collection_id == b.collection_id
    &&& a.event == b.event
    &&& a.timestamp == b.timestamp
    &&& a.data == b.data
}

/// Stored events are immutable: publishing changes only the published flag
/// and cancelling only the cancelled flag.
pub proof fn lemma_stored_content_is_immutable(e: EventView)
    ensures
        same_content(e, published_spec(e)),
        published_spec(e).cancelled == e.cancelled,
        same_content(e, cancelled_spec(e)),
        cancelled_spec(e).published == e.published,
{
}

/// A header whose token has no dot is never authorized, whatever the
/// decoding gave: no token without a dot decodes.
pub proof fn lemma_dotless_token_refused(header: Seq<char>, secret: Seq<char>, d: Option<ClaimsView>)
    requires
        decoded_from(header, secret, d),
        token_part_spec(header) matches Some(t) && forall|j: int| 0 <= j < t.len() ==> t[j] != '.',
    ensures
        jwt_spec(header, d) == (false, Claims::spec_empty()),
{
}

/// What checking a header may answer depends on the configuration through
/// its secret alone: two configurations with one secret allow the same
/// verdicts.
pub proof fn lemma_verdict_depends_only_on_secret(
    c1: Config,
    c2: Config,
    header: Seq<char>,
    verdict: (bool, ClaimsView),
)
    requires
        c1.secret@ == c2.secret@,
    ensures
        (exists|d: Option<ClaimsView>|
            verdict == jwt_spec(header, d) && decoded_from(header, c1.secret@, d)) <==> (exists|
            d: Option<ClaimsView>,
        | verdict == jwt_spec(header, d) && decoded_from(header, c2.secret@, d)),
{
}

/// A collection listing lists exactly the events of that collection: every
/// listed position holds an event whose collection is the requested one, and
/// every event of that collection is listed, whatever else it holds
/// (published, cancelled, owner).
pub proof fn lemma_collection_listing_is_exactly_the_collection(
    records: Seq<EventView>,
    collection_id: Seq<char>,
    idx: Seq<usize>,
)
    requires
        listed_by_time(records, in_collection(collection_id), idx),
    ensures
        forall|k: int|
            0 <= k < idx.len() ==> idx[k] < records.len() && (#[trigger] records[idx[k] as int]).collection_id
                == collection_id,
        forall|i: int|
            0 <= i < records.len() ==> ((#[trigger] records[i]).collection_id == collection_id
                <==> (exists|k: int| 0 <= k < idx.len() && idx[k] as int == i)),
{
    assert forall|i: int| 0 <= i < records.len() implies ((#[trigger] records[i]).collection_id
        == collection_id <==> (exists|k: int| 0 <= k < idx.len() && idx[k] as int == i)) by {
        if records[i].collection_id == collection_id {
            assert(in_collection(collection_id)(records[i]));
        }
        if (exists|k: int| 0 <= k < idx.len() && idx[k] as int == i) {
            let k = choose|k: int| 0 <= k < idx.len() && idx[k] as int == i;
            assert(in_collection(collection_id)(records[idx[k] as int]));
            assert(records[i].collection_id == collection_id);
        }
    }
}

/// A user's listing lists exactly the events that user inserted: every
/// listed position holds an event whose owner is the user, and every event
/// the user inserted is listed, whatever else it holds.
pub proof fn lemma_user_listing_is_exactly_the_users_events(
    records: Seq<EventView>,
    user_id: Seq<char>,
    idx: Seq<usize>,
)
    requires
        listed_by_time(records, owned_by(user_id), idx),
    ensures
        forall|k: int|
            0 <= k < idx.len() ==> idx[k] < records.len() && (#[trigger] records[idx[k] as int]).user_id
                == user_id,
        forall|i: int|
            0 <= i < records.len() ==> ((#[trigger] records[i]).user_id == user_id <==> (exists|k: int|
                0 <= k < idx.len() && idx[k] as int == i)),
{
    assert forall|i: int| 0 <= i < records.len() implies ((#[trigger] records[i]).user_id == user_id
        <==> (exists|k: int| 0 <= k < idx.len() && idx[k] as int == i)) by {
        if records[i].user_id == user_id {
            assert(owned_by(user_id)(records[i]));
        }
        if (exists|k: int| 0 <= k < idx.len() && idx[k] as int == i) {
            let k = choose|k: int| 0 <= k < idx.len() && idx[k] as int == i;
            assert(owned_by(user_id)(records[idx[k] as int]));
            assert(records[i].user_id == user_id);
        }
    }
}

/// A text of plain characters (no quote, backslash or control character)
/// stands unescaped inside a JSON string literal.
proof fn lemma_escape_plain(s: Seq<char>)
    requires
        forall|i: int| 0 <= i < s.len() ==> s[i] != '"' && s[i] != '\\' && (s[i] as int) >= 0x20,
    ensures
        escape(s) == s,
    decreases s.len(),
{
    if s.len() > 0 {
        lemma_escape_plain(s.drop_last());
        assert(s.drop_last().push(s.last()) =~= s);
    }
}

/// The text `"<key>":<value>` of a member whose key is a plain word.
proof fn lemma_member_text(key: Seq<char>, value: Seq<char>)
    requires
        forall|i: int| 0 <= i < key.len() ==> 'a' <= #[trigger] key[i] <= 'z' || key[i] == '_',
    ensures
        member(key, value) == seq!['"'] + key + seq!['"', ':'] + value,
{
    lemma_escape_plain(key);
    assert(member(key, value) =~= seq!['"'] + key + seq!['"', ':'] + value);
}

proof fn lemma_occurs_between(a: Seq<char>, m: Seq<char>, b: Seq<char>)
    ensures
        occurs_at(a + m + b, m, a.len() as int),
{
    assert((a + m + b).subrange(a.len() as int, (a.len() + m.len()) as int) =~= m);
}

/// The text `"published":<flag>` of an event's published flag.
pub open spec fn published_text(published: bool) -> Seq<char> {
    "\"published\":"@ + bool_text(published)
}

/// The text `"cancelled":<flag>` of an event's cancelled flag.
pub open spec fn cancelled_text(cancelled: bool) -> Seq<char> {
    "\"cancelled\":"@ + bool_text(cancelled)
}

proof fn lemma_flag_texts(published: bool, cancelled: bool)
    ensures
        member("published"@, bool_text(published)) == published_text(published),
        member("cancelled"@, bool_text(cancelled)) == cancelled_text(cancelled),
{
    reveal_strlit("published");
    reveal_strlit("cancelled");
    reveal_strlit("\"published\":");
    reveal_strlit("\"cancelled\":");
    lemma_member_text("published"@, bool_text(published));
    lemma_member_text("cancelled"@, bool_text(cancelled));
    assert(published_text(published) =~= seq!['"'] + "published"@ + seq!['"', ':'] + bool_text(published));
    assert(cancelled_text(cancelled) =~= seq!['"'] + "cancelled"@ + seq!['"', ':'] + bool_text(cancelled));
}

/// The JSON of a stored event (listings, cancellation) states the event's
/// own flags: it holds `"published":` with the published flag and
/// `"cancelled":` with the cancelled flag, each independent of the other.
pub proof fn lemma_record_json_states_its_flags(e: EventView)
    ensures
        contains_seq(event_record_json(e), published_text(e.published)),
        contains_seq(event_record_json(e), cancelled_text(e.cancelled)),
{
    lemma_flag_texts(e.published, e.cancelled);
    let a = seq!['{'] + member("id"@, quoted(e.id)) + seq![','] + member("user_id"@, quoted(e.user_id))
        + seq![','] + member("collection_id"@, quoted(e.collection_id)) + seq![','] + member(
        "event"@,
        quoted(e.event),
    ) + seq![','] + member("timestamp"@, decimal(e.timestamp as int)) + seq![','];
    let p = member("published"@, bool_text(e.published));
    let c = member("cancelled"@, bool_text(e.cancelled));
    let b = seq![','] + member("data"@, e.data) + seq!['}'];
    assert(event_record_json(e) =~= a + p + (seq![','] + c + b));
    lemma_occurs_between(a, p, seq![','] + c + b);
    assert(event_record_json(e) =~= (a + p + seq![',']) + c + b);
    lemma_occurs_between(a + p + seq![','], c, b);
}

/// The JSON of an event in an insertion reply states the event's own flags
/// in the same way.
#[verifier::rlimit(50)]
pub proof fn lemma_event_json_states_its_flags(e: EventView)
    ensures
        contains_seq(event_json(e), published_text(e.published)),
        contains_seq(event_json(e), cancelled_text(e.cancelled)),
{
    lemma_flag_texts(e.published, e.cancelled);
    let c = member("cancelled"@, bool_text(e.cancelled));
    let b = seq![','] + member("collection_id"@, quoted(e.collection_id)) + seq![','] + member(
        "data"@,
        e.data,
    ) + seq![','] + member("event"@, quoted(e.event)) + seq![','] + member("id"@, quoted(e.id))
        + seq![','];
    let p = member("published"@, bool_text(e.published));
    let d = seq![','] + member("timestamp"@, decimal(e.timestamp as int)) + seq![','] + member(
        "user_id"@,
        quoted(e.user_id),
    ) + seq!['}'];
    assert(event_json(e) =~= seq!['{'] + c + (b + p + d));
    lemma_occurs_between(seq!['{'], c, b + p + d);
    assert(event_json(e) =~= (seq!['{'] + c + b) + p + d);
    lemma_occurs_between(seq!['{'] + c + b, p, d);
}

/// An event's JSON tells its published flag apart: two events that differ
/// in that flag alone are written differently, whatever their other flags.
pub proof fn lemma_json_tells_published_apart(e: EventView)
    ensures
        event_record_json(e) != event_record_json(EventView { published: !e.published, ..e }),
        event_json(e) != event_json(EventView { published: !e.published, ..e }),
{
    reveal_strlit("true");
    reveal_strlit("false");
    let f = EventView { published: !e.published, ..e };
    assert(event_record_json(e).len() != event_record_json(f).len());
    assert(event_json(e).len() != event_json(f).len());
}

/// An event's JSON tells its cancelled flag apart in the same way.
pub proof fn lemma_json_tells_cancelled_apart(e: EventView)
    ensures
        event_record_json(e) != event_record_json(EventView { cancelled: !e.cancelled, ..e }),
        event_json(e) != event_json(EventView { cancelled: !e.cancelled, ..e }),
{
    reveal_strlit("true");
    reveal_strlit("false");
    let f = EventView { cancelled: !e.cancelled, ..e };
    assert(event_record_json(e).len() != event_record_json(f).len());
    assert(event_json(e).len() != event_json(f).len());
}

/// A well-formed token carries itself in a `Bearer` header.
proof fn lemma_bearer_carries_token_text(t: Seq<char>)
    requires
        is_token_text(t),
    ensures
        token_part_spec("Bearer "@ + t) == Some(t),
{
    reveal_strlit("Bearer");
    assert forall|j: int| 0 <= j < t.len() implies t[j] != ' ' by {
        assert(is_token_char(t[j]));
    }
    let k = choose|i: int| 0 <= i < t.len() && t[i] == '.';
    if t == "Bearer"@ {
        assert(t[k] == "Bearer"@[k]);
    }
    lemma_bearer_header_carries_token(t);
}

/// A header `Bearer <t>`, with `t` a token that carries the claims `c` under
/// the secret, is authorized with exactly `c` at every instant at which `c`
/// has not expired, whatever the secret is.
pub proof fn lemma_fresh_token_authorizes(secret: Seq<char>, c: ClaimsView, t: Seq<char>, now: i64)
    requires
        is_token_text(t),
        jwt_claims(t, secret) == Some(c),
        fresh(c.exp, now),
    ensures
        verify_at_spec("Bearer "@ + t, secret, now) == (true, c),
{
    lemma_bearer_carries_token_text(t);
}

/// A token that has expired, or that does not decode under the secret, is
/// refused, with empty claims.
pub proof fn lemma_stale_or_foreign_token_refused(secret: Seq<char>, t: Seq<char>, now: i64)
    requires
        is_token_text(t),
        jwt_claims(t, secret) matches Some(c) ==> !fresh(c.exp, now),
    ensures
        verify_at_spec("Bearer "@ + t, secret, now) == (false, Claims::spec_empty()),
{
    lemma_bearer_carries_token_text(t);
}

/// Whatever instant the clock gives, a header `Bearer <t>` whose token
/// carries claims `c` under the configured secret and expires no earlier than
/// the latest instant the clock can give is authorized with exactly `c`: a
/// verdict that `jwt_verify` may answer for it is `(true, c)`, for every
/// secret.
pub proof fn lemma_unexpired_token_authorized_now(
    config: Config,
    c: ClaimsView,
    t: Seq<char>,
    verdict: (bool, ClaimsView),
)
    requires
        is_token_text(t),
        jwt_claims(t, config.secret@) == Some(c),
        c.exp >= LATEST_TIMESTAMP,
        exists|now: i64|
            0 <= now <= LATEST_TIMESTAMP && verdict == verify_at_spec("Bearer "@ + t, config.secret@, now),
    ensures
        verdict == (true, c),
{
    let now = choose|now: i64|
        0 <= now <= LATEST_TIMESTAMP && verdict == verify_at_spec("Bearer "@ + t, config.secret@, now);
    lemma_fresh_token_authorizes(config.secret@, c, t, now);
}

/// The token a login grants at `now` expires `expiry` seconds later: its
/// `exp` is the login instant plus the configured lifetime.
pub proof fn lemma_login_token_lifetime(
    users: Seq<UserView>,
    form: LoginView,
    expiry: i64,
    now: i64,
    c: ClaimsView,
)
    requires
        login_spec(users, form, expiry, now) == Some(LoginVerdict::Granted(c)),
        0 <= now + expiry <= i64::MAX,
        now + expiry <= usize::MAX,
    ensures
        c.exp == now + expiry,
{
    let i = first_named(users, form.username)->0;
    assert(c == claims_for(users[i], expiry, now));
    assert(now.wrapping_add(expiry) == now + expiry);
}

/// Two logins at one instant under configurations that differ in the token
/// lifetime alone grant tokens whose expiries differ by the difference of
/// the lifetimes.
pub proof fn lemma_login_lifetimes_differ(
    users: Seq<UserView>,
    form: LoginView,
    e1: i64,
    e2: i64,
    now: i64,
    c1: ClaimsView,
    c2: ClaimsView,
)
    requires
        login_spec(users, form, e1, now) == Some(LoginVerdict::Granted(c1)),
        login_spec(users, form, e2, now) == Some(LoginVerdict::Granted(c2)),
        0 <= now + e1 <= i64::MAX,
        0 <= now + e2 <= i64::MAX,
        now + e1 <= usize::MAX,
        now + e2 <= usize::MAX,
    ensures
        c2.exp - c1.exp == e2 - e1,
        c1.sub == c2.sub,
{
    lemma_login_token_lifetime(users, form, e1, now, c1);
    lemma_login_token_lifetime(users, form, e2, now, c2);
}

/// A granted login is issued at an instant the clock can give: the expiry of
/// its token, less the configured lifetime, lies between the epoch and the
/// latest instant the clock can give.
pub proof fn lemma_login_issued_at_a_clock_reading(
    users: Seq<UserView>,
    form: LoginView,
    expiry: i64,
    c: ClaimsView,
)
    requires
        0 <= expiry <= i64::MAX - LATEST_TIMESTAMP,
        LATEST_TIMESTAMP + expiry <= usize::MAX,
        exists|now: i64|
            0 <= now <= LATEST_TIMESTAMP && login_spec(users, form, expiry, now) == Some(
                LoginVerdict::Granted(c),
            ),
    ensures
        0 <= c.exp - expiry <= LATEST_TIMESTAMP,
{
    let now = choose|now: i64|
        0 <= now <= LATEST_TIMESTAMP && login_spec(users, form, expiry, now) == Some(
            LoginVerdict::Granted(c),
        );
    lemma_login_token_lifetime(users, form, expiry, now, c);
}

/// A token from a granted login authorizes, with exactly the granted claims,
/// every request made until its lifetime (and the leeway) has run out.
pub proof fn lemma_login_token_authorizes_until_expiry(
    users: Seq<UserView>,
    form: LoginView,
    config: Config,
    issued: i64,
    checked: i64,
    c: ClaimsView,
    t: Seq<char>,
)
    requires
        login_spec(users, form, config.expiry, issued) == Some(LoginVerdict::Granted(c)),
        0 <= issued + config.expiry <= i64::MAX,
        issued + config.expiry <= usize::MAX,
        checked <= issued + config.expiry,
        is_token_text(t),
        jwt_claims(t, config.secret@) == Some(c),
    ensures
        verify_at_spec("Bearer "@ + t, config.secret@, checked) == (true, c),
        c.exp == issued + config.expiry,
{
    lemma_login_token_lifetime(users, form, config.expiry, issued, c);
    lemma_fresh_token_authorizes(config.secret@, c, t, checked);
}

} // verus!
