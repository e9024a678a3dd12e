//! Events: insertion, and the publishing of events whose time has come.
//!
//! An event is inserted unpublished and uncancelled. It is due once the clock
//! reaches its timestamp, unless it is published or cancelled already. Once
//! published it is stored again, marked published, and it becomes the latest
//! event of its name.

use vstd::prelude::*;
use crate::clock::{now_timestamp, LATEST_TIMESTAMP};
use crate::ids::{is_uuid_text, new_uuid, parse_uuid, uuid_canonical};
use crate::json::{event_reply, event_reply_text};
use crate::keys::{event_key, event_key_text};
use crate::model::{Event, EventForm, EventFormView, EventView, SSE};

verus! {

/// The event that an insertion stores.
pub open spec fn new_event_spec(id: Seq<char>, user_id: Seq<char>, form: EventFormView) -> EventView {
    EventView {
        id,
        user_id,
        collection_id: form.collection_id,
        event: form.event,
        timestamp: form.timestamp,
        published: false,
        cancelled: false,
        data: form.data,
    }
}

/// The event that an insertion stores, with the given id and owner.
pub fn new_event(id: String, user_id: String, form: EventForm) -> (e: Event)
    ensures
        e@ == new_event_spec(id@, user_id@, form@),
{
    Event {
        id,
        user_id,
        collection_id: form.collection_id,
        event: form.event,
        timestamp: form.timestamp,
        published: false,
        cancelled: false,
        data: form.data,
    }
}

/// An inserted event: the key it is stored under, the event, and the reply.
pub struct Inserted {
    pub key: String,
    pub event: Event,
    pub value: String,
}

/// `ins` is an insertion of `form` by the user whose id text is `user_id`.
pub open spec fn inserted_as(ins: Inserted, user_id: Seq<char>, form: EventFormView) -> bool {
    &&& uuid_canonical(user_id) == Some(ins.event.user_id@)
    &&& is_uuid_text(ins.event.id@)
    &&& ins.event@ == new_event_spec(ins.event.id@, ins.event.user_id@, form)
    &&& ins.key@ == event_key_text(ins.event.id@)
    &&& ins.value@ == event_reply_text(ins.event@)
}

/// Inserts an event on behalf of the user whose id is `user_id_str`, which
/// must be a UUID.
///
/// The event gets a fresh id, its owner is the user id as a UUID renders,
/// and it starts unpublished and uncancelled; the reply carries the event.
pub fn insert(user_id_str: &str, evt: EventForm) -> (r: Inserted)
    requires
        uuid_canonical(user_id_str@) is Some,
    ensures
        inserted_as(r, user_id_str@, evt@),
        is_uuid_text(user_id_str@) ==> r.event.user_id@ == user_id_str@,
{
    let user_id = match parse_uuid(user_id_str) {
        Some(u) => u,
        None => {
            proof {
                assert(false);
            }
            String::new()
        },
    };
    let id = new_uuid();
    let event = new_event(id, user_id, evt);
    let value = event_reply(&event);
    let key = event_key(event.id.as_str());
    Inserted { key, event, value }
}

/// An event is due at `now` when its time has come and it is neither
/// published nor cancelled.
pub open spec fn is_due_spec(e: EventView, now: i64) -> bool {
    e.timestamp <= now && !e.published && !e.cancelled
}

/// Whether an event is due at `now`.
pub fn is_due(e: &Event, now: i64) -> (r: bool)
    ensures
        r == is_due_spec(e@, now),
{
    e.timestamp <= now && !e.published && !e.cancelled
}

/// `idx` lists, in increasing order, exactly the positions of the events in
/// `records` that are due at `now`.
pub open spec fn due_positions(records: Seq<EventView>, now: i64, idx: Seq<usize>) -> bool {
    &&& forall|k: int, l: int| 0 <= k < l < idx.len() ==> idx[k] < idx[l]
    &&& forall|k: int|
        0 <= k < idx.len() ==> idx[k] < records.len() && is_due_spec(
            records[idx[k] as int],
            now,
        )
    &&& forall|i: int|
        0 <= i < records.len() && is_due_spec(records[i], now) ==> exists|k: int|
            0 <= k < idx.len() && idx[k] == i
}

/// The positions of the events that are due at `now`.
pub fn due_events(records: &Vec<Event>, now: i64) -> (r: Vec<usize>)
    ensures
        due_positions(records.deep_view(), now, r@),
{
    let ghost rs = records.deep_view();
    let mut r: Vec<usize> = Vec::new();
    let mut i: usize = 0;
    while i < records.len()
        invariant
            rs == records.deep_view(),
            i <= records.len(),
            forall|k: int, l: int| 0 <= k < l < r@.len() ==> r@[k] < r@[l],
            forall|k: int| 0 <= k < r@.len() ==> r@[k] < i && is_due_spec(rs[r@[k] as int], now),
            forall|j: int|
                0 <= j < i && is_due_spec(rs[j], now) ==> exists|k: int|
                    0 <= k < r@.len() && r@[k] == j,
        decreases records.len() - i,
    {
        assert(rs[i as int] == records@[i as int]@);
        if is_due(&records[i], now) {
            let ghost old_r = r@;
            r.push(i);
            assert forall|j: int|
                0 <= j < i + 1 && is_due_spec(rs[j], now) implies exists|k: int|
                0 <= k < r@.len() && r@[k] == j by {
                if j < i {
                    let k = choose|k: int| 0 <= k < old_r.len() && old_r[k] == j;
                    assert(r@[k] == j);
                } else {
                    assert(r@[old_r.len() as int] == j);
                }
            }
        }
        i = i + 1;
    }
    r
}

/// The positions of the events that are due now.
pub fn select_due(records: &Vec<Event>) -> (r: Vec<usize>)
    ensures
        exists|now: i64| 0 <= now <= LATEST_TIMESTAMP && due_positions(records.deep_view(), now, r@),
{
    let now = now_timestamp();
    due_events(records, now)
}

/// An event marked published, all else kept.
pub open spec fn published_spec(e: EventView) -> EventView {
    EventView { published: true, ..e }
}

/// The event marked published, all else kept.
pub fn published(e: &Event) -> (r: Event)
    ensures
        r@ == published_spec(e@),
{
    let mut p = e.duplicate();
    p.published = true;
    p
}

/// The retry interval, in milliseconds, that every message of the stream
/// carries.
pub open spec fn retry_interval() -> u64 {
    5000
}

/// The message that announces an event on the stream.
pub open spec fn announces(m: SSE, e: EventView) -> bool {
    &&& m.event@ == e.event
    &&& m.data@ == e.data
    &&& is_uuid_text(m.id@)
    &&& m.retry_ms == retry_interval()
}

/// The message that announces an event, with a fresh message id.
pub fn announce(e: &Event) -> (m: SSE)
    ensures
        announces(m, e@),
{
    SSE { event: e.event.clone(), data: e.data.clone(), id: new_uuid(), retry_ms: 5000 }
}

/// The publication of a due event: the message for the stream, and the
/// writes to the store: the record under `record_key` goes from `before` to
/// `after`, and `after` becomes the latest event under `latest_key`.
pub struct Publication {
    pub message: SSE,
    pub latest_key: String,
    pub record_key: String,
    pub before: Event,
    pub after: Event,
}

/// Publishes the event stored under `key`.
pub fn publish(key: &str, e: &Event) -> (p: Publication)
    ensures
        announces(p.message, e@),
        p.latest_key@ == e.event@,
        p.record_key@ == key@,
        p.before@ == e@,
        p.after@ == published_spec(e@),
{
    let message = announce(e);
    let after = published(e);
    Publication {
        message,
        latest_key: e.event.clone(),
        record_key: key.to_owned(),
        before: e.duplicate(),
        after,
    }
}

/// No later event in `latest` has the name of the event at `i`.
pub open spec fn is_last_of_name(latest: Seq<EventView>, i: int) -> bool {
    forall|j: int| i < j < latest.len() ==> #[trigger] latest[j].event != latest[i].event
}

/// `idx` lists, in increasing order, exactly the positions in `latest` of the
/// last event of each name.
pub open spec fn last_positions(latest: Seq<EventView>, idx: Seq<usize>) -> bool {
    &&& forall|k: int, l: int| 0 <= k < l < idx.len() ==> idx[k] < idx[l]
    &&& forall|k: int|
        0 <= k < idx.len() ==> idx[k] < latest.len() && is_last_of_name(latest, idx[k] as int)
    &&& forall|i: int|
        0 <= i < latest.len() && is_last_of_name(latest, i) ==> exists|k: int|
            0 <= k < idx.len() && idx[k] == i
}

/// The positions of the last event of each name.
pub fn last_of_each_name(latest: &Vec<Event>) -> (r: Vec<usize>)
    ensures
        last_positions(latest.deep_view(), r@),
{
    let ghost ls = latest.deep_view();
    let n = latest.len();
    let mut r: Vec<usize> = Vec::new();
    let mut i: usize = 0;
    while i < n
        invariant
            ls == latest.deep_view(),
            n == latest.len(),
            i <= n,
            forall|k: int, l: int| 0 <= k < l < r@.len() ==> r@[k] < r@[l],
            forall|k: int| 0 <= k < r@.len() ==> r@[k] < i && is_last_of_name(ls, r@[k] as int),
            forall|j: int|
                0 <= j < i && is_last_of_name(ls, j) ==> exists|k: int|
                    0 <= k < r@.len() && r@[k] == j,
        decreases n - i,
    {
        let mut last = true;
        let mut j: usize = i + 1;
        while j < n
            invariant
                ls == latest.deep_view(),
                n == latest.len(),
                i < j <= n,
                last == forall|m: int| i < m < j ==> #[trigger] ls[m].event != ls[i as int].event,
            decreases n - j,
        {
            assert(ls[j as int] == latest@[j as int]@);
            assert(ls[i as int] == latest@[i as int]@);
            let same = latest[j].event == latest[i].event;
            if same {
                last = false;
            }
            proof {
                if same {
                    assert(ls[j as int].event == ls[i as int].event);
                } else {
                    assert(ls[j as int].event != ls[i as int].event);
                }
            }
            j = j + 1;
        }
        if last {
            let ghost old_r = r@;
            r.push(i);
            assert forall|m: int|
                0 <= m < i + 1 && is_last_of_name(ls, m) implies exists|k: int|
                0 <= k < r@.len() && r@[k] == m by {
                if m < i {
                    let k = choose|k: int| 0 <= k < old_r.len() && old_r[k] == m;
                    assert(r@[k] == m);
                } else {
                    assert(r@[old_r.len() as int] == m);
                }
            }
        }
        i = i + 1;
    }
    r
}

/// The messages a new subscriber receives first: one for each name that has
/// a latest event, carrying the data of the last event read under that name.
/// Message `k` announces the event at position `positions[k]`, where
/// `positions` is what `last_of_each_name` gives.
pub fn initial_messages(latest: &Vec<Event>) -> (r: Vec<SSE>)
    ensures
        exists|positions: Seq<usize>|
            {
                &&& last_positions(latest.deep_view(), positions)
                &&& positions.len() == r@.len()
                &&& forall|k: int|
                    0 <= k < r@.len() ==> announces(
                        #[trigger] r@[k],
                        latest.deep_view()[positions[k] as int],
                    )
            },
{
    let positions = last_of_each_name(latest);
    let ghost ls = latest.deep_view();
    let mut r: Vec<SSE> = Vec::new();
    let mut k: usize = 0;
    while k < positions.len()
        invariant
            ls == latest.deep_view(),
            last_positions(ls, positions@),
            k <= positions.len(),
            r@.len() == k,
            forall|m: int| 0 <= m < k ==> announces(#[trigger] r@[m], ls[positions@[m] as int]),
        decreases positions.len() - k,
    {
        let p = positions[k];
        assert(ls[p as int] == latest@[p as int]@);
        let m = announce(&latest[p]);
        r.push(m);
        k = k + 1;
    }
    r
}

/// An event marked cancelled, all else kept.
pub open spec fn cancelled_spec(e: EventView) -> EventView {
    EventView { cancelled: true, ..e }
}

/// The event marked cancelled, all else kept.
pub fn cancelled(e: &Event) -> (r: Event)
    ensures
        r@ == cancelled_spec(e@),
{
    let mut c = e.duplicate();
    c.cancelled = true;
    c
}

/// In a listing by time, the event at `a` comes before the event at `b`:
/// it is earlier, or as early and stored first.
pub open spec fn time_before(records: Seq<EventView>, a: int, b: int) -> bool {
    records[a].timestamp < records[b].timestamp || (records[a].timestamp
        == records[b].timestamp && a < b)
}

/// `idx` lists the positions of the events that `chosen` selects, ordered by
/// ascending timestamp, events of equal timestamp in the order they are
/// stored.
pub open spec fn listed_by_time(
    records: Seq<EventView>,
    chosen: spec_fn(EventView) -> bool,
    idx: Seq<usize>,
) -> bool {
    &&& forall|k: int, l: int|
        0 <= k < l < idx.len() ==> time_before(records, idx[k] as int, idx[l] as int)
    &&& forall|k: int| 0 <= k < idx.len() ==> idx[k] < records.len() && chosen(records[idx[k] as int])
    &&& forall|i: int|
        0 <= i < records.len() && chosen(records[i]) ==> exists|k: int| 0 <= k < idx.len() && idx[k] == i
}

/// The events of a collection.
pub open spec fn in_collection(collection_id: Seq<char>) -> spec_fn(EventView) -> bool {
    |e: EventView| e.collection_id == collection_id
}

/// The events a user inserted.
pub open spec fn owned_by(user_id: Seq<char>) -> spec_fn(EventView) -> bool {
    |e: EventView| e.user_id == user_id
}

fn list_by_time(records: &Vec<Event>, mask: &Vec<bool>, Ghost(chosen): Ghost<spec_fn(EventView) -> bool>) -> (r: Vec<usize>)
    requires
        mask@.len() == records@.len(),
        forall|i: int| 0 <= i < mask@.len() ==> mask@[i] == chosen(records@[i]@),
    ensures
        listed_by_time(records.deep_view(), chosen, r@),
{
    let ghost rs = records.deep_view();
    let n = records.len();
    let mut out: Vec<usize> = Vec::new();
    let mut i: usize = 0;
    while i < n
        invariant
            rs == records.deep_view(),
            n == records.len(),
            mask@.len() == n,
            forall|j: int| 0 <= j < mask@.len() ==> mask@[j] == chosen(records@[j]@),
            i <= n,
            forall|k: int, l: int|
                0 <= k < l < out@.len() ==> time_before(rs, out@[k] as int, out@[l] as int),
            forall|k: int| 0 <= k < out@.len() ==> out@[k] < i && chosen(rs[out@[k] as int]),
            forall|j: int|
                0 <= j < i && chosen(rs[j]) ==> exists|k: int| 0 <= k < out@.len() && out@[k] == j,
        decreases n - i,
    {
        assert(rs[i as int] == records@[i as int]@);
        if mask[i] {
            let t = records[i].timestamp;
            let mut p: usize = 0;
            while p < out.len() && records[out[p]].timestamp <= t
                invariant
                    rs == records.deep_view(),
                    n == records.len(),
                    i < n,
                    t == rs[i as int].timestamp,
                    p <= out@.len(),
                    forall|k: int| 0 <= k < out@.len() ==> out@[k] < i,
                    forall|k: int| 0 <= k < p ==> rs[out@[k] as int].timestamp <= t,
                decreases out.len() - p,
            {
                assert(rs[out@[p as int] as int] == records@[out@[p as int] as int]@);
                p = p + 1;
            }
            proof {
                if p < out@.len() {
                    assert(rs[out@[p as int] as int] == records@[out@[p as int] as int]@);
                }
            }
            let ghost old_out = out@;
            out.insert(p, i);
            assert(out@ == old_out.insert(p as int, i));
            assert forall|k: int, l: int|
                0 <= k < l < out@.len() implies time_before(rs, out@[k] as int, out@[l] as int) by {
                if l < p {
                    assert(out@[k] == old_out[k] && out@[l] == old_out[l]);
                } else if l == p {
                    assert(out@[k] == old_out[k]);
                } else if k < p {
                    assert(out@[k] == old_out[k] && out@[l] == old_out[l - 1]);
                } else if k == p {
                    assert(out@[l] == old_out[l - 1]);
                    if p < l - 1 {
                        assert(time_before(rs, old_out[p as int] as int, old_out[l - 1] as int));
                    }
                } else {
                    assert(out@[k] == old_out[k - 1] && out@[l] == old_out[l - 1]);
                }
            }
            assert forall|j: int|
                0 <= j < i + 1 && chosen(rs[j]) implies exists|k: int|
                0 <= k < out@.len() && out@[k] == j by {
                if j < i {
                    let k = choose|k: int| 0 <= k < old_out.len() && old_out[k] == j;
                    if k < p {
                        assert(out@[k] == j);
                    } else {
                        assert(out@[k + 1] == j);
                    }
                } else {
                    assert(out@[p as int] == j);
                }
            }
        }
        i = i + 1;
    }
    out
}

/// The positions of the events of a collection, listed by time.
pub fn collection(records: &Vec<Event>, collection_id: &str) -> (r: Vec<usize>)
    ensures
        listed_by_time(records.deep_view(), in_collection(collection_id@), r@),
        forall|k: int|
            0 <= k < r@.len() ==> r@[k] < records@.len() && (#[trigger] records@[r@[k] as int]).collection_id@
                == collection_id@,
        forall|i: int|
            0 <= i < records@.len() && (#[trigger] records@[i]).collection_id@ == collection_id@
                ==> r@.contains(i as usize),
{
    let id = collection_id.to_owned();
    let mut mask: Vec<bool> = Vec::new();
    let mut i: usize = 0;
    while i < records.len()
        invariant
            i <= records@.len(),
            id@ == collection_id@,
            mask@.len() == i,
            forall|j: int| 0 <= j < i ==> mask@[j] == in_collection(collection_id@)(records@[j]@),
        decreases records.len() - i,
    {
        mask.push(records[i].collection_id == id);
        i = i + 1;
    }
    let r = list_by_time(records, &mask, Ghost(in_collection(collection_id@)));
    proof {
        let rs = records.deep_view();
        assert forall|k: int| 0 <= k < r@.len() implies r@[k] < records@.len() && (
        #[trigger] records@[r@[k] as int]).collection_id@ == collection_id@ by {
            assert(rs[r@[k] as int] == records@[r@[k] as int]@);
        }
        assert forall|i: int|
            0 <= i < records@.len() && (#[trigger] records@[i]).collection_id@
                == collection_id@ implies r@.contains(i as usize) by {
            assert(rs[i] == records@[i]@);
            let k = choose|k: int| 0 <= k < r@.len() && r@[k] == i;
            assert(r@[k] == i as usize);
        }
    }
    r
}

/// The positions of the events a user inserted, listed by time.
pub fn owned(records: &Vec<Event>, user_id: &str) -> (r: Vec<usize>)
    ensures
        listed_by_time(records.deep_view(), owned_by(user_id@), r@),
        forall|k: int|
            0 <= k < r@.len() ==> r@[k] < records@.len() && (#[trigger] records@[r@[k] as int]).user_id@
                == user_id@,
        forall|i: int|
            0 <= i < records@.len() && (#[trigger] records@[i]).user_id@ == user_id@ ==> r@.contains(
                i as usize,
            ),
{
    let id = user_id.to_owned();
    let mut mask: Vec<bool> = Vec::new();
    let mut i: usize = 0;
    while i < records.len()
        invariant
            i <= records@.len(),
            id@ == user_id@,
            mask@.len() == i,
            forall|j: int| 0 <= j < i ==> mask@[j] == owned_by(user_id@)(records@[j]@),
        decreases records.len() - i,
    {
        mask.push(records[i].user_id == id);
        i = i + 1;
    }
    let r = list_by_time(records, &mask, Ghost(owned_by(user_id@)));
    proof {
        let rs = records.deep_view();
        assert forall|k: int| 0 <= k < r@.len() implies r@[k] < records@.len() && (
        #[trigger] records@[r@[k] as int]).user_id@ == user_id@ by {
            assert(rs[r@[k] as int] == records@[r@[k] as int]@);
        }
        assert forall|i: int|
            0 <= i < records@.len() && (#[trigger] records@[i]).user_id@ == user_id@ implies r@.contains(
            i as usize,
        ) by {
            assert(rs[i] == records@[i]@);
            let k = choose|k: int| 0 <= k < r@.len() && r@[k] == i;
            assert(r@[k] == i as usize);
        }
    }
    r
}

} // verus!
