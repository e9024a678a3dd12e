use broker::events::{cancelled, collection, new_event, owned};
use broker::json::{event_record_to_json, events_array, events_reply, record_reply, user_events_reply};
use broker::model::{Claims, Event, EventForm, User, JWT};
use broker::routes::{handle_cancel, handle_collection, handle_user_events};

fn ev(id: &str, user: &str, coll: &str, ts: i64) -> Event {
    new_event(
        id.to_string(),
        user.to_string(),
        EventForm { collection_id: coll.to_string(), event: "e".to_string(), timestamp: ts, data: "1".to_string() },
    )
}

fn jwt(check: bool) -> JWT {
    JWT { check, claims: Claims { sub: "u1".to_string(), company: String::new(), exp: 0 } }
}

fn records() -> Vec<Event> {
    vec![
        ev("a", "u1", "c1", 30),
        ev("b", "u2", "c1", 10),
        ev("c", "u1", "c2", 20),
        ev("d", "u2", "c1", 10),
        ev("e", "u1", "c1", 5),
    ]
}

#[test]
fn collection_is_listed_by_ascending_time_stably() {
    let rs = records();
    assert_eq!(collection(&rs, "c1"), vec![4, 1, 3, 0]);
    assert_eq!(collection(&rs, "c2"), vec![2]);
    assert_eq!(collection(&rs, "C1"), Vec::<usize>::new());
}

#[test]
fn owned_is_listed_by_ascending_time() {
    let rs = records();
    assert_eq!(owned(&rs, "u1"), vec![4, 2, 0]);
    assert_eq!(owned(&rs, "u2"), vec![1, 3]);
    assert_eq!(owned(&rs, "nobody"), Vec::<usize>::new());
}

#[test]
fn arrays_of_events() {
    let rs = records();
    assert_eq!(events_array(&rs, &vec![]), "[]");
    assert_eq!(events_array(&rs, &vec![1]), format!("[{}]", event_record_to_json(&rs[1])));
    assert_eq!(
        events_array(&rs, &vec![1, 0]),
        format!("[{},{}]", event_record_to_json(&rs[1]), event_record_to_json(&rs[0]))
    );
    assert_eq!(
        events_reply(&rs, &vec![2]),
        format!("{{\"events\":[{}]}}", event_record_to_json(&rs[2]))
    );
    assert_eq!(
        user_events_reply(&rs, &vec![2], &vec![]),
        format!("{{\"info\":[],\"events\":[{}]}}", event_record_to_json(&rs[2]))
    );
}

#[test]
fn collection_route() {
    let rs = records();
    let r = handle_collection(&jwt(false), &rs, "c1");
    assert_eq!(r.status, 401);
    assert_eq!(r.body, "");
    let r = handle_collection(&jwt(true), &rs, "c2");
    assert_eq!(r.status, 200);
    assert_eq!(r.body, format!("{{\"events\":[{}]}}", event_record_to_json(&rs[2])));
}

#[test]
fn user_events_route() {
    let rs = records();
    let user = User {
        id: "u2".to_string(),
        username: "n".to_string(),
        password: "h".to_string(),
        collection_id: "c2".to_string(),
    };
    let r = handle_user_events(&jwt(false), &rs, Some(&user));
    assert_eq!(r.status, 401);
    let r = handle_user_events(&jwt(true), &rs, None);
    assert_eq!(r.status, 401);
    let r = handle_user_events(&jwt(true), &rs, Some(&user));
    assert_eq!(r.status, 200);
    assert_eq!(
        r.body,
        format!(
            "{{\"info\":[{}],\"events\":[{},{}]}}",
            event_record_to_json(&rs[2]),
            event_record_to_json(&rs[1]),
            event_record_to_json(&rs[3])
        )
    );
}

#[test]
fn cancel_route() {
    let e = ev("a", "u1", "c1", 30);
    let (r, c) = handle_cancel(&jwt(false), Some(&e));
    assert_eq!(r.status, 401);
    assert!(c.is_none());
    let (r, c) = handle_cancel(&jwt(true), None);
    assert_eq!(r.status, 404);
    assert!(c.is_none());
    let (r, c) = handle_cancel(&jwt(true), Some(&e));
    assert_eq!(r.status, 200);
    let c = c.unwrap();
    assert!(c.cancelled);
    assert!(!c.published);
    assert_eq!(c.id, "a");
    assert!(r.body.contains("\"cancelled\":true"));
    assert_eq!(r.body, record_reply(&c));
    assert!(cancelled(&e).cancelled);
}

#[test]
fn record_json_follows_field_order() {
    let e = ev("a", "u1", "c1", -7);
    assert_eq!(
        event_record_to_json(&e),
        r#"{"id":"a","user_id":"u1","collection_id":"c1","event":"e","timestamp":-7,"published":false,"cancelled":false,"data":1}"#
    );
}

#[test]
fn event_stream_needs_a_token() {
    let refused = JWT { check: false, claims: Claims { sub: String::new(), company: String::new(), exp: 0 } };
    let reply = broker::routes::handle_events(&refused).unwrap();
    assert_eq!(reply.status, 401);
    assert_eq!(reply.body, "");
    let allowed = JWT { check: true, claims: Claims { sub: "s".to_string(), company: String::new(), exp: 9 } };
    assert!(broker::routes::handle_events(&allowed).is_none());
}
