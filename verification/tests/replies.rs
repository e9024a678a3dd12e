use broker::events::new_event;
use broker::json::{event_reply, event_to_json, id_reply, taken_reply, token_reply};
use broker::model::EventForm;
use broker::routes::{content_type, status_for, Route};

#[test]
fn taken_reply_text() {
    assert_eq!(taken_reply(), r#"{"error":"username already taken"}"#);
}

#[test]
fn id_reply_text() {
    assert_eq!(
        id_reply("3ca76743-8d99-4d3f-b85c-633ea456f90c"),
        r#"{"id":"3ca76743-8d99-4d3f-b85c-633ea456f90c"}"#
    );
}

#[test]
fn token_reply_text() {
    assert_eq!(token_reply("aaa.bbb.ccc"), r#"{"jwt":"aaa.bbb.ccc"}"#);
}

#[test]
fn event_json_sorts_members_and_escapes() {
    let form = EventForm {
        collection_id: "3ca76743-8d99-4d3f-b85c-633ea456f90c".to_string(),
        event: "say \"hi\"\n\\\u{1}".to_string(),
        timestamp: -1578667309,
        data: r#"{"a":[1,2]}"#.to_string(),
    };
    let e = new_event(
        "00000000-0000-4000-8000-000000000001".to_string(),
        "00000000-0000-4000-8000-000000000002".to_string(),
        form,
    );
    let expected = r#"{"cancelled":false,"collection_id":"3ca76743-8d99-4d3f-b85c-633ea456f90c","data":{"a":[1,2]},"event":"say \"hi\"\n\\\u0001","id":"00000000-0000-4000-8000-000000000001","published":false,"timestamp":-1578667309,"user_id":"00000000-0000-4000-8000-000000000002"}"#;
    assert_eq!(event_to_json(&e), expected);
    assert_eq!(event_reply(&e), format!("{{\"event\":{}}}", expected));
}

#[test]
fn event_json_escapes_control_characters() {
    let form = EventForm {
        collection_id: "c".to_string(),
        event: "\u{8}\u{c}\t\r\u{1f}é".to_string(),
        timestamp: 0,
        data: "null".to_string(),
    };
    let e = new_event("i".to_string(), "u".to_string(), form);
    assert_eq!(
        event_to_json(&e),
        r#"{"cancelled":false,"collection_id":"c","data":null,"event":"\b\f\t\r\u001fé","id":"i","published":false,"timestamp":0,"user_id":"u"}"#
    );
}

#[test]
fn statuses() {
    assert_eq!(status_for(Route::UserCreate, true), 200);
    assert_eq!(status_for(Route::UserCreate, false), 400);
    assert_eq!(status_for(Route::Login, true), 200);
    assert_eq!(status_for(Route::Login, false), 401);
    assert_eq!(status_for(Route::Insert, true), 200);
    assert_eq!(status_for(Route::Insert, false), 401);
    assert_eq!(content_type(), "application/json");
}

#[test]
fn timestamps_are_written_in_decimal() {
    for (t, text) in [
        (i64::MIN, "-9223372036854775808"),
        (i64::MAX, "9223372036854775807"),
        (-10, "-10"),
        (-1, "-1"),
        (9, "9"),
        (10, "10"),
        (1578667309, "1578667309"),
    ] {
        let form = EventForm {
            collection_id: "c".to_string(),
            event: "e".to_string(),
            timestamp: t,
            data: "1".to_string(),
        };
        let e = new_event("i".to_string(), "u".to_string(), form);
        let expected = format!(
            r#"{{"cancelled":false,"collection_id":"c","data":1,"event":"e","id":"i","published":false,"timestamp":{},"user_id":"u"}}"#,
            text
        );
        assert_eq!(event_to_json(&e), expected);
        assert_eq!(serde_json::to_string(&t).unwrap(), text);
    }
}

#[test]
fn strings_are_escaped_as_serde_json_escapes_them() {
    let mut texts: Vec<String> = (0u32..0x80).map(|c| char::from_u32(c).unwrap().to_string()).collect();
    texts.push(String::new());
    texts.push("héllo \"wörld\"\\\u{7f}\u{2028}😀".to_string());
    texts.push((0u32..0x20).map(|c| char::from_u32(c).unwrap()).collect());
    for t in texts {
        assert_eq!(id_reply(&t), format!("{{\"id\":{}}}", serde_json::to_string(&t).unwrap()));
    }
}
