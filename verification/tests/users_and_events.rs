use broker::events::{
    due_events, initial_messages, insert, is_due, last_of_each_name, new_event, publish,
    published, select_due,
};
use broker::model::{Cfg, Config, Event, EventForm, Flags, Login, User, UserForm, JWT, Claims};
use broker::routes::handle_insert;
use broker::users::{find_user, grant, login, login_at, login_reply, user_create, LoginOutcome};

fn is_uuid_text(s: &str) -> bool {
    s.len() == 36
        && s.chars().enumerate().all(|(i, c)| {
            if i == 8 || i == 13 || i == 18 || i == 23 {
                c == '-'
            } else {
                c.is_ascii_digit() || ('a'..='f').contains(&c)
            }
        })
}

fn stored_user(name: &str, password_hash: &str) -> User {
    User {
        id: "3ca76743-8d99-4d3f-b85c-633ea456f90a".to_string(),
        username: name.to_string(),
        password: password_hash.to_string(),
        collection_id: "3ca76743-8d99-4d3f-b85c-633ea456f90c".to_string(),
    }
}

fn config() -> Config {
    Config::from_parts(Flags::defaults(), Cfg { save_path: "./tmp/data".to_string() })
}

#[test]
fn defaults_and_config() {
    let f = Flags::defaults();
    assert_eq!(f.port, "8080");
    assert_eq!(f.expiry, 3600);
    assert_eq!(f.origin, "http://localhost:3000");
    assert_eq!(f.secret, "secret");
    let c = config();
    assert_eq!(c.port, "8080");
    assert_eq!(c.expiry, 3600);
    assert_eq!(c.origin, "http://localhost:3000");
    assert_eq!(c.secret, "secret");
    assert_eq!(c.save_path, "./tmp/data");
}

#[test]
fn taken_name_is_refused() {
    let users = vec![stored_user("rust22", "x")];
    let form = UserForm {
        username: "rust22".to_string(),
        password: "rust".to_string(),
        collection_id: "3ca76743-8d99-4d3f-b85c-633ea456f90c".to_string(),
    };
    let c = user_create(&users, &form).unwrap();
    assert!(!c.check);
    assert_eq!(c.value, r#"{"error":"username already taken"}"#);
    assert!(c.record.is_none());
}

#[test]
fn find_user_gives_first_match() {
    let users = vec![stored_user("a", "1"), stored_user("b", "2"), stored_user("b", "3")];
    assert_eq!(find_user(&users, &"b".to_string()), Some(1));
    assert_eq!(find_user(&users, &"a".to_string()), Some(0));
    assert_eq!(find_user(&users, &"c".to_string()), None);
}

#[test]
fn create_then_login() {
    let mut users = vec![stored_user("rust23", "x")];
    let form = UserForm {
        username: "rust22".to_string(),
        password: "rust".to_string(),
        collection_id: "3ca76743-8d99-4d3f-b85c-633ea456f90c".to_string(),
    };
    let c = user_create(&users, &form).unwrap();
    assert!(c.check);
    let rec = c.record.unwrap();
    assert!(is_uuid_text(&rec.user.id));
    assert_eq!(rec.key, format!("_u_{}", rec.user.id));
    assert_eq!(rec.user.username, "rust22");
    assert_eq!(rec.user.collection_id, "3ca76743-8d99-4d3f-b85c-633ea456f90c");
    assert_ne!(rec.user.password, "rust");
    assert_eq!(rec.user.password.len(), 60);
    assert!(rec.user.password.starts_with("$2b$12$"));
    assert_eq!(bcrypt::verify("rust", &rec.user.password).unwrap(), true);
    assert_eq!(c.value, format!("{{\"id\":\"{}\"}}", rec.user.id));
    let id = rec.user.id.clone();
    users.push(rec.user);

    let again = user_create(&users, &form).unwrap();
    assert!(!again.check);

    let login_form = Login { username: "rust22".to_string(), password: "rust".to_string() };
    match login_at(&users, &login_form, 3600, 1_000) {
        Some(LoginOutcome::Granted(claims)) => {
            assert_eq!(claims.sub, id);
            assert_eq!(claims.company, "");
            assert_eq!(claims.exp, 4_600);
        },
        _ => panic!("login refused"),
    }
}

#[test]
fn wrong_password_is_denied() {
    let form = UserForm {
        username: "u".to_string(),
        password: "right".to_string(),
        collection_id: "c".to_string(),
    };
    let c = user_create(&vec![], &form).unwrap();
    let users = vec![c.record.unwrap().user];
    let login_form = Login { username: "u".to_string(), password: "wrong".to_string() };
    assert_eq!(login(&users, &login_form, &config()), Some((false, String::new())));
}

#[test]
fn unknown_name_is_denied() {
    let users = vec![stored_user("someone", "not-a-hash")];
    let login_form = Login { username: "nobody".to_string(), password: "p".to_string() };
    assert!(matches!(login_at(&users, &login_form, 3600, 0), Some(LoginOutcome::Denied)));
}

#[test]
fn unreadable_hash_gives_none() {
    let users = vec![stored_user("someone", "not-a-hash")];
    let login_form = Login { username: "someone".to_string(), password: "p".to_string() };
    assert!(login_at(&users, &login_form, 3600, 0).is_none());
}

#[test]
fn login_answers_with_a_token() {
    let form = UserForm { username: "u".to_string(), password: "p".to_string(), collection_id: "c".to_string() };
    let c = user_create(&vec![], &form).unwrap();
    let users = vec![c.record.unwrap().user];
    let login_form = Login { username: "u".to_string(), password: "p".to_string() };
    let (check, body) = login(&users, &login_form, &config()).unwrap();
    assert!(check);
    assert!(body.starts_with("{\"jwt\":\""));
    assert!(body.ends_with("\"}"));
    let token = &body[8..body.len() - 2];
    assert_eq!(token.matches('.').count(), 2);
}

#[test]
fn login_reply_of_a_denial_is_empty() {
    assert_eq!(login_reply(LoginOutcome::Denied, "secret"), (false, String::new()));
}

#[test]
fn grant_wraps_like_the_machine() {
    let u = stored_user("a", "h");
    assert_eq!(grant(&u, 10, 5).exp, 15);
    assert_eq!(grant(&u, -10, 5).exp, (-5i64) as usize);
    assert_eq!(grant(&u, i64::MAX, 1).exp, i64::MIN as usize);
}

fn form(name: &str, timestamp: i64) -> EventForm {
    EventForm {
        collection_id: "3ca76743-8d99-4d3f-b85c-633ea456f90c".to_string(),
        event: name.to_string(),
        timestamp,
        data: "\"{}\"".to_string(),
    }
}

#[test]
fn insert_makes_an_unpublished_event() {
    let user = "3ca76743-8d99-4d3f-b85c-633ea456f90a";
    let ins = insert(user, form("test", 1578667309));
    assert!(!ins.event.published);
    assert!(!ins.event.cancelled);
    assert_eq!(ins.event.user_id, user);
    assert_eq!(ins.event.event, "test");
    assert_eq!(ins.event.timestamp, 1578667309);
    assert_eq!(ins.event.data, "\"{}\"");
    assert!(is_uuid_text(&ins.event.id));
    assert_eq!(ins.key, format!("_v_{}", ins.event.id));
    assert!(ins.value.starts_with("{\"event\":{\"cancelled\":false,"));
    assert!(ins.value.contains("\"published\":false"));
}

#[test]
fn insert_canonicalises_the_user_id() {
    let ins = insert("3CA76743-8D99-4D3F-B85C-633EA456F90A", form("test", 1));
    assert_eq!(ins.event.user_id, "3ca76743-8d99-4d3f-b85c-633ea456f90a");
    let ins = insert("3ca767438d994d3fb85c633ea456f90a", form("test", 1));
    assert_eq!(ins.event.user_id, "3ca76743-8d99-4d3f-b85c-633ea456f90a");
}

#[test]
fn two_insertions_differ_only_in_id() {
    let user = "3ca76743-8d99-4d3f-b85c-633ea456f90a";
    let a = insert(user, form("test", 5));
    let b = insert(user, form("test", 5));
    assert_ne!(a.event.id, b.event.id);
    assert_ne!(a.key, b.key);
    assert_eq!(a.event.user_id, b.event.user_id);
    assert_eq!(a.event.collection_id, b.event.collection_id);
    assert_eq!(a.event.event, b.event.event);
    assert_eq!(a.event.timestamp, b.event.timestamp);
    assert_eq!(a.event.data, b.event.data);
}

fn jwt(check: bool, sub: &str) -> JWT {
    JWT { check, claims: Claims { sub: sub.to_string(), company: String::new(), exp: 0 } }
}

#[test]
fn insert_route_requires_authorization() {
    let (reply, rec) = handle_insert(&jwt(false, ""), form("test", 1));
    assert_eq!(reply.status, 401);
    assert_eq!(reply.body, "");
    assert!(rec.is_none());
    let (reply, rec) = handle_insert(&jwt(true, "1234"), form("test", 1));
    assert_eq!(reply.status, 401);
    assert!(rec.is_none());
    let (reply, rec) = handle_insert(&jwt(true, ""), form("test", 1));
    assert_eq!(reply.status, 401);
    assert!(rec.is_none());
    let (reply, rec) = handle_insert(&jwt(true, "3ca76743-8d99-4d3f-b85c-633ea456f90a"), form("test", 1));
    assert_eq!(reply.status, 200);
    let ins = rec.unwrap();
    assert_eq!(reply.body, ins.value);
    assert_eq!(ins.event.user_id, "3ca76743-8d99-4d3f-b85c-633ea456f90a");
}

fn event(name: &str, timestamp: i64, published: bool, cancelled: bool) -> Event {
    let mut e = new_event("i".to_string(), "u".to_string(), form(name, timestamp));
    e.published = published;
    e.cancelled = cancelled;
    e
}

#[test]
fn due_events_are_past_unpublished_uncancelled() {
    let records = vec![
        event("a", 10, false, false),
        event("b", 30, false, false),
        event("c", 10, true, false),
        event("d", 10, false, true),
        event("e", 20, false, false),
    ];
    assert_eq!(due_events(&records, 20), vec![0, 4]);
    assert_eq!(due_events(&records, 9), Vec::<usize>::new());
    assert_eq!(due_events(&records, 30), vec![0, 1, 4]);
    assert!(is_due(&records[0], 10));
    assert!(!is_due(&records[1], 29));
}

#[test]
fn future_events_wait_past_events_go() {
    let now = std::time::SystemTime::now()
        .duration_since(std::time::UNIX_EPOCH)
        .unwrap()
        .as_secs() as i64;
    let records = vec![event("test", 1578667309, false, false), event("user", now + 1000, false, false)];
    assert_eq!(select_due(&records), vec![0]);
}

#[test]
fn publishing_marks_and_announces() {
    let e = event("test", 10, false, false);
    let p = publish("_v_i", &e);
    assert!(p.after.published);
    assert!(!p.before.published);
    assert_eq!(p.after.event, "test");
    assert_eq!(p.after.timestamp, 10);
    assert_eq!(p.latest_key, "test");
    assert_eq!(p.record_key, "_v_i");
    assert_eq!(p.message.event, "test");
    assert_eq!(p.message.data, "\"{}\"");
    assert_eq!(p.message.retry_ms, 5000);
    assert!(is_uuid_text(&p.message.id));
    assert!(!is_due(&p.after, 100));
    assert!(published(&p.after).published);
}

#[test]
fn initial_messages_keep_the_last_of_each_name() {
    let mut first = event("a", 1, true, false);
    first.data = "1".to_string();
    let mut second = event("b", 2, true, false);
    second.data = "2".to_string();
    let mut third = event("a", 3, true, false);
    third.data = "3".to_string();
    let latest = vec![first, second, third];
    assert_eq!(last_of_each_name(&latest), vec![1, 2]);
    let msgs = initial_messages(&latest);
    assert_eq!(msgs.len(), 2);
    assert_eq!(msgs[0].event, "b");
    assert_eq!(msgs[0].data, "2");
    assert_eq!(msgs[1].event, "a");
    assert_eq!(msgs[1].data, "3");
    assert!(is_uuid_text(&msgs[0].id));
    assert_ne!(msgs[0].id, msgs[1].id);
    assert_eq!(msgs[1].retry_ms, 5000);
}

#[test]
fn created_user_holds_the_given_hash() {
    let form = UserForm {
        username: "bob".to_string(),
        password: "secret".to_string(),
        collection_id: "col".to_string(),
    };
    let c = broker::users::created_user(&form, "00000000-0000-4000-8000-000000000007".to_string(), "$2b$12$hash".to_string());
    assert!(c.check);
    assert_eq!(c.value, "{\"id\":\"00000000-0000-4000-8000-000000000007\"}");
    let rec = c.record.unwrap();
    assert_eq!(rec.key, broker::keys::user_key("00000000-0000-4000-8000-000000000007"));
    assert_eq!(rec.user.id, "00000000-0000-4000-8000-000000000007");
    assert_eq!(rec.user.username, "bob");
    assert_eq!(rec.user.password, "$2b$12$hash");
    assert_eq!(rec.user.collection_id, "col");
}

#[test]
fn created_hash_is_readable_for_any_password() {
    let form = UserForm { username: "eve".to_string(), password: "pw".to_string(), collection_id: "c".to_string() };
    let user = user_create(&vec![], &form).unwrap().record.unwrap().user;
    for p in ["", "pw", "other", "a very long password that goes on and on beyond seventy two bytes of text"] {
        assert!(bcrypt::verify(p, &user.password).is_ok());
    }
}
