//! Users: creation under a unique name, and login by name and password.

use vstd::prelude::*;
use crate::clock::{now_timestamp, LATEST_TIMESTAMP};
use crate::ids::{is_uuid_text, new_uuid};
use crate::json::{claims_json, id_reply, id_reply_text, taken_reply, taken_reply_text, token_reply, token_reply_text};
use crate::token::{jwt_token, sign_claims};
use crate::keys::{user_key, user_key_text};
use crate::model::{Claims, ClaimsView, Config, Login, LoginView, User, UserForm, UserView};
use crate::password::{bcrypt_verdict, hash_password, verify_password};

verus! {

/// Some user in `users` has the name `name`.
pub open spec fn username_taken(users: Seq<UserView>, name: Seq<char>) -> bool {
    exists|i: int| 0 <= i < users.len() && #[trigger] users[i].username == name
}

/// No two users in `users` share a name.
pub open spec fn usernames_unique(users: Seq<UserView>) -> bool {
    forall|i: int, j: int|
        0 <= i < users.len() && 0 <= j < users.len() && i != j ==> #[trigger] users[i].username
            != #[trigger] users[j].username
}

/// `i` is the first position in `users` of a user named `name`.
pub open spec fn is_first_named(users: Seq<UserView>, name: Seq<char>, i: int) -> bool {
    &&& 0 <= i < users.len()
    &&& users[i].username == name
    &&& forall|j: int| 0 <= j < i ==> #[trigger] users[j].username != name
}

/// The first position in `users` of a user named `name`, if any.
pub open spec fn first_named(users: Seq<UserView>, name: Seq<char>) -> Option<int> {
    if exists|i: int| is_first_named(users, name, i) {
        Some(choose|i: int| is_first_named(users, name, i))
    } else {
        None
    }
}

/// There is at most one first position of a name.
pub proof fn lemma_first_named_unique(users: Seq<UserView>, name: Seq<char>, i: int)
    requires
        is_first_named(users, name, i),
    ensures
        first_named(users, name) == Some(i),
{
    let k = choose|k: int| is_first_named(users, name, k);
    assert(is_first_named(users, name, k));
    if k < i {
        assert(users[k].username != name);
    } else if i < k {
        assert(users[i].username != name);
    }
}

/// A name has a first position exactly when it is taken.
pub proof fn lemma_first_named_iff_taken(users: Seq<UserView>, name: Seq<char>)
    ensures
        first_named(users, name) is Some <==> username_taken(users, name),
        first_named(users, name) matches Some(i) ==> is_first_named(users, name, i),
{
    if username_taken(users, name) {
        let w = choose|w: int| 0 <= w < users.len() && #[trigger] users[w].username == name;
        lemma_least_position(users, name, w);
        let least = choose|m: int|
            0 <= m <= w && users[m].username == name && forall|j: int|
                0 <= j < m ==> #[trigger] users[j].username != name;
        assert(is_first_named(users, name, least));
        lemma_first_named_unique(users, name, least);
    } else {
        assert forall|i: int| !is_first_named(users, name, i) by {
            if is_first_named(users, name, i) {
                assert(users[i].username == name);
            }
        }
    }
}

proof fn lemma_least_position(users: Seq<UserView>, name: Seq<char>, w: int)
    requires
        0 <= w < users.len(),
        users[w].username == name,
    ensures
        exists|m: int|
            0 <= m <= w && users[m].username == name && forall|j: int|
                0 <= j < m ==> #[trigger] users[j].username != name,
    decreases w,
{
    if exists|j: int| 0 <= j < w && #[trigger] users[j].username == name {
        let j = choose|j: int| 0 <= j < w && #[trigger] users[j].username == name;
        lemma_least_position(users, name, j);
    } else {
        assert(forall|j: int| 0 <= j < w ==> #[trigger] users[j].username != name);
    }
}

/// The position of the first user named `username`, if any.
pub fn find_user(users: &Vec<User>, username: &String) -> (r: Option<usize>)
    ensures
        match r {
            Some(i) => first_named(users.deep_view(), username@) == Some(i as int),
            None => !username_taken(users.deep_view(), username@),
        },
{
    let ghost us = users.deep_view();
    let mut i: usize = 0;
    while i < users.len()
        invariant
            us == users.deep_view(),
            i <= users.len(),
            forall|j: int| 0 <= j < i ==> #[trigger] us[j].username != username@,
        decreases users.len() - i,
    {
        assert(us[i as int] == users@[i as int]@);
        if users[i].username == *username {
            proof {
                lemma_first_named_unique(us, username@, i as int);
            }
            return Some(i);
        }
        i = i + 1;
    }
    assert forall|j: int| 0 <= j < us.len() implies #[trigger] us[j].username != username@ by {}
    None
}

/// A user's stored record: the key it is stored under and the user.
pub struct StoredUser {
    pub key: String,
    pub user: User,
}

/// The outcome of a user creation: whether it succeeded, the reply body, and
/// the record to store when it did.
pub struct UserCreated {
    pub check: bool,
    pub value: String,
    pub record: Option<StoredUser>,
}

/// `c` is a successful creation of the user that `form` describes.
pub open spec fn created_from(c: UserCreated, form: UserForm) -> bool {
    &&& c.check
    &&& c.record matches Some(rec) && {
        &&& is_uuid_text(rec.user.id@)
        &&& rec.key@ == user_key_text(rec.user.id@)
        &&& rec.user.username@ == form.username@
        &&& rec.user.collection_id@ == form.collection_id@
        &&& rec.user.password@.len() == 60
        &&& rec.user.password@.subrange(0, 7) == "$2b$12$"@
        &&& bcrypt_verdict(form.password@, rec.user.password@) == Some(true)
        &&& forall|p: Seq<char>| #[trigger] bcrypt_verdict(p, rec.user.password@) is Some
        &&& c.value@ == id_reply_text(rec.user.id@)
    }
}

/// `c` is the creation of the user that `form` describes, under the id `id`
/// and with the stored password `hash`.
pub open spec fn created_with(c: UserCreated, form: UserForm, id: Seq<char>, hash: Seq<char>) -> bool {
    &&& c.check
    &&& c.record matches Some(rec) && {
        &&& rec.key@ == user_key_text(id)
        &&& rec.user.id@ == id
        &&& rec.user.username@ == form.username@
        &&& rec.user.password@ == hash
        &&& rec.user.collection_id@ == form.collection_id@
    }
    &&& c.value@ == id_reply_text(id)
}

/// The creation of the user that `form` describes, under a drawn id and with
/// the hash made of its password: the record stored under the id's key,
/// holding the hash as the password, and the reply that carries the id.
pub fn created_user(user_form: &UserForm, id: String, hashed: String) -> (c: UserCreated)
    ensures
        created_with(c, *user_form, id@, hashed@),
{
    let key = user_key(id.as_str());
    let value = id_reply(id.as_str());
    let user = User {
        id,
        username: user_form.username.clone(),
        password: hashed,
        collection_id: user_form.collection_id.clone(),
    };
    UserCreated { check: true, value, record: Some(StoredUser { key, user }) }
}

/// `c` is the refusal of a name that is already taken.
pub open spec fn refused_as_taken(c: UserCreated) -> bool {
    &&& !c.check
    &&& c.value@ == taken_reply_text()
    &&& c.record is None
}

/// Creates a user, given the users already stored.
///
/// A taken name is refused. Otherwise the user gets a fresh id, its password
/// is stored as a bcrypt hash, and the reply carries the id. `None` stands
/// for a hash that could not be made because no random salt could be drawn.
pub fn user_create(users: &Vec<User>, user_form: &UserForm) -> (r: Option<UserCreated>)
    ensures
        username_taken(users.deep_view(), user_form.username@) ==> (r matches Some(c)
            && refused_as_taken(c)),
        !username_taken(users.deep_view(), user_form.username@) ==> (r matches Some(c)
            ==> created_from(c, *user_form)),
        r matches Some(c) ==> (c.check ==> (c.record matches Some(rec) && created_with(
            c,
            *user_form,
            rec.user.id@,
            rec.user.password@,
        ))),
{
    match find_user(users, &user_form.username) {
        Some(_) => {
            proof {
                lemma_first_named_iff_taken(users.deep_view(), user_form.username@);
            }
            Some(UserCreated { check: false, value: taken_reply(), record: None })
        },
        None => {
            let id = new_uuid();
            match hash_password(user_form.password.as_str()) {
                None => None,
                Some(hashed) => Some(created_user(user_form, id, hashed)),
            }
        },
    }
}

/// What a login decides.
pub enum LoginOutcome {
    Granted(Claims),
    Denied,
}

pub enum LoginVerdict {
    Granted(ClaimsView),
    Denied,
}

impl View for LoginOutcome {
    type V = LoginVerdict;

    open spec fn view(&self) -> LoginVerdict {
        match self {
            LoginOutcome::Granted(c) => LoginVerdict::Granted(c@),
            LoginOutcome::Denied => LoginVerdict::Denied,
        }
    }
}

/// The verdict an optional outcome holds.
pub open spec fn verdict_of(o: Option<LoginOutcome>) -> Option<LoginVerdict> {
    match o {
        Some(v) => Some(v@),
        None => None,
    }
}

/// The expiry time of a token issued at `now` that lives `expiry` seconds:
/// the sum as the machine adds it (wrapping), taken as an unsigned size.
pub open spec fn expiry_at(now: i64, expiry: i64) -> usize {
    (now.wrapping_add(expiry)) as usize
}

/// The claims granted to a user at `now`.
pub open spec fn claims_for(user: UserView, expiry: i64, now: i64) -> ClaimsView {
    ClaimsView { sub: user.id, company: Seq::empty(), exp: expiry_at(now, expiry) }
}

/// What a login at `now` decides: the first user of the given name is
/// checked against the password; a match is granted claims, a mismatch or an
/// unknown name is denied; `None` where the stored hash cannot be read.
pub open spec fn login_spec(users: Seq<UserView>, form: LoginView, expiry: i64, now: i64) -> Option<
    LoginVerdict,
> {
    match first_named(users, form.username) {
        None => Some(LoginVerdict::Denied),
        Some(i) => match bcrypt_verdict(form.password, users[i].password) {
            None => None,
            Some(true) => Some(LoginVerdict::Granted(claims_for(users[i], expiry, now))),
            Some(false) => Some(LoginVerdict::Denied),
        },
    }
}

/// The claims granted to a user at `now`, for `expiry` seconds.
pub fn grant(user: &User, expiry: i64, now: i64) -> (c: Claims)
    ensures
        c@ == claims_for(user@, expiry, now),
{
    let exp = now.wrapping_add(expiry) as usize;
    Claims { sub: user.id.clone(), company: String::new(), exp }
}

/// Logs in at the given time.
pub fn login_at(users: &Vec<User>, form: &Login, expiry: i64, now: i64) -> (r: Option<
    LoginOutcome,
>)
    ensures
        verdict_of(r) == login_spec(users.deep_view(), form@, expiry, now),
{
    proof {
        lemma_first_named_iff_taken(users.deep_view(), form.username@);
    }
    match find_user(users, &form.username) {
        None => Some(LoginOutcome::Denied),
        Some(i) => {
            assert(users.deep_view()[i as int] == users@[i as int]@);
            match verify_password(form.password.as_str(), users[i].password.as_str()) {
                None => None,
                Some(true) => Some(LoginOutcome::Granted(grant(&users[i], expiry, now))),
                Some(false) => Some(LoginOutcome::Denied),
            }
        },
    }
}

/// The reply to a login: a granted login answers with a token signed under
/// `secret` that carries the granted claims; a denied one answers with an
/// empty body; `None` where the stored hash cannot be read.
pub open spec fn login_reply_spec(verdict: Option<LoginVerdict>, secret: Seq<char>) -> Option<(bool, Seq<char>)> {
    match verdict {
        None => None,
        Some(LoginVerdict::Granted(c)) => Some(
            (true, token_reply_text(jwt_token(claims_json(c), secret))),
        ),
        Some(LoginVerdict::Denied) => Some((false, Seq::empty())),
    }
}

/// The text an optional reply holds.
pub open spec fn reply_of(r: Option<(bool, String)>) -> Option<(bool, Seq<char>)> {
    match r {
        Some((b, s)) => Some((b, s@)),
        None => None,
    }
}

/// The reply to a login's outcome: the signed token, or an empty body.
pub fn login_reply(outcome: LoginOutcome, secret: &str) -> (r: (bool, String))
    ensures
        Some((r.0, r.1@)) == login_reply_spec(Some(outcome@), secret@),
{
    match outcome {
        LoginOutcome::Granted(c) => {
            let token = sign_claims(&c, secret);
            (true, token_reply(token.as_str()))
        },
        LoginOutcome::Denied => (false, String::new()),
    }
}

/// Logs in now, and answers: whether the login is granted, and the reply
/// body, which carries a token whose claims expire `config.expiry` seconds
/// from the current time, signed with `config.secret`. `None` stands for a
/// stored hash that bcrypt cannot read.
pub fn login(users: &Vec<User>, form: &Login, config: &Config) -> (r: Option<(bool, String)>)
    ensures
        exists|now: i64|
            0 <= now <= LATEST_TIMESTAMP && reply_of(r) == login_reply_spec(
                login_spec(users.deep_view(), form@, config.expiry, now),
                config.secret@,
            ),
{
    let now = now_timestamp();
    match login_at(users, form, config.expiry, now) {
        None => None,
        Some(outcome) => Some(login_reply(outcome, config.secret.as_str())),
    }
}

} // verus!
