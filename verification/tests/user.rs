use robo::result::Error;
use robo::user::{
    email_free, email_taken, first_found, login, login_outcome, AuthUser, PublicUser, User,
};
use robo::validation::RegisterRequest;

const SALT: &str = "c29tZXNhbHRzb21lc2FsdA";
const OTHER_SALT: &str = "b3RoZXJzYWx0b3RoZXJzYQ";

fn ann() -> RegisterRequest {
    RegisterRequest {
        name: "Ann".to_string(),
        email: "ann@example.com".to_string(),
        password: "secret".to_string(),
    }
}

fn stored(id: i32, password: &str) -> User {
    User {
        id,
        name: "Ann".to_string(),
        email: "ann@example.com".to_string(),
        password: password.to_string(),
    }
}

fn public(id: i32) -> PublicUser {
    PublicUser { id, name: "Ann".to_string(), email: "ann@example.com".to_string() }
}

#[test]
fn registration_stores_the_password_as_its_hash() {
    let user = User::register(ann(), 7, SALT).expect("a hash");
    assert_eq!(user.id, 7);
    assert_eq!(user.name, "Ann");
    assert_eq!(user.email, "ann@example.com");
    assert_ne!(user.password, "secret");
    assert_ne!(user.password, SALT);
    let expected_start = format!("$argon2id$v=19$m=19456,t=2,p=1${}$", SALT);
    assert!(user.password.starts_with(&expected_start), "{}", user.password);
    assert!(user.password.len() > expected_start.len());
}

#[test]
fn the_hash_depends_on_password_and_salt_alone() {
    let first = User::register(ann(), 7, SALT).expect("a hash");
    let again = User::register(ann(), 8, SALT).expect("a hash");
    assert_eq!(first.password, again.password);
    let salted = User::register(ann(), 7, OTHER_SALT).expect("a hash");
    assert_ne!(first.password, salted.password);
    let mut other = ann();
    other.password = "secret!".to_string();
    let changed = User::register(other, 7, SALT).expect("a hash");
    assert_ne!(first.password, changed.password);
}

#[test]
fn a_salt_that_is_refused_gives_no_user() {
    assert_eq!(User::register(ann(), 7, ""), None);
    assert_eq!(User::register(ann(), 7, "abc"), None);
    assert_eq!(User::register(ann(), 7, "not base64!!"), None);
}

#[test]
fn registered_takes_the_hash_as_it_is() {
    assert_eq!(User::registered(ann(), 7, "hash".to_string()), stored(7, "hash"));
}

#[test]
fn login_with_the_right_password_lets_the_user_in() {
    let user = User::register(ann(), 7, SALT).expect("a hash");
    assert_eq!(login(Some(user), "secret"), Ok(public(7)));
}

#[test]
fn login_with_a_wrong_password_is_turned_away() {
    let user = User::register(ann(), 7, SALT).expect("a hash");
    assert_eq!(login(Some(user), "Secret"), Err(Error::Unauthorized));
    let user = User::register(ann(), 7, SALT).expect("a hash");
    assert_eq!(login(Some(user), ""), Err(Error::Unauthorized));
}

#[test]
fn login_against_what_is_no_hash_is_turned_away() {
    assert_eq!(login(Some(stored(7, "secret")), "secret"), Err(Error::Unauthorized));
    assert_eq!(login(Some(stored(7, "")), ""), Err(Error::Unauthorized));
}

#[test]
fn login_under_an_unknown_address_is_turned_away() {
    assert_eq!(login(None, "secret"), Err(Error::Unauthorized));
}

#[test]
fn login_outcome_follows_the_verdict() {
    assert_eq!(login_outcome(stored(7, "h"), Some(true)), Ok(public(7)));
    assert_eq!(login_outcome(stored(7, "h"), Some(false)), Err(Error::Unauthorized));
    assert_eq!(login_outcome(stored(7, "h"), None), Err(Error::Unauthorized));
}

#[test]
fn public_user_leaves_the_password_out() {
    assert_eq!(stored(7, "h").into_public(), public(7));
    let auth = AuthUser { token: "t".to_string(), public_user: public(7) };
    assert_eq!(auth.public_user.id, 7);
}

fn db(message: &str) -> Error {
    Error::Db(message.to_string())
}

#[test]
fn an_address_is_taken_where_a_shard_has_it() {
    assert_eq!(email_taken(Ok(false), Ok(false)), Ok(false));
    assert_eq!(email_taken(Ok(true), Ok(false)), Ok(true));
    assert_eq!(email_taken(Ok(false), Ok(true)), Ok(true));
    assert_eq!(email_taken(Ok(true), Ok(true)), Ok(true));
}

#[test]
fn a_failing_shard_leaves_the_question_open() {
    assert_eq!(email_taken(Err(db("one")), Ok(true)), Err(db("one")));
    assert_eq!(email_taken(Err(db("one")), Err(db("two"))), Err(db("one")));
    assert_eq!(email_taken(Ok(false), Err(db("two"))), Err(db("two")));
    assert_eq!(email_taken(Ok(true), Err(db("two"))), Ok(true));
}

#[test]
fn the_first_shard_comes_first() {
    assert_eq!(first_found(Ok(None), Ok(None)), Ok(None));
    assert_eq!(first_found(Ok(Some(stored(1, "a"))), Ok(None)), Ok(Some(stored(1, "a"))));
    assert_eq!(first_found(Ok(None), Ok(Some(stored(2, "b")))), Ok(Some(stored(2, "b"))));
    assert_eq!(
        first_found(Ok(Some(stored(1, "a"))), Ok(Some(stored(2, "b")))),
        Ok(Some(stored(1, "a")))
    );
    assert_eq!(first_found(Err(db("one")), Ok(Some(stored(2, "b")))), Err(db("one")));
    assert_eq!(first_found(Ok(Some(stored(1, "a"))), Err(db("two"))), Err(db("two")));
    assert_eq!(first_found(Err(db("one")), Err(db("two"))), Err(db("one")));
}

#[test]
fn a_registration_goes_on_where_the_address_is_free() {
    assert_eq!(email_free(Ok(false), Ok(false)), Ok(()));
    assert_eq!(email_free(Ok(true), Ok(false)), Err(Error::EmailTaken));
    assert_eq!(email_free(Ok(false), Ok(true)), Err(Error::EmailTaken));
    assert_eq!(email_free(Ok(true), Err(db("two"))), Err(Error::EmailTaken));
    assert_eq!(email_free(Err(db("one")), Ok(false)), Err(db("one")));
    assert_eq!(email_free(Ok(false), Err(db("two"))), Err(db("two")));
}
