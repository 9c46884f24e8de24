use vstd::prelude::*;
use crate::result::Error;
use crate::validation::RegisterRequest;

verus! {

/// A stored user. The password is stored as the text of its hash.
#[derive(Debug, PartialEq, Eq)]
pub struct User {
    pub id: i32,
    pub name: String,
    pub email: String,
    pub password: String,
}

/// A stored user as a mathematical value.
pub struct UserView {
    pub id: i32,
    pub name: Seq<char>,
    pub email: Seq<char>,
    pub password: Seq<char>,
}

impl View for User {
    type V = UserView;

    open spec fn view(&self) -> UserView {
        UserView {
            id: self.id,
            name: self.name@,
            email: self.email@,
            password: self.password@,
        }
    }
}

/// What of a user is shown to clients: everything but the password.
#[derive(Debug, PartialEq, Eq)]
pub struct PublicUser {
    pub id: i32,
    pub name: String,
    pub email: String,
}

/// What of a user is shown to clients, as a mathematical value.
pub struct PublicUserView {
    pub id: i32,
    pub name: Seq<char>,
    pub email: Seq<char>,
}

impl View for PublicUser {
    type V = PublicUserView;

    open spec fn view(&self) -> PublicUserView {
        PublicUserView { id: self.id, name: self.name@, email: self.email@ }
    }
}

/// A user who has registered or logged in, with the token that says so.
#[derive(Debug, PartialEq, Eq)]
pub struct AuthUser {
    pub token: String,
    pub public_user: PublicUser,
}

/// The text of the Argon2 hash of `password` under `salt`, with the `argon2`
/// crate's default parameters; none where the crate refuses the salt or the
/// input.
pub uninterp spec fn argon2_hash(password: Seq<char>, salt: Seq<char>) -> Option<Seq<char>>;

/// Whether `password` matches the stored hash text `hash`, by the `argon2`
/// crate; none where `hash` is no hash in the PHC string format.
pub uninterp spec fn argon2_verdict(password: Seq<char>, hash: Seq<char>) -> Option<bool>;

/// Hashes `password` with `argon2::Argon2::default()` through
/// `PasswordHasher::hash_password`, under the salt that
/// `SaltString::from_b64` reads from `salt`, and gives the hash in the PHC
/// string format. The result depends on the two texts alone. There is none
/// where the salt is refused or the hashing fails.
#[verifier::external_body]
fn hash_with_salt(password: &str, salt: &str) -> (hash: Option<String>)
    ensures
        hash.deep_view() == argon2_hash(password@, salt@),
{
    let salt = argon2::password_hash::SaltString::from_b64(salt).ok()?;
    let hash = argon2::PasswordHasher::hash_password(
        &argon2::Argon2::default(),
        password.as_bytes(),
        &salt,
    );
    hash.ok().map(|hash| hash.to_string())
}

/// Reads `hash` with `argon2::PasswordHash::new` and asks
/// `PasswordVerifier::verify_password` of `argon2::Argon2::default()` whether
/// `password` matches it. The result depends on the two texts alone. There is
/// none where `hash` cannot be read.
#[verifier::external_body]
fn verify_against(password: &str, hash: &str) -> (verdict: Option<bool>)
    ensures
        verdict == argon2_verdict(password@, hash@),
{
    let parsed = argon2::PasswordHash::new(hash).ok()?;
    let verdict = argon2::PasswordVerifier::verify_password(
        &argon2::Argon2::default(),
        password.as_bytes(),
        &parsed,
    );
    Some(verdict.is_ok())
}

impl User {
    /// What of this user is shown to clients.
    pub fn into_public(self) -> (public: PublicUser)
        ensures
            public@ == (PublicUserView { id: self.id, name: self.name@, email: self.email@ }),
    {
        PublicUser { id: self.id, name: self.name, email: self.email }
    }

    /// The user that a registration becomes, given its id and the text of
    /// its password's hash.
    pub fn registered(request: RegisterRequest, id: i32, password_hash: String) -> (user: User)
        ensures
            user@ == (UserView {
                id,
                name: request.name@,
                email: request.email@,
                password: password_hash@,
            }),
    {
        User { id, name: request.name, email: request.email, password: password_hash }
    }

    /// The user that a registration becomes, given its id and a salt: the
    /// password is stored as its Argon2 hash under that salt. There is none
    /// where the hash cannot be had.
    pub fn register(request: RegisterRequest, id: i32, salt: &str) -> (user: Option<User>)
        ensures
            match user {
                Some(user) => argon2_hash(request.password@, salt@) == Some(user@.password)
                    && user@.id == id && user@.name == request.name@ && user@.email
                    == request.email@,
                None => argon2_hash(request.password@, salt@).is_none(),
            },
    {
        match hash_with_salt(request.password.as_str(), salt) {
            Some(hash) => Some(User::registered(request, id, hash)),
            None => None,
        }
    }
}

/// Whether an e-mail address is taken, given what each of the two shards
/// says of it. The first shard is heard first: its error, or its finding the
/// address, settles the matter whatever the second shard says.
pub open spec fn email_taken_spec(first: Result<bool, Error>, second: Result<bool, Error>)
    -> Result<bool, Error> {
    match first {
        Err(e) => Err(e),
        Ok(true) => Ok(true),
        Ok(false) => second,
    }
}

/// Whether an e-mail address is taken, given what each of the two shards
/// says of it.
pub fn email_taken(first: Result<bool, Error>, second: Result<bool, Error>) -> (taken: Result<
    bool,
    Error,
>)
    ensures
        taken == email_taken_spec(first, second),
{
    match first {
        Err(e) => Err(e),
        Ok(true) => Ok(true),
        Ok(false) => second,
    }
}

/// Whether a registration may go on, given what each of the two shards says
/// of its e-mail address: not where a shard that was heard has failed, and
/// not where the address is taken.
pub fn email_free(first: Result<bool, Error>, second: Result<bool, Error>) -> (free: Result<
    (),
    Error,
>)
    ensures
        match email_taken_spec(first, second) {
            Ok(taken) => if taken {
                free == Err::<(), Error>(Error::EmailTaken)
            } else {
                free.is_ok()
            },
            Err(e) => free == Err::<(), Error>(e),
        },
{
    match email_taken(first, second) {
        Ok(taken) => if taken {
            Err(Error::EmailTaken)
        } else {
            Ok(())
        },
        Err(e) => Err(e),
    }
}

/// The user that a search over the two shards found. An error of either
/// shard fails the search, the first shard's before the second's; otherwise
/// the first shard's user comes before the second's.
pub open spec fn first_found_spec(
    first: Result<Option<User>, Error>,
    second: Result<Option<User>, Error>,
) -> Result<Option<User>, Error> {
    match (first, second) {
        (Err(e), _) => Err(e),
        (Ok(_), Err(e)) => Err(e),
        (Ok(Some(user)), Ok(_)) => Ok(Some(user)),
        (Ok(None), Ok(found)) => Ok(found),
    }
}

/// The user that a search over the two shards found.
pub fn first_found(first: Result<Option<User>, Error>, second: Result<Option<User>, Error>) -> (found:
    Result<Option<User>, Error>)
    ensures
        found == first_found_spec(first, second),
{
    match first {
        Err(e) => Err(e),
        Ok(user) => match second {
            Err(e) => Err(e),
            Ok(other) => match user {
                Some(user) => Ok(Some(user)),
                None => Ok(other),
            },
        },
    }
}

/// How a login ends for a user that was found, given the verdict on the
/// password: the user is let in where the password matches the stored hash,
/// and turned away where it does not or where what is stored is no hash.
pub fn login_outcome(user: User, verdict: Option<bool>) -> (outcome: Result<PublicUser, Error>)
    ensures
        match outcome {
            Ok(public) => verdict == Some(true) && public@ == (PublicUserView {
                id: user.id,
                name: user.name@,
                email: user.email@,
            }),
            Err(e) => verdict != Some(true) && e == Error::Unauthorized,
        },
{
    match verdict {
        Some(true) => Ok(user.into_public()),
        _ => Err(Error::Unauthorized),
    }
}

/// How a login with `password` ends, given the user that was found under the
/// e-mail address, if any: nobody is let in under an unknown address, and a
/// user that was found is let in where the password matches the stored hash.
pub fn login(user: Option<User>, password: &str) -> (outcome: Result<PublicUser, Error>)
    ensures
        match outcome {
            Ok(public) => user.is_some() && argon2_verdict(password@, user.unwrap().password@)
                == Some(true) && public@ == (PublicUserView {
                id: user.unwrap().id,
                name: user.unwrap().name@,
                email: user.unwrap().email@,
            }),
            Err(e) => e == Error::Unauthorized && (user.is_none() || argon2_verdict(
                password@,
                user.unwrap().password@,
            ) != Some(true)),
        },
{
    match user {
        None => Err(Error::Unauthorized),
        Some(user) => {
            let verdict = verify_against(password, user.password.as_str());
            login_outcome(user, verdict)
        },
    }
}

} // verus!
