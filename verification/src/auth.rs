use vstd::prelude::*;
use crate::result::Error;

verus! {

/// The id of the user that a request was made for, as its token says.
#[derive(Debug, Clone, Copy, PartialEq, Eq, Structural)]
pub struct Auth(pub i32);

/// Where the last word of `text` begins: behind the last space, or at the
/// very beginning where there is no space.
pub open spec fn token_start(text: Seq<char>) -> int
    decreases text.len(),
{
    if text.len() == 0 {
        0
    } else if text.last() == ' ' {
        text.len() as int
    } else {
        token_start(text.drop_last())
    }
}

/// The token of an `Authorization` header: what stands behind its last
/// space, and all of it where it has no space.
pub open spec fn token_of(header: Seq<char>) -> Seq<char> {
    header.subrange(token_start(header), header.len() as int)
}

/// The last word begins inside the text, behind a space or at the very
/// beginning, and holds no space itself.
pub proof fn lemma_token_start(text: Seq<char>)
    ensures
        0 <= token_start(text) <= text.len(),
        token_start(text) == 0 || text[token_start(text) - 1] == ' ',
        forall|i: int| token_start(text) <= i < text.len() ==> text[i] != ' ',
        !token_of(text).contains(' '),
    decreases text.len(),
{
    if text.len() > 0 && text.last() != ' ' {
        let before = text.drop_last();
        lemma_token_start(before);
        assert forall|i: int| token_start(text) <= i < text.len() implies text[i] != ' ' by {
            if i < before.len() {
                assert(text[i] == before[i]);
            }
        }
    }
    let token = token_of(text);
    assert forall|i: int| 0 <= i < token.len() implies token[i] != ' ' by {
        assert(token[i] == text[token_start(text) + i]);
    }
}

/// The token of an `Authorization` header: what stands behind its last
/// space, and all of it where it has no space.
pub fn bearer_token(header: &str) -> (token: String)
    ensures
        token@ == token_of(header@),
{
    let length = header.unicode_len();
    let mut start = length;
    assert(header@.subrange(0, length as int) =~= header@);
    while start > 0 && header.get_char(start - 1) != ' '
        invariant
            start <= length == header@.len(),
            token_start(header@) == token_start(header@.subrange(0, start as int)),
        decreases start,
    {
        assert(header@.subrange(0, start as int).drop_last() =~= header@.subrange(
            0,
            start - 1,
        ));
        start -= 1;
    }
    String::from_str(header.substring_char(start, length))
}

/// The token that a request presents, given its `Authorization` header, if
/// it has one that is text. A request without one is not authorized.
pub fn presented_token(header: Option<&str>) -> (token: Result<String, Error>)
    ensures
        match token {
            Ok(token) => header.is_some() && token@ == token_of(header.unwrap()@),
            Err(e) => header.is_none() && e == Error::Unauthorized,
        },
{
    match header {
        Some(header) => Ok(bearer_token(header)),
        None => Err(Error::Unauthorized),
    }
}

/// Who a request is made for, given what its token's check gave: the id that
/// a valid token carries. A request whose token is not valid is not
/// authorized.
pub fn authorized(claimed: Option<i32>) -> (auth: Result<Auth, Error>)
    ensures
        match auth {
            Ok(auth) => claimed == Some(auth.0),
            Err(e) => claimed.is_none() && e == Error::Unauthorized,
        },
{
    match claimed {
        Some(id) => Ok(Auth(id)),
        None => Err(Error::Unauthorized),
    }
}

/// For how many seconds a token is valid: 32 days.
pub const JWT_EXP: u64 = 2764800;

/// What a token says: whose it is and, in seconds since the epoch, until
/// when it is valid.
#[derive(Debug, Clone, Copy, PartialEq, Eq, Structural)]
pub struct Claims {
    pub id: i32,
    pub exp: u64,
}

impl Claims {
    /// The claims of a token made at `now`, in seconds since the epoch, for
    /// user `id`: it is valid for 32 days from then.
    pub fn new(id: i32, now: u64) -> (claims: Claims)
        requires
            now + JWT_EXP <= u64::MAX,
        ensures
            claims == (Claims { id, exp: (now + JWT_EXP) as u64 }),
    {
        Claims { id, exp: now + JWT_EXP }
    }
}

} // verus!
