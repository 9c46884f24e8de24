use vstd::prelude::*;

verus! {

/// What the program is started with.
#[derive(Debug, PartialEq, Eq)]
pub struct Args {
    /// The URL of the Ollama API.
    pub ollama_url: String,
    /// The URL of the Redis server.
    pub redis_url: String,
    /// The port that the API listens on.
    pub port: u16,
}

impl Default for Args {
    fn default() -> (args: Args)
        ensures
            args.ollama_url@ == "http://localhost:11434"@,
            args.redis_url@ == "redis://127.0.0.1/"@,
            args.port == 3000,
    {
        Args {
            ollama_url: String::from_str("http://localhost:11434"),
            redis_url: String::from_str("redis://127.0.0.1/"),
            port: 3000,
        }
    }
}

/// Where the Ollama API is reached: a host, scheme included, and a port.
#[derive(Debug, PartialEq, Eq)]
pub struct OllamaUrl {
    pub host: String,
    pub port: u16,
}

/// Why a URL names no Ollama API.
#[derive(Debug, Clone, Copy, PartialEq, Eq, Structural)]
pub enum UrlError {
    /// The URL holds no colon, hence no port.
    MissingPort,
    /// What stands behind the last colon is no port number.
    InvalidPort,
}

/// Where the last colon of `text` stands, or -1 where there is none.
pub open spec fn last_colon(text: Seq<char>) -> int
    decreases text.len(),
{
    if text.len() == 0 {
        -1
    } else if text.last() == ':' {
        text.len() - 1
    } else {
        last_colon(text.drop_last())
    }
}

/// The last colon stands inside the text, and no colon stands behind it.
pub proof fn lemma_last_colon(text: Seq<char>)
    ensures
        -1 <= last_colon(text) < text.len(),
        last_colon(text) >= 0 ==> text[last_colon(text)] == ':',
        forall|i: int| last_colon(text) < i < text.len() ==> text[i] != ':',
    decreases text.len(),
{
    if text.len() > 0 && text.last() != ':' {
        let before = text.drop_last();
        lemma_last_colon(before);
        assert forall|i: int| last_colon(text) < i < text.len() implies text[i] != ':' by {
            if i < before.len() {
                assert(text[i] == before[i]);
            }
        }
    }
}

/// The digit that a character stands for, if it is one of `0` to `9`.
pub open spec fn digit_of(c: char) -> Option<nat> {
    if '0' <= c <= '9' {
        Some((c as nat - '0' as nat) as nat)
    } else {
        None
    }
}

/// The number that a run of decimal digits stands for; none where a
/// character is no digit. The empty run stands for zero.
pub open spec fn digits_value(text: Seq<char>) -> Option<nat>
    decreases text.len(),
{
    if text.len() == 0 {
        Some(0)
    } else {
        match (digits_value(text.drop_last()), digit_of(text.last())) {
            (Some(value), Some(digit)) => Some(value * 10 + digit),
            _ => None,
        }
    }
}

/// The port that a run of digits names: at least one decimal digit and
/// nothing else, for a number of at most 65535.
pub open spec fn port_of_digits(digits: Seq<char>) -> Option<u16> {
    if digits.len() == 0 {
        None
    } else {
        match digits_value(digits) {
            Some(value) => if value <= u16::MAX {
                Some(value as u16)
            } else {
                None
            },
            None => None,
        }
    }
}

/// The port that `text` names: an optional plus sign, then at least one
/// decimal digit and nothing else, for a number of at most 65535.
pub open spec fn port_of(text: Seq<char>) -> Option<u16> {
    if text.len() > 0 && text[0] == '+' {
        port_of_digits(text.drop_first())
    } else {
        port_of_digits(text)
    }
}

/// What a URL says of the Ollama API: the host is what stands before the
/// last colon, the port what stands behind it.
pub open spec fn ollama_url_of(url: Seq<char>) -> Result<(Seq<char>, u16), UrlError> {
    let colon = last_colon(url);
    if colon < 0 {
        Err(UrlError::MissingPort)
    } else {
        match port_of(url.subrange(colon + 1, url.len() as int)) {
            Some(port) => Ok((url.subrange(0, colon), port)),
            None => Err(UrlError::InvalidPort),
        }
    }
}

/// A run of digits that is longer stands for no less.
proof fn lemma_digits_value_grows(text: Seq<char>, upto: int)
    requires
        0 <= upto <= text.len(),
        digits_value(text).is_some(),
    ensures
        digits_value(text.subrange(0, upto)).is_some(),
        digits_value(text.subrange(0, upto)).unwrap() <= digits_value(text).unwrap(),
    decreases text.len(),
{
    if upto == text.len() {
        assert(text.subrange(0, upto) =~= text);
    } else {
        assert(text.drop_last().subrange(0, upto) =~= text.subrange(0, upto));
        lemma_digits_value_grows(text.drop_last(), upto);
    }
}

/// Where a character of a run is no digit, the run stands for no number.
proof fn lemma_digits_value_none(text: Seq<char>, at: int)
    requires
        0 <= at < text.len(),
        digit_of(text[at]).is_none(),
    ensures
        digits_value(text).is_none(),
    decreases text.len(),
{
    if at < text.len() - 1 {
        lemma_digits_value_none(text.drop_last(), at);
    }
}

/// Reads a port number.
pub fn parse_port(text: &str) -> (port: Option<u16>)
    ensures
        port == port_of(text@),
{
    let length = text.unicode_len();
    let first: usize = if length > 0 && text.get_char(0) == '+' {
        1
    } else {
        0
    };
    if first == length {
        return None;
    }
    let ghost digits = text@.subrange(first as int, length as int);
    assert(digits =~= if first == 1 {
        text@.drop_first()
    } else {
        text@
    });
    let mut value: u32 = 0;
    let mut i: usize = first;
    assert(digits.subrange(0, 0) =~= Seq::empty());
    while i < length
        invariant
            first <= i <= length == text@.len(),
            first < length,
            digits == text@.subrange(first as int, length as int),
            port_of(text@) == port_of_digits(digits),
            digits_value(digits.subrange(0, i - first)) == Some(value as nat),
            value <= u16::MAX,
        decreases length - i,
    {
        let c = text.get_char(i);
        let ghost taken = digits.subrange(0, i - first + 1);
        assert(taken.drop_last() =~= digits.subrange(0, i - first));
        assert(taken.last() == c);
        if c < '0' || c > '9' {
            proof {
                lemma_digits_value_none(digits, i - first);
            }
            return None;
        }
        let digit = (c as u32) - ('0' as u32);
        value = value * 10 + digit;
        if value > 65535 {
            proof {
                if digits_value(digits).is_some() {
                    lemma_digits_value_grows(digits, i - first + 1);
                }
            }
            return None;
        }
        i += 1;
    }
    assert(digits.subrange(0, i - first) =~= digits);
    Some(value as u16)
}

/// Reads where the Ollama API is reached from a URL that ends in a colon and
/// a port number.
pub fn parse_ollama_url(url: &str) -> (parsed: Result<OllamaUrl, UrlError>)
    ensures
        match parsed {
            Ok(found) => ollama_url_of(url@) == Ok::<(Seq<char>, u16), UrlError>(
                (found.host@, found.port),
            ),
            Err(e) => ollama_url_of(url@) == Err::<(Seq<char>, u16), UrlError>(e),
        },
{
    let length = url.unicode_len();
    let mut end = length;
    assert(url@.subrange(0, length as int) =~= url@);
    while end > 0 && url.get_char(end - 1) != ':'
        invariant
            end <= length == url@.len(),
            last_colon(url@) == last_colon(url@.subrange(0, end as int)),
        decreases end,
    {
        assert(url@.subrange(0, end as int).drop_last() =~= url@.subrange(0, end - 1));
        end -= 1;
    }
    if end == 0 {
        return Err(UrlError::MissingPort);
    }
    let colon = end - 1;
    match parse_port(url.substring_char(end, length)) {
        Some(port) => Ok(OllamaUrl { host: String::from_str(url.substring_char(0, colon)), port }),
        None => Err(UrlError::InvalidPort),
    }
}

/// What the running service holds: where the Ollama API is reached, and the
/// secret that tokens are signed with.
#[derive(Debug, PartialEq, Eq)]
pub struct AppState {
    pub ollama: OllamaUrl,
    pub jwt_secret: String,
}

/// Sets up the service's state from the Ollama URL and the token secret.
pub fn init(ollama_url: String, jwt_secret: String) -> (state: Result<AppState, UrlError>)
    ensures
        match state {
            Ok(state) => ollama_url_of(ollama_url@) == Ok::<(Seq<char>, u16), UrlError>(
                (state.ollama.host@, state.ollama.port),
            ) && state.jwt_secret@ == jwt_secret@,
            Err(e) => ollama_url_of(ollama_url@) == Err::<(Seq<char>, u16), UrlError>(e),
        },
{
    match parse_ollama_url(ollama_url.as_str()) {
        Ok(ollama) => Ok(AppState { ollama, jwt_secret }),
        Err(e) => Err(e),
    }
}

/// Where the Ollama API is reached.
pub fn ollama(state: &AppState) -> (url: &OllamaUrl)
    ensures
        *url == state.ollama,
{
    &state.ollama
}

} // verus!
