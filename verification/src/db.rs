use vstd::prelude::*;

verus! {

/// One of the two database shards that the users are spread over.
#[derive(Debug, Clone, Copy, PartialEq, Eq, Structural)]
pub enum Shard {
    /// The shard of the users with an odd id.
    One,
    /// The shard of the users with an even id.
    Two,
}

/// The shard that holds the user with this id: by the id's parity.
pub fn postgres(user_id: i32) -> (shard: Shard)
    ensures
        shard == if user_id % 2 == 0 {
            Shard::Two
        } else {
            Shard::One
        },
{
    if user_id % 2 == 0 {
        Shard::Two
    } else {
        Shard::One
    }
}

/// The greatest user id that is in use, given the greatest of each shard.
pub fn max_uid(shard_1_max_uid: i32, shard_2_max_uid: i32) -> (max: i32)
    ensures
        max >= shard_1_max_uid,
        max >= shard_2_max_uid,
        max == shard_1_max_uid || max == shard_2_max_uid,
{
    if shard_1_max_uid >= shard_2_max_uid {
        shard_1_max_uid
    } else {
        shard_2_max_uid
    }
}

/// The number that follows `id` in the counter: one more, and from the
/// greatest number round to the least.
pub open spec fn next_uid(id: i32) -> i32 {
    if id == i32::MAX {
        i32::MIN
    } else {
        (id + 1) as i32
    }
}

/// Hands out the counter's value and moves the counter on by one, so that no
/// two callers are handed the same value until the counter has gone round.
pub fn fetch_add_max_uid(max_uid: &mut i32) -> (id: i32)
    ensures
        id == *old(max_uid),
        *final(max_uid) == next_uid(*old(max_uid)),
{
    let id = *max_uid;
    if id == i32::MAX {
        *max_uid = i32::MIN;
    } else {
        *max_uid = id + 1;
    }
    id
}

/// The counter after `count` ids were handed out, starting at `start`.
pub open spec fn uid_after(start: i32, count: nat) -> i32
    decreases count,
{
    if count == 0 {
        start
    } else {
        next_uid(uid_after(start, (count - 1) as nat))
    }
}

/// While the counter has not gone round, the ids it hands out rise by one
/// each time, so that no two of them are the same.
pub proof fn lemma_uids_distinct(start: i32, i: nat, j: nat)
    requires
        i < j,
        start + j <= i32::MAX,
    ensures
        uid_after(start, i) == start + i,
        uid_after(start, j) == start + j,
        uid_after(start, i) != uid_after(start, j),
{
    lemma_uid_after(start, i);
    lemma_uid_after(start, j);
}

/// While the counter has not gone round, it stands at its start plus the
/// number of ids handed out.
pub proof fn lemma_uid_after(start: i32, count: nat)
    requires
        start + count <= i32::MAX,
    ensures
        uid_after(start, count) == start + count,
    decreases count,
{
    if count > 0 {
        lemma_uid_after(start, (count - 1) as nat);
    }
}

/// For how many seconds a cached answer is kept.
pub const CACHE_SECONDS: u64 = 460;

/// The character that stands for a digit.
pub open spec fn digit_char(digit: nat) -> char {
    if digit == 0 {
        '0'
    } else if digit == 1 {
        '1'
    } else if digit == 2 {
        '2'
    } else if digit == 3 {
        '3'
    } else if digit == 4 {
        '4'
    } else if digit == 5 {
        '5'
    } else if digit == 6 {
        '6'
    } else if digit == 7 {
        '7'
    } else if digit == 8 {
        '8'
    } else {
        '9'
    }
}

/// A natural number in decimal digits, without leading zeros.
pub open spec fn digits(n: nat) -> Seq<char>
    decreases n,
{
    if n < 10 {
        seq![digit_char(n)]
    } else {
        digits(n / 10).push(digit_char(n % 10))
    }
}

/// A whole number in decimal: a minus sign where it is negative, then its
/// digits.
pub open spec fn decimal(n: int) -> Seq<char> {
    if n < 0 {
        seq!['-'] + digits((-n) as nat)
    } else {
        digits(n as nat)
    }
}

fn digit_str(digit: u32) -> (text: &'static str)
    requires
        digit < 10,
    ensures
        text@ == seq![digit_char(digit as nat)],
{
    proof {
        reveal_strlit("0");
        reveal_strlit("1");
        reveal_strlit("2");
        reveal_strlit("3");
        reveal_strlit("4");
        reveal_strlit("5");
        reveal_strlit("6");
        reveal_strlit("7");
        reveal_strlit("8");
        reveal_strlit("9");
    }
    let text = match digit {
        0 => "0",
        1 => "1",
        2 => "2",
        3 => "3",
        4 => "4",
        5 => "5",
        6 => "6",
        7 => "7",
        8 => "8",
        _ => "9",
    };
    assert(text@ =~= seq![digit_char(digit as nat)]);
    text
}

fn push_digits(text: &mut String, n: u32)
    ensures
        final(text)@ == old(text)@ + digits(n as nat),
    decreases n,
{
    if n >= 10 {
        push_digits(text, n / 10);
    }
    text.append(digit_str(n % 10));
    assert(text@ =~= old(text)@ + digits(n as nat));
}

/// Writes a number in decimal.
pub fn decimal_string(n: i32) -> (text: String)
    ensures
        text@ == decimal(n as int),
{
    let mut text = String::new();
    if n < 0 {
        proof {
            reveal_strlit("-");
        }
        text.append("-");
        assert(text@ =~= seq!['-']);
        let magnitude = (-(n as i64)) as u32;
        push_digits(&mut text, magnitude);
    } else {
        push_digits(&mut text, n as u32);
        assert(text@ =~= decimal(n as int));
    }
    text
}

/// The key under which the chats of `pref` are cached.
pub fn chats_cache_key(pref: &str) -> (key: String)
    ensures
        key@ == pref@ + ":get_chats"@,
{
    String::from_str(pref).concat(":get_chats")
}

/// The key under which the messages of `pref` are cached.
pub fn messages_cache_key(pref: &str) -> (key: String)
    ensures
        key@ == pref@ + ":get_messages"@,
{
    String::from_str(pref).concat(":get_messages")
}

/// The key under which a user's chats are cached: the user's id in decimal
/// before `:get_chats`.
pub fn user_chats_key(user_id: i32) -> (key: String)
    ensures
        key@ == decimal(user_id as int) + ":get_chats"@,
{
    let pref = decimal_string(user_id);
    chats_cache_key(pref.as_str())
}

/// The key under which a user's view of a chat's messages is cached: the
/// chat's id and the user's id in decimal, a hyphen between them, before
/// `:get_messages`.
pub fn chat_messages_key(chat_id: i32, user_id: i32) -> (key: String)
    ensures
        key@ == decimal(chat_id as int) + "-"@ + decimal(user_id as int) + ":get_messages"@,
{
    let mut pref = decimal_string(chat_id);
    pref.append("-");
    let user = decimal_string(user_id);
    pref.append(user.as_str());
    messages_cache_key(pref.as_str())
}

} // verus!
