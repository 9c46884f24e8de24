use vstd::prelude::*;
use crate::message::{ChatMessage, ChatMessageView, MessageRole, plain_turn, turns_view};
use crate::result::Error;

verus! {

/// Who wrote a stored chat message.
#[derive(Debug, Clone, Copy, PartialEq, Eq, Structural)]
pub enum Role {
    User,
    Ai,
    System,
}

/// The role that is stored under `code`, if there is one.
pub open spec fn role_of(code: int) -> Option<Role> {
    if code == 0 {
        Some(Role::User)
    } else if code == 1 {
        Some(Role::Ai)
    } else if code == 2 {
        Some(Role::System)
    } else {
        None
    }
}

impl Role {
    /// The code under which a role is stored: its position in the declaration.
    pub open spec fn code(self) -> int {
        match self {
            Role::User => 0,
            Role::Ai => 1,
            Role::System => 2,
        }
    }

    /// The role of the conversation turn that a stored message becomes.
    pub open spec fn message_role(self) -> MessageRole {
        match self {
            Role::User => MessageRole::User,
            Role::Ai => MessageRole::Assistant,
            Role::System => MessageRole::System,
        }
    }

    /// Reads a role back from its stored code; any other number is rejected.
    pub fn from_i16(role: i16) -> (r: Result<Role, Error>)
        ensures
            match r {
                Ok(found) => role_of(role as int) == Some(found),
                Err(e) => role_of(role as int).is_none() && e == Error::InvalidRole,
            },
    {
        match role {
            0 => Ok(Role::User),
            1 => Ok(Role::Ai),
            2 => Ok(Role::System),
            _ => Err(Error::InvalidRole),
        }
    }

    /// The code under which the role is stored.
    pub fn as_u16(self) -> (code: u16)
        ensures
            code == self.code(),
    {
        match self {
            Role::User => 0,
            Role::Ai => 1,
            Role::System => 2,
        }
    }
}

/// A role that is stored and read back is the same role.
pub proof fn lemma_role_round_trip(role: Role)
    ensures
        role_of(role.code()) == Some(role),
{
}

/// A stored chat.
#[derive(Debug, PartialEq, Eq)]
pub struct Chat {
    pub id: i32,
    pub title: String,
    pub model: String,
    pub user_id: i32,
}

/// A stored chat message.
#[derive(Debug, PartialEq, Eq)]
pub struct Message {
    pub id: i32,
    pub role: Role,
    pub text: String,
    pub chat_id: i32,
}

/// A stored chat message as a mathematical value.
pub struct MessageView {
    pub id: i32,
    pub role: Role,
    pub text: Seq<char>,
    pub chat_id: i32,
}

impl View for Message {
    type V = MessageView;

    open spec fn view(&self) -> MessageView {
        MessageView { id: self.id, role: self.role, text: self.text@, chat_id: self.chat_id }
    }
}

/// The stored messages of a sequence, as mathematical values, in order.
pub open spec fn messages_view(messages: Seq<Message>) -> Seq<MessageView> {
    Seq::new(messages.len(), |i: int| messages[i]@)
}

/// A message row as the database gives it: the role still as its code.
#[derive(Debug, PartialEq, Eq)]
pub struct MessageRow {
    pub id: i32,
    pub text: String,
    pub role: i16,
}

/// The messages that a sequence of rows of chat `chat_id` holds, in the rows'
/// order. A row whose role code is unknown is left out.
pub open spec fn messages_of(rows: Seq<MessageRow>, chat_id: i32) -> Seq<MessageView>
    decreases rows.len(),
{
    if rows.len() == 0 {
        Seq::empty()
    } else {
        let before = messages_of(rows.drop_last(), chat_id);
        let row = rows.last();
        match role_of(row.role as int) {
            Some(role) => before.push(MessageView { id: row.id, role, text: row.text@, chat_id }),
            None => before,
        }
    }
}

/// Turns the rows of chat `chat_id` into messages, in the rows' order, and
/// leaves out each row whose role code is unknown.
pub fn messages_from_rows(rows: Vec<MessageRow>, chat_id: i32) -> (messages: Vec<Message>)
    ensures
        messages_view(messages@) == messages_of(rows@, chat_id),
{
    let mut messages: Vec<Message> = Vec::new();
    let mut i: usize = 0;
    assert(messages_view(messages@) =~= Seq::empty());
    while i < rows.len()
        invariant
            i <= rows.len(),
            messages_view(messages@) == messages_of(rows@.subrange(0, i as int), chat_id),
        decreases rows.len() - i,
    {
        let ghost before = messages_view(messages@);
        assert(rows@.subrange(0, i + 1).drop_last() =~= rows@.subrange(0, i as int));
        assert(rows@.subrange(0, i + 1).last() == rows[i as int]);
        match Role::from_i16(rows[i].role) {
            Ok(role) => {
                let message = Message { id: rows[i].id, role, text: rows[i].text.clone(), chat_id };
                messages.push(message);
                assert(messages_view(messages@) =~= before.push(message@));
            },
            Err(_) => {},
        }
        i += 1;
    }
    assert(rows@.subrange(0, i as int) =~= rows@);
    messages
}

/// The conversation turn that a stored message with this role and text
/// becomes.
pub fn chat_message(role: Role, text: String) -> (message: ChatMessage)
    ensures
        message@ == plain_turn(role.message_role(), text@),
{
    match role {
        Role::User => ChatMessage::user(text),
        Role::Ai => ChatMessage::assistant(text),
        Role::System => ChatMessage::system(text),
    }
}

/// The conversation turns that stored messages become, in order.
pub open spec fn history_of(messages: Seq<MessageView>) -> Seq<ChatMessageView> {
    Seq::new(
        messages.len(),
        |i: int| plain_turn(messages[i].role.message_role(), messages[i].text),
    )
}

/// Turns stored messages into the conversation history that they stand for.
pub fn chat_history(messages: &Vec<Message>) -> (history: Vec<ChatMessage>)
    ensures
        turns_view(history@) == history_of(messages_view(messages@)),
{
    let mut history: Vec<ChatMessage> = Vec::new();
    let mut i: usize = 0;
    while i < messages.len()
        invariant
            i <= messages.len(),
            history.len() == i,
            forall|j: int|
                0 <= j < i ==> history[j]@ == plain_turn(
                    messages[j].role.message_role(),
                    messages[j].text@,
                ),
        decreases messages.len() - i,
    {
        history.push(chat_message(messages[i].role, messages[i].text.clone()));
        i += 1;
    }
    assert(turns_view(history@) =~= history_of(messages_view(messages@)));
    history
}

/// The number of turns of a history as a message id: the count's low 32
/// bits, read as a signed number.
pub open spec fn reply_id(turns: nat) -> i32 {
    turns as usize as i32
}

/// The message to store and to answer with for the backend's reply, which is
/// the last turn of `history`: it is the assistant's, carries the reply's
/// text, and is numbered by the history's length. An empty history holds no
/// reply.
pub fn reply_message(history: &Vec<ChatMessage>, chat_id: i32) -> (reply: Option<Message>)
    ensures
        history.len() == 0 <==> reply.is_none(),
        history.len() > 0 ==> reply.unwrap()@ == (MessageView {
            id: reply_id(history.len() as nat),
            role: Role::Ai,
            text: history[history.len() - 1].content@,
            chat_id,
        }),
{
    if history.len() == 0 {
        None
    } else {
        let last = &history[history.len() - 1];
        Some(
            Message {
                id: #[verifier::truncate]
                (history.len() as i32),
                role: Role::Ai,
                text: last.content.clone(),
                chat_id,
            },
        )
    }
}

/// How an edit of a chat ended, given how many rows it changed: a chat that
/// is not there, or not the user's, changes none and is not found.
pub fn edit_outcome(rows_affected: u64) -> (outcome: Result<(), Error>)
    ensures
        match outcome {
            Ok(_) => rows_affected > 0,
            Err(e) => rows_affected == 0 && e == Error::NotFound,
        },
{
    if rows_affected == 0 {
        Err(Error::NotFound)
    } else {
        Ok(())
    }
}

/// The messages that the cache gave, where it gave any: a cache that missed,
/// or that holds no message, sends the caller to the database.
pub fn cached_messages(cached: Option<Vec<Message>>) -> (held: Option<Vec<Message>>)
    ensures
        match cached {
            Some(messages) => if messages.len() > 0 {
                held == Some(messages)
            } else {
                held.is_none()
            },
            None => held.is_none(),
        },
{
    match cached {
        Some(messages) => if messages.len() > 0 {
            Some(messages)
        } else {
            None
        },
        None => None,
    }
}

} // verus!
