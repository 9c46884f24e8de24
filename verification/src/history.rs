use vstd::prelude::*;
use crate::message::{ChatMessage, ChatMessageView, clone_messages, turns_view};

verus! {

/// The ordered log of a conversation's turns. Turns are only ever added at the
/// end, and what is read back is what was added, oldest first.
pub trait ChatHistory {
    /// The turns logged so far, oldest first.
    spec fn turns(&self) -> Seq<ChatMessageView>;

    /// Adds one turn at the end of the log.
    fn push(&mut self, message: ChatMessage)
        ensures
            final(self).turns() == old(self).turns().push(message@),
    ;

    /// A copy of every turn logged so far, oldest first.
    fn messages(&self) -> (all: Vec<ChatMessage>)
        ensures
            turns_view(all@) == self.turns(),
    ;
}

impl ChatHistory for Vec<ChatMessage> {
    open spec fn turns(&self) -> Seq<ChatMessageView> {
        turns_view(self@)
    }

    fn push(&mut self, message: ChatMessage) {
        Vec::push(self, message);
        assert(turns_view(self@) =~= turns_view(old(self)@).push(message@));
    }

    fn messages(&self) -> (all: Vec<ChatMessage>) {
        clone_messages(self)
    }
}

/// Adds every turn of `messages` to the end of `history`, in order.
pub fn append_all<C: ChatHistory>(history: &mut C, messages: &Vec<ChatMessage>)
    ensures
        final(history).turns() == old(history).turns() + turns_view(messages@),
{
    let mut i: usize = 0;
    while i < messages.len()
        invariant
            i <= messages.len(),
            history.turns() == old(history).turns() + turns_view(messages@).subrange(0, i as int),
        decreases messages.len() - i,
    {
        history.push(messages[i].clone());
        assert(turns_view(messages@).subrange(0, i + 1) =~= turns_view(messages@).subrange(
            0,
            i as int,
        ).push(messages[i as int]@));
        assert(history.turns() =~= old(history).turns() + turns_view(messages@).subrange(
            0,
            i + 1,
        ));
        i += 1;
    }
    assert(turns_view(messages@).subrange(0, i as int) =~= turns_view(messages@));
}

/// Logs a round-trip that succeeded: the new turns that were sent, in order,
/// and then the turn that the backend answered with.
pub fn record_round_trip<C: ChatHistory>(
    history: &mut C,
    messages: &Vec<ChatMessage>,
    response: &ChatMessage,
)
    ensures
        final(history).turns() == (old(history).turns() + turns_view(messages@)).push(response@),
{
    append_all(history, messages);
    history.push(response.clone());
}

} // verus!
