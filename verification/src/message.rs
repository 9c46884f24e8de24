use vstd::prelude::*;

verus! {

/// The party that a conversation turn comes from.
#[derive(Debug, Clone, Copy, PartialEq, Eq, Structural)]
pub enum MessageRole {
    User,
    Assistant,
    System,
    Tool,
}

/// What the backend asks to have executed: a function's name and its argument
/// payload, which the coordinator passes on unread.
#[derive(Debug, PartialEq, Eq)]
pub struct ToolCallFunction {
    pub name: String,
    pub arguments: String,
}

/// A tool-call request as a mathematical value.
pub struct ToolCallFunctionView {
    pub name: Seq<char>,
    pub arguments: Seq<char>,
}

impl View for ToolCallFunction {
    type V = ToolCallFunctionView;

    open spec fn view(&self) -> ToolCallFunctionView {
        ToolCallFunctionView { name: self.name@, arguments: self.arguments@ }
    }
}

impl Clone for ToolCallFunction {
    fn clone(&self) -> (copy: Self)
        ensures
            copy@ == self@,
    {
        ToolCallFunction { name: self.name.clone(), arguments: self.arguments.clone() }
    }
}

/// One tool-call request inside a backend response.
#[derive(Debug, PartialEq, Eq)]
pub struct ToolCall {
    pub function: ToolCallFunction,
}

impl View for ToolCall {
    type V = ToolCallFunctionView;

    open spec fn view(&self) -> ToolCallFunctionView {
        self.function@
    }
}

impl Clone for ToolCall {
    fn clone(&self) -> (copy: Self)
        ensures
            copy@ == self@,
    {
        ToolCall { function: self.function.clone() }
    }
}

/// The requests of a batch, as mathematical values, in request order.
pub open spec fn calls_view(calls: Seq<ToolCall>) -> Seq<ToolCallFunctionView> {
    Seq::new(calls.len(), |i: int| calls[i]@)
}

/// Copies a batch of tool-call requests.
pub fn clone_calls(calls: &Vec<ToolCall>) -> (copy: Vec<ToolCall>)
    ensures
        calls_view(copy@) == calls_view(calls@),
{
    let mut copy: Vec<ToolCall> = Vec::new();
    let mut i: usize = 0;
    while i < calls.len()
        invariant
            i <= calls.len(),
            copy.len() == i,
            forall|j: int| 0 <= j < i ==> copy[j]@ == calls[j]@,
        decreases calls.len() - i,
    {
        copy.push(calls[i].clone());
        i += 1;
    }
    assert(calls_view(copy@) =~= calls_view(calls@));
    copy
}

/// One turn of a conversation. A turn from the backend may carry tool-call
/// requests; every other turn carries none.
#[derive(Debug, PartialEq, Eq)]
pub struct ChatMessage {
    pub role: MessageRole,
    pub content: String,
    pub tool_calls: Vec<ToolCall>,
}

/// A turn as a mathematical value.
pub struct ChatMessageView {
    pub role: MessageRole,
    pub content: Seq<char>,
    pub tool_calls: Seq<ToolCallFunctionView>,
}

impl View for ChatMessage {
    type V = ChatMessageView;

    open spec fn view(&self) -> ChatMessageView {
        ChatMessageView {
            role: self.role,
            content: self.content@,
            tool_calls: calls_view(self.tool_calls@),
        }
    }
}

impl Clone for ChatMessage {
    fn clone(&self) -> (copy: Self)
        ensures
            copy@ == self@,
    {
        ChatMessage {
            role: self.role,
            content: self.content.clone(),
            tool_calls: clone_calls(&self.tool_calls),
        }
    }
}

/// The turn with the given role and text and no tool-call requests.
pub open spec fn plain_turn(role: MessageRole, content: Seq<char>) -> ChatMessageView {
    ChatMessageView { role, content, tool_calls: Seq::empty() }
}

impl ChatMessage {
    pub fn new(role: MessageRole, content: String) -> (message: ChatMessage)
        ensures
            message@ == plain_turn(role, content@),
    {
        let message = ChatMessage { role, content, tool_calls: Vec::new() };
        assert(calls_view(message.tool_calls@) =~= Seq::empty());
        message
    }

    pub fn user(content: String) -> (message: ChatMessage)
        ensures
            message@ == plain_turn(MessageRole::User, content@),
    {
        ChatMessage::new(MessageRole::User, content)
    }

    pub fn assistant(content: String) -> (message: ChatMessage)
        ensures
            message@ == plain_turn(MessageRole::Assistant, content@),
    {
        ChatMessage::new(MessageRole::Assistant, content)
    }

    pub fn system(content: String) -> (message: ChatMessage)
        ensures
            message@ == plain_turn(MessageRole::System, content@),
    {
        ChatMessage::new(MessageRole::System, content)
    }

    /// The turn that reports a tool's result text back to the backend.
    pub fn tool(content: String) -> (message: ChatMessage)
        ensures
            message@ == plain_turn(MessageRole::Tool, content@),
    {
        ChatMessage::new(MessageRole::Tool, content)
    }
}

/// The turns of a sequence, as mathematical values, in order.
pub open spec fn turns_view(messages: Seq<ChatMessage>) -> Seq<ChatMessageView> {
    Seq::new(messages.len(), |i: int| messages[i]@)
}

/// Copies a sequence of turns.
pub fn clone_messages(messages: &Vec<ChatMessage>) -> (copy: Vec<ChatMessage>)
    ensures
        turns_view(copy@) == turns_view(messages@),
{
    let mut copy: Vec<ChatMessage> = Vec::new();
    let mut i: usize = 0;
    while i < messages.len()
        invariant
            i <= messages.len(),
            copy.len() == i,
            forall|j: int| 0 <= j < i ==> copy[j]@ == messages[j]@,
        decreases messages.len() - i,
    {
        copy.push(messages[i].clone());
        i += 1;
    }
    assert(turns_view(copy@) =~= turns_view(messages@));
    copy
}

} // verus!
