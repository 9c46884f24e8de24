use vstd::prelude::*;

verus! {

/// How a backend round-trip failed.
#[derive(Debug, Clone, Copy, PartialEq, Eq, Structural)]
pub enum BackendErrorKind {
    /// The backend could not be reached, or the connection broke.
    Transport,
    /// The backend answered with something that is no response.
    Protocol,
    /// The backend refused the request.
    Rejected,
}

/// A failed backend round-trip: its kind and the backend's or transport's words.
#[derive(Debug, PartialEq, Eq)]
pub struct BackendError {
    pub kind: BackendErrorKind,
    pub message: String,
}

pub struct BackendErrorView {
    pub kind: BackendErrorKind,
    pub message: Seq<char>,
}

impl View for BackendError {
    type V = BackendErrorView;

    open spec fn view(&self) -> BackendErrorView {
        BackendErrorView { kind: self.kind, message: self.message@ }
    }
}

/// How a tool call failed.
#[derive(Debug, Clone, Copy, PartialEq, Eq, Structural)]
pub enum ToolErrorKind {
    /// No tool of that name is on offer.
    UnknownToolName,
    /// The tool could not read the argument payload.
    InvalidArguments,
    /// The tool ran and failed.
    Execution,
}

/// A failed tool call: its kind and the tool's words.
#[derive(Debug, PartialEq, Eq)]
pub struct ToolError {
    pub kind: ToolErrorKind,
    pub message: String,
}

pub struct ToolErrorView {
    pub kind: ToolErrorKind,
    pub message: Seq<char>,
}

impl View for ToolError {
    type V = ToolErrorView;

    open spec fn view(&self) -> ToolErrorView {
        ToolErrorView { kind: self.kind, message: self.message@ }
    }
}

/// Why a conversation turn ended without a final response.
#[derive(Debug, PartialEq, Eq)]
pub enum ChatError {
    /// A backend round-trip failed.
    Backend(BackendError),
    /// A tool call failed; the rest of its batch was not run.
    Tool(ToolError),
    /// The coordinator was handed something it was not waiting for.
    NotExpected,
}

pub enum ChatErrorView {
    Backend(BackendErrorView),
    Tool(ToolErrorView),
    NotExpected,
}

impl View for ChatError {
    type V = ChatErrorView;

    open spec fn view(&self) -> ChatErrorView {
        match self {
            ChatError::Backend(e) => ChatErrorView::Backend(e@),
            ChatError::Tool(e) => ChatErrorView::Tool(e@),
            ChatError::NotExpected => ChatErrorView::NotExpected,
        }
    }
}

} // verus!
