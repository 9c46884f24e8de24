use vstd::prelude::*;
use crate::error::{BackendError, ChatError, ToolError};
use crate::message::{MessageRole, ToolCallFunction};
use crate::protocol::{ActionView, EventView, TraceRecordView};
use crate::request::{ChatMessageRequest, ChatMessageResponse};

verus! {

/// What the outside world reports back to the coordinator.
#[derive(Debug, PartialEq, Eq)]
pub enum Event {
    /// The backend answered the request that was out.
    Response(ChatMessageResponse),
    /// The round-trip that was out failed.
    BackendFailed(BackendError),
    /// The tool call that was out returned this text.
    ToolReturned(String),
    /// The tool call that was out failed.
    ToolFailed(ToolError),
}

impl View for Event {
    type V = EventView;

    open spec fn view(&self) -> EventView {
        match self {
            Event::Response(response) => EventView::Response(response@),
            Event::BackendFailed(error) => EventView::BackendFailed(error@),
            Event::ToolReturned(text) => EventView::ToolReturned(text@),
            Event::ToolFailed(error) => EventView::ToolFailed(error@),
        }
    }
}

impl Event {
    /// The event that reports what a tool call came back with.
    pub fn from_tool_result(result: Result<String, ToolError>) -> (event: Event)
        ensures
            event@ == match result {
                Ok(text) => EventView::ToolReturned(text@),
                Err(error) => EventView::ToolFailed(error@),
            },
    {
        match result {
            Ok(text) => Event::ToolReturned(text),
            Err(error) => Event::ToolFailed(error),
        }
    }

    /// The event that reports what a backend round-trip came back with.
    pub fn from_backend_result(result: Result<ChatMessageResponse, BackendError>) -> (event: Event)
        ensures
            event@ == match result {
                Ok(response) => EventView::Response(response@),
                Err(error) => EventView::BackendFailed(error@),
            },
    {
        match result {
            Ok(response) => Event::Response(response),
            Err(error) => Event::BackendFailed(error),
        }
    }
}

/// The events of a sequence, as mathematical values, in order.
pub open spec fn events_view(events: Seq<Event>) -> Seq<EventView> {
    Seq::new(events.len(), |i: int| events[i]@)
}

/// What the coordinator asks of the outside world next, or how the turn ended.
#[derive(Debug, PartialEq, Eq)]
pub enum Action {
    /// Make a backend round-trip with this request and the history as it
    /// stands, and report the response.
    Send(ChatMessageRequest),
    /// Run this tool call and report its result.
    CallTool(ToolCallFunction),
    /// The turn is over: this is the final response.
    Done(ChatMessageResponse),
    /// The turn is over: it failed.
    Fail(ChatError),
}

impl View for Action {
    type V = ActionView;

    open spec fn view(&self) -> ActionView {
        match self {
            Action::Send(request) => ActionView::Send(request@),
            Action::CallTool(function) => ActionView::CallTool(function@),
            Action::Done(response) => ActionView::Done(response@),
            Action::Fail(error) => ActionView::Fail(error@),
        }
    }
}

/// The actions of a sequence, as mathematical values, in order.
pub open spec fn actions_view(actions: Seq<Action>) -> Seq<ActionView> {
    Seq::new(actions.len(), |i: int| actions[i]@)
}

/// One record of the trace.
#[derive(Debug, PartialEq, Eq)]
pub enum TraceRecord {
    /// A turn that is about to go to `model`.
    Input { model: String, role: MessageRole, content: String },
    /// A tool call that is about to be made.
    ToolCall { function: ToolCallFunction },
    /// The text that a tool returned.
    ToolResponse { text: String },
    /// The final response of a turn, from `model`.
    Final { model: String, role: MessageRole, content: String },
}

impl View for TraceRecord {
    type V = TraceRecordView;

    open spec fn view(&self) -> TraceRecordView {
        match self {
            TraceRecord::Input { model, role, content } => TraceRecordView::Input {
                model: model@,
                role: *role,
                content: content@,
            },
            TraceRecord::ToolCall { function } => TraceRecordView::ToolCall { function: function@ },
            TraceRecord::ToolResponse { text } => TraceRecordView::ToolResponse { text: text@ },
            TraceRecord::Final { model, role, content } => TraceRecordView::Final {
                model: model@,
                role: *role,
                content: content@,
            },
        }
    }
}

/// The records of a trace, as mathematical values, oldest first.
pub open spec fn trace_view(records: Seq<TraceRecord>) -> Seq<TraceRecordView> {
    Seq::new(records.len(), |i: int| records[i]@)
}

} // verus!
