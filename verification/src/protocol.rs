use vstd::prelude::*;
use crate::error::{BackendErrorView, ChatErrorView, ToolErrorView};
use crate::message::{ChatMessageView, MessageRole, ToolCallFunctionView, plain_turn};
use crate::request::{
    ChatMessageRequestView, ChatMessageResponseView, GenerationOptions, ToolInfoView,
};

verus! {

/// Where a coordinator stands in a conversation turn.
#[derive(Debug, Clone, Copy, PartialEq, Eq, Structural)]
pub enum Phase {
    /// No turn has been started yet.
    Idle,
    /// A request is out and the backend's response is awaited.
    AwaitingBackendResponse,
    /// A tool call is out and its result is awaited.
    DispatchingTools,
    /// The last turn ended with a response that asked for no tool.
    Done,
    /// The last turn ended with an error.
    Failed,
}

impl Phase {
    /// Whether a turn is under way.
    pub open spec fn in_flight(self) -> bool {
        self == Phase::AwaitingBackendResponse || self == Phase::DispatchingTools
    }
}

/// One record of the trace, as a mathematical value.
pub enum TraceRecordView {
    /// A turn that is about to go to `model`.
    Input { model: Seq<char>, role: MessageRole, content: Seq<char> },
    /// A tool call that is about to be made.
    ToolCall { function: ToolCallFunctionView },
    /// The text that a tool returned.
    ToolResponse { text: Seq<char> },
    /// The final response of a turn, from `model`.
    Final { model: Seq<char>, role: MessageRole, content: Seq<char> },
}

/// What the outside world reports back, as a mathematical value.
pub enum EventView {
    Response(ChatMessageResponseView),
    BackendFailed(BackendErrorView),
    ToolReturned(Seq<char>),
    ToolFailed(ToolErrorView),
}

/// What the coordinator asks of the outside world next, or how the turn
/// ended, as a mathematical value.
pub enum ActionView {
    Send(ChatMessageRequestView),
    CallTool(ToolCallFunctionView),
    Done(ChatMessageResponseView),
    Fail(ChatErrorView),
}

/// A coordinator as a mathematical value.
pub struct CoordinatorView {
    pub model: Seq<char>,
    pub options: GenerationOptions,
    /// The history store's turns, oldest first.
    pub history: Seq<ChatMessageView>,
    /// The tools on offer.
    pub tools: Seq<ToolInfoView>,
    pub debug: bool,
    pub phase: Phase,
    /// The new turns of the round-trip that is out.
    pub pending: Seq<ChatMessageView>,
    /// The tool calls of the current batch that have not returned yet; the
    /// first of them is the one that is out.
    pub calls: Seq<ToolCallFunctionView>,
    /// The trace records that have not been taken yet, oldest first.
    pub trace: Seq<TraceRecordView>,
}

/// The trace with `records` added where trace mode is on, unchanged where it
/// is off.
pub open spec fn traced(debug: bool, trace: Seq<TraceRecordView>, records: Seq<TraceRecordView>)
    -> Seq<TraceRecordView> {
    if debug {
        trace + records
    } else {
        trace
    }
}

/// One input record per turn, in order.
pub open spec fn input_records(model: Seq<char>, turns: Seq<ChatMessageView>) -> Seq<
    TraceRecordView,
> {
    Seq::new(
        turns.len(),
        |i: int| TraceRecordView::Input { model, role: turns[i].role, content: turns[i].content },
    )
}

/// The request that a coordinator sends for the new turns `turns`.
pub open spec fn request_for(s: CoordinatorView, turns: Seq<ChatMessageView>)
    -> ChatMessageRequestView {
    ChatMessageRequestView {
        model_name: s.model,
        messages: turns,
        options: s.options,
        tools: s.tools,
    }
}

/// A batch without its first call.
pub open spec fn rest(calls: Seq<ToolCallFunctionView>) -> Seq<ToolCallFunctionView> {
    if calls.len() > 0 {
        calls.drop_first()
    } else {
        calls
    }
}

/// Whether `function` is the tool call that is out: a batch is being
/// dispatched, and `function` is the first of its calls that have not
/// returned yet.
pub open spec fn pending_call(s: CoordinatorView, function: ToolCallFunctionView) -> bool {
    &&& s.phase == Phase::DispatchingTools
    &&& s.calls.len() > 0
    &&& s.calls[0] == function
}

/// Starting a turn with the new turns `turns`. Where a turn is under way
/// already, nothing changes and the answer is an error. Otherwise the new
/// turns are traced and held back as pending, and a request goes out.
pub open spec fn chat_spec(s: CoordinatorView, turns: Seq<ChatMessageView>) -> (
    CoordinatorView,
    ActionView,
) {
    if s.phase.in_flight() {
        (s, ActionView::Fail(ChatErrorView::NotExpected))
    } else {
        (
            CoordinatorView {
                phase: Phase::AwaitingBackendResponse,
                pending: turns,
                calls: Seq::empty(),
                trace: traced(s.debug, s.trace, input_records(s.model, turns)),
                ..s
            },
            ActionView::Send(request_for(s, turns)),
        )
    }
}

/// A backend response arrives while one is awaited: the pending turns and the
/// response's turn enter the history; then either the first tool call of the
/// response goes out, or the response is final.
pub open spec fn on_response(s: CoordinatorView, response: ChatMessageResponseView) -> (
    CoordinatorView,
    ActionView,
) {
    let history = (s.history + s.pending).push(response.message);
    let calls = response.message.tool_calls;
    if calls.len() > 0 {
        (
            CoordinatorView {
                history,
                pending: Seq::empty(),
                phase: Phase::DispatchingTools,
                calls,
                trace: traced(
                    s.debug,
                    s.trace,
                    seq![TraceRecordView::ToolCall { function: calls[0] }],
                ),
                ..s
            },
            ActionView::CallTool(calls[0]),
        )
    } else {
        (
            CoordinatorView {
                history,
                pending: Seq::empty(),
                phase: Phase::Done,
                calls: Seq::empty(),
                trace: traced(
                    s.debug,
                    s.trace,
                    seq![
                        TraceRecordView::Final {
                            model: response.model,
                            role: response.message.role,
                            content: response.message.content,
                        },
                    ],
                ),
                ..s
            },
            ActionView::Done(response),
        )
    }
}

/// A tool's result text arrives while one is awaited: a tool turn with that
/// text enters the history; then either the next call of the batch goes out,
/// or, the batch being through, a request with no new turns.
pub open spec fn on_tool_returned(s: CoordinatorView, text: Seq<char>) -> (
    CoordinatorView,
    ActionView,
) {
    let history = s.history.push(plain_turn(MessageRole::Tool, text));
    let calls = rest(s.calls);
    let trace = traced(s.debug, s.trace, seq![TraceRecordView::ToolResponse { text }]);
    if calls.len() > 0 {
        (
            CoordinatorView {
                history,
                calls,
                trace: traced(s.debug, trace, seq![TraceRecordView::ToolCall { function: calls[0] }]),
                ..s
            },
            ActionView::CallTool(calls[0]),
        )
    } else {
        (
            CoordinatorView {
                history,
                calls,
                trace,
                phase: Phase::AwaitingBackendResponse,
                pending: Seq::empty(),
                ..s
            },
            ActionView::Send(request_for(s, Seq::empty())),
        )
    }
}

/// The turn ends with `error`: what the history holds stays, what was pending
/// or still to be called is dropped.
pub open spec fn failed(s: CoordinatorView, error: ChatErrorView) -> (CoordinatorView, ActionView) {
    (
        CoordinatorView { phase: Phase::Failed, pending: Seq::empty(), calls: Seq::empty(), ..s },
        ActionView::Fail(error),
    )
}

/// One step of the coordinator: the state and the event give the next state
/// and what to do next. An event that the coordinator is not waiting for
/// changes nothing and is answered with an error.
pub open spec fn step_spec(s: CoordinatorView, event: EventView) -> (CoordinatorView, ActionView) {
    match (s.phase, event) {
        (Phase::AwaitingBackendResponse, EventView::Response(response)) => on_response(
            s,
            response,
        ),
        (Phase::AwaitingBackendResponse, EventView::BackendFailed(error)) => failed(
            s,
            ChatErrorView::Backend(error),
        ),
        (Phase::DispatchingTools, EventView::ToolReturned(text)) => on_tool_returned(s, text),
        (Phase::DispatchingTools, EventView::ToolFailed(error)) => failed(
            s,
            ChatErrorView::Tool(error),
        ),
        _ => (s, ActionView::Fail(ChatErrorView::NotExpected)),
    }
}

} // verus!
