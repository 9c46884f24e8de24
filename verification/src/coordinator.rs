use vstd::prelude::*;
use crate::conversation::{answers, dispatched, outcome_of, run};
use crate::error::{ChatError, ChatErrorView};
use crate::event::{Action, Event, TraceRecord, actions_view, events_view, trace_view};
use crate::history::{ChatHistory, record_round_trip};
use crate::message::{
    ChatMessage, ChatMessageView, ToolCall, ToolCallFunction, ToolCallFunctionView, calls_view, clone_calls,
    clone_messages, turns_view,
};
use crate::protocol::{
    ActionView, CoordinatorView, EventView, Phase, chat_spec, failed, input_records, on_response,
    on_tool_returned, pending_call, rest, step_spec,
};
use crate::request::{
    ChatMessageRequest, ChatMessageResponse, GenerationOptions, ToolInfo, ToolInfoView, clone_tools,
    tools_view,
};
use crate::tools::ToolGroup;

verus! {

/// Drives one conversation: it owns the model's name, the generation options,
/// the history store and the tools, and decides, event by event, what happens
/// next. It performs no input or output itself: `chat` and `step` say what to
/// do, and the caller reports back what came of it.
pub struct Coordinator<C: ChatHistory, T: ToolGroup> {
    model: String,
    options: GenerationOptions,
    history: C,
    tools: T,
    offered: Vec<ToolInfo>,
    debug: bool,
    phase: Phase,
    pending: Vec<ChatMessage>,
    calls: Vec<ToolCall>,
    next: usize,
    trace: Vec<TraceRecord>,
}

/// The calls of `calls` from position `next` on.
pub open spec fn calls_from(calls: Seq<ToolCall>, next: int) -> Seq<ToolCallFunctionView> {
    if 0 <= next <= calls.len() {
        calls_view(calls).subrange(next, calls.len() as int)
    } else {
        Seq::empty()
    }
}

/// The coordinator that a constructor gives: at rest, with unset options,
/// trace mode off and nothing traced.
pub open spec fn fresh(
    model: Seq<char>,
    history: Seq<ChatMessageView>,
    tools: Seq<ToolInfoView>,
) -> CoordinatorView {
    CoordinatorView {
        model,
        options: GenerationOptions::unset(),
        history,
        tools,
        debug: false,
        phase: Phase::Idle,
        pending: Seq::empty(),
        calls: Seq::empty(),
        trace: Seq::empty(),
    }
}

impl<C: ChatHistory, T: ToolGroup> View for Coordinator<C, T> {
    type V = CoordinatorView;

    closed spec fn view(&self) -> CoordinatorView {
        CoordinatorView {
            model: self.model@,
            options: self.options,
            history: self.history.turns(),
            tools: tools_view(self.offered@),
            debug: self.debug,
            phase: self.phase,
            pending: turns_view(self.pending@),
            calls: calls_from(self.calls@, self.next as int),
            trace: trace_view(self.trace@),
        }
    }
}

/// Adds one input record per turn of `messages` to the end of `trace`.
fn record_inputs(trace: &mut Vec<TraceRecord>, model: &String, messages: &Vec<ChatMessage>)
    ensures
        trace_view(final(trace)@) == trace_view(old(trace)@) + input_records(
            model@,
            turns_view(messages@),
        ),
{
    let mut i: usize = 0;
    while i < messages.len()
        invariant
            i <= messages.len(),
            trace_view(trace@) == trace_view(old(trace)@) + input_records(
                model@,
                turns_view(messages@),
            ).subrange(0, i as int),
        decreases messages.len() - i,
    {
        let ghost before = trace_view(trace@);
        let record = TraceRecord::Input {
            model: model.clone(),
            role: messages[i].role,
            content: messages[i].content.clone(),
        };
        trace.push(record);
        assert(trace_view(trace@) =~= before.push(record@));
        assert(trace_view(trace@) =~= trace_view(old(trace)@) + input_records(
            model@,
            turns_view(messages@),
        ).subrange(0, i + 1));
        i += 1;
    }
    assert(input_records(model@, turns_view(messages@)).subrange(0, i as int) =~= input_records(
        model@,
        turns_view(messages@),
    ));
}

/// The events in the opposite order.
fn reversed(events: Vec<Event>) -> (turned: Vec<Event>)
    ensures
        turned.len() == events.len(),
        forall|i: int| 0 <= i < turned.len() ==> turned[i] == events[events.len() - 1 - i],
{
    let mut events = events;
    let ghost all = events@;
    let mut turned: Vec<Event> = Vec::new();
    while events.len() > 0
        invariant
            turned.len() + events.len() == all.len(),
            forall|i: int| 0 <= i < events.len() ==> events[i] == all[i],
            forall|i: int| 0 <= i < turned.len() ==> turned[i] == all[all.len() - 1 - i],
        decreases events.len(),
    {
        let event = events.pop().unwrap();
        turned.push(event);
    }
    turned
}

/// Adds `record` to the end of `trace`.
fn record(trace: &mut Vec<TraceRecord>, record: TraceRecord)
    ensures
        trace_view(final(trace)@) == trace_view(old(trace)@) + seq![record@],
{
    trace.push(record);
    assert(trace_view(trace@) =~= trace_view(old(trace)@) + seq![record@]);
}

impl<C: ChatHistory> Coordinator<C, ()> {
    /// A coordinator for `model` over `history`, with no tools on offer.
    pub fn new(model: String, history: C) -> (coordinator: Self)
        ensures
            coordinator@ == fresh(model@, history.turns(), Seq::empty()),
            coordinator.tool_group() == (),
    {
        Coordinator::new_with_tools(model, history, ())
    }
}

impl<C: ChatHistory, T: ToolGroup> Coordinator<C, T> {
    /// The tool group that the coordinator holds.
    pub closed spec fn tool_group(&self) -> T {
        self.tools
    }

    /// A coordinator for `model` over `history` that holds the tool group
    /// `tools` and offers the tools that the group describes to the backend.
    /// No tool is run and nothing is sent.
    pub fn new_with_tools(model: String, history: C, tools: T) -> (coordinator: Self)
        ensures
            coordinator@ == fresh(model@, history.turns(), T::offered()),
            coordinator.tool_group() == tools,
    {
        let coordinator = Coordinator {
            model,
            options: GenerationOptions::default(),
            history,
            tools,
            offered: T::tool_info(),
            debug: false,
            phase: Phase::Idle,
            pending: Vec::new(),
            calls: Vec::new(),
            next: 0,
            trace: Vec::new(),
        };
        assert(coordinator@.pending =~= Seq::empty());
        assert(coordinator@.calls =~= Seq::empty());
        assert(coordinator@.trace =~= Seq::empty());
        coordinator
    }

    /// The tool group that the coordinator holds.
    pub fn tools(&self) -> (tools: &T)
        ensures
            *tools == self.tool_group(),
    {
        &self.tools
    }

    /// Replaces the generation options. Nothing else changes.
    pub fn options(self, options: GenerationOptions) -> (coordinator: Self)
        ensures
            coordinator@ == (CoordinatorView { options, ..self@ }),
            coordinator.tool_group() == self.tool_group(),
    {
        let mut coordinator = self;
        coordinator.options = options;
        coordinator
    }

    /// Starts a conversation turn with the new turns `messages` and says
    /// which request to send. While a turn is under way nothing changes and
    /// the answer is an error.
    pub fn chat(&mut self, messages: Vec<ChatMessage>) -> (action: Action)
        ensures
            (final(self)@, action@) == chat_spec(old(self)@, turns_view(messages@)),
            final(self).tool_group() == old(self).tool_group(),
    {
        match self.phase {
            Phase::AwaitingBackendResponse | Phase::DispatchingTools => {
                return Action::Fail(ChatError::NotExpected);
            },
            _ => {},
        }
        if self.debug {
            record_inputs(&mut self.trace, &self.model, &messages);
        }
        let request = ChatMessageRequest::new(
            self.model.clone(),
            clone_messages(&messages),
        ).options(self.options).tools(clone_tools(&self.offered));
        self.pending = messages;
        self.calls = Vec::new();
        self.next = 0;
        self.phase = Phase::AwaitingBackendResponse;
        assert(self@.calls =~= Seq::empty());
        Action::Send(request)
    }

    /// Takes in the backend's response to the request that is out.
    fn respond(&mut self, response: ChatMessageResponse) -> (action: Action)
        ensures
            (final(self)@, action@) == on_response(old(self)@, response@),
            final(self).tool_group() == old(self).tool_group(),
    {
        record_round_trip(&mut self.history, &self.pending, &response.message);
        self.pending = Vec::new();
        assert(self@.pending =~= Seq::empty());
        if response.message.tool_calls.len() > 0 {
            self.calls = clone_calls(&response.message.tool_calls);
            self.next = 0;
            self.phase = Phase::DispatchingTools;
            assert(self@.calls =~= response@.message.tool_calls);
            assert(self.calls.len() > 0);
            let function = self.calls[0].function.clone();
            if self.debug {
                record(&mut self.trace, TraceRecord::ToolCall { function: function.clone() });
            }
            Action::CallTool(function)
        } else {
            self.calls = Vec::new();
            self.next = 0;
            self.phase = Phase::Done;
            assert(self@.calls =~= Seq::empty());
            if self.debug {
                record(
                    &mut self.trace,
                    TraceRecord::Final {
                        model: response.model.clone(),
                        role: response.message.role,
                        content: response.message.content.clone(),
                    },
                );
            }
            Action::Done(response)
        }
    }

    /// Takes in the result text of the tool call that is out.
    fn tool_returned(&mut self, text: String) -> (action: Action)
        ensures
            (final(self)@, action@) == on_tool_returned(old(self)@, text@),
            final(self).tool_group() == old(self).tool_group(),
    {
        let ghost expected = on_tool_returned(old(self)@, text@);
        if self.debug {
            record(&mut self.trace, TraceRecord::ToolResponse { text: text.clone() });
        }
        self.history.push(ChatMessage::tool(text));
        if self.next < self.calls.len() {
            self.next += 1;
        }
        assert(self@.calls =~= rest(old(self)@.calls));
        let action = if self.next < self.calls.len() {
            assert(self@.calls[0] == self.calls[self.next as int]@);
            let function = self.calls[self.next].function.clone();
            if self.debug {
                record(&mut self.trace, TraceRecord::ToolCall { function: function.clone() });
            }
            Action::CallTool(function)
        } else {
            self.calls = Vec::new();
            self.next = 0;
            self.pending = Vec::new();
            self.phase = Phase::AwaitingBackendResponse;
            let request = ChatMessageRequest::new(self.model.clone(), Vec::new()).options(
                self.options,
            ).tools(clone_tools(&self.offered));
            assert(request@.messages =~= Seq::empty());
            Action::Send(request)
        };
        proof {
            assert(self@.calls =~= expected.0.calls);
            assert(self@.pending =~= expected.0.pending);
            assert(self@.trace =~= expected.0.trace);
            assert(self@ =~= expected.0);
        }
        action
    }

    /// Ends the turn with `error`.
    fn fail(&mut self, error: ChatError) -> (action: Action)
        ensures
            (final(self)@, action@) == failed(old(self)@, error@),
            final(self).tool_group() == old(self).tool_group(),
    {
        self.phase = Phase::Failed;
        self.pending = Vec::new();
        self.calls = Vec::new();
        self.next = 0;
        assert(self@.calls =~= Seq::empty());
        assert(self@.pending =~= Seq::empty());
        Action::Fail(error)
    }

    /// Takes in what the outside world reports and says what to do next. An
    /// event that the coordinator is not waiting for changes nothing and is
    /// answered with an error.
    pub fn step(&mut self, event: Event) -> (action: Action)
        ensures
            (final(self)@, action@) == step_spec(old(self)@, event@),
            final(self).tool_group() == old(self).tool_group(),
    {
        match self.phase {
            Phase::AwaitingBackendResponse => match event {
                Event::Response(response) => self.respond(response),
                Event::BackendFailed(error) => self.fail(ChatError::Backend(error)),
                _ => Action::Fail(ChatError::NotExpected),
            },
            Phase::DispatchingTools => match event {
                Event::ToolReturned(text) => self.tool_returned(text),
                Event::ToolFailed(error) => self.fail(ChatError::Tool(error)),
                _ => Action::Fail(ChatError::NotExpected),
            },
            _ => Action::Fail(ChatError::NotExpected),
        }
    }

    /// Replays a recorded conversation: takes in `events`, one after the
    /// other, and gives the answer to each of them, in order.
    pub fn replay(&mut self, events: Vec<Event>) -> (given: Vec<Action>)
        ensures
            final(self)@ == run(old(self)@, events_view(events@)),
            actions_view(given@) == answers(old(self)@, events_view(events@)),
            final(self).tool_group() == old(self).tool_group(),
    {
        let ghost all = events_view(events@);
        let mut given: Vec<Action> = Vec::new();
        let ghost mut taken: Seq<EventView> = Seq::empty();
        assert(actions_view(given@) =~= Seq::empty());
        let mut events = reversed(events);
        while events.len() > 0
            invariant
                self@ == run(old(self)@, taken),
                self.tool_group() == old(self).tool_group(),
                actions_view(given@) == answers(old(self)@, taken),
                taken.len() + events.len() == all.len(),
                forall|i: int| 0 <= i < taken.len() ==> taken[i] == all[i],
                forall|i: int|
                    0 <= i < events.len() ==> (#[trigger] events[i])@ == all[all.len() - 1 - i],
            decreases events.len(),
        {
            let ghost before = taken;
            let ghost answered = actions_view(given@);
            let event = events.pop().unwrap();
            proof {
                taken = before.push(event@);
                assert(taken.drop_last() =~= before);
            }
            let action = self.step(event);
            given.push(action);
            assert(actions_view(given@) =~= answered.push(action@));
        }
        assert(taken =~= all);
        given
    }

    /// Runs the tool calls of the batch that is being dispatched through the
    /// coordinator's own tool group, one after the other and in request
    /// order, starting with `function`, and stops at the first that fails.
    /// Where `function` is not the call that is out, no tool is run, nothing
    /// changes and the answer is an error. Otherwise each call is made on the
    /// group as the call before it left it, the coordinator takes in what
    /// each call came back with, and the answer to the last of them is given
    /// back: a request with no new turns after the whole batch, or the error
    /// that ended the turn.
    pub fn call_tools(&mut self, function: ToolCallFunction) -> (action: Action)
        ensures
            !(action@ is CallTool),
            !pending_call(old(self)@, function@) ==> {
                &&& final(self)@ == old(self)@
                &&& final(self).tool_group() == old(self).tool_group()
                &&& action@ == ActionView::Fail(ChatErrorView::NotExpected)
            },
            pending_call(old(self)@, function@) ==> exists|
                events: Seq<EventView>,
                groups: Seq<T>,
            |
                dispatched(
                    old(self)@,
                    old(self).tool_group(),
                    final(self)@,
                    final(self).tool_group(),
                    action@,
                    events,
                    groups,
                ),
    {
        if !self.is_pending(&function) {
            return Action::Fail(ChatError::NotExpected);
        }
        let ghost start = self@;
        let ghost mut events: Seq<EventView> = Seq::empty();
        let ghost mut groups: Seq<T> = seq![self.tool_group()];
        let mut out = function;
        assert(start.calls.subrange(0, start.calls.len() as int) =~= start.calls);
        loop
            invariant
                start == old(self)@,
                pending_call(start, function@),
                self@ == run(start, events),
                self@.phase == Phase::DispatchingTools,
                events.len() < start.calls.len(),
                self@.calls == start.calls.subrange(events.len() as int, start.calls.len() as int),
                out@ == start.calls[events.len() as int],
                answers(start, events).len() == events.len(),
                groups.len() == events.len() + 1,
                groups[0] == old(self).tool_group(),
                groups.last() == self.tool_group(),
                forall|i: int| 0 <= i < events.len() ==> #[trigger] events[i] is ToolReturned,
                forall|i: int|
                    0 <= i < events.len() ==> #[trigger] answers(start, events)[i] is CallTool,
                forall|i: int|
                    0 <= i < events.len() ==> groups[i].comes_back(
                        start.calls[i],
                        outcome_of(#[trigger] events[i]),
                        &groups[i + 1],
                    ),
            decreases self@.calls.len(),
        {
            let ghost before = events;
            let ghost through = groups;
            let ghost held = self@.calls;
            let result = self.tools.call(&out);
            let event = Event::from_tool_result(result);
            proof {
                events = before.push(event@);
                groups = through.push(self.tool_group());
                assert(events.drop_last() =~= before);
                assert(forall|i: int|
                    0 <= i < before.len() ==> answers(start, events)[i] == answers(
                        start,
                        before,
                    )[i]);
                assert(forall|i: int| 0 <= i < before.len() ==> events[i] == before[i]);
                assert(forall|i: int| 0 <= i <= before.len() ==> groups[i] == through[i]);
            }
            let action = self.step(event);
            proof {
                assert(rest(held) =~= start.calls.subrange(
                    events.len() as int,
                    start.calls.len() as int,
                ));
            }
            match action {
                Action::CallTool(next) => {
                    out = next;
                },
                other => {
                    assert(dispatched(
                        start,
                        old(self).tool_group(),
                        self@,
                        self.tool_group(),
                        other@,
                        events,
                        groups,
                    ));
                    return other;
                },
            }
        }
    }

    /// Whether `function` is the tool call that is out.
    fn is_pending(&self, function: &ToolCallFunction) -> (pending: bool)
        ensures
            pending == pending_call(self@, function@),
    {
        match self.phase {
            Phase::DispatchingTools => {
                if self.next < self.calls.len() {
                    let out = &self.calls[self.next].function;
                    assert(self@.calls[0] == out@);
                    out.name == function.name && out.arguments == function.arguments
                } else {
                    assert(self@.calls.len() == 0);
                    false
                }
            },
            _ => false,
        }
    }

    /// The model's name.
    pub fn model(&self) -> (model: &String)
        ensures
            model@ == self@.model,
    {
        &self.model
    }

    /// The history store.
    pub fn history(&self) -> (history: &C)
        ensures
            history.turns() == self@.history,
    {
        &self.history
    }

    /// Gives up the coordinator for its history store.
    pub fn into_history(self) -> (history: C)
        ensures
            history.turns() == self@.history,
    {
        self.history
    }

    /// Where the coordinator stands.
    pub fn phase(&self) -> (phase: Phase)
        ensures
            phase == self@.phase,
    {
        self.phase
    }

    /// Hands out the trace records gathered since they were last taken,
    /// oldest first, and leaves none behind. Nothing else changes.
    pub fn take_trace(&mut self) -> (records: Vec<TraceRecord>)
        ensures
            trace_view(records@) == old(self)@.trace,
            final(self)@ == (CoordinatorView { trace: Seq::empty(), ..old(self)@ }),
            final(self).tool_group() == old(self).tool_group(),
    {
        let mut records: Vec<TraceRecord> = Vec::new();
        core::mem::swap(&mut self.trace, &mut records);
        assert(self@.trace =~= Seq::empty());
        records
    }

    /// Turns trace mode on or off. Nothing else changes.
    pub fn debug(self, debug: bool) -> (coordinator: Self)
        ensures
            coordinator@ == (CoordinatorView { debug, ..self@ }),
            coordinator.tool_group() == self.tool_group(),
    {
        let mut coordinator = self;
        coordinator.debug = debug;
        coordinator
    }
}

} // verus!
