use vstd::prelude::*;
use crate::error::{ChatErrorView, ToolErrorView};
use crate::tools::ToolGroup;
use crate::message::{ChatMessageView, MessageRole, ToolCallFunctionView, plain_turn};
use crate::protocol::{
    ActionView, CoordinatorView, EventView, Phase, chat_spec, request_for, step_spec,
};
use crate::request::ChatMessageResponseView;

verus! {

/// The coordinator after it has taken in `events`, one after the other.
pub open spec fn run(s: CoordinatorView, events: Seq<EventView>) -> CoordinatorView
    decreases events.len(),
{
    if events.len() == 0 {
        s
    } else {
        step_spec(run(s, events.drop_last()), events.last()).0
    }
}

/// What the coordinator answered to each of `events`, in order.
pub open spec fn answers(s: CoordinatorView, events: Seq<EventView>) -> Seq<ActionView>
    decreases events.len(),
{
    if events.len() == 0 {
        Seq::empty()
    } else {
        answers(s, events.drop_last()).push(
            step_spec(run(s, events.drop_last()), events.last()).1,
        )
    }
}

/// Taking in `first` and then `second` is taking in the two in a row.
pub proof fn lemma_run_concat(s: CoordinatorView, first: Seq<EventView>, second: Seq<EventView>)
    ensures
        run(s, first + second) == run(run(s, first), second),
        answers(s, first + second) == answers(s, first) + answers(run(s, first), second),
    decreases second.len(),
{
    if second.len() == 0 {
        assert(first + second =~= first);
        assert(answers(s, first) + answers(run(s, first), second) =~= answers(s, first));
    } else {
        let all = first + second;
        assert(all.drop_last() =~= first + second.drop_last());
        assert(all.last() == second.last());
        lemma_run_concat(s, first, second.drop_last());
        assert(answers(s, all) =~= answers(s, first) + answers(run(s, first), second));
    }
}

/// Taking in one event is one step.
pub proof fn lemma_run_one(s: CoordinatorView, event: EventView)
    ensures
        run(s, seq![event]) == step_spec(s, event).0,
        answers(s, seq![event]) == seq![step_spec(s, event).1],
{
    let one = seq![event];
    assert(one.drop_last() =~= Seq::empty());
    assert(one.last() == event);
    assert(run(s, one.drop_last()) == s);
    assert(answers(s, one.drop_last()) =~= Seq::empty());
    assert(answers(s, one) =~= seq![step_spec(s, event).1]);
}

/// What can be seen of a coordinator with the trace left aside: everything
/// but the trace flag and the trace records.
pub open spec fn untraced(s: CoordinatorView) -> CoordinatorView {
    CoordinatorView { debug: false, trace: Seq::empty(), ..s }
}

/// Trace mode has no effect on a step: two coordinators that differ in
/// nothing but the trace flag and the trace records give the same answer to
/// the same event, and differ in nothing else afterwards.
pub proof fn lemma_step_trace_neutral(a: CoordinatorView, b: CoordinatorView, event: EventView)
    requires
        untraced(a) == untraced(b),
    ensures
        untraced(step_spec(a, event).0) == untraced(step_spec(b, event).0),
        step_spec(a, event).1 == step_spec(b, event).1,
{
}

/// Trace mode has no effect on how a turn starts: two coordinators that
/// differ in nothing but the trace flag and the trace records send the same
/// request for the same new turns, and differ in nothing else afterwards.
pub proof fn lemma_chat_trace_neutral(
    a: CoordinatorView,
    b: CoordinatorView,
    turns: Seq<ChatMessageView>,
)
    requires
        untraced(a) == untraced(b),
    ensures
        untraced(chat_spec(a, turns).0) == untraced(chat_spec(b, turns).0),
        chat_spec(a, turns).1 == chat_spec(b, turns).1,
{
}

/// Trace mode has no effect on a whole conversation: for the same new turns
/// and the same sequence of backend and tool behaviour, two coordinators that
/// differ in nothing but the trace flag and the trace records end with the
/// same history, give the same answers, the final response among them, and
/// differ in nothing else at the end.
pub proof fn lemma_trace_neutral(
    a: CoordinatorView,
    b: CoordinatorView,
    turns: Seq<ChatMessageView>,
    events: Seq<EventView>,
)
    requires
        untraced(a) == untraced(b),
    ensures
        untraced(run(chat_spec(a, turns).0, events)) == untraced(
            run(chat_spec(b, turns).0, events),
        ),
        run(chat_spec(a, turns).0, events).history == run(chat_spec(b, turns).0, events).history,
        chat_spec(a, turns).1 == chat_spec(b, turns).1,
        answers(chat_spec(a, turns).0, events) == answers(chat_spec(b, turns).0, events),
{
    lemma_chat_trace_neutral(a, b, turns);
    lemma_run_trace_neutral(chat_spec(a, turns).0, chat_spec(b, turns).0, events);
}

/// Trace mode has no effect on a sequence of steps.
pub proof fn lemma_run_trace_neutral(a: CoordinatorView, b: CoordinatorView, events: Seq<EventView>)
    requires
        untraced(a) == untraced(b),
    ensures
        untraced(run(a, events)) == untraced(run(b, events)),
        answers(a, events) == answers(b, events),
    decreases events.len(),
{
    if events.len() > 0 {
        lemma_run_trace_neutral(a, b, events.drop_last());
        lemma_step_trace_neutral(
            run(a, events.drop_last()),
            run(b, events.drop_last()),
            events.last(),
        );
    }
}

/// The events that report these tool results, in order.
pub open spec fn tool_events(texts: Seq<Seq<char>>) -> Seq<EventView> {
    Seq::new(texts.len(), |i: int| EventView::ToolReturned(texts[i]))
}

/// The tool turns that carry these tool results, in order.
pub open spec fn tool_turns(texts: Seq<Seq<char>>) -> Seq<ChatMessageView> {
    Seq::new(texts.len(), |i: int| plain_turn(MessageRole::Tool, texts[i]))
}

/// Whether two coordinators have the same model, options, tools and trace
/// flag.
pub open spec fn same_setup(a: CoordinatorView, b: CoordinatorView) -> bool {
    &&& a.model == b.model
    &&& a.options == b.options
    &&& a.tools == b.tools
    &&& a.debug == b.debug
}

/// The calls of a batch go out one at a time and in request order. While a
/// batch of `m` calls is dispatched and the first `k` of them return, the
/// answer to the result of call `i` is call `i + 1`, or, after the last call
/// of the batch, a request with no new turns; the history gains one tool turn
/// per result, in that order, and nothing else.
pub proof fn lemma_batch_in_order(s: CoordinatorView, texts: Seq<Seq<char>>)
    requires
        s.phase == Phase::DispatchingTools,
        texts.len() <= s.calls.len(),
        s.calls.len() > 0,
    ensures
        ({
            let t = run(s, tool_events(texts));
            let given = answers(s, tool_events(texts));
            let m = s.calls.len() as int;
            let k = texts.len() as int;
            &&& same_setup(s, t)
            &&& t.history == s.history + tool_turns(texts)
            &&& k < m ==> t.phase == Phase::DispatchingTools && t.calls == s.calls.subrange(k, m)
                && t.pending == s.pending
            &&& k == m ==> t.phase == Phase::AwaitingBackendResponse && t.calls.len() == 0
                && t.pending.len() == 0
            &&& given.len() == k
            &&& forall|i: int|
                0 <= i < k ==> #[trigger] given[i] == if i + 1 < m {
                    ActionView::CallTool(s.calls[i + 1])
                } else {
                    ActionView::Send(request_for(s, Seq::empty()))
                }
        }),
    decreases texts.len(),
{
    let m = s.calls.len() as int;
    let k = texts.len() as int;
    if k == 0 {
        assert(tool_events(texts) =~= Seq::empty());
        assert(s.calls.subrange(0, m) =~= s.calls);
        assert(s.history + tool_turns(texts) =~= s.history);
    } else {
        let before = texts.drop_last();
        lemma_batch_in_order(s, before);
        let events = tool_events(texts);
        assert(events.drop_last() =~= tool_events(before));
        assert(events.last() == EventView::ToolReturned(texts.last()));
        let u = run(s, tool_events(before));
        assert(u.calls == s.calls.subrange(k - 1, m));
        assert(u.calls.drop_first() =~= s.calls.subrange(k, m));
        let t = run(s, events);
        assert(t.history =~= s.history + tool_turns(texts));
        assert(request_for(u, Seq::empty()) == request_for(s, Seq::empty()));
        if k < m {
            assert(t.calls =~= s.calls.subrange(k, m));
        }
    }
}

/// A failing tool call ends the turn at once. Where the first `k - 1` calls of
/// a batch return and call `k` fails, the history gains exactly those `k - 1`
/// tool turns, which stay; the answer to the failure is that tool's error; no
/// request was sent on the way, and none is sent afterwards, whatever is
/// reported next.
pub proof fn lemma_fail_fast(s: CoordinatorView, texts: Seq<Seq<char>>, error: ToolErrorView)
    requires
        s.phase == Phase::DispatchingTools,
        texts.len() < s.calls.len(),
    ensures
        ({
            let events = tool_events(texts).push(EventView::ToolFailed(error));
            let t = run(s, events);
            let given = answers(s, events);
            &&& t.phase == Phase::Failed
            &&& t.history == s.history + tool_turns(texts)
            &&& given.len() == texts.len() + 1
            &&& given.last() == ActionView::Fail(ChatErrorView::Tool(error))
            &&& forall|i: int| 0 <= i < given.len() ==> !(#[trigger] given[i] is Send)
            &&& forall|e: EventView| #[trigger]
                step_spec(t, e) == (t, ActionView::Fail(ChatErrorView::NotExpected))
        }),
{
    let events = tool_events(texts).push(EventView::ToolFailed(error));
    lemma_batch_in_order(s, texts);
    assert(events.drop_last() =~= tool_events(texts));
    let given = answers(s, events);
    let before = answers(s, tool_events(texts));
    assert forall|i: int| 0 <= i < given.len() implies !(#[trigger] given[i] is Send) by {
        if i < texts.len() {
            assert(given[i] == before[i]);
        }
    }
}

/// A response that asks for no tool ends the turn in one round-trip: the
/// turn's request is answered by that response, which is the final one, and
/// the history gains the new turns and the response's turn.
pub proof fn lemma_no_tool_short_circuit(
    s: CoordinatorView,
    turns: Seq<ChatMessageView>,
    response: ChatMessageResponseView,
)
    requires
        !s.phase.in_flight(),
        response.message.tool_calls.len() == 0,
    ensures
        ({
            let started = chat_spec(s, turns);
            let ended = step_spec(started.0, EventView::Response(response));
            &&& started.1 == ActionView::Send(request_for(s, turns))
            &&& ended.1 == ActionView::Done(response)
            &&& ended.0.phase == Phase::Done
            &&& ended.0.history == (s.history + turns).push(response.message)
        }),
{
}

/// One round-trip that asks for tools: the backend's response and the result
/// texts of its tool calls, in request order.
pub struct Round {
    pub response: ChatMessageResponseView,
    pub results: Seq<Seq<char>>,
}

impl Round {
    /// The response asks for at least one tool, and every call of it has its
    /// result.
    pub open spec fn complete(self) -> bool {
        &&& self.response.message.tool_calls.len() > 0
        &&& self.results.len() == self.response.message.tool_calls.len()
    }

    /// What is reported in this round-trip: the response, then each result.
    pub open spec fn events(self) -> Seq<EventView> {
        seq![EventView::Response(self.response)] + tool_events(self.results)
    }

    /// What this round-trip adds to the history: the response's turn, then
    /// one tool turn per result.
    pub open spec fn turns(self) -> Seq<ChatMessageView> {
        seq![self.response.message] + tool_turns(self.results)
    }
}

/// What is reported in a sequence of round-trips, in order.
pub open spec fn script_events(rounds: Seq<Round>) -> Seq<EventView>
    decreases rounds.len(),
{
    if rounds.len() == 0 {
        Seq::empty()
    } else {
        script_events(rounds.drop_last()) + rounds.last().events()
    }
}

/// What a sequence of round-trips adds to the history, in order.
pub open spec fn script_turns(rounds: Seq<Round>) -> Seq<ChatMessageView>
    decreases rounds.len(),
{
    if rounds.len() == 0 {
        Seq::empty()
    } else {
        script_turns(rounds.drop_last()) + rounds.last().turns()
    }
}

/// How many of `actions` send a request to the backend.
pub open spec fn sends(actions: Seq<ActionView>) -> nat
    decreases actions.len(),
{
    if actions.len() == 0 {
        0
    } else {
        sends(actions.drop_last()) + if actions.last() is Send {
            1nat
        } else {
            0nat
        }
    }
}

/// The requests among two runs of actions in a row are those of the one and
/// those of the other.
pub proof fn lemma_sends_concat(first: Seq<ActionView>, second: Seq<ActionView>)
    ensures
        sends(first + second) == sends(first) + sends(second),
    decreases second.len(),
{
    if second.len() == 0 {
        assert(first + second =~= first);
    } else {
        assert((first + second).drop_last() =~= first + second.drop_last());
        lemma_sends_concat(first, second.drop_last());
    }
}

/// Where the last action alone sends a request, one request is sent.
pub proof fn lemma_sends_last_only(actions: Seq<ActionView>)
    requires
        actions.len() > 0,
        actions.last() is Send,
        forall|i: int| 0 <= i < actions.len() - 1 ==> !(#[trigger] actions[i] is Send),
    ensures
        sends(actions) == 1,
{
    lemma_sends_none(actions.drop_last());
}

/// Where no action sends a request, none is sent.
pub proof fn lemma_sends_none(actions: Seq<ActionView>)
    requires
        forall|i: int| 0 <= i < actions.len() ==> !(#[trigger] actions[i] is Send),
    ensures
        sends(actions) == 0,
    decreases actions.len(),
{
    if actions.len() > 0 {
        lemma_sends_none(actions.drop_last());
    }
}

/// One round-trip that asks for tools, all of which return: the history gains
/// what was pending, the response's turn and one tool turn per result; the
/// calls go out in order; and exactly one request follows, with no new turns.
pub proof fn lemma_round(s: CoordinatorView, round: Round)
    requires
        s.phase == Phase::AwaitingBackendResponse,
        round.complete(),
    ensures
        ({
            let t = run(s, round.events());
            let given = answers(s, round.events());
            &&& same_setup(s, t)
            &&& t.phase == Phase::AwaitingBackendResponse
            &&& t.pending.len() == 0
            &&& t.history == s.history + s.pending + round.turns()
            &&& given.len() == round.results.len() + 1
            &&& forall|i: int|
                0 <= i < round.results.len() ==> #[trigger] given[i] == ActionView::CallTool(
                    round.response.message.tool_calls[i],
                )
            &&& given.last() == ActionView::Send(request_for(s, Seq::empty()))
            &&& sends(given) == 1
        }),
{
    let head = seq![EventView::Response(round.response)];
    let tail = tool_events(round.results);
    lemma_run_concat(s, head, tail);
    lemma_run_one(s, EventView::Response(round.response));
    let u = run(s, head);
    lemma_batch_in_order(u, round.results);
    let t = run(s, round.events());
    let given = answers(s, round.events());
    let batch = answers(u, tail);
    assert(given =~= answers(s, head) + batch);
    assert(request_for(u, Seq::empty()) == request_for(s, Seq::empty()));
    assert(t.history =~= s.history + s.pending + round.turns());
    assert forall|i: int| 0 <= i < round.results.len() implies #[trigger] given[i]
        == ActionView::CallTool(round.response.message.tool_calls[i]) by {
        if i > 0 {
            assert(given[i] == batch[i - 1]);
        }
    }
    assert(given.last() == batch.last());
    lemma_sends_last_only(given);
}

/// A sequence of round-trips that ask for tools, all of which return: the
/// history and what is pending together gain what the round-trips add, in
/// order, and each round-trip is followed by exactly one request.
pub proof fn lemma_rounds(s: CoordinatorView, rounds: Seq<Round>)
    requires
        s.phase == Phase::AwaitingBackendResponse,
        forall|i: int| 0 <= i < rounds.len() ==> (#[trigger] rounds[i]).complete(),
    ensures
        ({
            let t = run(s, script_events(rounds));
            let given = answers(s, script_events(rounds));
            &&& same_setup(s, t)
            &&& t.phase == Phase::AwaitingBackendResponse
            &&& t.history + t.pending == s.history + s.pending + script_turns(rounds)
            &&& sends(given) == rounds.len()
            &&& forall|i: int| 0 <= i < given.len() ==> !(#[trigger] given[i] is Done)
            &&& forall|i: int| 0 <= i < given.len() ==> !(#[trigger] given[i] is Fail)
        }),
    decreases rounds.len(),
{
    if rounds.len() == 0 {
        assert(s.history + s.pending + script_turns(rounds) =~= s.history + s.pending);
    } else {
        let before = rounds.drop_last();
        let round = rounds.last();
        assert forall|i: int| 0 <= i < before.len() implies (#[trigger] before[i]).complete() by {
            assert(before[i] == rounds[i]);
        }
        lemma_rounds(s, before);
        let u = run(s, script_events(before));
        lemma_run_concat(s, script_events(before), round.events());
        lemma_round(u, round);
        lemma_sends_concat(answers(s, script_events(before)), answers(u, round.events()));
        let t = run(s, script_events(rounds));
        assert(t.history + t.pending =~= t.history);
        assert(s.history + s.pending + script_turns(rounds) =~= (s.history + s.pending
            + script_turns(before)) + round.turns());
        assert(t.history + t.pending =~= s.history + s.pending + script_turns(rounds));
        let given = answers(s, script_events(rounds));
        let first = answers(s, script_events(before));
        let second = answers(u, round.events());
        assert forall|i: int| 0 <= i < given.len() implies !(#[trigger] given[i] is Done) && !(
        given[i] is Fail) by {
            if i < first.len() {
                assert(given[i] == first[i]);
            } else {
                let j = i - first.len();
                assert(given[i] == second[j]);
                if j < round.results.len() {
                    assert(second[j] is CallTool);
                } else {
                    assert(second[j] == second.last());
                }
            }
        }
    }
}

/// A whole conversation turn. Started at rest with the new turns `turns`, a
/// coordinator sends them; where `rounds` round-trips that ask for tools
/// follow, all of whose tools return, and then the response `last`, which asks
/// for none, the turn ends with `last` as its final response. One request was
/// sent per round-trip, the first included; the history has gained exactly the
/// new turns, then for each round-trip its response turn and its tool turns
/// in call order, then the final response's turn; and nothing is sent
/// afterwards, whatever is reported next.
pub proof fn lemma_conversation(
    s: CoordinatorView,
    turns: Seq<ChatMessageView>,
    rounds: Seq<Round>,
    last: ChatMessageResponseView,
)
    requires
        !s.phase.in_flight(),
        forall|i: int| 0 <= i < rounds.len() ==> (#[trigger] rounds[i]).complete(),
        last.message.tool_calls.len() == 0,
    ensures
        ({
            let started = chat_spec(s, turns);
            let events = script_events(rounds).push(EventView::Response(last));
            let t = run(started.0, events);
            let given = answers(started.0, events);
            &&& started.1 == ActionView::Send(request_for(s, turns))
            &&& same_setup(s, t)
            &&& t.phase == Phase::Done
            &&& t.history == s.history + turns + script_turns(rounds).push(last.message)
            &&& given.last() == ActionView::Done(last)
            &&& sends(given) == rounds.len()
            &&& forall|i: int| 0 <= i < given.len() - 1 ==> !(#[trigger] given[i] is Done)
            &&& forall|i: int| 0 <= i < given.len() ==> !(#[trigger] given[i] is Fail)
            &&& forall|e: EventView| #[trigger]
                step_spec(t, e) == (t, ActionView::Fail(ChatErrorView::NotExpected))
        }),
{
    let started = chat_spec(s, turns);
    let events = script_events(rounds).push(EventView::Response(last));
    lemma_rounds(started.0, rounds);
    assert(events.drop_last() =~= script_events(rounds));
    let u = run(started.0, script_events(rounds));
    let t = run(started.0, events);
    let given = answers(started.0, events);
    let before = answers(started.0, script_events(rounds));
    assert(t.history == (u.history + u.pending).push(last.message));
    assert(t.history =~= s.history + turns + script_turns(rounds).push(last.message));
    assert(given.drop_last() =~= before);
    assert forall|i: int| 0 <= i < given.len() - 1 implies !(#[trigger] given[i] is Done) by {
        assert(given[i] == before[i]);
    }
    assert forall|i: int| 0 <= i < given.len() implies !(#[trigger] given[i] is Fail) by {
        if i < given.len() - 1 {
            assert(given[i] == before[i]);
        }
    }
}

/// What is reported while the tools of a batch are run one after the other
/// until one fails: at least one event, all of them tool results but the
/// last, which is a tool result or a tool failure.
pub open spec fn tool_reports(events: Seq<EventView>) -> bool {
    &&& events.len() > 0
    &&& forall|i: int| 0 <= i < events.len() - 1 ==> #[trigger] events[i] is ToolReturned
    &&& events.last() is ToolReturned || events.last() is ToolFailed
}

/// The result texts that tool results report, in order.
pub open spec fn reported_texts(events: Seq<EventView>) -> Seq<Seq<char>> {
    Seq::new(events.len(), |i: int| events[i]->ToolReturned_0)
}

/// What running the tools of a batch comes to. Where a batch of `m` calls is
/// dispatched, every result but the last is answered with the next call, and
/// the answer to the last report is no call, then either all `m` calls have
/// returned, the history has gained their `m` tool turns in order and the
/// answer is a request with no new turns; or call `k` has failed, the history
/// has gained only the `k - 1` tool turns before it, and the answer is that
/// tool's error.
pub proof fn lemma_tools_outcome(s: CoordinatorView, events: Seq<EventView>)
    requires
        s.phase == Phase::DispatchingTools,
        s.calls.len() > 0,
        tool_reports(events),
        forall|i: int| 0 <= i < events.len() - 1 ==> #[trigger] answers(s, events)[i] is CallTool,
        !(answers(s, events).last() is CallTool),
    ensures
        events.len() <= s.calls.len(),
        match events.last() {
            EventView::ToolFailed(error) => {
                &&& run(s, events).phase == Phase::Failed
                &&& run(s, events).history == s.history + tool_turns(
                    reported_texts(events.drop_last()),
                )
                &&& answers(s, events).last() == ActionView::Fail(ChatErrorView::Tool(error))
            },
            _ => {
                &&& events.len() == s.calls.len()
                &&& run(s, events).phase == Phase::AwaitingBackendResponse
                &&& run(s, events).history == s.history + tool_turns(reported_texts(events))
                &&& answers(s, events).last() == ActionView::Send(request_for(s, Seq::empty()))
            },
        },
{
    let m = s.calls.len() as int;
    let n = events.len() as int;
    let before = events.drop_last();
    let texts = reported_texts(before);
    assert(tool_events(texts) =~= before);
    // The results before the last report cannot outrun the batch: the answer
    // to the last result of a batch is a request, not a call.
    assert(n - 1 < m) by {
        if n - 1 >= m {
            let whole = events.subrange(0, m);
            let whole_texts = reported_texts(whole);
            assert(tool_events(whole_texts) =~= whole);
            lemma_batch_in_order(s, whole_texts);
            lemma_run_concat(s, whole, events.subrange(m, n));
            assert(whole + events.subrange(m, n) =~= events);
            assert(answers(s, events)[m - 1] == answers(s, whole)[m - 1]);
            assert(answers(s, events)[m - 1] is Send);
        }
    }
    lemma_batch_in_order(s, texts);
    match events.last() {
        EventView::ToolFailed(error) => {},
        _ => {
            let all = reported_texts(events);
            assert(tool_events(all) =~= events);
            lemma_batch_in_order(s, all);
        },
    }
}

/// What a report of a tool's run says the call came back with.
pub open spec fn outcome_of(event: EventView) -> Result<Seq<char>, ToolErrorView> {
    match event {
        EventView::ToolReturned(text) => Ok(text),
        EventView::ToolFailed(error) => Err(error),
        _ => arbitrary(),
    }
}

/// Whether `events` report a run of the first calls of `calls` through a tool
/// group, one after the other and in request order, that took the group
/// through `groups`: call `i` was made on the group as call `i - 1` left it,
/// came back with what event `i` reports, and no call was made after one that
/// failed.
pub open spec fn tools_ran<T: ToolGroup>(
    calls: Seq<ToolCallFunctionView>,
    events: Seq<EventView>,
    groups: Seq<T>,
) -> bool {
    &&& tool_reports(events)
    &&& events.len() <= calls.len()
    &&& groups.len() == events.len() + 1
    &&& forall|i: int|
        0 <= i < events.len() ==> groups[i].comes_back(
            calls[i],
            outcome_of(#[trigger] events[i]),
            &groups[i + 1],
        )
}

/// Whether a coordinator that stood at `before`, with the tool group
/// `group_before`, has run tools as `events` and `groups` say, taken in each
/// report, and now stands at `after`, with the tool group `group_after` and
/// `action` as its answer to the last report: every earlier answer was the
/// next call of the batch.
pub open spec fn dispatched<T: ToolGroup>(
    before: CoordinatorView,
    group_before: T,
    after: CoordinatorView,
    group_after: T,
    action: ActionView,
    events: Seq<EventView>,
    groups: Seq<T>,
) -> bool {
    &&& tools_ran(before.calls, events, groups)
    &&& groups[0] == group_before
    &&& groups.last() == group_after
    &&& after == run(before, events)
    &&& action == answers(before, events).last()
    &&& forall|i: int|
        0 <= i < events.len() - 1 ==> #[trigger] answers(before, events)[i] is CallTool
}

/// What a run of the tools of a batch leaves behind. Where the call that is
/// out is run through the tool group, and the calls behind it in turn, until
/// the answer is no call, then either every call of the batch was made and
/// has returned, the history has gained one tool turn per call, in request
/// order, and a request with no new turns goes out; or a call has failed,
/// the history has gained only the tool turns of the calls before it, the
/// turn has ended with that tool's error, and the calls behind it were not
/// made.
pub proof fn lemma_dispatched<T: ToolGroup>(
    before: CoordinatorView,
    group_before: T,
    after: CoordinatorView,
    group_after: T,
    action: ActionView,
    events: Seq<EventView>,
    groups: Seq<T>,
)
    requires
        before.phase == Phase::DispatchingTools,
        before.calls.len() > 0,
        dispatched(before, group_before, after, group_after, action, events, groups),
        !(action is CallTool),
    ensures
        groups.len() == events.len() + 1,
        events.len() <= before.calls.len(),
        match events.last() {
            EventView::ToolFailed(error) => {
                &&& after.phase == Phase::Failed
                &&& after.history == before.history + tool_turns(
                    reported_texts(events.drop_last()),
                )
                &&& action == ActionView::Fail(ChatErrorView::Tool(error))
            },
            _ => {
                &&& events.len() == before.calls.len()
                &&& after.phase == Phase::AwaitingBackendResponse
                &&& after.history == before.history + tool_turns(reported_texts(events))
                &&& action == ActionView::Send(request_for(before, Seq::empty()))
            },
        },
{
    lemma_tools_outcome(before, events);
}

} // verus!
