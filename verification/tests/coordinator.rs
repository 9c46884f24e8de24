use robo::coordinator::Coordinator;
use robo::error::{BackendError, BackendErrorKind, ChatError, ToolError, ToolErrorKind};
use robo::event::{Action, Event, TraceRecord};
use robo::history::ChatHistory;
use robo::message::{ChatMessage, MessageRole, ToolCall, ToolCallFunction};
use robo::protocol::Phase;
use robo::request::{ChatMessageRequest, ChatMessageResponse, GenerationOptions, ToolInfo};
use robo::tools::ToolGroup;

fn function(name: &str, arguments: &str) -> ToolCallFunction {
    ToolCallFunction { name: name.to_string(), arguments: arguments.to_string() }
}

fn call(name: &str, arguments: &str) -> ToolCall {
    ToolCall { function: function(name, arguments) }
}

fn asks(model: &str, calls: Vec<ToolCall>) -> ChatMessageResponse {
    ChatMessageResponse {
        model: model.to_string(),
        message: ChatMessage {
            role: MessageRole::Assistant,
            content: String::new(),
            tool_calls: calls,
        },
    }
}

fn says(model: &str, content: &str) -> ChatMessageResponse {
    ChatMessageResponse {
        model: model.to_string(),
        message: ChatMessage::assistant(content.to_string()),
    }
}

fn request(model: &str, messages: Vec<ChatMessage>) -> ChatMessageRequest {
    ChatMessageRequest {
        model_name: model.to_string(),
        messages,
        options: GenerationOptions::default(),
        tools: vec![],
    }
}

fn user(content: &str) -> ChatMessage {
    ChatMessage::user(content.to_string())
}

fn tool(content: &str) -> ChatMessage {
    ChatMessage::tool(content.to_string())
}

fn tool_failure(message: &str) -> ToolError {
    ToolError { kind: ToolErrorKind::Execution, message: message.to_string() }
}

#[test]
fn calculator_scenario() {
    let mut coordinator = Coordinator::new("m1".to_string(), Vec::<ChatMessage>::new());
    let first = coordinator.chat(vec![user("2+2?")]);
    assert_eq!(first, Action::Send(request("m1", vec![user("2+2?")])));
    assert_eq!(coordinator.phase(), Phase::AwaitingBackendResponse);
    assert!(coordinator.history().messages().is_empty());

    let tool_response = asks("m1", vec![call("calc", "2+2")]);
    let second = coordinator.step(Event::Response(tool_response.clone()));
    assert_eq!(second, Action::CallTool(function("calc", "2+2")));
    assert_eq!(coordinator.phase(), Phase::DispatchingTools);

    let third = coordinator.step(Event::ToolReturned("4".to_string()));
    assert_eq!(third, Action::Send(request("m1", vec![])));
    assert_eq!(coordinator.phase(), Phase::AwaitingBackendResponse);

    let fourth = coordinator.step(Event::Response(says("m1", "4")));
    assert_eq!(fourth, Action::Done(says("m1", "4")));
    assert_eq!(coordinator.phase(), Phase::Done);

    let history = coordinator.into_history();
    assert_eq!(history.len(), 4);
    assert_eq!(history[0], user("2+2?"));
    assert_eq!(history[1], tool_response.message);
    assert_eq!(history[2], tool("4"));
    assert_eq!(history[3], ChatMessage::assistant("4".to_string()));
}

#[test]
fn a_new_coordinator_is_idle_with_its_history() {
    let coordinator = Coordinator::new("m1".to_string(), vec![ChatMessage::system("be brief".to_string())]);
    assert_eq!(coordinator.phase(), Phase::Idle);
    assert_eq!(coordinator.model(), "m1");
    assert_eq!(coordinator.history().messages(), vec![ChatMessage::system("be brief".to_string())]);
}

#[test]
fn response_without_tool_calls_ends_the_turn_in_one_round_trip() {
    let mut coordinator = Coordinator::new("m1".to_string(), Vec::<ChatMessage>::new());
    let first = coordinator.chat(vec![user("hello")]);
    assert!(matches!(first, Action::Send(_)));
    let answers = coordinator.replay(vec![Event::Response(says("m1", "hi"))]);
    assert_eq!(answers, vec![Action::Done(says("m1", "hi"))]);
    assert_eq!(coordinator.phase(), Phase::Done);
    assert_eq!(
        coordinator.into_history(),
        vec![user("hello"), ChatMessage::assistant("hi".to_string())]
    );
}

#[test]
fn nothing_is_sent_after_the_final_response() {
    let mut coordinator = Coordinator::new("m1".to_string(), Vec::<ChatMessage>::new());
    coordinator.chat(vec![user("hello")]);
    coordinator.step(Event::Response(says("m1", "hi")));
    let late = coordinator.replay(vec![
            Event::Response(says("m1", "again")),
            Event::ToolReturned("4".to_string()),
            Event::ToolFailed(tool_failure("late")),
            Event::BackendFailed(BackendError {
                kind: BackendErrorKind::Transport,
                message: "late".to_string(),
            }),
        ],
    );
    for answer in late {
        assert_eq!(answer, Action::Fail(ChatError::NotExpected));
    }
    assert_eq!(coordinator.phase(), Phase::Done);
    assert_eq!(coordinator.into_history().len(), 2);
}

#[test]
fn history_holds_every_round_trip_in_call_order() {
    let mut coordinator = Coordinator::new(
        "m1".to_string(),
        vec![ChatMessage::system("be brief".to_string())],
    );
    let first_round = asks("m1", vec![call("a", "1"), call("b", "2")]);
    let second_round = asks("m1", vec![call("c", "3")]);
    let first = coordinator.chat(vec![user("one"), user("two")]);
    assert_eq!(first, Action::Send(request("m1", vec![user("one"), user("two")])));
    let answers = coordinator.replay(vec![
            Event::Response(first_round.clone()),
            Event::ToolReturned("ra".to_string()),
            Event::ToolReturned("rb".to_string()),
            Event::Response(second_round.clone()),
            Event::ToolReturned("rc".to_string()),
            Event::Response(says("m1", "done")),
        ],
    );
    assert_eq!(
        answers,
        vec![
            Action::CallTool(function("a", "1")),
            Action::CallTool(function("b", "2")),
            Action::Send(request("m1", vec![])),
            Action::CallTool(function("c", "3")),
            Action::Send(request("m1", vec![])),
            Action::Done(says("m1", "done")),
        ]
    );
    assert_eq!(
        coordinator.into_history(),
        vec![
            ChatMessage::system("be brief".to_string()),
            user("one"),
            user("two"),
            first_round.message,
            tool("ra"),
            tool("rb"),
            second_round.message,
            tool("rc"),
            ChatMessage::assistant("done".to_string()),
        ]
    );
}

#[test]
fn failing_tool_stops_the_batch_and_keeps_what_was_done() {
    let mut coordinator = Coordinator::new("m1".to_string(), Vec::<ChatMessage>::new());
    let batch = asks("m1", vec![call("a", "1"), call("b", "2"), call("c", "3")]);
    coordinator.chat(vec![user("go")]);
    let answers = coordinator.replay(vec![
            Event::Response(batch.clone()),
            Event::ToolReturned("ra".to_string()),
            Event::ToolFailed(tool_failure("b broke")),
        ],
    );
    assert_eq!(
        answers,
        vec![
            Action::CallTool(function("a", "1")),
            Action::CallTool(function("b", "2")),
            Action::Fail(ChatError::Tool(tool_failure("b broke"))),
        ]
    );
    assert_eq!(coordinator.phase(), Phase::Failed);
    let after = coordinator.step(Event::ToolReturned("rc".to_string()));
    assert_eq!(after, Action::Fail(ChatError::NotExpected));
    assert_eq!(coordinator.into_history(), vec![user("go"), batch.message, tool("ra")]);
}

#[test]
fn first_tool_failing_adds_no_tool_turn() {
    let mut coordinator = Coordinator::new("m1".to_string(), Vec::<ChatMessage>::new());
    let batch = asks("m1", vec![call("a", "1"), call("b", "2")]);
    coordinator.chat(vec![user("go")]);
    coordinator.step(Event::Response(batch.clone()));
    let answer = coordinator.step(Event::ToolFailed(ToolError {
        kind: ToolErrorKind::InvalidArguments,
        message: "not a number".to_string(),
    }));
    assert_eq!(
        answer,
        Action::Fail(ChatError::Tool(ToolError {
            kind: ToolErrorKind::InvalidArguments,
            message: "not a number".to_string(),
        }))
    );
    assert_eq!(coordinator.into_history(), vec![user("go"), batch.message]);
}

#[test]
fn failing_backend_leaves_the_history_as_it_was() {
    let mut coordinator = Coordinator::new("m1".to_string(), vec![user("earlier")]);
    coordinator.chat(vec![user("hello")]);
    let error = BackendError { kind: BackendErrorKind::Transport, message: "refused".to_string() };
    let answer = coordinator.step(Event::BackendFailed(BackendError {
        kind: BackendErrorKind::Transport,
        message: "refused".to_string(),
    }));
    assert_eq!(answer, Action::Fail(ChatError::Backend(error)));
    assert_eq!(coordinator.phase(), Phase::Failed);
    assert_eq!(coordinator.history().messages(), vec![user("earlier")]);
    let again = coordinator.chat(vec![user("hello again")]);
    assert_eq!(again, Action::Send(request("m1", vec![user("hello again")])));
}

#[test]
fn failing_backend_after_tools_keeps_the_tool_turns() {
    let mut coordinator = Coordinator::new("m1".to_string(), Vec::<ChatMessage>::new());
    let batch = asks("m1", vec![call("a", "1")]);
    coordinator.chat(vec![user("go")]);
    coordinator.step(Event::Response(batch.clone()));
    coordinator.step(Event::ToolReturned("ra".to_string()));
    let answer = coordinator.step(Event::BackendFailed(BackendError {
        kind: BackendErrorKind::Protocol,
        message: "garbled".to_string(),
    }));
    assert!(matches!(answer, Action::Fail(ChatError::Backend(_))));
    assert_eq!(coordinator.into_history(), vec![user("go"), batch.message, tool("ra")]);
}

#[test]
fn chat_during_a_turn_is_turned_down() {
    let mut coordinator = Coordinator::new("m1".to_string(), Vec::<ChatMessage>::new());
    coordinator.chat(vec![user("hello")]);
    let second = coordinator.chat(vec![user("me too")]);
    assert_eq!(second, Action::Fail(ChatError::NotExpected));
    assert_eq!(coordinator.phase(), Phase::AwaitingBackendResponse);
    coordinator.step(Event::Response(says("m1", "hi")));
    assert_eq!(
        coordinator.into_history(),
        vec![user("hello"), ChatMessage::assistant("hi".to_string())]
    );
}

#[test]
fn events_out_of_turn_change_nothing() {
    let mut coordinator = Coordinator::new("m1".to_string(), Vec::<ChatMessage>::new());
    assert_eq!(
        coordinator.step(Event::Response(says("m1", "hi"))),
        Action::Fail(ChatError::NotExpected)
    );
    assert_eq!(coordinator.phase(), Phase::Idle);
    coordinator.chat(vec![user("hello")]);
    assert_eq!(
        coordinator.step(Event::ToolReturned("4".to_string())),
        Action::Fail(ChatError::NotExpected)
    );
    assert_eq!(coordinator.phase(), Phase::AwaitingBackendResponse);
    coordinator.step(Event::Response(asks("m1", vec![call("a", "1")])));
    assert_eq!(
        coordinator.step(Event::Response(says("m1", "hi"))),
        Action::Fail(ChatError::NotExpected)
    );
    assert_eq!(coordinator.phase(), Phase::DispatchingTools);
    assert_eq!(coordinator.into_history().len(), 2);
}

#[test]
fn options_go_out_with_every_request() {
    let options = GenerationOptions::default().seed(7).num_ctx(4096).top_k(40).num_predict(-1);
    assert_eq!(
        options,
        GenerationOptions {
            seed: Some(7),
            num_ctx: Some(4096),
            num_predict: Some(-1),
            top_k: Some(40),
            repeat_last_n: None,
            num_gpu: None,
            num_thread: None,
        }
    );
    assert_eq!(
        GenerationOptions::default().repeat_last_n(64).num_gpu(1).num_thread(8).seed(1).seed(2),
        GenerationOptions {
            seed: Some(2),
            num_ctx: None,
            num_predict: None,
            top_k: None,
            repeat_last_n: Some(64),
            num_gpu: Some(1),
            num_thread: Some(8),
        }
    );
    let mut coordinator =
        Coordinator::new("m1".to_string(), Vec::<ChatMessage>::new()).options(options);
    let first = coordinator.chat(vec![user("go")]);
    let expected_first = ChatMessageRequest::new("m1".to_string(), vec![user("go")]).options(options);
    assert_eq!(first, Action::Send(expected_first));
    coordinator.step(Event::Response(asks("m1", vec![call("a", "1")])));
    let next = coordinator.step(Event::ToolReturned("ra".to_string()));
    let expected_next = ChatMessageRequest::new("m1".to_string(), vec![]).options(options);
    assert_eq!(next, Action::Send(expected_next));
}

fn run_traced(debug: bool) -> (Vec<Action>, Vec<ChatMessage>, Vec<TraceRecord>) {
    let mut coordinator =
        Coordinator::new("m1".to_string(), Vec::<ChatMessage>::new()).debug(debug);
    let mut answers = vec![coordinator.chat(vec![user("2+2?")])];
    answers.extend(coordinator.replay(vec![
            Event::Response(asks("m2", vec![call("calc", "2+2")])),
            Event::ToolReturned("4".to_string()),
            Event::Response(says("m2", "4")),
        ],
    ));
    let trace = coordinator.take_trace();
    assert!(coordinator.take_trace().is_empty());
    (answers, coordinator.into_history(), trace)
}

#[test]
fn trace_mode_changes_neither_history_nor_answers() {
    let (quiet_answers, quiet_history, quiet_trace) = run_traced(false);
    let (traced_answers, traced_history, traced_trace) = run_traced(true);
    assert_eq!(quiet_answers, traced_answers);
    assert_eq!(quiet_history, traced_history);
    assert!(quiet_trace.is_empty());
    assert_eq!(
        traced_trace,
        vec![
            TraceRecord::Input {
                model: "m1".to_string(),
                role: MessageRole::User,
                content: "2+2?".to_string(),
            },
            TraceRecord::ToolCall { function: function("calc", "2+2") },
            TraceRecord::ToolResponse { text: "4".to_string() },
            TraceRecord::Final {
                model: "m2".to_string(),
                role: MessageRole::Assistant,
                content: "4".to_string(),
            },
        ]
    );
}

#[test]
fn the_empty_tool_group_offers_nothing_and_knows_no_tool() {
    assert!(<() as ToolGroup>::tool_info().is_empty());
    let mut tools = ();
    assert_eq!(
        tools.call(&function("calc", "2+2")),
        Err(ToolError { kind: ToolErrorKind::UnknownToolName, message: "calc".to_string() })
    );
    let mut coordinator = Coordinator::new("m1".to_string(), Vec::<ChatMessage>::new());
    coordinator.chat(vec![user("go")]);
    let batch = asks("m1", vec![call("calc", "2+2"), call("other", "")]);
    let first = match coordinator.step(Event::Response(batch.clone())) {
        Action::CallTool(function) => function,
        other => panic!("expected a tool call, got {:?}", other),
    };
    let answer = coordinator.call_tools(first);
    assert_eq!(
        answer,
        Action::Fail(ChatError::Tool(ToolError {
            kind: ToolErrorKind::UnknownToolName,
            message: "calc".to_string(),
        }))
    );
    assert_eq!(coordinator.into_history(), vec![user("go"), batch.message]);
}

#[test]
fn vec_history_keeps_turns_in_order() {
    let mut history: Vec<ChatMessage> = Vec::new();
    ChatHistory::push(&mut history, user("one"));
    ChatHistory::push(&mut history, tool("two"));
    assert_eq!(history.messages(), vec![user("one"), tool("two")]);
}

#[test]
fn message_constructors_set_role_and_text() {
    let cases = [
        (ChatMessage::user("t".to_string()), MessageRole::User),
        (ChatMessage::assistant("t".to_string()), MessageRole::Assistant),
        (ChatMessage::system("t".to_string()), MessageRole::System),
        (ChatMessage::tool("t".to_string()), MessageRole::Tool),
    ];
    for (message, role) in cases {
        assert_eq!(message, ChatMessage { role, content: "t".to_string(), tool_calls: vec![] });
        assert_eq!(message.clone(), message);
    }
    assert_eq!(ChatMessage::new(MessageRole::Tool, "x".to_string()), tool("x"));
}

#[test]
fn request_builder_sets_each_part() {
    let info = ToolInfo {
        name: "calc".to_string(),
        description: "adds".to_string(),
        parameters: "{}".to_string(),
    };
    let built = ChatMessageRequest::new("m1".to_string(), vec![user("go")])
        .options(GenerationOptions::default().seed(1))
        .tools(vec![info.clone()]);
    assert_eq!(
        built,
        ChatMessageRequest {
            model_name: "m1".to_string(),
            messages: vec![user("go")],
            options: GenerationOptions { seed: Some(1), ..GenerationOptions::default() },
            tools: vec![info],
        }
    );
}

#[test]
fn events_report_results() {
    assert_eq!(
        Event::from_tool_result(Ok("4".to_string())),
        Event::ToolReturned("4".to_string())
    );
    assert_eq!(
        Event::from_tool_result(Err(tool_failure("no"))),
        Event::ToolFailed(tool_failure("no"))
    );
    assert_eq!(
        Event::from_backend_result(Ok(says("m1", "hi"))),
        Event::Response(says("m1", "hi"))
    );
    let error = BackendError { kind: BackendErrorKind::Rejected, message: "no".to_string() };
    assert!(matches!(
        Event::from_backend_result(Err(error)),
        Event::BackendFailed(BackendError { kind: BackendErrorKind::Rejected, .. })
    ));
}

#[test]
fn replay_is_step_by_step() {
    let events = || {
        vec![
            Event::Response(asks("m1", vec![call("a", "1"), call("b", "2")])),
            Event::ToolReturned("ra".to_string()),
            Event::Response(says("m1", "too early")),
            Event::ToolFailed(tool_failure("b broke")),
            Event::ToolReturned("late".to_string()),
        ]
    };
    let mut stepped = Coordinator::new("m1".to_string(), Vec::<ChatMessage>::new());
    stepped.chat(vec![user("go")]);
    let mut one_by_one = Vec::new();
    for event in events() {
        one_by_one.push(stepped.step(event));
    }
    let mut replayed = Coordinator::new("m1".to_string(), Vec::<ChatMessage>::new());
    replayed.chat(vec![user("go")]);
    let at_once = replayed.replay(events());
    assert_eq!(at_once, one_by_one);
    assert_eq!(
        at_once,
        vec![
            Action::CallTool(function("a", "1")),
            Action::CallTool(function("b", "2")),
            Action::Fail(ChatError::NotExpected),
            Action::Fail(ChatError::Tool(tool_failure("b broke"))),
            Action::Fail(ChatError::NotExpected),
        ]
    );
    assert_eq!(replayed.phase(), stepped.phase());
    assert_eq!(replayed.into_history(), stepped.into_history());
    let mut idle = Coordinator::new("m1".to_string(), Vec::<ChatMessage>::new());
    assert_eq!(idle.replay(vec![]), vec![]);
    assert_eq!(idle.phase(), Phase::Idle);
}
