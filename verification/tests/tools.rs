use robo::coordinator::Coordinator;
use robo::error::{ChatError, ToolError, ToolErrorKind, ToolErrorView};
use robo::event::{Action, Event};
use robo::message::{
    ChatMessage, MessageRole, ToolCall, ToolCallFunction, ToolCallFunctionView,
};
use robo::protocol::Phase;
use robo::request::{
    ChatMessageRequest, ChatMessageResponse, GenerationOptions, ToolInfo, ToolInfoView,
};
use robo::tools::ToolGroup;

/// Two tools that leave their mark in a shared log: `append` adds its
/// argument, `count` answers with the log's length. `fail` always fails.
struct Logbook {
    log: Vec<String>,
}

impl ToolGroup for Logbook {
    fn offered() -> vstd::seq::Seq<ToolInfoView> {
        unreachable!()
    }

    fn comes_back(
        &self,
        _function: ToolCallFunctionView,
        _outcome: Result<vstd::seq::Seq<char>, ToolErrorView>,
        _after: &Self,
    ) -> bool {
        unreachable!()
    }

    fn tool_info() -> Vec<ToolInfo> {
        vec![
            ToolInfo {
                name: "append".to_string(),
                description: "adds a line".to_string(),
                parameters: "{}".to_string(),
            },
            ToolInfo {
                name: "count".to_string(),
                description: "counts the lines".to_string(),
                parameters: "{}".to_string(),
            },
        ]
    }

    fn call(&mut self, function: &ToolCallFunction) -> Result<String, ToolError> {
        match function.name.as_str() {
            "append" => {
                self.log.push(function.arguments.clone());
                Ok(format!("appended {}", function.arguments))
            }
            "count" => Ok(self.log.len().to_string()),
            "fail" => Err(ToolError {
                kind: ToolErrorKind::Execution,
                message: "failed".to_string(),
            }),
            _ => Err(ToolError {
                kind: ToolErrorKind::UnknownToolName,
                message: function.name.clone(),
            }),
        }
    }
}

fn call(name: &str, arguments: &str) -> ToolCall {
    ToolCall {
        function: ToolCallFunction { name: name.to_string(), arguments: arguments.to_string() },
    }
}

fn asks(calls: Vec<ToolCall>) -> ChatMessageResponse {
    ChatMessageResponse {
        model: "m1".to_string(),
        message: ChatMessage {
            role: MessageRole::Assistant,
            content: String::new(),
            tool_calls: calls,
        },
    }
}

fn start(calls: Vec<ToolCall>) -> (Coordinator<Vec<ChatMessage>, Logbook>, ToolCallFunction) {
    let mut coordinator = Coordinator::new_with_tools(
        "m1".to_string(),
        Vec::<ChatMessage>::new(),
        Logbook { log: vec![] },
    );
    coordinator.chat(vec![ChatMessage::user("go".to_string())]);
    let first = match coordinator.step(Event::Response(asks(calls))) {
        Action::CallTool(function) => function,
        other => panic!("expected a tool call, got {:?}", other),
    };
    (coordinator, first)
}

#[test]
fn tools_on_offer_go_out_with_the_request() {
    let mut coordinator = Coordinator::new_with_tools(
        "m1".to_string(),
        Vec::<ChatMessage>::new(),
        Logbook { log: vec![] },
    );
    let first = coordinator.chat(vec![ChatMessage::user("go".to_string())]);
    assert_eq!(
        first,
        Action::Send(ChatMessageRequest {
            model_name: "m1".to_string(),
            messages: vec![ChatMessage::user("go".to_string())],
            options: GenerationOptions::default(),
            tools: Logbook::tool_info(),
        })
    );
}

#[test]
fn tools_run_in_request_order() {
    let (mut coordinator, first) =
        start(vec![call("append", "x"), call("count", ""), call("append", "y"), call("count", "")]);
    let answer = coordinator.call_tools(first);
    assert_eq!(
        answer,
        Action::Send(ChatMessageRequest {
            model_name: "m1".to_string(),
            messages: vec![],
            options: GenerationOptions::default(),
            tools: Logbook::tool_info(),
        })
    );
    let history = coordinator.into_history();
    let results: Vec<&str> = history[2..].iter().map(|turn| turn.content.as_str()).collect();
    assert_eq!(results, vec!["appended x", "1", "appended y", "2"]);
    assert!(history[2..].iter().all(|turn| turn.role == MessageRole::Tool));
}

#[test]
fn count_before_append_sees_nothing() {
    let (mut coordinator, first) = start(vec![call("count", ""), call("append", "x")]);
    coordinator.call_tools(first);
    let history = coordinator.into_history();
    let results: Vec<&str> = history[2..].iter().map(|turn| turn.content.as_str()).collect();
    assert_eq!(results, vec!["0", "appended x"]);
}

#[test]
fn tools_behind_a_failing_one_do_not_run() {
    let (mut coordinator, first) =
        start(vec![call("append", "x"), call("fail", ""), call("append", "y")]);
    let answer = coordinator.call_tools(first);
    assert_eq!(
        answer,
        Action::Fail(ChatError::Tool(ToolError {
            kind: ToolErrorKind::Execution,
            message: "failed".to_string(),
        }))
    );
    let history = coordinator.into_history();
    assert_eq!(history.len(), 3);
    assert_eq!(history[2], ChatMessage::tool("appended x".to_string()));
}

#[test]
fn call_tools_outside_a_batch_runs_no_tool() {
    let mut coordinator = Coordinator::new_with_tools(
        "m1".to_string(),
        Vec::<ChatMessage>::new(),
        Logbook { log: vec![] },
    );
    let append = ToolCallFunction { name: "append".to_string(), arguments: "x".to_string() };
    let answer = coordinator.call_tools(append.clone());
    assert_eq!(answer, Action::Fail(ChatError::NotExpected));
    assert!(coordinator.tools().log.is_empty());
    assert_eq!(coordinator.phase(), Phase::Idle);

    coordinator.chat(vec![ChatMessage::user("go".to_string())]);
    let answer = coordinator.call_tools(append);
    assert_eq!(answer, Action::Fail(ChatError::NotExpected));
    assert!(coordinator.tools().log.is_empty());
    assert_eq!(coordinator.phase(), Phase::AwaitingBackendResponse);
    assert!(coordinator.into_history().is_empty());
}

#[test]
fn call_tools_with_another_call_than_the_one_that_is_out_runs_no_tool() {
    let (mut coordinator, first) = start(vec![call("append", "x"), call("append", "y")]);
    for other in [call("append", "y"), call("append", ""), call("count", "x")] {
        let answer = coordinator.call_tools(other.function);
        assert_eq!(answer, Action::Fail(ChatError::NotExpected));
        assert!(coordinator.tools().log.is_empty());
        assert_eq!(coordinator.phase(), Phase::DispatchingTools);
    }
    let answer = coordinator.call_tools(first);
    assert!(matches!(answer, Action::Send(_)));
    assert_eq!(coordinator.tools().log, vec!["x".to_string(), "y".to_string()]);
}

#[test]
fn the_coordinator_holds_the_group_it_was_given() {
    let coordinator = Coordinator::new_with_tools(
        "m1".to_string(),
        Vec::<ChatMessage>::new(),
        Logbook { log: vec!["kept".to_string()] },
    )
    .options(GenerationOptions::default().seed(1))
    .debug(true)
    .debug(false);
    assert_eq!(coordinator.tools().log, vec!["kept".to_string()]);
}

#[test]
fn stepping_runs_no_tool() {
    let (mut coordinator, _) = start(vec![call("append", "x")]);
    coordinator.step(Event::ToolReturned("made up".to_string()));
    coordinator.take_trace();
    coordinator.replay(vec![Event::Response(asks(vec![call("append", "y")]))]);
    assert!(coordinator.tools().log.is_empty());
}
