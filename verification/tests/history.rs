use robo::coordinator::Coordinator;
use robo::event::{Action, Event};
use robo::history::{append_all, record_round_trip, ChatHistory};
use robo::message::{ChatMessage, ChatMessageView, MessageRole, ToolCall, ToolCallFunction};
use robo::request::ChatMessageResponse;

/// A history store that numbers what it is given.
struct Numbered {
    turns: Vec<(usize, ChatMessage)>,
}

impl ChatHistory for Numbered {
    fn turns(&self) -> vstd::seq::Seq<ChatMessageView> {
        unreachable!()
    }

    fn push(&mut self, message: ChatMessage) {
        let number = self.turns.len();
        self.turns.push((number, message));
    }

    fn messages(&self) -> Vec<ChatMessage> {
        self.turns.iter().map(|(_, message)| message.clone()).collect()
    }
}

#[test]
fn a_store_of_ones_own_is_given_every_turn_in_order() {
    let mut coordinator = Coordinator::new("m1".to_string(), Numbered { turns: vec![] });
    let asks = ChatMessageResponse {
        model: "m1".to_string(),
        message: ChatMessage {
            role: MessageRole::Assistant,
            content: String::new(),
            tool_calls: vec![ToolCall {
                function: ToolCallFunction {
                    name: "calc".to_string(),
                    arguments: "2+2".to_string(),
                },
            }],
        },
    };
    let says = ChatMessageResponse {
        model: "m1".to_string(),
        message: ChatMessage::assistant("4".to_string()),
    };
    coordinator.chat(vec![ChatMessage::user("2+2?".to_string())]);
    assert!(coordinator.history().turns.is_empty());
    coordinator.step(Event::Response(asks.clone()));
    assert_eq!(coordinator.history().turns.len(), 2);
    coordinator.step(Event::ToolReturned("4".to_string()));
    assert_eq!(coordinator.history().turns.len(), 3);
    let last = coordinator.step(Event::Response(says.clone()));
    assert_eq!(last, Action::Done(says.clone()));
    let store = coordinator.into_history();
    assert_eq!(
        store.turns,
        vec![
            (0, ChatMessage::user("2+2?".to_string())),
            (1, asks.message),
            (2, ChatMessage::tool("4".to_string())),
            (3, says.message),
        ]
    );
}

#[test]
fn a_round_trip_is_logged_turns_first() {
    let mut history = vec![ChatMessage::system("rules".to_string())];
    record_round_trip(
        &mut history,
        &vec![ChatMessage::user("one".to_string()), ChatMessage::user("two".to_string())],
        &ChatMessage::assistant("three".to_string()),
    );
    append_all(&mut history, &vec![ChatMessage::tool("four".to_string())]);
    append_all(&mut history, &vec![]);
    assert_eq!(
        history,
        vec![
            ChatMessage::system("rules".to_string()),
            ChatMessage::user("one".to_string()),
            ChatMessage::user("two".to_string()),
            ChatMessage::assistant("three".to_string()),
            ChatMessage::tool("four".to_string()),
        ]
    );
    let mut empty: Vec<ChatMessage> = vec![];
    record_round_trip(&mut empty, &vec![], &ChatMessage::assistant("only".to_string()));
    assert_eq!(empty, vec![ChatMessage::assistant("only".to_string())]);
}
