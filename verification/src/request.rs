use vstd::prelude::*;
use crate::message::{ChatMessage, ChatMessageView, turns_view};

verus! {

/// The model parameters that go out with every backend call. Each one is
/// optional; an unset one leaves the backend's own default in force.
#[derive(Debug, Clone, Copy, PartialEq, Eq, Structural)]
pub struct GenerationOptions {
    pub seed: Option<i32>,
    pub num_ctx: Option<u64>,
    pub num_predict: Option<i32>,
    pub top_k: Option<u32>,
    pub repeat_last_n: Option<i32>,
    pub num_gpu: Option<u32>,
    pub num_thread: Option<u32>,
}

impl GenerationOptions {
    /// The options with nothing set.
    pub open spec fn unset() -> GenerationOptions {
        GenerationOptions {
            seed: None,
            num_ctx: None,
            num_predict: None,
            top_k: None,
            repeat_last_n: None,
            num_gpu: None,
            num_thread: None,
        }
    }

    pub fn seed(self, seed: i32) -> (options: GenerationOptions)
        ensures
            options == (GenerationOptions { seed: Some(seed), ..self }),
    {
        GenerationOptions { seed: Some(seed), ..self }
    }

    pub fn num_ctx(self, num_ctx: u64) -> (options: GenerationOptions)
        ensures
            options == (GenerationOptions { num_ctx: Some(num_ctx), ..self }),
    {
        GenerationOptions { num_ctx: Some(num_ctx), ..self }
    }

    pub fn num_predict(self, num_predict: i32) -> (options: GenerationOptions)
        ensures
            options == (GenerationOptions { num_predict: Some(num_predict), ..self }),
    {
        GenerationOptions { num_predict: Some(num_predict), ..self }
    }

    pub fn top_k(self, top_k: u32) -> (options: GenerationOptions)
        ensures
            options == (GenerationOptions { top_k: Some(top_k), ..self }),
    {
        GenerationOptions { top_k: Some(top_k), ..self }
    }

    pub fn repeat_last_n(self, repeat_last_n: i32) -> (options: GenerationOptions)
        ensures
            options == (GenerationOptions { repeat_last_n: Some(repeat_last_n), ..self }),
    {
        GenerationOptions { repeat_last_n: Some(repeat_last_n), ..self }
    }

    pub fn num_gpu(self, num_gpu: u32) -> (options: GenerationOptions)
        ensures
            options == (GenerationOptions { num_gpu: Some(num_gpu), ..self }),
    {
        GenerationOptions { num_gpu: Some(num_gpu), ..self }
    }

    pub fn num_thread(self, num_thread: u32) -> (options: GenerationOptions)
        ensures
            options == (GenerationOptions { num_thread: Some(num_thread), ..self }),
    {
        GenerationOptions { num_thread: Some(num_thread), ..self }
    }
}

impl Default for GenerationOptions {
    fn default() -> (options: GenerationOptions)
        ensures
            options == GenerationOptions::unset(),
    {
        GenerationOptions {
            seed: None,
            num_ctx: None,
            num_predict: None,
            top_k: None,
            repeat_last_n: None,
            num_gpu: None,
            num_thread: None,
        }
    }
}

/// The description of one tool that the backend may ask for. The parameter
/// schema is text that only the backend reads.
#[derive(Debug, PartialEq, Eq)]
pub struct ToolInfo {
    pub name: String,
    pub description: String,
    pub parameters: String,
}

/// A tool's description as a mathematical value.
pub struct ToolInfoView {
    pub name: Seq<char>,
    pub description: Seq<char>,
    pub parameters: Seq<char>,
}

impl View for ToolInfo {
    type V = ToolInfoView;

    open spec fn view(&self) -> ToolInfoView {
        ToolInfoView {
            name: self.name@,
            description: self.description@,
            parameters: self.parameters@,
        }
    }
}

impl Clone for ToolInfo {
    fn clone(&self) -> (copy: Self)
        ensures
            copy@ == self@,
    {
        ToolInfo {
            name: self.name.clone(),
            description: self.description.clone(),
            parameters: self.parameters.clone(),
        }
    }
}

/// The descriptions of a tool list, as mathematical values, in order.
pub open spec fn tools_view(tools: Seq<ToolInfo>) -> Seq<ToolInfoView> {
    Seq::new(tools.len(), |i: int| tools[i]@)
}

/// Copies a tool list.
pub fn clone_tools(tools: &Vec<ToolInfo>) -> (copy: Vec<ToolInfo>)
    ensures
        tools_view(copy@) == tools_view(tools@),
{
    let mut copy: Vec<ToolInfo> = Vec::new();
    let mut i: usize = 0;
    while i < tools.len()
        invariant
            i <= tools.len(),
            copy.len() == i,
            forall|j: int| 0 <= j < i ==> copy[j]@ == tools[j]@,
        decreases tools.len() - i,
    {
        copy.push(tools[i].clone());
        i += 1;
    }
    assert(tools_view(copy@) =~= tools_view(tools@));
    copy
}

/// What one backend round-trip is asked with: the model, the turns that are
/// new in this round-trip, the options and the tools on offer.
#[derive(Debug, PartialEq, Eq)]
pub struct ChatMessageRequest {
    pub model_name: String,
    pub messages: Vec<ChatMessage>,
    pub options: GenerationOptions,
    pub tools: Vec<ToolInfo>,
}

/// A request as a mathematical value.
pub struct ChatMessageRequestView {
    pub model_name: Seq<char>,
    pub messages: Seq<ChatMessageView>,
    pub options: GenerationOptions,
    pub tools: Seq<ToolInfoView>,
}

impl View for ChatMessageRequest {
    type V = ChatMessageRequestView;

    open spec fn view(&self) -> ChatMessageRequestView {
        ChatMessageRequestView {
            model_name: self.model_name@,
            messages: turns_view(self.messages@),
            options: self.options,
            tools: tools_view(self.tools@),
        }
    }
}

impl ChatMessageRequest {
    /// A request for `model_name` with these new turns, unset options and no
    /// tools on offer.
    pub fn new(model_name: String, messages: Vec<ChatMessage>) -> (request: ChatMessageRequest)
        ensures
            request@ == (ChatMessageRequestView {
                model_name: model_name@,
                messages: turns_view(messages@),
                options: GenerationOptions::unset(),
                tools: Seq::empty(),
            }),
    {
        let request = ChatMessageRequest {
            model_name,
            messages,
            options: GenerationOptions::default(),
            tools: Vec::new(),
        };
        assert(tools_view(request.tools@) =~= Seq::empty());
        request
    }

    pub fn options(self, options: GenerationOptions) -> (request: ChatMessageRequest)
        ensures
            request@ == (ChatMessageRequestView { options, ..self@ }),
    {
        ChatMessageRequest {
            model_name: self.model_name,
            messages: self.messages,
            options,
            tools: self.tools,
        }
    }

    pub fn tools(self, tools: Vec<ToolInfo>) -> (request: ChatMessageRequest)
        ensures
            request@ == (ChatMessageRequestView { tools: tools_view(tools@), ..self@ }),
    {
        ChatMessageRequest {
            model_name: self.model_name,
            messages: self.messages,
            options: self.options,
            tools,
        }
    }
}

/// What the backend answers one round-trip with: the model that answered and
/// its turn.
#[derive(Debug, PartialEq, Eq)]
pub struct ChatMessageResponse {
    pub model: String,
    pub message: ChatMessage,
}

/// A response as a mathematical value.
pub struct ChatMessageResponseView {
    pub model: Seq<char>,
    pub message: ChatMessageView,
}

impl View for ChatMessageResponse {
    type V = ChatMessageResponseView;

    open spec fn view(&self) -> ChatMessageResponseView {
        ChatMessageResponseView { model: self.model@, message: self.message@ }
    }
}

impl Clone for ChatMessageResponse {
    fn clone(&self) -> (copy: Self)
        ensures
            copy@ == self@,
    {
        ChatMessageResponse { model: self.model.clone(), message: self.message.clone() }
    }
}

} // verus!
