//! The request configuration: generation parameters, tool declarations and
//! the tool-choice policy, with the defaults the service expects.
//!
//! Sampling parameters are held in thousandths, so that their documented
//! ranges are exact integer ranges: a temperature of `1500` stands for 1.5 on
//! the wire, and the valid ranges are 0..=2000 for temperature, 0..=1000 for
//! top-p and -2000..=2000 for the two penalties.

use vstd::prelude::*;

use crate::messages::ChatMessage;
use crate::messages::ToolType;

verus! {

/// The response-format hint advertised to the service.
#[derive(Clone, Copy, Debug, PartialEq, Eq, Structural)]
pub enum ChatResponseFormat {
    JsonObject,
    JsonArray,
    Text,
}

impl ChatResponseFormat {
    /// The JSON object this hint denotes in the service's documentation.
    pub open spec fn spec_string(self) -> Seq<char> {
        match self {
            ChatResponseFormat::JsonObject => "{ \"type\": \"json_object\" }"@,
            ChatResponseFormat::JsonArray => "{ \"type\": \"json_array\" }"@,
            ChatResponseFormat::Text => "{ \"type\": \"text\" }"@,
        }
    }

    /// The JSON object this hint denotes, as text.
    pub fn to_string(&self) -> (r: String)
        ensures
            r@ == self.spec_string(),
    {
        match self {
            ChatResponseFormat::JsonObject => String::from_str("{ \"type\": \"json_object\" }"),
            ChatResponseFormat::JsonArray => String::from_str("{ \"type\": \"json_array\" }"),
            ChatResponseFormat::Text => String::from_str("{ \"type\": \"text\" }"),
        }
    }
}

/// The provider-side quality/cost routing hint.
#[derive(Clone, Copy, Debug, PartialEq, Eq, Structural)]
pub enum ChatServiceTier {
    OnDemand,
    Auto,
    Flex,
}

impl ChatServiceTier {
    /// The keyword this tier denotes in the service's documentation.
    pub open spec fn spec_string(self) -> Seq<char> {
        match self {
            ChatServiceTier::OnDemand => "on_demand"@,
            ChatServiceTier::Auto => "auto"@,
            ChatServiceTier::Flex => "flex"@,
        }
    }

    /// The keyword this tier denotes, as text.
    pub fn to_string(&self) -> (r: String)
        ensures
            r@ == self.spec_string(),
    {
        match self {
            ChatServiceTier::OnDemand => String::from_str("on_demand"),
            ChatServiceTier::Auto => String::from_str("auto"),
            ChatServiceTier::Flex => String::from_str("flex"),
        }
    }
}

/// The flat tool-choice policies, written as bare keywords on the wire:
/// `Disabled` is the service's `"none"`.
#[derive(Clone, Copy, Debug, PartialEq, Eq, Structural)]
pub enum ToolChoiceValue {
    Disabled,
    Auto,
    Required,
}

/// The function singled out by a forced tool choice.
#[derive(Clone, Debug, PartialEq)]
pub struct ToolFunction {
    /// The name of the function to call.
    pub name: Option<String>,
}

/// The structured variant of the tool-choice policy: force one tool.
#[derive(Clone, Debug, PartialEq)]
pub struct ToolChoiceObject {
    /// The kind of the tool; the service currently knows only functions.
    pub tool_type: ToolType,
    /// The tool being forced.
    pub function: ToolFunction,
}

/// The tool-choice policy: either a bare keyword or a forced specific
/// function. Both variants share one wire field.
#[derive(Clone, Debug, PartialEq)]
pub enum ToolChoice {
    Value(ToolChoiceValue),
    Object(ToolChoiceObject),
}

/// A callable function advertised to the service.
#[derive(Debug, Clone, PartialEq)]
pub struct Function {
    /// A description of what the function does.
    pub description: Option<String>,
    /// The name of the function to be called; required by the service when
    /// the tool is used.
    pub name: Option<String>,
    /// The parameters the function accepts, as the text of a JSON-schema
    /// object. The text is embedded in the request body verbatim and never
    /// interpreted here, so it must already be well-formed JSON.
    pub parameters: Option<String>,
}

/// A tool declaration advertised to the service.
#[derive(Debug, Clone, PartialEq)]
pub struct Tool {
    /// The function this tool declares.
    pub function: Function,
    /// The kind of the tool; the service currently knows only functions.
    pub tool_type: ToolType,
}

/// Mathematical image of a `ToolChoice`.
#[verifier::ext_equal]
pub ghost enum ToolChoiceView {
    Value(ToolChoiceValue),
    Object { tool_type: ToolType, name: Option<Seq<char>> },
}

impl View for ToolChoice {
    type V = ToolChoiceView;

    open spec fn view(&self) -> ToolChoiceView {
        match self {
            ToolChoice::Value(v) => ToolChoiceView::Value(*v),
            ToolChoice::Object(o) => ToolChoiceView::Object {
                tool_type: o.tool_type,
                name: match o.function.name {
                    Some(n) => Some(n@),
                    None => None,
                },
            },
        }
    }
}

/// Mathematical image of a `Function`.
#[verifier::ext_equal]
pub ghost struct FunctionView {
    pub description: Option<Seq<char>>,
    pub name: Option<Seq<char>>,
    pub parameters: Option<Seq<char>>,
}

/// Mathematical image of a `Tool`.
#[verifier::ext_equal]
pub ghost struct ToolView {
    pub function: FunctionView,
    pub tool_type: ToolType,
}

impl View for Function {
    type V = FunctionView;

    open spec fn view(&self) -> FunctionView {
        FunctionView {
            description: match self.description {
                Some(d) => Some(d@),
                None => None,
            },
            name: match self.name {
                Some(n) => Some(n@),
                None => None,
            },
            parameters: match self.parameters {
                Some(p) => Some(p@),
                None => None,
            },
        }
    }
}

impl View for Tool {
    type V = ToolView;

    open spec fn view(&self) -> ToolView {
        ToolView { function: self.function@, tool_type: self.tool_type }
    }
}

/// The views of a sequence of tools, in order.
pub open spec fn tools_view(v: Seq<Tool>) -> Seq<ToolView> {
    v.map_values(|t: Tool| t@)
}

/// The full request configuration sent with every call, conversation
/// included.
#[derive(Clone, Debug)]
pub struct ChatRequest {
    pub model: String,
    pub messages: Vec<ChatMessage>,
    /// Frequency penalty in thousandths, valid in -2000..=2000.
    pub frequency_penalty: i32,
    pub max_completion_tokens: Option<u32>,
    pub parallel_tool_calls: bool,
    /// Presence penalty in thousandths, valid in -2000..=2000.
    pub presence_penalty: i32,
    pub reasoning_format: Option<String>,
    pub response_format: Option<ChatResponseFormat>,
    pub seed: Option<u64>,
    pub service_tier: Option<ChatServiceTier>,
    pub stream: bool,
    /// Temperature in thousandths, valid in 0..=2000.
    pub temperature: u32,
    /// Top-p in thousandths, valid in 0..=1000.
    pub top_p: u32,
    pub tool_choice: Option<ToolChoice>,
    pub tools: Vec<Tool>,
}

impl ChatRequest {
    /// The documented ranges of the four sampling parameters, which every
    /// validated setter preserves.
    pub open spec fn valid_params(self) -> bool {
        &&& self.temperature <= 2000
        &&& self.top_p <= 1000
        &&& -2000 <= self.frequency_penalty <= 2000
        &&& -2000 <= self.presence_penalty <= 2000
    }

    /// A configuration with the given model and conversation and every other
    /// field at its default.
    pub open spec fn is_fresh(self, model: String, messages: Vec<ChatMessage>) -> bool {
        &&& self.model == model
        &&& self.messages == messages
        &&& self.frequency_penalty == 0
        &&& self.max_completion_tokens is None
        &&& self.parallel_tool_calls == true
        &&& self.presence_penalty == 0
        &&& self.reasoning_format is None
        &&& self.response_format is None
        &&& self.seed is None
        &&& self.service_tier is None
        &&& self.stream == false
        &&& self.temperature == 1000
        &&& self.top_p == 1000
        &&& self.tool_choice is None
        &&& self.tools@ =~= Seq::<Tool>::empty()
    }

    /// The default configuration: temperature and top-p at 1, no penalties,
    /// parallel tool calls allowed, nothing optional set.
    pub fn new(model: String, messages: Vec<ChatMessage>) -> (r: Self)
        ensures
            r.is_fresh(model, messages),
            r.valid_params(),
    {
        Self {
            model,
            messages,
            frequency_penalty: 0,
            max_completion_tokens: None,
            parallel_tool_calls: true,
            presence_penalty: 0,
            reasoning_format: None,
            response_format: None,
            seed: None,
            service_tier: None,
            stream: false,
            temperature: 1000,
            top_p: 1000,
            tool_choice: None,
            tools: Vec::new(),
        }
    }
}

/// Mathematical image of a `ChatRequest`.
#[verifier::ext_equal]
pub ghost struct RequestView {
    pub model: Seq<char>,
    pub messages: Seq<crate::messages::MessageView>,
    pub frequency_penalty: i32,
    pub max_completion_tokens: Option<u32>,
    pub parallel_tool_calls: bool,
    pub presence_penalty: i32,
    pub reasoning_format: Option<Seq<char>>,
    pub response_format: Option<ChatResponseFormat>,
    pub seed: Option<u64>,
    pub service_tier: Option<ChatServiceTier>,
    pub stream: bool,
    pub temperature: u32,
    pub top_p: u32,
    pub tool_choice: Option<ToolChoiceView>,
    pub tools: Seq<ToolView>,
}

impl View for ChatRequest {
    type V = RequestView;

    open spec fn view(&self) -> RequestView {
        RequestView {
            model: self.model@,
            messages: crate::messages::messages_view(self.messages@),
            frequency_penalty: self.frequency_penalty,
            max_completion_tokens: self.max_completion_tokens,
            parallel_tool_calls: self.parallel_tool_calls,
            presence_penalty: self.presence_penalty,
            reasoning_format: match self.reasoning_format {
                Some(s) => Some(s@),
                None => None,
            },
            response_format: self.response_format,
            seed: self.seed,
            service_tier: self.service_tier,
            stream: self.stream,
            temperature: self.temperature,
            top_p: self.top_p,
            tool_choice: match self.tool_choice {
                Some(tc) => Some(tc@),
                None => None,
            },
            tools: tools_view(self.tools@),
        }
    }
}

/// The given configuration with only its conversation replaced.
pub open spec fn with_messages(r: ChatRequest, m: Vec<ChatMessage>) -> ChatRequest {
    ChatRequest { messages: m, ..r }
}

/// The given configuration with only its tool set replaced.
pub open spec fn with_tools(r: ChatRequest, t: Vec<Tool>) -> ChatRequest {
    ChatRequest { tools: t, ..r }
}

/// The given configuration with only its model replaced.
pub open spec fn with_model(r: ChatRequest, m: String) -> ChatRequest {
    ChatRequest { model: m, ..r }
}

/// The given configuration with only its frequency penalty replaced.
pub open spec fn with_frequency_penalty(r: ChatRequest, v: i32) -> ChatRequest {
    ChatRequest { frequency_penalty: v, ..r }
}

/// The given configuration with only its presence penalty replaced.
pub open spec fn with_presence_penalty(r: ChatRequest, v: i32) -> ChatRequest {
    ChatRequest { presence_penalty: v, ..r }
}

/// The given configuration with only its temperature replaced.
pub open spec fn with_temperature(r: ChatRequest, v: u32) -> ChatRequest {
    ChatRequest { temperature: v, ..r }
}

/// The given configuration with only its top-p replaced.
pub open spec fn with_top_p(r: ChatRequest, v: u32) -> ChatRequest {
    ChatRequest { top_p: v, ..r }
}

/// The given configuration with only its completion-token limit replaced.
pub open spec fn with_max_completion_tokens(r: ChatRequest, v: Option<u32>) -> ChatRequest {
    ChatRequest { max_completion_tokens: v, ..r }
}

/// The given configuration with only its parallel-tool-calls flag replaced.
pub open spec fn with_parallel_tool_calls(r: ChatRequest, v: bool) -> ChatRequest {
    ChatRequest { parallel_tool_calls: v, ..r }
}

/// The given configuration with only its reasoning format replaced.
pub open spec fn with_reasoning_format(r: ChatRequest, v: Option<String>) -> ChatRequest {
    ChatRequest { reasoning_format: v, ..r }
}

/// The given configuration with only its response format replaced.
pub open spec fn with_response_format(r: ChatRequest, v: Option<ChatResponseFormat>) -> ChatRequest {
    ChatRequest { response_format: v, ..r }
}

/// The given configuration with only its seed replaced.
pub open spec fn with_seed(r: ChatRequest, v: Option<u64>) -> ChatRequest {
    ChatRequest { seed: v, ..r }
}

/// The given configuration with only its service tier replaced.
pub open spec fn with_service_tier(r: ChatRequest, v: Option<ChatServiceTier>) -> ChatRequest {
    ChatRequest { service_tier: v, ..r }
}

/// The given configuration with only its tool-choice policy replaced.
pub open spec fn with_tool_choice(r: ChatRequest, v: Option<ToolChoice>) -> ChatRequest {
    ChatRequest { tool_choice: v, ..r }
}

} // verus!
