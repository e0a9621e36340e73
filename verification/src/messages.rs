//! The typed conversation history: messages, roles, and service-issued tool
//! calls, together with their mathematical views.

use vstd::prelude::*;

verus! {

/// The speaker of one message in the dialogue history.
#[derive(Clone, Copy, Debug, PartialEq, Eq, Structural)]
pub enum ChatRole {
    User,
    Assistant,
    System,
    Tool,
}

/// The kind of a tool; the service currently knows only functions.
#[derive(Clone, Copy, Debug, PartialEq, Eq, Structural)]
pub enum ToolType {
    Function,
}

/// The function reference inside a service-issued tool call: the name of the
/// function to run and its raw argument payload, forwarded uninterpreted.
#[derive(Clone, Debug, PartialEq)]
pub struct ToolCallFunction {
    pub name: String,
    pub arguments: String,
}

/// A service-issued request that the caller run a named local function and
/// report the result back as a tool-role message carrying the same `id`.
#[derive(Clone, Debug, PartialEq)]
pub struct ToolCall {
    pub id: String,
    pub tool_type: ToolType,
    pub function: ToolCallFunction,
}

/// One entry of the conversation. A tool-result message carries the
/// correlation identifier of the call it answers in `tool_call_id`; matching
/// it to an earlier assistant tool call is the caller's contract.
#[derive(Clone, Debug, PartialEq)]
pub struct ChatMessage {
    pub role: ChatRole,
    pub content: Option<String>,
    pub tool_calls: Option<Vec<ToolCall>>,
    pub tool_call_id: Option<String>,
}

/// Mathematical image of a `ToolCallFunction`.
#[verifier::ext_equal]
pub ghost struct ToolCallFunctionView {
    pub name: Seq<char>,
    pub arguments: Seq<char>,
}

/// Mathematical image of a `ToolCall`.
#[verifier::ext_equal]
pub ghost struct ToolCallView {
    pub id: Seq<char>,
    pub tool_type: ToolType,
    pub function: ToolCallFunctionView,
}

/// Mathematical image of a `ChatMessage`.
#[verifier::ext_equal]
pub ghost struct MessageView {
    pub role: ChatRole,
    pub content: Option<Seq<char>>,
    pub tool_calls: Option<Seq<ToolCallView>>,
    pub tool_call_id: Option<Seq<char>>,
}

impl View for ToolCallFunction {
    type V = ToolCallFunctionView;

    open spec fn view(&self) -> ToolCallFunctionView {
        ToolCallFunctionView { name: self.name@, arguments: self.arguments@ }
    }
}

impl View for ToolCall {
    type V = ToolCallView;

    open spec fn view(&self) -> ToolCallView {
        ToolCallView { id: self.id@, tool_type: self.tool_type, function: self.function@ }
    }
}

/// The views of a sequence of tool calls, in order.
pub open spec fn tool_calls_view(v: Seq<ToolCall>) -> Seq<ToolCallView> {
    v.map_values(|tc: ToolCall| tc@)
}

impl View for ChatMessage {
    type V = MessageView;

    open spec fn view(&self) -> MessageView {
        MessageView {
            role: self.role,
            content: match self.content {
                Some(c) => Some(c@),
                None => None,
            },
            tool_calls: match self.tool_calls {
                Some(tcs) => Some(tool_calls_view(tcs@)),
                None => None,
            },
            tool_call_id: match self.tool_call_id {
                Some(id) => Some(id@),
                None => None,
            },
        }
    }
}

/// The views of a sequence of messages, in order.
pub open spec fn messages_view(v: Seq<ChatMessage>) -> Seq<MessageView> {
    v.map_values(|m: ChatMessage| m@)
}

impl ChatMessage {
    /// A plain text message: the given role and content, no tool calls, and
    /// the given correlation identifier (set only on tool-result messages).
    pub fn new(role: ChatRole, content: &str, tool_call_id: Option<String>) -> (r: Self)
        ensures
            r.role == role,
            r.content matches Some(c) && c@ == content@,
            r.tool_calls is None,
            r.tool_call_id == tool_call_id,
    {
        Self { role, content: Some(content.to_owned()), tool_calls: None, tool_call_id }
    }
}

/// A copy of an optional string, equal to the original.
pub(crate) fn clone_opt_string(o: &Option<String>) -> (r: Option<String>)
    ensures
        r == *o,
{
    match o {
        Some(s) => Some(s.clone()),
        None => None,
    }
}

/// A copy of one tool call, equal to the original.
pub(crate) fn clone_tool_call(t: &ToolCall) -> (r: ToolCall)
    ensures
        r == *t,
{
    ToolCall {
        id: t.id.clone(),
        tool_type: t.tool_type,
        function: ToolCallFunction {
            name: t.function.name.clone(),
            arguments: t.function.arguments.clone(),
        },
    }
}

/// A copy of a tool-call sequence, element for element.
pub(crate) fn clone_tool_calls(v: &Vec<ToolCall>) -> (r: Vec<ToolCall>)
    ensures
        r@ == v@,
{
    let mut out: Vec<ToolCall> = Vec::new();
    let mut i: usize = 0;
    while i < v.len()
        invariant
            i <= v.len(),
            out@ == v@.take(i as int),
        decreases v.len() - i,
    {
        out.push(clone_tool_call(&v[i]));
        assert(out@ =~= v@.take(i as int + 1));
        i = i + 1;
    }
    assert(out@ =~= v@);
    out
}

/// A copy of one message, with the same view as the original.
pub(crate) fn clone_message(m: &ChatMessage) -> (r: ChatMessage)
    ensures
        r@ == m@,
{
    ChatMessage {
        role: m.role,
        content: clone_opt_string(&m.content),
        tool_calls: match &m.tool_calls {
            Some(tcs) => Some(clone_tool_calls(tcs)),
            None => None,
        },
        tool_call_id: clone_opt_string(&m.tool_call_id),
    }
}

/// Taking views commutes with appending one message.
pub proof fn lemma_messages_view_push(s: Seq<ChatMessage>, m: ChatMessage)
    ensures
        messages_view(s.push(m)) == messages_view(s).push(m@),
{
    assert(messages_view(s.push(m)) =~= messages_view(s).push(m@));
}

/// A copy of a message sequence, element for element, with the same views.
pub(crate) fn clone_messages(v: &Vec<ChatMessage>) -> (r: Vec<ChatMessage>)
    ensures
        messages_view(r@) == messages_view(v@),
{
    let mut out: Vec<ChatMessage> = Vec::new();
    let mut i: usize = 0;
    while i < v.len()
        invariant
            i <= v.len(),
            messages_view(out@) == messages_view(v@.take(i as int)),
        decreases v.len() - i,
    {
        let c = clone_message(&v[i]);
        proof {
            lemma_messages_view_push(out@, c);
            lemma_messages_view_push(v@.take(i as int), v@[i as int]);
            assert(v@.take(i as int + 1) =~= v@.take(i as int).push(v@[i as int]));
        }
        out.push(c);
        i = i + 1;
    }
    assert(v@.take(v@.len() as int) =~= v@);
    out
}

} // verus!
