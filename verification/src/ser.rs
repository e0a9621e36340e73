//! Rendering a request configuration to its wire body. Every piece of the
//! body is pinned by a spec function over the views, down to the escaping of
//! string literals and the decimal notation of the thousandths parameters.

use vstd::prelude::*;
use vstd::string::StringExecFns;

use crate::chat::Chat;
use crate::messages::ChatMessage;
use crate::messages::ChatRole;
use crate::messages::MessageView;
use crate::messages::ToolCall;
use crate::messages::ToolCallView;
use crate::messages::messages_view;
use crate::messages::tool_calls_view;
use crate::request::ChatRequest;
use crate::request::ChatResponseFormat;
use crate::request::ChatServiceTier;
use crate::request::Function;
use crate::request::FunctionView;
use crate::request::RequestView;
use crate::request::Tool;
use crate::request::ToolChoice;
use crate::request::ToolChoiceValue;
use crate::request::ToolChoiceView;
use crate::request::ToolView;
use crate::request::tools_view;
use crate::text::append_escaped;
use crate::text::append_milli_i32;
use crate::text::append_milli_u32;
use crate::text::append_u64;
use crate::text::spec_dec;
use crate::text::spec_escape;
use crate::text::spec_milli;

verus! {

/// The view of an optional string.
pub open spec fn opt_view(o: Option<String>) -> Option<Seq<char>> {
    match o {
        Some(s) => Some(s@),
        None => None,
    }
}

/// A JSON string literal: quoted and escaped.
pub open spec fn spec_jstr(s: Seq<char>) -> Seq<char> {
    "\""@ + spec_escape(s) + "\""@
}

/// An optional string on the wire: the literal, or `null`.
pub open spec fn spec_opt_str_json(o: Option<Seq<char>>) -> Seq<char> {
    match o {
        Some(s) => spec_jstr(s),
        None => "null"@,
    }
}

/// A boolean on the wire.
pub open spec fn spec_bool_json(b: bool) -> Seq<char> {
    if b {
        "true"@
    } else {
        "false"@
    }
}

/// A role on the wire.
pub open spec fn spec_role_json(r: ChatRole) -> Seq<char> {
    match r {
        ChatRole::System => "\"system\""@,
        ChatRole::User => "\"user\""@,
        ChatRole::Assistant => "\"assistant\""@,
        ChatRole::Tool => "\"tool\""@,
    }
}

/// One tool call on the wire.
pub open spec fn spec_tool_call_json(tc: ToolCallView) -> Seq<char> {
    "{\"id\":"@ + spec_jstr(tc.id) + ",\"type\":\"function\",\"function\":{\"name\":"@ + spec_jstr(
        tc.function.name,
    ) + ",\"arguments\":"@ + spec_jstr(tc.function.arguments) + "}}"@
}

/// A tool-call array's elements, comma-separated.
pub open spec fn spec_tool_calls_json(s: Seq<ToolCallView>) -> Seq<char>
    decreases s.len(),
{
    if s.len() == 0 {
        Seq::empty()
    } else if s.len() == 1 {
        spec_tool_call_json(s[0])
    } else {
        spec_tool_calls_json(s.drop_last()) + ","@ + spec_tool_call_json(s.last())
    }
}

/// One message on the wire: role and content always, tool calls and the
/// correlation identifier only when present.
pub open spec fn spec_message_json(m: MessageView) -> Seq<char> {
    "{\"role\":"@ + spec_role_json(m.role) + ",\"content\":"@ + spec_opt_str_json(m.content) + (
    match m.tool_calls {
        Some(tcs) => ",\"tool_calls\":["@ + spec_tool_calls_json(tcs) + "]"@,
        None => Seq::empty(),
    }) + (match m.tool_call_id {
        Some(id) => ",\"tool_call_id\":"@ + spec_jstr(id),
        None => Seq::empty(),
    }) + "}"@
}

/// A message array's elements, comma-separated.
pub open spec fn spec_messages_json(s: Seq<MessageView>) -> Seq<char>
    decreases s.len(),
{
    if s.len() == 0 {
        Seq::empty()
    } else if s.len() == 1 {
        spec_message_json(s[0])
    } else {
        spec_messages_json(s.drop_last()) + ","@ + spec_message_json(s.last())
    }
}

/// A declared function's fields, each present only when set, in declaration
/// order with commas between the present ones.
pub open spec fn spec_function_fields(f: FunctionView) -> Seq<char> {
    match (f.description, f.name, f.parameters) {
        (Option::None, Option::None, Option::None) => Seq::empty(),
        (Option::Some(d), Option::None, Option::None) => "\"description\":"@ + spec_jstr(d),
        (Option::None, Option::Some(n), Option::None) => "\"name\":"@ + spec_jstr(n),
        (Option::None, Option::None, Option::Some(p)) => "\"parameters\":"@ + p,
        (Option::Some(d), Option::Some(n), Option::None) => "\"description\":"@ + spec_jstr(d)
            + ",\"name\":"@ + spec_jstr(n),
        (Option::Some(d), Option::None, Option::Some(p)) => "\"description\":"@ + spec_jstr(d)
            + ",\"parameters\":"@ + p,
        (Option::None, Option::Some(n), Option::Some(p)) => "\"name\":"@ + spec_jstr(n)
            + ",\"parameters\":"@ + p,
        (Option::Some(d), Option::Some(n), Option::Some(p)) => "\"description\":"@ + spec_jstr(d)
            + ",\"name\":"@ + spec_jstr(n) + ",\"parameters\":"@ + p,
    }
}

/// A declared function on the wire. Its `parameters` text is embedded
/// verbatim.
pub open spec fn spec_function_json(f: FunctionView) -> Seq<char> {
    "{"@ + spec_function_fields(f) + "}"@
}

/// One tool declaration on the wire.
pub open spec fn spec_tool_json(t: ToolView) -> Seq<char> {
    "{\"function\":"@ + spec_function_json(t.function) + ",\"type\":\"function\"}"@
}

/// A tool array's elements, comma-separated.
pub open spec fn spec_tools_json(s: Seq<ToolView>) -> Seq<char>
    decreases s.len(),
{
    if s.len() == 0 {
        Seq::empty()
    } else if s.len() == 1 {
        spec_tool_json(s[0])
    } else {
        spec_tools_json(s.drop_last()) + ","@ + spec_tool_json(s.last())
    }
}

/// The tool-choice policy on the wire: a bare keyword, or the forced
/// function object.
pub open spec fn spec_tool_choice_json(tc: ToolChoiceView) -> Seq<char> {
    match tc {
        ToolChoiceView::Value(ToolChoiceValue::Disabled) => "\"none\""@,
        ToolChoiceView::Value(ToolChoiceValue::Auto) => "\"auto\""@,
        ToolChoiceView::Value(ToolChoiceValue::Required) => "\"required\""@,
        ToolChoiceView::Object { tool_type, name } => "{\"type\":\"function\",\"function\":{\"name\":"@
            + spec_opt_str_json(name) + "}}"@,
    }
}

/// A response-format hint on the wire, by its variant name.
pub open spec fn spec_response_format_json(rf: ChatResponseFormat) -> Seq<char> {
    match rf {
        ChatResponseFormat::JsonObject => "\"JsonObject\""@,
        ChatResponseFormat::JsonArray => "\"JsonArray\""@,
        ChatResponseFormat::Text => "\"Text\""@,
    }
}

/// A service tier on the wire, by its variant name.
pub open spec fn spec_service_tier_json(t: ChatServiceTier) -> Seq<char> {
    match t {
        ChatServiceTier::OnDemand => "\"OnDemand\""@,
        ChatServiceTier::Auto => "\"Auto\""@,
        ChatServiceTier::Flex => "\"Flex\""@,
    }
}

/// The opening of the wire body: model, conversation, frequency penalty.
pub open spec fn spec_request_head(r: RequestView) -> Seq<char> {
    "{\"model\":"@ + spec_jstr(r.model) + ",\"messages\":["@ + spec_messages_json(r.messages)
        + "]"@ + ",\"frequency_penalty\":"@ + spec_milli(r.frequency_penalty as int)
}

/// The token limit, the parallel flag, the presence penalty and the
/// reasoning format; the optional fields are omitted when unset.
pub open spec fn spec_request_mid(r: RequestView) -> Seq<char> {
    (match r.max_completion_tokens {
        Some(n) => ",\"max_completion_tokens\":"@ + spec_dec(n as int),
        None => Seq::empty(),
    }) + ",\"parallel_tool_calls\":"@ + spec_bool_json(r.parallel_tool_calls)
        + ",\"presence_penalty\":"@ + spec_milli(r.presence_penalty as int) + (
    match r.reasoning_format {
        Some(s) => ",\"reasoning_format\":"@ + spec_jstr(s),
        None => Seq::empty(),
    })
}

/// The three optional selectors: response format, seed, service tier.
pub open spec fn spec_request_opts(r: RequestView) -> Seq<char> {
    (match r.response_format {
        Some(rf) => ",\"response_format\":"@ + spec_response_format_json(rf),
        None => Seq::empty(),
    }) + (match r.seed {
        Some(n) => ",\"seed\":"@ + spec_dec(n as int),
        None => Seq::empty(),
    }) + (match r.service_tier {
        Some(t) => ",\"service_tier\":"@ + spec_service_tier_json(t),
        None => Seq::empty(),
    })
}

/// The close of the wire body: the streaming flag, the two remaining
/// sampling parameters, the tool-choice policy when set, and the tool array
/// when non-empty.
pub open spec fn spec_request_tail(r: RequestView, stream: bool) -> Seq<char> {
    ",\"stream\":"@ + spec_bool_json(stream) + ",\"temperature\":"@ + spec_milli(
        r.temperature as int,
    ) + ",\"top_p\":"@ + spec_milli(r.top_p as int) + (match r.tool_choice {
        Some(tc) => ",\"tool_choice\":"@ + spec_tool_choice_json(tc),
        None => Seq::empty(),
    }) + (if r.tools.len() == 0 {
        Seq::<char>::empty()
    } else {
        ",\"tools\":["@ + spec_tools_json(r.tools) + "]"@
    }) + "}"@
}

/// The whole wire body, with the streaming flag forced to the given mode.
/// Optional fields are omitted when unset, and the tool array when empty.
pub open spec fn spec_request_body(r: RequestView, stream: bool) -> Seq<char> {
    spec_request_head(r) + spec_request_mid(r) + spec_request_opts(r) + spec_request_tail(
        r,
        stream,
    )
}

/// Appends a quoted, escaped JSON string literal.
fn append_jstr(out: &mut String, s: &str)
    ensures
        final(out)@ == old(out)@ + spec_jstr(s@),
{
    out.append("\"");
    append_escaped(out, s);
    out.append("\"");
    proof {
        assert(out@ =~= old(out)@ + spec_jstr(s@));
    }
}

/// Appends an optional string: the literal, or `null`.
fn append_opt_str(out: &mut String, o: &Option<String>)
    ensures
        final(out)@ == old(out)@ + spec_opt_str_json(opt_view(*o)),
{
    match o {
        Some(s) => append_jstr(out, s.as_str()),
        None => out.append("null"),
    }
}

/// Appends a boolean.
fn append_bool(out: &mut String, b: bool)
    ensures
        final(out)@ == old(out)@ + spec_bool_json(b),
{
    if b {
        out.append("true");
    } else {
        out.append("false");
    }
}

/// Appends a role.
fn append_role(out: &mut String, r: ChatRole)
    ensures
        final(out)@ == old(out)@ + spec_role_json(r),
{
    match r {
        ChatRole::System => out.append("\"system\""),
        ChatRole::User => out.append("\"user\""),
        ChatRole::Assistant => out.append("\"assistant\""),
        ChatRole::Tool => out.append("\"tool\""),
    }
}

/// Appends one tool call.
fn append_tool_call(out: &mut String, t: &ToolCall)
    ensures
        final(out)@ == old(out)@ + spec_tool_call_json(t@),
{
    out.append("{\"id\":");
    append_jstr(out, t.id.as_str());
    out.append(",\"type\":\"function\",\"function\":{\"name\":");
    append_jstr(out, t.function.name.as_str());
    out.append(",\"arguments\":");
    append_jstr(out, t.function.arguments.as_str());
    out.append("}}");
    proof {
        assert(out@ =~= old(out)@ + spec_tool_call_json(t@));
    }
}

/// Appends a tool-call array's elements, comma-separated.
fn append_tool_calls(out: &mut String, v: &Vec<ToolCall>)
    ensures
        final(out)@ == old(out)@ + spec_tool_calls_json(tool_calls_view(v@)),
{
    let mut i: usize = 0;
    proof {
        assert(tool_calls_view(v@.take(0)) =~= Seq::<ToolCallView>::empty());
        assert(out@ =~= old(out)@ + spec_tool_calls_json(tool_calls_view(v@.take(0))));
    }
    while i < v.len()
        invariant
            i <= v@.len(),
            out@ == old(out)@ + spec_tool_calls_json(tool_calls_view(v@.take(i as int))),
        decreases v@.len() - i,
    {
        if i > 0 {
            out.append(",");
        }
        append_tool_call(out, &v[i]);
        proof {
            let t = tool_calls_view(v@.take(i as int + 1));
            assert(t.drop_last() =~= tool_calls_view(v@.take(i as int)));
            assert(t.last() == v@[i as int]@);
            assert(out@ =~= old(out)@ + spec_tool_calls_json(t));
        }
        i = i + 1;
    }
    proof {
        assert(v@.take(v@.len() as int) =~= v@);
    }
}

/// Appends one message.
#[verifier::rlimit(100)]
fn append_message(out: &mut String, m: &ChatMessage)
    ensures
        final(out)@ == old(out)@ + spec_message_json(m@),
{
    out.append("{\"role\":");
    append_role(out, m.role);
    out.append(",\"content\":");
    append_opt_str(out, &m.content);
    match &m.tool_calls {
        Some(tcs) => {
            out.append(",\"tool_calls\":[");
            append_tool_calls(out, tcs);
            out.append("]");
        },
        None => {},
    }
    match &m.tool_call_id {
        Some(id) => {
            out.append(",\"tool_call_id\":");
            append_jstr(out, id.as_str());
        },
        None => {},
    }
    out.append("}");
    proof {
        assert(out@ =~= old(out)@ + spec_message_json(m@));
    }
}

/// Appends a message array's elements, comma-separated.
fn append_messages(out: &mut String, v: &Vec<ChatMessage>)
    ensures
        final(out)@ == old(out)@ + spec_messages_json(messages_view(v@)),
{
    let mut i: usize = 0;
    proof {
        assert(messages_view(v@.take(0)) =~= Seq::<MessageView>::empty());
        assert(out@ =~= old(out)@ + spec_messages_json(messages_view(v@.take(0))));
    }
    while i < v.len()
        invariant
            i <= v@.len(),
            out@ == old(out)@ + spec_messages_json(messages_view(v@.take(i as int))),
        decreases v@.len() - i,
    {
        if i > 0 {
            out.append(",");
        }
        append_message(out, &v[i]);
        proof {
            let t = messages_view(v@.take(i as int + 1));
            assert(t.drop_last() =~= messages_view(v@.take(i as int)));
            assert(t.last() == v@[i as int]@);
            assert(out@ =~= old(out)@ + spec_messages_json(t));
        }
        i = i + 1;
    }
    proof {
        assert(v@.take(v@.len() as int) =~= v@);
    }
}

/// Appends a declared function.
fn append_function(out: &mut String, f: &Function)
    ensures
        final(out)@ == old(out)@ + spec_function_json(f@),
{
    out.append("{");
    match (&f.description, &f.name, &f.parameters) {
        (Option::None, Option::None, Option::None) => {},
        (Option::Some(d), Option::None, Option::None) => {
            out.append("\"description\":");
            append_jstr(out, d.as_str());
        },
        (Option::None, Option::Some(n), Option::None) => {
            out.append("\"name\":");
            append_jstr(out, n.as_str());
        },
        (Option::None, Option::None, Option::Some(p)) => {
            out.append("\"parameters\":");
            out.append(p.as_str());
        },
        (Option::Some(d), Option::Some(n), Option::None) => {
            out.append("\"description\":");
            append_jstr(out, d.as_str());
            out.append(",\"name\":");
            append_jstr(out, n.as_str());
        },
        (Option::Some(d), Option::None, Option::Some(p)) => {
            out.append("\"description\":");
            append_jstr(out, d.as_str());
            out.append(",\"parameters\":");
            out.append(p.as_str());
        },
        (Option::None, Option::Some(n), Option::Some(p)) => {
            out.append("\"name\":");
            append_jstr(out, n.as_str());
            out.append(",\"parameters\":");
            out.append(p.as_str());
        },
        (Option::Some(d), Option::Some(n), Option::Some(p)) => {
            out.append("\"description\":");
            append_jstr(out, d.as_str());
            out.append(",\"name\":");
            append_jstr(out, n.as_str());
            out.append(",\"parameters\":");
            out.append(p.as_str());
        },
    }
    out.append("}");
    proof {
        assert(out@ =~= old(out)@ + spec_function_json(f@));
    }
}

/// Appends one tool declaration.
fn append_tool(out: &mut String, t: &Tool)
    ensures
        final(out)@ == old(out)@ + spec_tool_json(t@),
{
    out.append("{\"function\":");
    append_function(out, &t.function);
    out.append(",\"type\":\"function\"}");
    proof {
        assert(out@ =~= old(out)@ + spec_tool_json(t@));
    }
}

/// Appends a tool array's elements, comma-separated.
fn append_tools(out: &mut String, v: &Vec<Tool>)
    ensures
        final(out)@ == old(out)@ + spec_tools_json(tools_view(v@)),
{
    let mut i: usize = 0;
    proof {
        assert(tools_view(v@.take(0)) =~= Seq::<ToolView>::empty());
        assert(out@ =~= old(out)@ + spec_tools_json(tools_view(v@.take(0))));
    }
    while i < v.len()
        invariant
            i <= v@.len(),
            out@ == old(out)@ + spec_tools_json(tools_view(v@.take(i as int))),
        decreases v@.len() - i,
    {
        if i > 0 {
            out.append(",");
        }
        append_tool(out, &v[i]);
        proof {
            let t = tools_view(v@.take(i as int + 1));
            assert(t.drop_last() =~= tools_view(v@.take(i as int)));
            assert(t.last() == v@[i as int]@);
            assert(out@ =~= old(out)@ + spec_tools_json(t));
        }
        i = i + 1;
    }
    proof {
        assert(v@.take(v@.len() as int) =~= v@);
    }
}

/// Appends the tool-choice policy.
fn append_tool_choice(out: &mut String, tc: &ToolChoice)
    ensures
        final(out)@ == old(out)@ + spec_tool_choice_json(tc@),
{
    match tc {
        ToolChoice::Value(ToolChoiceValue::Disabled) => out.append("\"none\""),
        ToolChoice::Value(ToolChoiceValue::Auto) => out.append("\"auto\""),
        ToolChoice::Value(ToolChoiceValue::Required) => out.append("\"required\""),
        ToolChoice::Object(o) => {
            out.append("{\"type\":\"function\",\"function\":{\"name\":");
            append_opt_str(out, &o.function.name);
            out.append("}}");
            proof {
                assert(out@ =~= old(out)@ + spec_tool_choice_json(tc@));
            }
        },
    }
}

/// Renders the whole wire body for a configuration, with the streaming flag
/// forced to the given mode.
/// Appends the opening of the wire body.
fn append_request_head(out: &mut String, req: &ChatRequest)
    ensures
        final(out)@ == old(out)@ + spec_request_head(req@),
{
    out.append("{\"model\":");
    append_jstr(out, req.model.as_str());
    out.append(",\"messages\":[");
    append_messages(out, &req.messages);
    out.append("]");
    out.append(",\"frequency_penalty\":");
    append_milli_i32(out, req.frequency_penalty);
    proof {
        assert(out@ =~= old(out)@ + spec_request_head(req@));
    }
}

/// Appends the token limit, the parallel flag, the presence penalty and the
/// reasoning format.
fn append_request_mid(out: &mut String, req: &ChatRequest)
    ensures
        final(out)@ == old(out)@ + spec_request_mid(req@),
{
    match &req.max_completion_tokens {
        Some(n) => {
            out.append(",\"max_completion_tokens\":");
            append_u64(out, *n as u64);
        },
        None => {},
    }
    proof {
        assert(out@ =~= old(out)@ + (match req@.max_completion_tokens {
            Some(n) => ",\"max_completion_tokens\":"@ + spec_dec(n as int),
            None => Seq::empty(),
        }));
    }
    out.append(",\"parallel_tool_calls\":");
    append_bool(out, req.parallel_tool_calls);
    out.append(",\"presence_penalty\":");
    append_milli_i32(out, req.presence_penalty);
    match &req.reasoning_format {
        Some(s) => {
            out.append(",\"reasoning_format\":");
            append_jstr(out, s.as_str());
        },
        None => {},
    }
    proof {
        assert(out@ =~= old(out)@ + spec_request_mid(req@));
    }
}

/// Appends the three optional selectors.
fn append_request_opts(out: &mut String, req: &ChatRequest)
    ensures
        final(out)@ == old(out)@ + spec_request_opts(req@),
{
    match &req.response_format {
        Some(rf) => {
            out.append(",\"response_format\":");
            match rf {
                ChatResponseFormat::JsonObject => out.append("\"JsonObject\""),
                ChatResponseFormat::JsonArray => out.append("\"JsonArray\""),
                ChatResponseFormat::Text => out.append("\"Text\""),
            }
        },
        None => {},
    }
    proof {
        assert(out@ =~= old(out)@ + (match req@.response_format {
            Some(rf) => ",\"response_format\":"@ + spec_response_format_json(rf),
            None => Seq::empty(),
        }));
    }
    let ghost mid = out@;
    match &req.seed {
        Some(n) => {
            out.append(",\"seed\":");
            append_u64(out, *n);
        },
        None => {},
    }
    proof {
        assert(out@ =~= mid + (match req@.seed {
            Some(n) => ",\"seed\":"@ + spec_dec(n as int),
            None => Seq::empty(),
        }));
    }
    match &req.service_tier {
        Some(t) => {
            out.append(",\"service_tier\":");
            match t {
                ChatServiceTier::OnDemand => out.append("\"OnDemand\""),
                ChatServiceTier::Auto => out.append("\"Auto\""),
                ChatServiceTier::Flex => out.append("\"Flex\""),
            }
        },
        None => {},
    }
    proof {
        assert(out@ =~= old(out)@ + spec_request_opts(req@));
    }
}

/// Appends the close of the wire body.
#[verifier::rlimit(100)]
fn append_request_tail(out: &mut String, req: &ChatRequest, stream: bool)
    ensures
        final(out)@ == old(out)@ + spec_request_tail(req@, stream),
{
    out.append(",\"stream\":");
    append_bool(out, stream);
    out.append(",\"temperature\":");
    append_milli_u32(out, req.temperature);
    out.append(",\"top_p\":");
    append_milli_u32(out, req.top_p);
    let ghost mid = out@;
    match &req.tool_choice {
        Some(tc) => {
            out.append(",\"tool_choice\":");
            append_tool_choice(out, tc);
        },
        None => {},
    }
    proof {
        assert(out@ =~= mid + (match req@.tool_choice {
            Some(tc) => ",\"tool_choice\":"@ + spec_tool_choice_json(tc),
            None => Seq::empty(),
        }));
    }
    let ghost mid2 = out@;
    if req.tools.len() > 0 {
        out.append(",\"tools\":[");
        append_tools(out, &req.tools);
        out.append("]");
    }
    proof {
        assert(out@ =~= mid2 + (if req@.tools.len() == 0 {
            Seq::<char>::empty()
        } else {
            ",\"tools\":["@ + spec_tools_json(req@.tools) + "]"@
        }));
    }
    out.append("}");
    proof {
        assert(out@ =~= old(out)@ + spec_request_tail(req@, stream));
    }
}

/// Renders the whole wire body for a configuration, with the streaming flag
/// forced to the given mode.
pub fn render_request(req: &ChatRequest, stream: bool) -> (r: String)
    ensures
        r@ == spec_request_body(req@, stream),
{
    let mut out = String::new();
    append_request_head(&mut out, req);
    proof {
        assert(Seq::<char>::empty() + spec_request_head(req@) =~= spec_request_head(req@));
    }
    append_request_mid(&mut out, req);
    append_request_opts(&mut out, req);
    append_request_tail(&mut out, req, stream);
    out
}

impl Chat {
    /// The wire body the next send would carry, with the streaming flag
    /// forced to the given mode.
    pub fn request_body(&self, stream: bool) -> (r: String)
        ensures
            r@ == spec_request_body(self.chat_request@, stream),
    {
        render_request(&self.chat_request, stream)
    }
}

} // verus!
