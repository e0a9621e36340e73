//! Decoding of server payloads from the JSON tree into the typed response
//! and error objects. Each executable decoder mirrors a spec function that
//! pins its result exactly, including which error each ill-shaped input
//! yields. The unification rule for choices — take `delta` when present,
//! else `message`, and fail when both are absent — lives in
//! `spec_decode_choice`.

use vstd::prelude::*;

use crate::json::JsonValue;
use crate::json::json_parse;
use crate::json::lookup;
use crate::json::parse_json;
use crate::json::spec_lookup;
use crate::messages::ChatMessage;
use crate::messages::ChatRole;
use crate::messages::MessageView;
use crate::messages::ToolCall;
use crate::messages::ToolCallFunction;
use crate::messages::ToolCallView;
use crate::messages::ToolCallFunctionView;
use crate::messages::ToolType;
use crate::messages::messages_view;
use crate::messages::tool_calls_view;
use crate::response::ChatChoice;
use crate::response::ChatError;
use crate::response::ChatErrorDetails;
use crate::response::ChatResponse;
use crate::response::ChatUsage;
use crate::response::ChatXGroq;
use crate::response::ChoiceView;
use crate::response::ErrorDetailsView;
use crate::response::ResponseView;
use crate::response::UsageView;
use crate::response::choices_view;
use crate::text::spec_dec;
use crate::text::str_eq_str;
use crate::text::u64_chars;

verus! {

/// Why a payload failed to decode.
#[derive(Clone, Copy, Debug, PartialEq, Eq, Structural)]
pub enum DecodeError {
    /// The text is not well-formed JSON.
    Syntax,
    /// A JSON object was expected.
    NotObject,
    /// A required field is absent.
    MissingField,
    /// A field is present with an unexpected type or value.
    WrongType,
    /// A choice carries neither a `delta` nor a `message` field.
    MissingDeltaOrMessage,
    /// The response carries no choice at all.
    EmptyChoices,
}

/// The role a JSON value denotes.
pub open spec fn spec_decode_role(v: JsonValue) -> Result<ChatRole, DecodeError> {
    match v {
        JsonValue::Str(s) => if s@ == "system"@ {
            Ok(ChatRole::System)
        } else if s@ == "user"@ {
            Ok(ChatRole::User)
        } else if s@ == "assistant"@ {
            Ok(ChatRole::Assistant)
        } else if s@ == "tool"@ {
            Ok(ChatRole::Tool)
        } else {
            Err(DecodeError::WrongType)
        },
        _ => Err(DecodeError::WrongType),
    }
}

/// An optional string field: absent or null reads as nothing, a string as
/// itself, anything else is ill-typed.
pub open spec fn spec_opt_string(v: Option<JsonValue>) -> Result<
    Option<Seq<char>>,
    DecodeError,
> {
    match v {
        None => Ok(None),
        Some(JsonValue::Null) => Ok(None),
        Some(JsonValue::Str(s)) => Ok(Some(s@)),
        Some(_) => Err(DecodeError::WrongType),
    }
}

/// A required string field.
pub open spec fn spec_req_string(v: Option<JsonValue>) -> Result<Seq<char>, DecodeError> {
    match v {
        None => Err(DecodeError::MissingField),
        Some(JsonValue::Str(s)) => Ok(s@),
        Some(_) => Err(DecodeError::WrongType),
    }
}

/// A required unsigned-integer field.
pub open spec fn spec_req_u64(v: Option<JsonValue>) -> Result<u64, DecodeError> {
    match v {
        None => Err(DecodeError::MissingField),
        Some(JsonValue::UInt(u)) => Ok(u),
        Some(_) => Err(DecodeError::WrongType),
    }
}

/// A required numeric field, read back as its decimal text.
pub open spec fn spec_req_num_text(v: Option<JsonValue>) -> Result<Seq<char>, DecodeError> {
    match v {
        None => Err(DecodeError::MissingField),
        Some(JsonValue::UInt(u)) => Ok(spec_dec(u as int)),
        Some(JsonValue::Int(i)) => Ok(
            if i < 0 {
                "-"@ + spec_dec(-(i as int))
            } else {
                spec_dec(i as int)
            },
        ),
        Some(JsonValue::NumText(t)) => Ok(t@),
        Some(_) => Err(DecodeError::WrongType),
    }
}

/// One service-issued tool call.
pub open spec fn spec_decode_tool_call(v: JsonValue) -> Result<ToolCallView, DecodeError> {
    match v {
        JsonValue::Obj(f) => match spec_req_string(spec_lookup(f@, "id"@)) {
            Err(e) => Err(e),
            Ok(id) => match spec_lookup(f@, "type"@) {
                None => Err(DecodeError::MissingField),
                Some(tv) => if !(tv matches JsonValue::Str(t) && t@ == "function"@) {
                    Err(DecodeError::WrongType)
                } else {
                    match spec_lookup(f@, "function"@) {
                        None => Err(DecodeError::MissingField),
                        Some(JsonValue::Obj(g)) => match spec_req_string(
                            spec_lookup(g@, "name"@),
                        ) {
                            Err(e) => Err(e),
                            Ok(name) => match spec_req_string(spec_lookup(g@, "arguments"@)) {
                                Err(e) => Err(e),
                                Ok(arguments) => Ok(
                                    ToolCallView {
                                        id,
                                        tool_type: ToolType::Function,
                                        function: ToolCallFunctionView { name, arguments },
                                    },
                                ),
                            },
                        },
                        Some(_) => Err(DecodeError::WrongType),
                    }
                },
            },
        },
        _ => Err(DecodeError::NotObject),
    }
}

/// A whole tool-call array, front to back; the first ill-shaped element
/// decides the error.
pub open spec fn spec_decode_tool_calls(a: Seq<JsonValue>) -> Result<
    Seq<ToolCallView>,
    DecodeError,
>
    decreases a.len(),
{
    if a.len() == 0 {
        Ok(Seq::empty())
    } else {
        match spec_decode_tool_call(a[0]) {
            Err(e) => Err(e),
            Ok(tc) => match spec_decode_tool_calls(a.drop_first()) {
                Err(e) => Err(e),
                Ok(rest) => Ok(seq![tc] + rest),
            },
        }
    }
}

/// An optional tool-call array: absent or null reads as nothing.
pub open spec fn spec_opt_tool_calls(v: Option<JsonValue>) -> Result<
    Option<Seq<ToolCallView>>,
    DecodeError,
> {
    match v {
        None => Ok(None),
        Some(JsonValue::Null) => Ok(None),
        Some(JsonValue::Arr(a)) => match spec_decode_tool_calls(a@) {
            Err(e) => Err(e),
            Ok(s) => Ok(Some(s)),
        },
        Some(_) => Err(DecodeError::WrongType),
    }
}

/// One message-shaped object, as it appears under `message`, under `delta`,
/// and inside the conversation of a request body.
pub open spec fn spec_decode_message(v: JsonValue) -> Result<MessageView, DecodeError> {
    match v {
        JsonValue::Obj(f) => match spec_lookup(f@, "role"@) {
            None => Err(DecodeError::MissingField),
            Some(rv) => match spec_decode_role(rv) {
                Err(e) => Err(e),
                Ok(role) => match spec_opt_string(spec_lookup(f@, "content"@)) {
                    Err(e) => Err(e),
                    Ok(content) => match spec_opt_tool_calls(spec_lookup(f@, "tool_calls"@)) {
                        Err(e) => Err(e),
                        Ok(tool_calls) => match spec_opt_string(
                            spec_lookup(f@, "tool_call_id"@),
                        ) {
                            Err(e) => Err(e),
                            Ok(tool_call_id) => Ok(
                                MessageView { role, content, tool_calls, tool_call_id },
                            ),
                        },
                    },
                },
            },
        },
        _ => Err(DecodeError::NotObject),
    }
}

/// A field counted as present only when it is there and not null.
pub open spec fn spec_present(v: Option<JsonValue>) -> Option<JsonValue> {
    match v {
        Some(JsonValue::Null) => None,
        _ => v,
    }
}

/// One choice. The unification rule: the message is read from `delta` when
/// that field is present, else from `message`, and a choice with neither
/// fails with `MissingDeltaOrMessage`.
pub open spec fn spec_decode_choice(v: JsonValue) -> Result<ChoiceView, DecodeError> {
    match v {
        JsonValue::Obj(f) => match spec_req_u64(spec_lookup(f@, "index"@)) {
            Err(e) => Err(e),
            Ok(index) => {
                let unified = match spec_present(spec_lookup(f@, "delta"@)) {
                    Some(d) => Some(d),
                    None => spec_present(spec_lookup(f@, "message"@)),
                };
                match unified {
                    None => Err(DecodeError::MissingDeltaOrMessage),
                    Some(mv) => match spec_decode_message(mv) {
                        Err(e) => Err(e),
                        Ok(message) => match spec_opt_string(spec_lookup(f@, "logprobs"@)) {
                            Err(e) => Err(e),
                            Ok(logprobs) => match spec_opt_string(
                                spec_lookup(f@, "finish_reason"@),
                            ) {
                                Err(e) => Err(e),
                                Ok(finish_reason) => Ok(
                                    ChoiceView { index, message, logprobs, finish_reason },
                                ),
                            },
                        },
                    },
                }
            },
        },
        _ => Err(DecodeError::NotObject),
    }
}

/// A whole choice array, front to back.
pub open spec fn spec_decode_choices(a: Seq<JsonValue>) -> Result<Seq<ChoiceView>, DecodeError>
    decreases a.len(),
{
    if a.len() == 0 {
        Ok(Seq::empty())
    } else {
        match spec_decode_choice(a[0]) {
            Err(e) => Err(e),
            Ok(c) => match spec_decode_choices(a.drop_first()) {
                Err(e) => Err(e),
                Ok(rest) => Ok(seq![c] + rest),
            },
        }
    }
}

/// The usage block; every counter and timing is required.
pub open spec fn spec_decode_usage(v: JsonValue) -> Result<UsageView, DecodeError> {
    match v {
        JsonValue::Obj(f) => match spec_req_num_text(spec_lookup(f@, "queue_time"@)) {
            Err(e) => Err(e),
            Ok(queue_time) => match spec_req_u64(spec_lookup(f@, "prompt_tokens"@)) {
                Err(e) => Err(e),
                Ok(prompt_tokens) => match spec_req_num_text(spec_lookup(f@, "prompt_time"@)) {
                    Err(e) => Err(e),
                    Ok(prompt_time) => match spec_req_u64(spec_lookup(f@, "completion_tokens"@)) {
                        Err(e) => Err(e),
                        Ok(completion_tokens) => match spec_req_num_text(
                            spec_lookup(f@, "completion_time"@),
                        ) {
                            Err(e) => Err(e),
                            Ok(completion_time) => match spec_req_u64(
                                spec_lookup(f@, "total_tokens"@),
                            ) {
                                Err(e) => Err(e),
                                Ok(total_tokens) => match spec_req_num_text(
                                    spec_lookup(f@, "total_time"@),
                                ) {
                                    Err(e) => Err(e),
                                    Ok(total_time) => Ok(
                                        UsageView {
                                            queue_time,
                                            prompt_tokens,
                                            prompt_time,
                                            completion_tokens,
                                            completion_time,
                                            total_tokens,
                                            total_time,
                                        },
                                    ),
                                },
                            },
                        },
                    },
                },
            },
        },
        _ => Err(DecodeError::NotObject),
    }
}

/// An optional usage block: absent or null reads as nothing.
pub open spec fn spec_opt_usage(v: Option<JsonValue>) -> Result<Option<UsageView>, DecodeError> {
    match v {
        None => Ok(None),
        Some(JsonValue::Null) => Ok(None),
        Some(u) => match spec_decode_usage(u) {
            Err(e) => Err(e),
            Ok(w) => Ok(Some(w)),
        },
    }
}

/// A whole response object. A response without choices, or with an empty
/// choice array, does not decode.
pub open spec fn spec_decode_response(v: JsonValue) -> Result<ResponseView, DecodeError> {
    match v {
        JsonValue::Obj(f) => match spec_req_string(spec_lookup(f@, "id"@)) {
            Err(e) => Err(e),
            Ok(id) => match spec_req_string(spec_lookup(f@, "object"@)) {
                Err(e) => Err(e),
                Ok(object) => match spec_req_u64(spec_lookup(f@, "created"@)) {
                    Err(e) => Err(e),
                    Ok(created) => match spec_req_string(spec_lookup(f@, "model"@)) {
                        Err(e) => Err(e),
                        Ok(model) => match spec_lookup(f@, "choices"@) {
                            None => Err(DecodeError::MissingField),
                            Some(JsonValue::Arr(a)) => if a@.len() == 0 {
                                Err(DecodeError::EmptyChoices)
                            } else {
                                match spec_decode_choices(a@) {
                                    Err(e) => Err(e),
                                    Ok(choices) => match spec_opt_usage(
                                        spec_lookup(f@, "usage"@),
                                    ) {
                                        Err(e) => Err(e),
                                        Ok(usage) => match spec_req_string(
                                            spec_lookup(f@, "system_fingerprint"@),
                                        ) {
                                            Err(e) => Err(e),
                                            Ok(system_fingerprint) => match spec_lookup(
                                                f@,
                                                "x_groq"@,
                                            ) {
                                                None => Err(DecodeError::MissingField),
                                                Some(JsonValue::Obj(g)) => match spec_req_string(
                                                    spec_lookup(g@, "id"@),
                                                ) {
                                                    Err(e) => Err(e),
                                                    Ok(x_groq_id) => Ok(
                                                        ResponseView {
                                                            id,
                                                            object,
                                                            created,
                                                            model,
                                                            choices,
                                                            usage,
                                                            system_fingerprint,
                                                            x_groq_id,
                                                        },
                                                    ),
                                                },
                                                Some(_) => Err(DecodeError::WrongType),
                                            },
                                        },
                                    },
                                }
                            },
                            Some(_) => Err(DecodeError::WrongType),
                        },
                    },
                },
            },
        },
        _ => Err(DecodeError::NotObject),
    }
}

/// The structured error body of a non-success status.
pub open spec fn spec_decode_error_body(v: JsonValue) -> Result<ErrorDetailsView, DecodeError> {
    match v {
        JsonValue::Obj(f) => match spec_lookup(f@, "error"@) {
            None => Err(DecodeError::MissingField),
            Some(JsonValue::Obj(g)) => match spec_req_string(spec_lookup(g@, "message"@)) {
                Err(e) => Err(e),
                Ok(message) => match spec_req_string(spec_lookup(g@, "type"@)) {
                    Err(e) => Err(e),
                    Ok(error_type) => match spec_opt_string(spec_lookup(g@, "param"@)) {
                        Err(e) => Err(e),
                        Ok(param) => match spec_opt_string(spec_lookup(g@, "code"@)) {
                            Err(e) => Err(e),
                            Ok(code) => Ok(ErrorDetailsView { message, error_type, param, code }),
                        },
                    },
                },
            },
            Some(_) => Err(DecodeError::WrongType),
        },
        _ => Err(DecodeError::NotObject),
    }
}

/// A whole message array, front to back.
pub open spec fn spec_decode_messages(a: Seq<JsonValue>) -> Result<Seq<MessageView>, DecodeError>
    decreases a.len(),
{
    if a.len() == 0 {
        Ok(Seq::empty())
    } else {
        match spec_decode_message(a[0]) {
            Err(e) => Err(e),
            Ok(m) => match spec_decode_messages(a.drop_first()) {
                Err(e) => Err(e),
                Ok(rest) => Ok(seq![m] + rest),
            },
        }
    }
}

/// The conversation subset of a request-shaped object: the array under its
/// `messages` field.
pub open spec fn spec_decode_conversation(v: JsonValue) -> Result<Seq<MessageView>, DecodeError> {
    match v {
        JsonValue::Obj(f) => match spec_lookup(f@, "messages"@) {
            None => Err(DecodeError::MissingField),
            Some(JsonValue::Arr(a)) => spec_decode_messages(a@),
            Some(_) => Err(DecodeError::WrongType),
        },
        _ => Err(DecodeError::NotObject),
    }
}

/// What decoding the conversation subset of a request text yields.
pub open spec fn spec_decode_conversation_text(s: Seq<char>) -> Result<
    Seq<MessageView>,
    DecodeError,
> {
    match json_parse(s) {
        None => Err(DecodeError::Syntax),
        Some(v) => spec_decode_conversation(v),
    }
}

/// What decoding a whole response text yields.
pub open spec fn spec_decode_response_text(s: Seq<char>) -> Result<ResponseView, DecodeError> {
    match json_parse(s) {
        None => Err(DecodeError::Syntax),
        Some(v) => spec_decode_response(v),
    }
}

/// What decoding a whole error-body text yields.
pub open spec fn spec_decode_error_text(s: Seq<char>) -> Result<ErrorDetailsView, DecodeError> {
    match json_parse(s) {
        None => Err(DecodeError::Syntax),
        Some(v) => spec_decode_error_body(v),
    }
}

/// The image of a decoded-message result.
pub open spec fn message_res_view(r: Result<ChatMessage, DecodeError>) -> Result<
    MessageView,
    DecodeError,
> {
    match r {
        Ok(m) => Ok(m@),
        Err(e) => Err(e),
    }
}

/// The image of a decoded-response result.
pub open spec fn response_res_view(r: Result<ChatResponse, DecodeError>) -> Result<
    ResponseView,
    DecodeError,
> {
    match r {
        Ok(m) => Ok(m@),
        Err(e) => Err(e),
    }
}

/// The image of a decoded-error result.
pub open spec fn error_res_view(r: Result<ChatError, DecodeError>) -> Result<
    ErrorDetailsView,
    DecodeError,
> {
    match r {
        Ok(m) => Ok(m@),
        Err(e) => Err(e),
    }
}

/// The image of an optional-string result.
pub open spec fn opt_string_res_view(r: Result<Option<String>, DecodeError>) -> Result<
    Option<Seq<char>>,
    DecodeError,
> {
    match r {
        Ok(Some(s)) => Ok(Some(s@)),
        Ok(None) => Ok(None),
        Err(e) => Err(e),
    }
}

/// The image of a required-string result.
pub open spec fn string_res_view(r: Result<String, DecodeError>) -> Result<
    Seq<char>,
    DecodeError,
> {
    match r {
        Ok(s) => Ok(s@),
        Err(e) => Err(e),
    }
}

/// Reads the role field's value.
fn decode_role(v: &JsonValue) -> (r: Result<ChatRole, DecodeError>)
    ensures
        r == spec_decode_role(*v),
{
    match v {
        JsonValue::Str(s) => {
            if str_eq_str(s.as_str(), "system") {
                Ok(ChatRole::System)
            } else if str_eq_str(s.as_str(), "user") {
                Ok(ChatRole::User)
            } else if str_eq_str(s.as_str(), "assistant") {
                Ok(ChatRole::Assistant)
            } else if str_eq_str(s.as_str(), "tool") {
                Ok(ChatRole::Tool)
            } else {
                Err(DecodeError::WrongType)
            }
        },
        _ => Err(DecodeError::WrongType),
    }
}

/// Reads an optional string field of `f`.
fn get_opt_string(f: &Vec<(String, JsonValue)>, k: &str) -> (r: Result<
    Option<String>,
    DecodeError,
>)
    ensures
        opt_string_res_view(r) == spec_opt_string(spec_lookup(f@, k@)),
{
    match lookup(f, k) {
        None => Ok(None),
        Some(JsonValue::Null) => Ok(None),
        Some(JsonValue::Str(s)) => Ok(Some(s.clone())),
        Some(_) => Err(DecodeError::WrongType),
    }
}

/// Reads a required string field of `f`.
fn get_req_string(f: &Vec<(String, JsonValue)>, k: &str) -> (r: Result<String, DecodeError>)
    ensures
        string_res_view(r) == spec_req_string(spec_lookup(f@, k@)),
{
    match lookup(f, k) {
        None => Err(DecodeError::MissingField),
        Some(JsonValue::Str(s)) => Ok(s.clone()),
        Some(_) => Err(DecodeError::WrongType),
    }
}

/// Reads a required unsigned-integer field of `f`.
fn get_req_u64(f: &Vec<(String, JsonValue)>, k: &str) -> (r: Result<u64, DecodeError>)
    ensures
        r == spec_req_u64(spec_lookup(f@, k@)),
{
    match lookup(f, k) {
        None => Err(DecodeError::MissingField),
        Some(JsonValue::UInt(u)) => Ok(*u),
        Some(_) => Err(DecodeError::WrongType),
    }
}

/// Reads a required numeric field of `f` as its decimal text.
fn get_req_num_text(f: &Vec<(String, JsonValue)>, k: &str) -> (r: Result<String, DecodeError>)
    ensures
        string_res_view(r) == spec_req_num_text(spec_lookup(f@, k@)),
{
    match lookup(f, k) {
        None => Err(DecodeError::MissingField),
        Some(JsonValue::UInt(u)) => Ok(u64_chars(*u)),
        Some(JsonValue::Int(i)) => {
            if *i < 0 {
                let mag: u64 = (-(*i as i128)) as u64;
                let mut s = String::from_str("-");
                s.append(u64_chars(mag).as_str());
                Ok(s)
            } else {
                Ok(u64_chars(*i as u64))
            }
        },
        Some(JsonValue::NumText(t)) => Ok(t.clone()),
        Some(_) => Err(DecodeError::WrongType),
    }
}

/// Decodes one tool call.
fn decode_tool_call(v: &JsonValue) -> (r: Result<ToolCall, DecodeError>)
    ensures
        (match r {
            Ok(tc) => Ok::<ToolCallView, DecodeError>(tc@),
            Err(e) => Err(e),
        }) == spec_decode_tool_call(*v),
{
    match v {
        JsonValue::Obj(f) => {
            let id = match get_req_string(f, "id") {
                Ok(s) => s,
                Err(e) => {
                    return Err(e);
                },
            };
            let ok_type = match lookup(f, "type") {
                None => {
                    return Err(DecodeError::MissingField);
                },
                Some(JsonValue::Str(t)) => str_eq_str(t.as_str(), "function"),
                Some(_) => false,
            };
            if !ok_type {
                return Err(DecodeError::WrongType);
            }
            match lookup(f, "function") {
                None => Err(DecodeError::MissingField),
                Some(JsonValue::Obj(g)) => {
                    let name = match get_req_string(g, "name") {
                        Ok(s) => s,
                        Err(e) => {
                            return Err(e);
                        },
                    };
                    let arguments = match get_req_string(g, "arguments") {
                        Ok(s) => s,
                        Err(e) => {
                            return Err(e);
                        },
                    };
                    Ok(
                        ToolCall {
                            id,
                            tool_type: ToolType::Function,
                            function: ToolCallFunction { name, arguments },
                        },
                    )
                },
                Some(_) => Err(DecodeError::WrongType),
            }
        },
        _ => Err(DecodeError::NotObject),
    }
}

/// Decodes a whole tool-call array.
fn decode_tool_calls(a: &Vec<JsonValue>) -> (r: Result<Vec<ToolCall>, DecodeError>)
    ensures
        (match r {
            Ok(v) => Ok::<Seq<ToolCallView>, DecodeError>(tool_calls_view(v@)),
            Err(e) => Err(e),
        }) == spec_decode_tool_calls(a@),
{
    let mut out: Vec<ToolCall> = Vec::new();
    let mut i: usize = 0;
    proof {
        assert(a@.skip(0) =~= a@);
        assert(tool_calls_view(out@) =~= Seq::<ToolCallView>::empty());
    }
    while i < a.len()
        invariant
            i <= a@.len(),
            spec_decode_tool_calls(a@) == (match spec_decode_tool_calls(a@.skip(i as int)) {
                Ok(rest) => Ok::<Seq<ToolCallView>, DecodeError>(tool_calls_view(out@) + rest),
                Err(e) => Err(e),
            }),
        decreases a@.len() - i,
    {
        proof {
            assert(a@.skip(i as int)[0] == a@[i as int]);
            assert(a@.skip(i as int).drop_first() =~= a@.skip(i as int + 1));
        }
        match decode_tool_call(&a[i]) {
            Err(e) => {
                return Err(e);
            },
            Ok(tc) => {
                let ghost pre = out@;
                out.push(tc);
                proof {
                    assert(tool_calls_view(out@) =~= tool_calls_view(pre) + seq![tc@]);
                    match spec_decode_tool_calls(a@.skip(i as int + 1)) {
                        Ok(rest2) => {
                            assert(tool_calls_view(pre) + (seq![tc@] + rest2) =~= tool_calls_view(
                                out@,
                            ) + rest2);
                        },
                        Err(e2) => {},
                    }
                }
            },
        }
        i = i + 1;
    }
    proof {
        assert(spec_decode_tool_calls(a@.skip(a@.len() as int)) == Ok::<
            Seq<ToolCallView>,
            DecodeError,
        >(Seq::empty()));
        assert(tool_calls_view(out@) + Seq::<ToolCallView>::empty() =~= tool_calls_view(out@));
    }
    Ok(out)
}

/// Reads the optional tool-call array of `f`.
fn get_opt_tool_calls(f: &Vec<(String, JsonValue)>) -> (r: Result<
    Option<Vec<ToolCall>>,
    DecodeError,
>)
    ensures
        (match r {
            Ok(Some(v)) => Ok::<Option<Seq<ToolCallView>>, DecodeError>(
                Some(tool_calls_view(v@)),
            ),
            Ok(None) => Ok(None),
            Err(e) => Err(e),
        }) == spec_opt_tool_calls(spec_lookup(f@, "tool_calls"@)),
{
    match lookup(f, "tool_calls") {
        None => Ok(None),
        Some(JsonValue::Null) => Ok(None),
        Some(JsonValue::Arr(a)) => match decode_tool_calls(a) {
            Ok(v) => Ok(Some(v)),
            Err(e) => Err(e),
        },
        Some(_) => Err(DecodeError::WrongType),
    }
}

/// Decodes one message-shaped object.
pub fn decode_message(v: &JsonValue) -> (r: Result<ChatMessage, DecodeError>)
    ensures
        message_res_view(r) == spec_decode_message(*v),
{
    match v {
        JsonValue::Obj(f) => {
            let role_v = match lookup(f, "role") {
                None => {
                    return Err(DecodeError::MissingField);
                },
                Some(rv) => rv,
            };
            let role = match decode_role(role_v) {
                Ok(role) => role,
                Err(e) => {
                    return Err(e);
                },
            };
            let content = match get_opt_string(f, "content") {
                Ok(c) => c,
                Err(e) => {
                    return Err(e);
                },
            };
            let tool_calls = match get_opt_tool_calls(f) {
                Ok(t) => t,
                Err(e) => {
                    return Err(e);
                },
            };
            let tool_call_id = match get_opt_string(f, "tool_call_id") {
                Ok(t) => t,
                Err(e) => {
                    return Err(e);
                },
            };
            Ok(ChatMessage { role, content, tool_calls, tool_call_id })
        },
        _ => Err(DecodeError::NotObject),
    }
}

/// Decodes one choice by the unification rule.
pub fn decode_choice(v: &JsonValue) -> (r: Result<ChatChoice, DecodeError>)
    ensures
        (match r {
            Ok(c) => Ok::<ChoiceView, DecodeError>(c@),
            Err(e) => Err(e),
        }) == spec_decode_choice(*v),
{
    match v {
        JsonValue::Obj(f) => {
            let index = match get_req_u64(f, "index") {
                Ok(u) => u,
                Err(e) => {
                    return Err(e);
                },
            };
            let delta = match lookup(f, "delta") {
                Some(JsonValue::Null) => None,
                d => d,
            };
            let unified = match delta {
                Some(d) => Some(d),
                None => match lookup(f, "message") {
                    Some(JsonValue::Null) => None,
                    m => m,
                },
            };
            let message = match unified {
                None => {
                    return Err(DecodeError::MissingDeltaOrMessage);
                },
                Some(mv) => match decode_message(mv) {
                    Ok(m) => m,
                    Err(e) => {
                        return Err(e);
                    },
                },
            };
            let logprobs = match get_opt_string(f, "logprobs") {
                Ok(l) => l,
                Err(e) => {
                    return Err(e);
                },
            };
            let finish_reason = match get_opt_string(f, "finish_reason") {
                Ok(fr) => fr,
                Err(e) => {
                    return Err(e);
                },
            };
            Ok(ChatChoice { index, message, logprobs, finish_reason })
        },
        _ => Err(DecodeError::NotObject),
    }
}

/// Decodes a whole choice array.
fn decode_choices(a: &Vec<JsonValue>) -> (r: Result<Vec<ChatChoice>, DecodeError>)
    ensures
        (match r {
            Ok(v) => Ok::<Seq<ChoiceView>, DecodeError>(choices_view(v@)),
            Err(e) => Err(e),
        }) == spec_decode_choices(a@),
{
    let mut out: Vec<ChatChoice> = Vec::new();
    let mut i: usize = 0;
    proof {
        assert(a@.skip(0) =~= a@);
        assert(choices_view(out@) =~= Seq::<ChoiceView>::empty());
    }
    while i < a.len()
        invariant
            i <= a@.len(),
            spec_decode_choices(a@) == (match spec_decode_choices(a@.skip(i as int)) {
                Ok(rest) => Ok::<Seq<ChoiceView>, DecodeError>(choices_view(out@) + rest),
                Err(e) => Err(e),
            }),
        decreases a@.len() - i,
    {
        proof {
            assert(a@.skip(i as int)[0] == a@[i as int]);
            assert(a@.skip(i as int).drop_first() =~= a@.skip(i as int + 1));
        }
        match decode_choice(&a[i]) {
            Err(e) => {
                return Err(e);
            },
            Ok(c) => {
                let ghost pre = out@;
                out.push(c);
                proof {
                    assert(choices_view(out@) =~= choices_view(pre) + seq![c@]);
                    match spec_decode_choices(a@.skip(i as int + 1)) {
                        Ok(rest2) => {
                            assert(choices_view(pre) + (seq![c@] + rest2) =~= choices_view(out@)
                                + rest2);
                        },
                        Err(e2) => {},
                    }
                }
            },
        }
        i = i + 1;
    }
    proof {
        assert(spec_decode_choices(a@.skip(a@.len() as int)) == Ok::<
            Seq<ChoiceView>,
            DecodeError,
        >(Seq::empty()));
        assert(choices_view(out@) + Seq::<ChoiceView>::empty() =~= choices_view(out@));
    }
    Ok(out)
}

/// Decodes the usage block.
fn decode_usage(v: &JsonValue) -> (r: Result<ChatUsage, DecodeError>)
    ensures
        (match r {
            Ok(u) => Ok::<UsageView, DecodeError>(u@),
            Err(e) => Err(e),
        }) == spec_decode_usage(*v),
{
    match v {
        JsonValue::Obj(f) => {
            let queue_time = match get_req_num_text(f, "queue_time") {
                Ok(s) => s,
                Err(e) => {
                    return Err(e);
                },
            };
            let prompt_tokens = match get_req_u64(f, "prompt_tokens") {
                Ok(u) => u,
                Err(e) => {
                    return Err(e);
                },
            };
            let prompt_time = match get_req_num_text(f, "prompt_time") {
                Ok(s) => s,
                Err(e) => {
                    return Err(e);
                },
            };
            let completion_tokens = match get_req_u64(f, "completion_tokens") {
                Ok(u) => u,
                Err(e) => {
                    return Err(e);
                },
            };
            let completion_time = match get_req_num_text(f, "completion_time") {
                Ok(s) => s,
                Err(e) => {
                    return Err(e);
                },
            };
            let total_tokens = match get_req_u64(f, "total_tokens") {
                Ok(u) => u,
                Err(e) => {
                    return Err(e);
                },
            };
            let total_time = match get_req_num_text(f, "total_time") {
                Ok(s) => s,
                Err(e) => {
                    return Err(e);
                },
            };
            Ok(
                ChatUsage {
                    queue_time,
                    prompt_tokens,
                    prompt_time,
                    completion_tokens,
                    completion_time,
                    total_tokens,
                    total_time,
                },
            )
        },
        _ => Err(DecodeError::NotObject),
    }
}

/// Decodes one whole response object from its tree.
pub fn decode_response(v: &JsonValue) -> (r: Result<ChatResponse, DecodeError>)
    ensures
        response_res_view(r) == spec_decode_response(*v),
{
    match v {
        JsonValue::Obj(f) => {
            let id = match get_req_string(f, "id") {
                Ok(s) => s,
                Err(e) => {
                    return Err(e);
                },
            };
            let object = match get_req_string(f, "object") {
                Ok(s) => s,
                Err(e) => {
                    return Err(e);
                },
            };
            let created = match get_req_u64(f, "created") {
                Ok(u) => u,
                Err(e) => {
                    return Err(e);
                },
            };
            let model = match get_req_string(f, "model") {
                Ok(s) => s,
                Err(e) => {
                    return Err(e);
                },
            };
            let choices = match lookup(f, "choices") {
                None => {
                    return Err(DecodeError::MissingField);
                },
                Some(JsonValue::Arr(a)) => {
                    if a.len() == 0 {
                        return Err(DecodeError::EmptyChoices);
                    }
                    match decode_choices(a) {
                        Ok(v) => v,
                        Err(e) => {
                            return Err(e);
                        },
                    }
                },
                Some(_) => {
                    return Err(DecodeError::WrongType);
                },
            };
            let usage = match lookup(f, "usage") {
                None => None,
                Some(JsonValue::Null) => None,
                Some(u) => match decode_usage(u) {
                    Ok(w) => Some(w),
                    Err(e) => {
                        return Err(e);
                    },
                },
            };
            let system_fingerprint = match get_req_string(f, "system_fingerprint") {
                Ok(s) => s,
                Err(e) => {
                    return Err(e);
                },
            };
            let x_groq = match lookup(f, "x_groq") {
                None => {
                    return Err(DecodeError::MissingField);
                },
                Some(JsonValue::Obj(g)) => match get_req_string(g, "id") {
                    Ok(s) => ChatXGroq { id: s },
                    Err(e) => {
                        return Err(e);
                    },
                },
                Some(_) => {
                    return Err(DecodeError::WrongType);
                },
            };
            Ok(
                ChatResponse {
                    id,
                    object,
                    created,
                    model,
                    choices,
                    usage,
                    system_fingerprint,
                    x_groq,
                },
            )
        },
        _ => Err(DecodeError::NotObject),
    }
}

/// Decodes one whole response from its text, as the buffered mode and each
/// streamed frame need it.
pub fn decode_response_text(s: &str) -> (r: Result<ChatResponse, DecodeError>)
    ensures
        response_res_view(r) == spec_decode_response_text(s@),
{
    match parse_json(s) {
        None => Err(DecodeError::Syntax),
        Some(v) => decode_response(&v),
    }
}

/// Decodes a whole message array.
fn decode_messages(a: &Vec<JsonValue>) -> (r: Result<Vec<ChatMessage>, DecodeError>)
    ensures
        (match r {
            Ok(v) => Ok::<Seq<MessageView>, DecodeError>(messages_view(v@)),
            Err(e) => Err(e),
        }) == spec_decode_messages(a@),
{
    let mut out: Vec<ChatMessage> = Vec::new();
    let mut i: usize = 0;
    proof {
        assert(a@.skip(0) =~= a@);
        assert(messages_view(out@) =~= Seq::<MessageView>::empty());
    }
    while i < a.len()
        invariant
            i <= a@.len(),
            spec_decode_messages(a@) == (match spec_decode_messages(a@.skip(i as int)) {
                Ok(rest) => Ok::<Seq<MessageView>, DecodeError>(messages_view(out@) + rest),
                Err(e) => Err(e),
            }),
        decreases a@.len() - i,
    {
        proof {
            assert(a@.skip(i as int)[0] == a@[i as int]);
            assert(a@.skip(i as int).drop_first() =~= a@.skip(i as int + 1));
        }
        match decode_message(&a[i]) {
            Err(e) => {
                return Err(e);
            },
            Ok(m) => {
                let ghost pre = out@;
                out.push(m);
                proof {
                    assert(messages_view(out@) =~= messages_view(pre) + seq![m@]);
                    match spec_decode_messages(a@.skip(i as int + 1)) {
                        Ok(rest2) => {
                            assert(messages_view(pre) + (seq![m@] + rest2) =~= messages_view(out@)
                                + rest2);
                        },
                        Err(e2) => {},
                    }
                }
            },
        }
        i = i + 1;
    }
    proof {
        assert(spec_decode_messages(a@.skip(a@.len() as int)) == Ok::<
            Seq<MessageView>,
            DecodeError,
        >(Seq::empty()));
        assert(messages_view(out@) + Seq::<MessageView>::empty() =~= messages_view(out@));
    }
    Ok(out)
}

/// Decodes the conversation subset of a request-shaped tree.
pub fn decode_conversation(v: &JsonValue) -> (r: Result<Vec<ChatMessage>, DecodeError>)
    ensures
        (match r {
            Ok(v2) => Ok::<Seq<MessageView>, DecodeError>(messages_view(v2@)),
            Err(e) => Err(e),
        }) == spec_decode_conversation(*v),
{
    match v {
        JsonValue::Obj(f) => match lookup(f, "messages") {
            None => Err(DecodeError::MissingField),
            Some(JsonValue::Arr(a)) => decode_messages(a),
            Some(_) => Err(DecodeError::WrongType),
        },
        _ => Err(DecodeError::NotObject),
    }
}

/// Decodes the conversation subset of a request text.
pub fn decode_conversation_text(s: &str) -> (r: Result<Vec<ChatMessage>, DecodeError>)
    ensures
        (match r {
            Ok(v2) => Ok::<Seq<MessageView>, DecodeError>(messages_view(v2@)),
            Err(e) => Err(e),
        }) == spec_decode_conversation_text(s@),
{
    match parse_json(s) {
        None => Err(DecodeError::Syntax),
        Some(v) => decode_conversation(&v),
    }
}

/// Decodes the structured error body of a non-success status from its text.
pub fn decode_error_text(s: &str) -> (r: Result<ChatError, DecodeError>)
    ensures
        error_res_view(r) == spec_decode_error_text(s@),
{
    let v = match parse_json(s) {
        None => {
            return Err(DecodeError::Syntax);
        },
        Some(v) => v,
    };
    match &v {
        JsonValue::Obj(f) => match lookup(f, "error") {
            None => Err(DecodeError::MissingField),
            Some(JsonValue::Obj(g)) => {
                let message = match get_req_string(g, "message") {
                    Ok(s) => s,
                    Err(e) => {
                        return Err(e);
                    },
                };
                let error_type = match get_req_string(g, "type") {
                    Ok(s) => s,
                    Err(e) => {
                        return Err(e);
                    },
                };
                let param = match get_opt_string(g, "param") {
                    Ok(p) => p,
                    Err(e) => {
                        return Err(e);
                    },
                };
                let code = match get_opt_string(g, "code") {
                    Ok(c) => c,
                    Err(e) => {
                        return Err(e);
                    },
                };
                Ok(ChatError { error: ChatErrorDetails { message, error_type, param, code } })
            },
            Some(_) => Err(DecodeError::WrongType),
        },
        _ => Err(DecodeError::NotObject),
    }
}

} // verus!
