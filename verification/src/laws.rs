//! Round-trip laws for the conversation. The serializer writes each message
//! with a `role` keyword, a `content` string or null, and the optional
//! `tool_calls` and `tool_call_id` fields; the predicates here state exactly
//! that shape of a parsed tree, field by field, and the lemmas prove that
//! the decoders recover the original messages from any tree of that shape —
//! whatever order the parser returns the object's fields in.

use vstd::prelude::*;

use crate::de::DecodeError;
use crate::de::spec_decode_conversation;
use crate::de::spec_decode_message;
use crate::de::spec_decode_messages;
use crate::de::spec_decode_role;
use crate::de::spec_decode_tool_call;
use crate::de::spec_decode_tool_calls;
use crate::de::spec_opt_string;
use crate::de::spec_opt_tool_calls;
use crate::de::spec_present;
use crate::json::JsonValue;
use crate::json::spec_lookup;
use crate::messages::ChatRole;
use crate::messages::MessageView;
use crate::messages::ToolCallView;
use crate::messages::ToolType;

verus! {

/// The wire keyword of a role.
pub open spec fn spec_role_keyword(r: ChatRole) -> Seq<char> {
    match r {
        ChatRole::System => "system"@,
        ChatRole::User => "user"@,
        ChatRole::Assistant => "assistant"@,
        ChatRole::Tool => "tool"@,
    }
}

/// The field `k` of `f` holds the string `v`.
pub open spec fn is_string_field(f: Seq<(String, JsonValue)>, k: Seq<char>, v: Seq<char>) -> bool {
    spec_lookup(f, k) matches Some(JsonValue::Str(s)) && s@ == v
}

/// The field `k` of `f` is absent or null.
pub open spec fn is_absent_field(f: Seq<(String, JsonValue)>, k: Seq<char>) -> bool {
    spec_present(spec_lookup(f, k)) is None
}

/// `v` is the tree of one serialized tool call.
pub open spec fn is_tool_call_tree(v: JsonValue, tc: ToolCallView) -> bool {
    &&& v matches JsonValue::Obj(f) && {
        &&& is_string_field(f@, "id"@, tc.id)
        &&& spec_lookup(f@, "type"@) matches Some(JsonValue::Str(t)) && t@ == "function"@
        &&& spec_lookup(f@, "function"@) matches Some(JsonValue::Obj(g)) && {
            &&& is_string_field(g@, "name"@, tc.function.name)
            &&& is_string_field(g@, "arguments"@, tc.function.arguments)
        }
    }
    &&& tc.tool_type == ToolType::Function
}

/// `v` is the tree of one serialized message: the role keyword, the content
/// string or null, and the two optional fields exactly when the message has
/// them.
pub open spec fn is_message_tree(v: JsonValue, m: MessageView) -> bool {
    v matches JsonValue::Obj(f) && {
        &&& spec_lookup(f@, "role"@) matches Some(JsonValue::Str(s)) && s@ == spec_role_keyword(
            m.role,
        )
        &&& match m.content {
            Some(c) => is_string_field(f@, "content"@, c),
            None => is_absent_field(f@, "content"@),
        }
        &&& match m.tool_calls {
            Some(tcs) => spec_lookup(f@, "tool_calls"@) matches Some(JsonValue::Arr(a)) && {
                &&& a@.len() == tcs.len()
                &&& forall|i: int| 0 <= i < tcs.len() ==> is_tool_call_tree(a@[i], tcs[i])
            },
            None => is_absent_field(f@, "tool_calls"@),
        }
        &&& match m.tool_call_id {
            Some(id) => is_string_field(f@, "tool_call_id"@, id),
            None => is_absent_field(f@, "tool_call_id"@),
        }
    }
}

/// `v` is the tree of a serialized request as far as its conversation goes:
/// an object whose `messages` field is the array of the message trees.
pub open spec fn is_conversation_tree(v: JsonValue, msgs: Seq<MessageView>) -> bool {
    v matches JsonValue::Obj(f) && spec_lookup(f@, "messages"@) matches Some(JsonValue::Arr(a)) && {
        &&& a@.len() == msgs.len()
        &&& forall|i: int| 0 <= i < msgs.len() ==> is_message_tree(a@[i], msgs[i])
    }
}

/// Decoding inverts serialization for one tool call.
pub proof fn lemma_tool_call_round_trip(v: JsonValue, tc: ToolCallView)
    requires
        is_tool_call_tree(v, tc),
    ensures
        spec_decode_tool_call(v) == Ok::<ToolCallView, DecodeError>(tc),
{
    let decoded = spec_decode_tool_call(v)->Ok_0;
    assert(decoded =~= tc);
}

/// Decoding inverts serialization for a whole tool-call array.
pub proof fn lemma_tool_calls_round_trip(a: Seq<JsonValue>, tcs: Seq<ToolCallView>)
    requires
        a.len() == tcs.len(),
        forall|i: int| 0 <= i < tcs.len() ==> is_tool_call_tree(a[i], tcs[i]),
    ensures
        spec_decode_tool_calls(a) == Ok::<Seq<ToolCallView>, DecodeError>(tcs),
    decreases a.len(),
{
    if a.len() == 0 {
        assert(tcs =~= Seq::<ToolCallView>::empty());
    } else {
        lemma_tool_call_round_trip(a[0], tcs[0]);
        assert forall|i: int| 0 <= i < tcs.drop_first().len() implies is_tool_call_tree(
            a.drop_first()[i],
            tcs.drop_first()[i],
        ) by {
            assert(a.drop_first()[i] == a[i + 1]);
            assert(tcs.drop_first()[i] == tcs[i + 1]);
        }
        lemma_tool_calls_round_trip(a.drop_first(), tcs.drop_first());
        assert(seq![tcs[0]] + tcs.drop_first() =~= tcs);
    }
}

/// Decoding inverts serialization for one message, tool calls and the
/// correlation identifier included.
pub proof fn lemma_message_round_trip(v: JsonValue, m: MessageView)
    requires
        is_message_tree(v, m),
    ensures
        spec_decode_message(v) == Ok::<MessageView, DecodeError>(m),
{
    reveal_strlit("system");
    reveal_strlit("user");
    reveal_strlit("assistant");
    reveal_strlit("tool");
    assert("user"@ != "tool"@) by {
        assert("user"@[0] == 'u');
        assert("tool"@[0] == 't');
    }
    assert("system"@.len() == 6);
    assert("user"@.len() == 4);
    assert("assistant"@.len() == 9);
    assert("tool"@.len() == 4);
    let f = v->Obj_0;
    let rv = spec_lookup(f@, "role"@)->Some_0;
    let s = rv->Str_0;
    assert(spec_decode_role(rv) == Ok::<ChatRole, DecodeError>(m.role)) by {
        match m.role {
            ChatRole::System => {
                assert(s@ == "system"@);
            },
            ChatRole::User => {
                assert(s@ == "user"@);
            },
            ChatRole::Assistant => {
                assert(s@ == "assistant"@);
            },
            ChatRole::Tool => {
                assert(s@ == "tool"@);
                assert(s@ != "system"@);
                assert(s@ != "user"@);
                assert(s@ != "assistant"@);
            },
        }
    }
    assert(spec_opt_string(spec_lookup(f@, "content"@)) == Ok::<Option<Seq<char>>, DecodeError>(
        m.content,
    )) by {
        match m.content {
            Some(c) => {},
            None => {
                match spec_lookup(f@, "content"@) {
                    None => {},
                    Some(JsonValue::Null) => {},
                    _ => {
                        assert(false);
                    },
                }
            },
        }
    }
    assert(spec_opt_tool_calls(spec_lookup(f@, "tool_calls"@)) == Ok::<
        Option<Seq<ToolCallView>>,
        DecodeError,
    >(m.tool_calls)) by {
        match m.tool_calls {
            Some(tcs) => {
                let a = spec_lookup(f@, "tool_calls"@)->Some_0->Arr_0;
                lemma_tool_calls_round_trip(a@, tcs);
            },
            None => {
                match spec_lookup(f@, "tool_calls"@) {
                    None => {},
                    Some(JsonValue::Null) => {},
                    _ => {
                        assert(false);
                    },
                }
            },
        }
    }
    assert(spec_opt_string(spec_lookup(f@, "tool_call_id"@)) == Ok::<
        Option<Seq<char>>,
        DecodeError,
    >(m.tool_call_id)) by {
        match m.tool_call_id {
            Some(id) => {},
            None => {
                match spec_lookup(f@, "tool_call_id"@) {
                    None => {},
                    Some(JsonValue::Null) => {},
                    _ => {
                        assert(false);
                    },
                }
            },
        }
    }
    let decoded = spec_decode_message(v)->Ok_0;
    assert(decoded =~= m);
}

/// Decoding inverts serialization for a whole message array.
pub proof fn lemma_messages_round_trip(a: Seq<JsonValue>, msgs: Seq<MessageView>)
    requires
        a.len() == msgs.len(),
        forall|i: int| 0 <= i < msgs.len() ==> is_message_tree(a[i], msgs[i]),
    ensures
        spec_decode_messages(a) == Ok::<Seq<MessageView>, DecodeError>(msgs),
    decreases a.len(),
{
    if a.len() == 0 {
        assert(msgs =~= Seq::<MessageView>::empty());
    } else {
        lemma_message_round_trip(a[0], msgs[0]);
        assert forall|i: int| 0 <= i < msgs.drop_first().len() implies is_message_tree(
            a.drop_first()[i],
            msgs.drop_first()[i],
        ) by {
            assert(a.drop_first()[i] == a[i + 1]);
            assert(msgs.drop_first()[i] == msgs[i + 1]);
        }
        lemma_messages_round_trip(a.drop_first(), msgs.drop_first());
        assert(seq![msgs[0]] + msgs.drop_first() =~= msgs);
    }
}

/// The conversation round trip: any parsed tree that presents a serialized
/// request's `messages` field decodes back to exactly the original ordered
/// message sequence.
pub proof fn lemma_conversation_round_trip(v: JsonValue, msgs: Seq<MessageView>)
    requires
        is_conversation_tree(v, msgs),
    ensures
        spec_decode_conversation(v) == Ok::<Seq<MessageView>, DecodeError>(msgs),
{
    let f = v->Obj_0;
    let a = spec_lookup(f@, "messages"@)->Some_0->Arr_0;
    lemma_messages_round_trip(a@, msgs);
}

} // verus!
