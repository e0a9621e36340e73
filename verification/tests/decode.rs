use groq_client::de::DecodeError;
use groq_client::de::decode_choice;
use groq_client::de::decode_response_text;
use groq_client::json::parse_json;
use groq_client::messages::ChatRole;
use groq_client::protocol::ChatFailure;
use groq_client::protocol::StreamStep;
use groq_client::protocol::decode_lines;
use groq_client::protocol::interpret_response;
use groq_client::protocol::step_line;

fn frame(content: &str) -> String {
    format!(
        "{{\"id\":\"1\",\"object\":\"chat.completion.chunk\",\"created\":1,\"model\":\"m\",\
         \"choices\":[{{\"index\":0,\"delta\":{{\"role\":\"assistant\",\"content\":\"{}\"}}}}],\
         \"system_fingerprint\":\"fp\",\"x_groq\":{{\"id\":\"req_1\"}}}}",
        content
    )
}

#[test]
fn unify_delta_shape() {
    let v = parse_json(
        "{\"index\":0,\"delta\":{\"role\":\"assistant\",\"content\":\"hi\"},\
         \"logprobs\":null,\"finish_reason\":null}",
    )
    .unwrap();
    let c = decode_choice(&v).unwrap();
    assert_eq!(c.index, 0);
    assert_eq!(c.message.role, ChatRole::Assistant);
    assert_eq!(c.message.content.as_deref(), Some("hi"));
    assert!(c.message.tool_calls.is_none());
    assert!(c.message.tool_call_id.is_none());
    assert!(c.logprobs.is_none());
    assert!(c.finish_reason.is_none());
}

#[test]
fn unify_message_shape_gives_same_message() {
    let d = parse_json(
        "{\"index\":0,\"delta\":{\"role\":\"assistant\",\"content\":\"hi\"},\
         \"logprobs\":null,\"finish_reason\":null}",
    )
    .unwrap();
    let m = parse_json(
        "{\"index\":0,\"message\":{\"role\":\"assistant\",\"content\":\"hi\"},\
         \"logprobs\":null,\"finish_reason\":null}",
    )
    .unwrap();
    let from_delta = decode_choice(&d).unwrap();
    let from_message = decode_choice(&m).unwrap();
    assert_eq!(from_delta.message, from_message.message);
}

#[test]
fn unify_neither_field_fails() {
    let v = parse_json("{\"index\":0,\"logprobs\":null,\"finish_reason\":null}").unwrap();
    assert_eq!(decode_choice(&v).unwrap_err(), DecodeError::MissingDeltaOrMessage);
    let null_both = parse_json("{\"index\":0,\"delta\":null,\"message\":null}").unwrap();
    assert_eq!(decode_choice(&null_both).unwrap_err(), DecodeError::MissingDeltaOrMessage);
}

#[test]
fn streaming_framing_stops_at_sentinel() {
    let lines = vec![
        format!("data: {}", frame("hi")),
        "".to_string(),
        "data: [DONE]".to_string(),
        format!("data: {}", frame("never")),
    ];
    let items = decode_lines(&lines);
    assert_eq!(items.len(), 1);
    let only = items[0].as_ref().unwrap();
    assert_eq!(only.choices[0].message.content.as_deref(), Some("hi"));
}

#[test]
fn step_line_cases() {
    assert_eq!(step_line("   "), StreamStep::Skip);
    assert_eq!(step_line(""), StreamStep::Skip);
    assert_eq!(step_line("[DONE]"), StreamStep::Done);
    assert_eq!(step_line("data:[DONE]"), StreamStep::Done);
    assert_eq!(step_line("  data:   [DONE]  "), StreamStep::Done);
    match step_line("data: data") {
        StreamStep::Item(Err(DecodeError::Syntax)) => {},
        other => panic!("expected a syntax-error item, got {:?}", other),
    }
    match step_line(&frame("bare")) {
        StreamStep::Item(Ok(r)) => {
            assert_eq!(r.choices[0].message.content.as_deref(), Some("bare"));
        },
        other => panic!("expected a decoded item, got {:?}", other),
    }
}

#[test]
fn error_path_http_400() {
    let body = "{\"error\":{\"message\":\"bad request\",\"type\":\"invalid_request_error\",\
                \"param\":null,\"code\":null}}";
    match interpret_response(400, body) {
        Err(ChatFailure::Service(e)) => {
            assert_eq!(e.error.message, "bad request");
            assert_eq!(e.error.error_type, "invalid_request_error");
            assert!(e.error.param.is_none());
            assert!(e.error.code.is_none());
            assert_eq!(e.to_text(), "Chat error: bad request");
        },
        other => panic!("expected a service failure, got {:?}", other),
    }
}

#[test]
fn error_body_that_does_not_decode() {
    match interpret_response(404, "nope") {
        Err(ChatFailure::ErrorBody(DecodeError::Syntax)) => {},
        other => panic!("expected an error-body failure, got {:?}", other),
    }
    match interpret_response(422, "{\"error\":{\"type\":\"t\"}}") {
        Err(ChatFailure::ErrorBody(DecodeError::MissingField)) => {},
        other => panic!("expected a missing-field failure, got {:?}", other),
    }
}

#[test]
fn success_status_with_bad_payload() {
    match interpret_response(200, "{") {
        Err(ChatFailure::Payload(DecodeError::Syntax)) => {},
        other => panic!("expected a payload failure, got {:?}", other),
    }
    match interpret_response(500, "{}") {
        Err(ChatFailure::Payload(DecodeError::MissingField)) => {},
        other => panic!("expected a payload failure, got {:?}", other),
    }
}

#[test]
fn buffered_response_with_usage() {
    let body = "{\"id\":\"cmpl\",\"object\":\"chat.completion\",\"created\":1714000000,\
         \"model\":\"m\",\"choices\":[{\"index\":0,\"message\":{\"role\":\"assistant\",\
         \"content\":\"ok\"},\"logprobs\":null,\"finish_reason\":\"stop\"}],\
         \"usage\":{\"queue_time\":0.117,\"prompt_tokens\":10,\"prompt_time\":0,\
         \"completion_tokens\":20,\"completion_time\":1.25,\"total_tokens\":30,\
         \"total_time\":2},\"system_fingerprint\":\"fp\",\"x_groq\":{\"id\":\"req\"}}";
    let r = interpret_response(200, body).unwrap();
    assert_eq!(r.id, "cmpl");
    assert_eq!(r.created, 1714000000);
    assert_eq!(r.choices.len(), 1);
    assert_eq!(r.choices[0].finish_reason.as_deref(), Some("stop"));
    let u = r.usage.unwrap();
    assert_eq!(u.queue_time, "0.117");
    assert_eq!(u.prompt_tokens, 10);
    assert_eq!(u.prompt_time, "0");
    assert_eq!(u.completion_tokens, 20);
    assert_eq!(u.completion_time, "1.25");
    assert_eq!(u.total_tokens, 30);
    assert_eq!(u.total_time, "2");
}

#[test]
fn tool_calls_survive_decode_in_order() {
    let body = "{\"id\":\"1\",\"object\":\"c\",\"created\":1,\"model\":\"m\",\
         \"choices\":[{\"index\":0,\"message\":{\"role\":\"assistant\",\"content\":null,\
         \"tool_calls\":[{\"id\":\"call_a\",\"type\":\"function\",\"function\":\
         {\"name\":\"fa\",\"arguments\":\"{}\"}},{\"id\":\"call_b\",\"type\":\"function\",\
         \"function\":{\"name\":\"fb\",\"arguments\":\"{\\\"x\\\":1}\"}}]}}],\
         \"system_fingerprint\":\"fp\",\"x_groq\":{\"id\":\"r\"}}";
    let r = decode_response_text(body).unwrap();
    let tcs = r.choices[0].message.tool_calls.as_ref().unwrap();
    assert_eq!(tcs.len(), 2);
    assert_eq!(tcs[0].id, "call_a");
    assert_eq!(tcs[0].function.name, "fa");
    assert_eq!(tcs[1].id, "call_b");
    assert_eq!(tcs[1].function.arguments, "{\"x\":1}");
    assert!(r.choices[0].message.content.is_none());
}

#[test]
fn response_decode_error_kinds() {
    assert_eq!(decode_response_text("data").unwrap_err(), DecodeError::Syntax);
    assert_eq!(decode_response_text("[1]").unwrap_err(), DecodeError::NotObject);
    assert_eq!(decode_response_text("{}").unwrap_err(), DecodeError::MissingField);
    let wrong_created = "{\"id\":\"1\",\"object\":\"c\",\"created\":\"x\",\"model\":\"m\",\
         \"choices\":[],\"system_fingerprint\":\"fp\",\"x_groq\":{\"id\":\"r\"}}";
    assert_eq!(decode_response_text(wrong_created).unwrap_err(), DecodeError::WrongType);
    let empty_choices = "{\"id\":\"1\",\"object\":\"c\",\"created\":1,\"model\":\"m\",\
         \"choices\":[],\"system_fingerprint\":\"fp\",\"x_groq\":{\"id\":\"r\"}}";
    assert_eq!(decode_response_text(empty_choices).unwrap_err(), DecodeError::EmptyChoices);
}

#[test]
fn bad_role_is_rejected() {
    let v = parse_json(
        "{\"index\":0,\"delta\":{\"role\":\"robot\",\"content\":\"hi\"}}",
    )
    .unwrap();
    assert_eq!(decode_choice(&v).unwrap_err(), DecodeError::WrongType);
}
