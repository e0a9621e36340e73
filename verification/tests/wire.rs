use groq_client::chat::Chat;
use groq_client::de::decode_conversation_text;
use groq_client::messages::ChatMessage;
use groq_client::messages::ChatRole;
use groq_client::messages::ToolCall;
use groq_client::messages::ToolCallFunction;
use groq_client::messages::ToolType;
use groq_client::request::ChatResponseFormat;
use groq_client::request::ChatServiceTier;
use groq_client::request::Function;
use groq_client::request::Tool;
use groq_client::request::ToolChoice;
use groq_client::request::ToolChoiceObject;
use groq_client::request::ToolChoiceValue;
use groq_client::request::ToolFunction;

#[test]
fn default_body_exact() {
    let mut chat = Chat::new("key".to_string(), "m".to_string());
    chat.add_chat_message(ChatMessage::new(ChatRole::User, "hi", None));
    let body = chat.request_body(false);
    assert_eq!(
        body,
        "{\"model\":\"m\",\"messages\":[{\"role\":\"user\",\"content\":\"hi\"}],\
         \"frequency_penalty\":0.000,\"parallel_tool_calls\":true,\"presence_penalty\":0.000,\
         \"stream\":false,\"temperature\":1.000,\"top_p\":1.000}"
    );
}

#[test]
fn full_body_exact() {
    let mut chat = Chat::new("key".to_string(), "m2".to_string());
    chat.set_frequency_penalty(-1250).unwrap();
    chat.set_presence_penalty(2000).unwrap();
    chat.set_temperature(750).unwrap();
    chat.set_top_p(250).unwrap();
    chat.set_max_completion_tokens(512);
    chat.set_seed(42);
    chat.set_reasoning_format("raw");
    chat.set_response_format(ChatResponseFormat::JsonObject);
    chat.set_service_tier(ChatServiceTier::Auto);
    chat.set_tool_choice(ToolChoice::Value(ToolChoiceValue::Required));
    chat.add_tool(Tool {
        function: Function {
            description: Some("d".to_string()),
            name: Some("f".to_string()),
            parameters: Some("{\"type\":\"object\"}".to_string()),
        },
        tool_type: ToolType::Function,
    });
    let body = chat.request_body(true);
    assert_eq!(
        body,
        "{\"model\":\"m2\",\"messages\":[],\"frequency_penalty\":-1.250,\
         \"max_completion_tokens\":512,\"parallel_tool_calls\":true,\"presence_penalty\":2.000,\
         \"reasoning_format\":\"raw\",\"response_format\":\"JsonObject\",\"seed\":42,\
         \"service_tier\":\"Auto\",\"stream\":true,\"temperature\":0.750,\"top_p\":0.250,\
         \"tool_choice\":\"required\",\"tools\":[{\"function\":{\"description\":\"d\",\
         \"name\":\"f\",\"parameters\":{\"type\":\"object\"}},\"type\":\"function\"}]}"
    );
}

#[test]
fn forced_tool_choice_object() {
    let mut chat = Chat::new("key".to_string(), "m".to_string());
    chat.set_tool_choice(ToolChoice::Object(ToolChoiceObject {
        tool_type: ToolType::Function,
        function: ToolFunction { name: Some("pick_me".to_string()) },
    }));
    let body = chat.request_body(false);
    assert!(body.contains(
        "\"tool_choice\":{\"type\":\"function\",\"function\":{\"name\":\"pick_me\"}}"
    ));
    chat.set_tool_choice(ToolChoice::Value(ToolChoiceValue::Disabled));
    assert!(chat.request_body(false).contains("\"tool_choice\":\"none\""));
    chat.set_tool_choice(ToolChoice::Value(ToolChoiceValue::Auto));
    assert!(chat.request_body(false).contains("\"tool_choice\":\"auto\""));
}

#[test]
fn escaping_in_content() {
    let mut chat = Chat::new("key".to_string(), "m".to_string());
    chat.add_chat_message(ChatMessage::new(ChatRole::User, "say \"hi\"\\\n\t", None));
    let body = chat.request_body(false);
    assert!(body.contains("\"content\":\"say \\\"hi\\\"\\\\\\n\\t\""));
}

#[test]
fn conversation_round_trip_through_text() {
    let mut chat = Chat::new("key".to_string(), "m".to_string());
    chat.add_chat_message(ChatMessage::new(ChatRole::System, "be concise", None));
    chat.add_chat_message(ChatMessage::new(ChatRole::User, "weird \"text\" \\ with\nbreaks", None));
    chat.add_chat_message(ChatMessage {
        role: ChatRole::Assistant,
        content: None,
        tool_calls: Some(vec![ToolCall {
            id: "call_1".to_string(),
            tool_type: ToolType::Function,
            function: ToolCallFunction {
                name: "lookup".to_string(),
                arguments: "{\"q\":\"x\"}".to_string(),
            },
        }]),
        tool_call_id: None,
    });
    chat.add_chat_message(ChatMessage::new(ChatRole::Tool, "result", Some("call_1".to_string())));
    let body = chat.request_body(false);
    let decoded = decode_conversation_text(&body).expect("conversation must decode");
    assert_eq!(decoded, chat.get_chat_messages());
}

#[test]
fn duplicate_tool_names_are_kept() {
    let mut chat = Chat::new("key".to_string(), "m".to_string());
    let tool = Tool {
        function: Function {
            description: None,
            name: Some("twin".to_string()),
            parameters: None,
        },
        tool_type: ToolType::Function,
    };
    chat.add_tool(tool.clone());
    chat.add_tool(tool);
    let body = chat.request_body(false);
    assert_eq!(body.matches("\"name\":\"twin\"").count(), 2);
    chat.clear_tools();
    assert!(!chat.request_body(false).contains("\"tools\""));
}

#[test]
fn negative_and_zero_milli_rendering() {
    let mut chat = Chat::new("key".to_string(), "m".to_string());
    chat.set_frequency_penalty(-1).unwrap();
    chat.set_presence_penalty(-2000).unwrap();
    chat.set_temperature(0).unwrap();
    let body = chat.request_body(false);
    assert!(body.contains("\"frequency_penalty\":-0.001"));
    assert!(body.contains("\"presence_penalty\":-2.000"));
    assert!(body.contains("\"temperature\":0.000"));
}
