use groq_client::chat::Chat;
use groq_client::messages::ChatMessage;
use groq_client::messages::ChatRole;
use groq_client::request::ChatResponseFormat;
use groq_client::request::ChatServiceTier;

fn fresh() -> Chat {
    Chat::new("key".to_string(), "model-a".to_string())
}

fn msg(text: &str) -> ChatMessage {
    ChatMessage::new(ChatRole::User, text, None)
}

#[test]
fn new_chat_defaults() {
    let chat = fresh();
    assert_eq!(chat.get_api_url(), "https://api.groq.com/openai/v1/chat/completions");
    assert_eq!(chat.get_api_key(), "key");
    assert_eq!(chat.get_model(), "model-a");
    assert_eq!(chat.number_of_chat_messages(), 0);
    assert_eq!(chat.get_temperature(), 1000);
    assert_eq!(chat.get_top_p(), 1000);
    assert_eq!(chat.get_frequency_penalty(), 0);
    assert_eq!(chat.get_presence_penalty(), 0);
}

#[test]
fn temperature_setter_in_range() {
    let mut chat = fresh();
    for v in [0u32, 1, 999, 1000, 1500, 2000] {
        assert!(chat.set_temperature(v).is_ok());
        assert_eq!(chat.get_temperature(), v);
    }
}

#[test]
fn temperature_setter_out_of_range() {
    let mut chat = fresh();
    chat.set_temperature(700).unwrap();
    let r = chat.set_temperature(2001);
    assert_eq!(r.unwrap_err(), "Temperature must be between 0.0 and 2.0");
    assert_eq!(chat.get_temperature(), 700);
}

#[test]
fn top_p_setter_in_range() {
    let mut chat = fresh();
    for v in [0u32, 1, 500, 1000] {
        assert!(chat.set_top_p(v).is_ok());
        assert_eq!(chat.get_top_p(), v);
    }
}

#[test]
fn top_p_setter_out_of_range() {
    let mut chat = fresh();
    chat.set_top_p(250).unwrap();
    let r = chat.set_top_p(1001);
    assert_eq!(r.unwrap_err(), "Top P must be between 0.0 and 1.0");
    assert_eq!(chat.get_top_p(), 250);
}

#[test]
fn frequency_penalty_setter() {
    let mut chat = fresh();
    for v in [-2000i32, -1, 0, 1, 2000] {
        assert!(chat.set_frequency_penalty(v).is_ok());
        assert_eq!(chat.get_frequency_penalty(), v);
    }
    chat.set_frequency_penalty(-1250).unwrap();
    for v in [-2001i32, 2001, i32::MIN, i32::MAX] {
        let r = chat.set_frequency_penalty(v);
        assert_eq!(r.unwrap_err(), "Frequency penalty must be between -2.0 and 2.0");
        assert_eq!(chat.get_frequency_penalty(), -1250);
    }
}

#[test]
fn presence_penalty_setter() {
    let mut chat = fresh();
    for v in [-2000i32, 0, 2000] {
        assert!(chat.set_presence_penalty(v).is_ok());
        assert_eq!(chat.get_presence_penalty(), v);
    }
    chat.set_presence_penalty(300).unwrap();
    let r = chat.set_presence_penalty(-2001);
    assert_eq!(r.unwrap_err(), "Presence penalty must be between -2.0 and 2.0");
    assert_eq!(chat.get_presence_penalty(), 300);
}

#[test]
fn append_then_remove_last_n() {
    let mut chat = fresh();
    for i in 0..5 {
        chat.add_chat_message(msg(&format!("m{}", i)));
    }
    chat.remove_last_n_chat_messages(2);
    assert_eq!(chat.number_of_chat_messages(), 3);
    let kept = chat.get_chat_messages();
    for (i, m) in kept.iter().enumerate() {
        assert_eq!(m.content.as_deref(), Some(format!("m{}", i).as_str()));
    }
}

#[test]
fn remove_last_n_clamps_to_empty() {
    let mut chat = fresh();
    chat.add_chat_message(msg("a"));
    chat.add_chat_message(msg("b"));
    chat.remove_last_n_chat_messages(7);
    assert_eq!(chat.number_of_chat_messages(), 0);
}

#[test]
fn remove_first_n_keeps_suffix_in_order() {
    let mut chat = fresh();
    for i in 0..5 {
        chat.add_chat_message(msg(&format!("m{}", i)));
    }
    chat.remove_first_n_chat_messages(2);
    let kept = chat.get_chat_messages();
    assert_eq!(kept.len(), 3);
    for (i, m) in kept.iter().enumerate() {
        assert_eq!(m.content.as_deref(), Some(format!("m{}", i + 2).as_str()));
    }
}

#[test]
fn remove_first_n_clamps_to_empty() {
    let mut chat = fresh();
    chat.add_chat_message(msg("a"));
    chat.remove_first_n_chat_messages(10);
    assert_eq!(chat.number_of_chat_messages(), 0);
}

#[test]
fn remove_single_ends() {
    let mut chat = fresh();
    chat.add_chat_message(msg("a"));
    chat.add_chat_message(msg("b"));
    chat.add_chat_message(msg("c"));
    chat.remove_last_chat_message();
    chat.remove_first_chat_message();
    let kept = chat.get_chat_messages();
    assert_eq!(kept.len(), 1);
    assert_eq!(kept[0].content.as_deref(), Some("b"));
    chat.remove_first_chat_message();
    chat.remove_first_chat_message();
    chat.remove_last_chat_message();
    assert_eq!(chat.number_of_chat_messages(), 0);
}

#[test]
fn set_and_clear_messages() {
    let mut chat = fresh();
    chat.set_chat_messages(vec![msg("x"), msg("y")]);
    assert_eq!(chat.number_of_chat_messages(), 2);
    chat.clear_chat_messages();
    assert_eq!(chat.number_of_chat_messages(), 0);
}

#[test]
fn response_format_to_string() {
    assert_eq!(ChatResponseFormat::JsonObject.to_string(), "{ \"type\": \"json_object\" }");
    assert_eq!(ChatResponseFormat::JsonArray.to_string(), "{ \"type\": \"json_array\" }");
    assert_eq!(ChatResponseFormat::Text.to_string(), "{ \"type\": \"text\" }");
}

#[test]
fn service_tier_to_string() {
    assert_eq!(ChatServiceTier::OnDemand.to_string(), "on_demand");
    assert_eq!(ChatServiceTier::Auto.to_string(), "auto");
    assert_eq!(ChatServiceTier::Flex.to_string(), "flex");
}

#[test]
fn api_url_override() {
    let mut chat = fresh();
    chat.set_api_url("http://localhost:9000/v1/chat".to_string());
    assert_eq!(chat.get_api_url(), "http://localhost:9000/v1/chat");
}
