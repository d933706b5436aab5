use alfred_core::config_message::ConfigMessage;
use alfred_core::message::{Message, MessageType};

fn base_message() -> Message {
    Message {
        message_type: MessageType::Unknown,
        params: vec![("k".to_string(), "v".to_string())],
        response_topics: vec!["r1".to_string()],
        sender: "s".to_string(),
        text: "orig".to_string(),
    }
}

#[test]
fn template_text_override_keeps_the_rest() {
    let template = ConfigMessage {
        text: Some("T".to_string()),
        response_topics: None,
        sender: None,
        message_type: None,
    };
    let generated = template.generate_message(&base_message());
    assert_eq!(generated.text, "T");
    assert_eq!(generated.sender, "s");
    assert_eq!(generated.params, vec![("k".to_string(), "v".to_string())]);
    assert_eq!(generated.response_topics, vec!["r1".to_string()]);
    assert_eq!(generated.message_type, MessageType::Unknown);
}

#[test]
fn template_with_no_overrides_returns_the_base() {
    let template = ConfigMessage::none();
    let base = base_message();
    let generated = template.generate_message(&base);
    assert_eq!(generated, base);
}

#[test]
fn template_full_override_keeps_only_the_params() {
    let template = ConfigMessage {
        text: Some("new text".to_string()),
        response_topics: Some(vec!["other".to_string()]),
        sender: Some("them".to_string()),
        message_type: Some(MessageType::Photo),
    };
    let generated = template.generate_message(&base_message());
    assert_eq!(generated.text, "new text");
    assert_eq!(generated.sender, "them");
    assert_eq!(generated.response_topics, vec!["other".to_string()]);
    assert_eq!(generated.message_type, MessageType::Photo);
    // The params always come from the base; a template never supplies them.
    assert_eq!(generated.params, vec![("k".to_string(), "v".to_string())]);
}
