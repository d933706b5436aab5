use alfred_core::error::{Error, MessageCompressionError};
use alfred_core::message::{Message, MessageType};

const SEP: char = '\u{0}';

fn sample_message() -> Message {
    Message {
        message_type: MessageType::Text,
        params: vec![
            ("par1".to_string(), "val1".to_string()),
            ("par2".to_string(), "val2".to_string()),
        ],
        response_topics: vec!["module.response".to_string(), "other.module".to_string()],
        sender: "0123".to_string(),
        text: "data".to_string(),
    }
}

#[test]
fn compress_exact_layout() {
    let message = sample_message();
    let compressed = message.compress();
    let expected_message_type = '\u{1}';
    let expected_num_params = '\u{2}';
    let expected_num_responses = '\u{2}';
    let expected = format!(
        "{expected_message_type}{expected_num_params}{expected_num_responses}par1{SEP}val1{SEP}par2{SEP}val2{SEP}module.response{SEP}other.module{SEP}0123{SEP}data"
    );
    assert_eq!(compressed, expected);
}

#[test]
fn decompress_exact_layout() {
    let compressed = format!(
        "{}{}{}par1{SEP}val1{SEP}par2{SEP}val2{SEP}module.response{SEP}other.module{SEP}0123{SEP}data",
        '\u{1}', '\u{2}', '\u{2}'
    );
    let decompressed = Message::decompress(compressed.as_str());
    assert!(decompressed.is_ok());
    assert_eq!(sample_message(), decompressed.unwrap());
}

#[test]
fn round_trip_sample() {
    let message = sample_message();
    let result = Message::decompress(message.compress().as_str()).unwrap();
    assert_eq!(message, result);
}

#[test]
fn round_trip_text_with_separator() {
    let mut message = sample_message();
    message.text = format!("first{SEP}second{SEP}");
    let result = Message::decompress(message.compress().as_str()).unwrap();
    assert_eq!(message, result);
}

#[test]
fn round_trip_no_params() {
    let mut message = sample_message();
    message.params = vec![];
    let result = Message::decompress(message.compress().as_str()).unwrap();
    assert_eq!(message, result);
}

#[test]
fn round_trip_empty_strings() {
    let message = Message {
        message_type: MessageType::ModuleInfo,
        params: vec![(String::new(), String::new())],
        response_topics: vec![String::new()],
        sender: String::new(),
        text: String::new(),
    };
    let result = Message::decompress(message.compress().as_str()).unwrap();
    assert_eq!(message, result);
}

#[test]
fn zero_topics_shift_the_sender_on_decode() {
    // With no response topic, the empty topic join and the following
    // separator leave a stray empty token, so the decoded sender is empty
    // and the sender slides into the text.
    let mut message = sample_message();
    message.response_topics = vec![];
    message.params = vec![];
    let result = Message::decompress(message.compress().as_str()).unwrap();
    assert_eq!(result.sender, "");
    assert_eq!(result.text, format!("0123{SEP}data"));
}

#[test]
fn decompress_unknown_type_code_fails() {
    let mut compressed = sample_message().compress();
    compressed.replace_range(0..1, "\u{7}");
    let result = Message::decompress(compressed.as_str());
    match result {
        Err(MessageCompressionError::MessageType(code)) => {
            assert_eq!(code, "\u{7} is not a valid MessageType.");
        },
        other => panic!("expected a MessageType error, got {other:?}"),
    }
}

#[test]
fn decompress_short_payload_fails() {
    assert!(matches!(
        Message::decompress(""),
        Err(MessageCompressionError::DecompressionError)
    ));
    assert!(matches!(
        Message::decompress("\u{1}\u{0}"),
        Err(MessageCompressionError::DecompressionError)
    ));
}

#[test]
fn decompress_missing_tokens_fails() {
    // Header promises two params but the payload holds a single token.
    let payload = format!("{}{}{}only", '\u{1}', '\u{2}', '\u{0}');
    match Message::decompress(payload.as_str()) {
        Err(MessageCompressionError::FieldNotFound(field)) => {
            assert_eq!(field, "params");
        },
        other => panic!("expected a FieldNotFound error, got {other:?}"),
    }
}

#[test]
fn message_type_codes() {
    assert_eq!(MessageType::Unknown.compress(), '\u{0}');
    assert_eq!(MessageType::Text.compress(), '\u{1}');
    assert_eq!(MessageType::Audio.compress(), '\u{2}');
    assert_eq!(MessageType::Photo.compress(), '\u{3}');
    assert_eq!(MessageType::ModuleInfo.compress(), '\u{ff}');
    for t in [
        MessageType::Unknown,
        MessageType::Text,
        MessageType::Audio,
        MessageType::Photo,
        MessageType::ModuleInfo,
    ] {
        assert_eq!(MessageType::decompress(t.compress()).unwrap(), t);
    }
    assert!(MessageType::decompress('\u{9}').is_err());
}

#[test]
fn message_type_names() {
    assert_eq!(MessageType::Text.name(), "Text");
    assert_eq!(MessageType::from_name("ModuleInfo").unwrap(), MessageType::ModuleInfo);
    assert!(matches!(MessageType::from_name("Video"), Err(Error::ConversionError)));
}

#[test]
fn reply_consumes_the_chain_front() {
    let message = Message {
        message_type: MessageType::Unknown,
        params: vec![("k".to_string(), "v".to_string())],
        response_topics: vec!["A".to_string(), "B".to_string()],
        sender: "s".to_string(),
        text: "orig".to_string(),
    };
    let (topic, m2) = message.reply("x".to_string(), MessageType::Text).unwrap();
    assert_eq!(topic, "A");
    assert_eq!(m2.response_topics, vec!["B".to_string()]);
    assert_eq!(m2.text, "x");
    assert_eq!(m2.message_type, MessageType::Text);
    assert_eq!(m2.sender, "s");
    assert!(m2.params.is_empty());
}

#[test]
fn reply_on_exhausted_chain_fails() {
    let message = Message {
        response_topics: vec![],
        ..Message::empty()
    };
    assert!(matches!(
        message.reply("x".to_string(), MessageType::Text),
        Err(Error::ReplyError)
    ));
}

#[test]
fn empty_message_is_all_defaults() {
    let m = Message::empty();
    assert_eq!(m.message_type, MessageType::Unknown);
    assert!(m.params.is_empty());
    assert!(m.response_topics.is_empty());
    assert_eq!(m.sender, "");
    assert_eq!(m.text, "");
}

#[test]
fn clone_preserves_every_field() {
    let message = sample_message();
    let copy = message.clone();
    assert_eq!(message, copy);
}

#[test]
fn error_messages_describe_the_failure() {
    let e = MessageCompressionError::FieldNotFound("sender".to_string());
    assert_eq!(e.message(), "field sender not found!");
    let e: Error = MessageCompressionError::FieldNotFound("sender".to_string()).into();
    assert_eq!(e.message(), "MessageCompressionError: field sender not found!");
    match e {
        Error::MessageCompressionError(m) => {
            assert_eq!(m, "field sender not found!");
        },
        other => panic!("expected a MessageCompressionError, got {other:?}"),
    }
}
