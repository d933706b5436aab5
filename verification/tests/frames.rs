use alfred_core::connection::{frames_to_message, message_to_frames};
use alfred_core::error::Error;
use alfred_core::message::{Message, MessageType};
use alfred_core::repo::{get_archive_url, get_asset_url, version_from_location};

fn sample_message() -> Message {
    Message {
        message_type: MessageType::Photo,
        params: vec![("size".to_string(), "large".to_string())],
        response_topics: vec!["camera.reply".to_string()],
        sender: "camera".to_string(),
        text: "shot".to_string(),
    }
}

#[test]
fn frames_round_trip() {
    let message = sample_message();
    let (topic_frame, payload_frame) = message_to_frames("event.camera.shot", &message);
    let (topic, decoded) = frames_to_message(topic_frame, payload_frame).unwrap();
    assert_eq!(topic, "event.camera.shot");
    assert_eq!(decoded, message);
}

#[test]
fn topic_frame_is_the_utf8_topic() {
    let (topic_frame, _) = message_to_frames("topic", &sample_message());
    assert_eq!(topic_frame, b"topic".to_vec());
}

#[test]
fn invalid_utf8_frame_is_a_conversion_error() {
    let bad = vec![0xff_u8, 0xfe, 0xfd];
    let (_, payload_frame) = message_to_frames("t", &sample_message());
    assert!(matches!(
        frames_to_message(bad.clone(), payload_frame),
        Err(Error::ConversionError)
    ));
    let (topic_frame, _) = message_to_frames("t", &sample_message());
    assert!(matches!(
        frames_to_message(topic_frame, bad),
        Err(Error::ConversionError)
    ));
}

#[test]
fn malformed_payload_is_a_codec_error() {
    let result = frames_to_message(b"topic".to_vec(), b"".to_vec());
    match result {
        Err(Error::MessageCompressionError(m)) => {
            assert_eq!(m, "error during decompression");
        },
        other => panic!("expected a codec error, got {other:?}"),
    }
}

#[test]
fn redirect_locations_yield_their_last_segment() {
    assert_eq!(
        version_from_location("https://example.org/owner/repo/releases/tag/v2.0.1"),
        "v2.0.1"
    );
    assert_eq!(version_from_location("latest"), "latest");
    assert_eq!(version_from_location("ends/with/slash/"), "");
}

#[test]
fn asset_urls_are_formed_exactly() {
    assert_eq!(
        get_asset_url("https://example.org/owner/repo", "v1.2.3", "module.tar.gz"),
        "https://example.org/owner/repo/releases/download/v1.2.3/module.tar.gz"
    );
    assert_eq!(
        get_archive_url("https://example.org/owner/repo", "v1.2.3", "module", "x86_64"),
        "https://example.org/owner/repo/releases/download/v1.2.3/module_x86_64.tar.gz"
    );
}
