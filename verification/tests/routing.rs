use alfred_core::config_message::ConfigMessage;
use alfred_core::message::{Message, MessageType};
use alfred_core::router::{route, RoutingItem, RoutingMessage};

fn inbound() -> Message {
    Message {
        message_type: MessageType::Text,
        params: vec![("k".to_string(), "v".to_string())],
        response_topics: vec!["back".to_string()],
        sender: "sender".to_string(),
        text: "hello".to_string(),
    }
}

fn rule(from: &str, to: &str) -> RoutingItem {
    RoutingItem {
        from_topic: from.to_string(),
        to_topic: to.to_string(),
        message: None,
    }
}

#[test]
fn pass_through_forwards_unchanged() {
    let rules = vec![rule("a", "b")];
    let message = inbound();
    let outs = route(&rules, "a", &message);
    assert_eq!(outs.len(), 1);
    assert_eq!(outs[0].0, "b");
    assert_eq!(outs[0].1, message);
    // Byte-for-byte: the forwarded message encodes identically.
    assert_eq!(outs[0].1.compress(), message.compress());
}

#[test]
fn fan_out_fires_every_matching_rule() {
    let rules = vec![rule("a", "b"), rule("a", "c")];
    let message = inbound();
    let outs = route(&rules, "a", &message);
    assert_eq!(outs.len(), 2);
    assert_eq!(outs[0].0, "b");
    assert_eq!(outs[1].0, "c");
    assert_eq!(outs[0].1, message);
    assert_eq!(outs[1].1, message);
}

#[test]
fn unmatched_topic_is_ignored() {
    let rules = vec![rule("a", "b"), rule("x", "y")];
    let outs = route(&rules, "nothing", &inbound());
    assert!(outs.is_empty());
}

#[test]
fn matching_respects_rule_order_and_skips_others() {
    let rules = vec![rule("a", "first"), rule("other", "skipped"), rule("a", "second")];
    let outs = route(&rules, "a", &inbound());
    assert_eq!(outs.len(), 2);
    assert_eq!(outs[0].0, "first");
    assert_eq!(outs[1].0, "second");
}

#[test]
fn routing_message_is_the_routing_template() {
    let template: RoutingMessage = ConfigMessage::none();
    let message = inbound();
    assert_eq!(template.generate_message(&message), message);
}

#[test]
fn template_rule_reshapes_the_message() {
    let template = ConfigMessage {
        text: Some("rewritten".to_string()),
        response_topics: None,
        sender: None,
        message_type: Some(MessageType::Photo),
    };
    let rules = vec![RoutingItem {
        from_topic: "a".to_string(),
        to_topic: "b".to_string(),
        message: Some(template),
    }];
    let message = inbound();
    let outs = route(&rules, "a", &message);
    assert_eq!(outs.len(), 1);
    let out = &outs[0].1;
    assert_eq!(out.text, "rewritten");
    assert_eq!(out.message_type, MessageType::Photo);
    assert_eq!(out.sender, "sender");
    assert_eq!(out.params, vec![("k".to_string(), "v".to_string())]);
}
