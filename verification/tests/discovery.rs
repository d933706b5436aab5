use alfred_core::config::{AlfredConfig, Config};
use alfred_core::connection::{
    event_topic, manage_module_info_request, MODULE_INFO_TOPIC_REQUEST, MODULE_INFO_TOPIC_RESPONSE,
};
use alfred_core::message::MessageType;
use alfred_core::AlfredModule;
use alfred_core::ModuleDetails;

fn test_config() -> Config {
    Config::new(
        AlfredConfig {
            url: "tcp://localhost".to_string(),
            pub_port: 7897,
            sub_port: 7896,
            tmp_dir: "/tmp".to_string(),
            modules: vec![],
        },
        vec![],
    )
}

#[test]
fn info_request_is_answered_with_the_module_announcement() {
    let mut module = AlfredModule::new("photos", "0.1.0", test_config());
    module.capabilities.push(("feature".to_string(), "enabled".to_string()));
    let handled = module.manage_module_info_request(MODULE_INFO_TOPIC_REQUEST);
    let (topic, info) = handled.expect("a request must be handled");
    assert_eq!(topic, MODULE_INFO_TOPIC_RESPONSE);
    assert_eq!(info.message_type, MessageType::ModuleInfo);
    assert_eq!(info.text, "photos");
    assert_eq!(info.params, vec![("feature".to_string(), "enabled".to_string())]);
    assert!(info.response_topics.is_empty());
    assert_eq!(info.sender, "");
}

#[test]
fn other_topics_are_not_intercepted() {
    let module = AlfredModule::new("photos", "0.1.0", test_config());
    assert!(module.manage_module_info_request("some.app.topic").is_none());
    assert!(module.manage_module_info_request(MODULE_INFO_TOPIC_RESPONSE).is_none());
}

#[test]
fn free_function_decision_matches_the_module_one() {
    let caps = vec![("a".to_string(), "b".to_string())];
    let handled = manage_module_info_request(MODULE_INFO_TOPIC_REQUEST, "me", &caps);
    let (topic, info) = handled.unwrap();
    assert_eq!(topic, MODULE_INFO_TOPIC_RESPONSE);
    assert_eq!(info.text, "me");
    assert_eq!(info.params, caps);
    assert!(manage_module_info_request("elsewhere", "me", &caps).is_none());
}

#[test]
fn get_info_message_carries_the_current_capabilities() {
    let mut module = AlfredModule::new("logs", "1.0.0", test_config());
    module.record_listen("event.camera.shot");
    let info = module.get_info_message();
    assert_eq!(info.message_type, MessageType::ModuleInfo);
    assert_eq!(info.text, "logs");
    assert_eq!(
        info.params,
        vec![("event".to_string(), "event.camera.shot".to_string())]
    );
}

#[test]
fn record_listen_keeps_a_single_topic_slot() {
    let mut module = AlfredModule::new("logs", "1.0.0", test_config());
    module.record_listen("first.topic");
    module.record_listen("second.topic");
    assert_eq!(
        module.capabilities,
        vec![("event".to_string(), "second.topic".to_string())]
    );
}

#[test]
fn record_listen_preserves_other_capabilities() {
    let mut module = AlfredModule::new("logs", "1.0.0", test_config());
    module.capabilities.push(("other".to_string(), "kept".to_string()));
    module.record_listen("a.topic");
    assert_eq!(
        module.capabilities,
        vec![
            ("other".to_string(), "kept".to_string()),
            ("event".to_string(), "a.topic".to_string()),
        ]
    );
}

#[test]
fn event_topics_follow_the_convention() {
    assert_eq!(event_topic("camera", "shot"), "event.camera.shot");
    assert_eq!(
        AlfredModule::send_event_topic("weather", "update"),
        "event.weather.update"
    );
}

#[test]
fn builder_assembles_the_details() {
    let details = ModuleDetails::builder()
        .module_name("camera")
        .version("2.0.0")
        .config(None)
        .capabilities(vec![("mode".to_string(), "still".to_string())])
        .build();
    assert_eq!(details.module_name, "camera");
    assert_eq!(details.version, "2.0.0");
    assert!(details.config.is_none());
    let module = AlfredModule::new_with_details(details, test_config());
    assert_eq!(module.module_name, "camera");
    assert_eq!(module.version, "2.0.0");
    assert_eq!(module.capabilities, vec![("mode".to_string(), "still".to_string())]);
}
