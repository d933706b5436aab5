use alfred_core::config::{AlfredConfig, Config, EnvAlfredConfig, FromFileAlfredConfig};
use alfred_core::error::Error;

fn file_values() -> FromFileAlfredConfig {
    FromFileAlfredConfig {
        url: Some("tcp://file-host".to_string()),
        pub_port: Some(1111),
        sub_port: Some(2222),
        tmp_dir: Some("/var/file".to_string()),
        modules: vec!["logs".to_string()],
    }
}

fn no_env() -> EnvAlfredConfig {
    EnvAlfredConfig { url: None, pub_port: None, sub_port: None, tmp_dir: None }
}

#[test]
fn environment_values_take_precedence() {
    let env = EnvAlfredConfig {
        url: Some("tcp://env-host".to_string()),
        pub_port: Some(9999),
        sub_port: None,
        tmp_dir: None,
    };
    let merged = AlfredConfig::merge(env, file_values()).unwrap();
    assert_eq!(merged.url, "tcp://env-host");
    assert_eq!(merged.pub_port, 9999);
    assert_eq!(merged.sub_port, 2222);
    assert_eq!(merged.tmp_dir, "/var/file");
    assert_eq!(merged.modules, vec!["logs".to_string()]);
}

#[test]
fn tmp_dir_falls_back_to_the_default() {
    let mut file = file_values();
    file.tmp_dir = None;
    let merged = AlfredConfig::merge(no_env(), file).unwrap();
    assert_eq!(merged.tmp_dir, "/tmp");
}

#[test]
fn a_value_missing_from_both_sources_is_an_error() {
    let mut file = file_values();
    file.url = None;
    match AlfredConfig::merge(no_env(), file) {
        Err(Error::MissingFilePropertyError(p)) => assert_eq!(p, "alfred.url"),
        other => panic!("expected a missing-property error, got {other:?}"),
    }
    let mut file = file_values();
    file.pub_port = None;
    match AlfredConfig::merge(no_env(), file) {
        Err(Error::MissingFilePropertyError(p)) => assert_eq!(p, "alfred.pub_port"),
        other => panic!("expected a missing-property error, got {other:?}"),
    }
    let mut file = file_values();
    file.sub_port = None;
    match AlfredConfig::merge(no_env(), file) {
        Err(Error::MissingFilePropertyError(p)) => assert_eq!(p, "alfred.sub_port"),
        other => panic!("expected a missing-property error, got {other:?}"),
    }
}

#[test]
fn endpoints_join_host_and_port() {
    let config = Config::new(
        AlfredConfig {
            url: "tcp://localhost".to_string(),
            pub_port: 7897,
            sub_port: 7896,
            tmp_dir: "/tmp".to_string(),
            modules: vec![],
        },
        vec![],
    );
    assert_eq!(config.get_alfred_pub_url(), "tcp://localhost:7897");
    assert_eq!(config.get_alfred_sub_url(), "tcp://localhost:7896");
}

#[test]
fn module_values_are_looked_up_by_key() {
    let config = Config::new(
        AlfredConfig {
            url: "u".to_string(),
            pub_port: 1,
            sub_port: 2,
            tmp_dir: "/tmp".to_string(),
            modules: vec![],
        },
        vec![
            ("keep_alive".to_string(), "true".to_string()),
            ("log".to_string(), "debug".to_string()),
        ],
    );
    assert_eq!(config.get_module_value("keep_alive"), Some("true".to_string()));
    assert_eq!(config.get_module_value("log"), Some("debug".to_string()));
    assert_eq!(config.get_module_value("absent"), None);
}

#[test]
fn decimal_rendering_is_exact() {
    assert_eq!(alfred_core::text::u32_to_string(0), "0");
    assert_eq!(alfred_core::text::u32_to_string(7), "7");
    assert_eq!(alfred_core::text::u32_to_string(255), "255");
    assert_eq!(alfred_core::text::u32_to_string(4294967295), "4294967295");
}
