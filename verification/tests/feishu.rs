use lark_channels::channels::feishu::FeishuChannel;
use lark_channels::config::{FeishuConfig, LarkReceiveMode};

fn make_channel() -> FeishuChannel {
    FeishuChannel::new(
        "cli_test_app_id".into(),
        "test_app_secret".into(),
        "test_verification_token".into(),
        None,
        vec!["ou_testuser123".into()],
    )
}

#[test]
fn feishu_channel_name() {
    let ch = make_channel();
    assert_eq!(ch.name(), "feishu");
}

#[test]
fn feishu_user_allowed_exact() {
    let ch = make_channel();
    assert!(ch.is_user_allowed("ou_testuser123"));
    assert!(!ch.is_user_allowed("ou_other"));
}

#[test]
fn feishu_user_allowed_wildcard() {
    let ch = FeishuChannel::new(
        "id".into(),
        "secret".into(),
        "token".into(),
        None,
        vec!["*".into()],
    );
    assert!(ch.is_user_allowed("ou_anyone"));
}

#[test]
fn feishu_from_config() {
    let config = FeishuConfig {
        app_id: "cli_app123".into(),
        app_secret: "secret456".into(),
        encrypt_key: None,
        verification_token: Some("vtoken789".into()),
        allowed_users: vec!["ou_user1".into(), "ou_user2".into()],
        receive_mode: LarkReceiveMode::Websocket,
        port: None,
    };
    let ch = FeishuChannel::from_config(&config);
    assert_eq!(ch.name(), "feishu");
    assert!(ch.is_user_allowed("ou_user1"));
    assert!(!ch.is_user_allowed("ou_stranger"));
}

#[test]
fn specialized_adapter_pins_variant() {
    let direct = make_channel();
    assert!(direct.uses_feishu());
    assert_eq!(direct.api_host(), "open.feishu.cn");

    let config = FeishuConfig {
        app_id: "cli_app123".into(),
        app_secret: "secret456".into(),
        encrypt_key: None,
        verification_token: None,
        allowed_users: vec![],
        receive_mode: LarkReceiveMode::Webhook,
        port: Some(8080),
    };
    let from_config = FeishuChannel::from_config(&config);
    assert!(from_config.uses_feishu());
    assert_eq!(from_config.api_host(), "open.feishu.cn");
}

#[test]
fn name_independent_of_configuration() {
    let ch = FeishuChannel::new(
        "other_app".into(),
        "other_secret".into(),
        String::new(),
        Some(9000),
        vec!["*".into(), "ou_extra".into()],
    );
    assert_eq!(ch.name(), "feishu");
}

#[test]
fn missing_token_defaults_to_empty() {
    let without_token = FeishuConfig {
        app_id: "cli_app".into(),
        app_secret: "secret".into(),
        encrypt_key: None,
        verification_token: None,
        allowed_users: vec!["ou_user1".into()],
        receive_mode: LarkReceiveMode::Webhook,
        port: Some(8080),
    };
    let from_config = FeishuChannel::from_config(&without_token);
    let direct = FeishuChannel::new(
        "cli_app".into(),
        "secret".into(),
        String::new(),
        Some(8080),
        vec!["ou_user1".into()],
    );
    assert_eq!(from_config.name(), direct.name());
    assert_eq!(from_config.uses_feishu(), direct.uses_feishu());
    assert_eq!(from_config.is_user_allowed("ou_user1"), direct.is_user_allowed("ou_user1"));
    assert_eq!(from_config.is_user_allowed("ou_other"), direct.is_user_allowed("ou_other"));
    assert_eq!(from_config.receive_mode(), direct.receive_mode());
}

#[test]
fn from_config_round_trip() {
    let listed = vec![
        String::from("ou_alpha"),
        String::from("ou_beta"),
        String::from("ou_gamma"),
    ];
    let config = FeishuConfig {
        app_id: "cli_app".into(),
        app_secret: "secret".into(),
        encrypt_key: Some("ekey".into()),
        verification_token: Some("vtoken".into()),
        allowed_users: listed.clone(),
        receive_mode: LarkReceiveMode::Websocket,
        port: None,
    };
    let ch = FeishuChannel::from_config(&config);
    for user in &listed {
        assert!(ch.is_user_allowed(user));
    }
    assert!(!ch.is_user_allowed("ou_absent"));
}

#[test]
fn webhook_mode_requires_a_port() {
    let mut config = FeishuConfig {
        app_id: "a".into(),
        app_secret: "s".into(),
        encrypt_key: None,
        verification_token: None,
        allowed_users: vec![],
        receive_mode: LarkReceiveMode::Webhook,
        port: None,
    };
    assert!(!config.has_required_port());
    config.port = Some(8080);
    assert!(config.has_required_port());
    config.receive_mode = LarkReceiveMode::Websocket;
    config.port = None;
    assert!(config.has_required_port());
}

#[test]
fn from_config_sets_receive_mode() {
    let websocket = FeishuConfig {
        app_id: "a".into(),
        app_secret: "s".into(),
        encrypt_key: None,
        verification_token: None,
        allowed_users: vec![],
        receive_mode: LarkReceiveMode::Websocket,
        port: None,
    };
    let ch = FeishuChannel::from_config(&websocket);
    assert_eq!(ch.receive_mode(), LarkReceiveMode::Websocket);
    assert!(!ch.requires_http_port());

    let webhook = FeishuConfig {
        app_id: "a".into(),
        app_secret: "s".into(),
        encrypt_key: None,
        verification_token: None,
        allowed_users: vec![],
        receive_mode: LarkReceiveMode::Webhook,
        port: Some(3000),
    };
    let ch = FeishuChannel::from_config(&webhook);
    assert_eq!(ch.receive_mode(), LarkReceiveMode::Webhook);
    assert!(ch.requires_http_port());
    assert_eq!(ch.port(), Some(3000));
}
