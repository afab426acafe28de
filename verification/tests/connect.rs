use ocpp_client::client::ClientConfig;
use ocpp_client::connect::{
    basic_authorization, default_connect_keepalive, default_timeout, negotiated_version,
    offered_protocols, plan_connection, ConnectSettings,
};
use ocpp_client::{Duration, KeepaliveBehavior, KeepalivePolicy, OcppVersion};
use ocpp_client::{ReconnectBehavior, ReconnectPolicy};

#[test]
fn each_version_names_its_subprotocol() {
    assert_eq!(OcppVersion::V1_6.protocol(), "ocpp1.6");
    assert_eq!(OcppVersion::V2_0_1.protocol(), "ocpp2.0.1");
    assert_eq!(OcppVersion::V2_1.protocol(), "ocpp2.1");
}

#[test]
fn every_version_is_offered_newest_first() {
    assert_eq!(
        OcppVersion::all_compiled_in(),
        vec![OcppVersion::V2_1, OcppVersion::V2_0_1, OcppVersion::V1_6]
    );
    assert_eq!(
        offered_protocols(&OcppVersion::all_compiled_in()),
        "ocpp2.1, ocpp2.0.1, ocpp1.6"
    );
}

#[test]
fn only_the_caller_supplied_versions_are_offered() {
    assert_eq!(offered_protocols(&vec![OcppVersion::V1_6]), "ocpp1.6");
    assert_eq!(
        offered_protocols(&vec![OcppVersion::V1_6, OcppVersion::V2_1]),
        "ocpp1.6, ocpp2.1"
    );
    assert_eq!(offered_protocols(&Vec::new()), "");
}

#[test]
fn the_server_picks_one_of_the_offered_versions() {
    let all = OcppVersion::all_compiled_in();
    assert_eq!(negotiated_version(&all, "ocpp2.0.1"), Some(OcppVersion::V2_0_1));
    assert_eq!(negotiated_version(&all, "ocpp1.6"), Some(OcppVersion::V1_6));
    assert_eq!(negotiated_version(&all, "ocpp2.1"), Some(OcppVersion::V2_1));
    assert_eq!(negotiated_version(&all, "ocpp1.5"), None);
    assert_eq!(negotiated_version(&all, ""), None);
    // A version the server picks but the client did not offer is refused.
    assert_eq!(negotiated_version(&vec![OcppVersion::V1_6], "ocpp2.1"), None);
}

#[test]
fn the_default_timeout_is_five_seconds() {
    assert_eq!(default_timeout(), Duration::from_secs(5));
}

#[test]
fn no_options_means_default_timeout_reconnecting_and_keepalive() {
    let plan = plan_connection(None);
    assert_eq!(plan.timeout, Duration::from_secs(5));
    assert!(plan.redial);
    assert_eq!(plan.reconnect_policy, ReconnectPolicy::default());
    assert_eq!(
        plan.keepalive,
        KeepaliveBehavior::Enabled(KeepalivePolicy::every(Duration::from_secs(60)))
    );
    assert_eq!(plan.keepalive.initial_interval(), Some(Duration::from_secs(60)));
    assert_eq!(default_connect_keepalive(), plan.keepalive);
}

#[test]
fn options_override_the_timeout_and_reconnecting() {
    let policy = ReconnectPolicy {
        initial_delay: Duration::from_millis(250),
        max_delay: Duration::from_secs(3),
        multiplier: 3,
        jitter: false,
    };
    let plan = plan_connection(Some(ConnectSettings {
        timeout: Some(Duration::from_secs(30)),
        reconnect: ReconnectBehavior::Enabled(policy),
        keepalive: default_connect_keepalive(),
    }));
    assert_eq!(plan.timeout, Duration::from_secs(30));
    assert!(plan.redial);
    assert_eq!(plan.reconnect_policy, policy);

    let off = plan_connection(Some(ConnectSettings {
        timeout: None,
        reconnect: ReconnectBehavior::Disabled,
        keepalive: KeepaliveBehavior::Disabled,
    }));
    assert_eq!(off.timeout, Duration::from_secs(5));
    assert!(!off.redial);
    assert_eq!(off.keepalive, KeepaliveBehavior::Disabled);
    assert_eq!(off.keepalive.initial_interval(), None);
}

#[test]
fn basic_authorization_encodes_user_and_password() {
    assert_eq!(basic_authorization("user", Some("pass")), "Basic dXNlcjpwYXNz");
    assert_eq!(basic_authorization("user", None), "Basic dXNlcjo=");
    assert_eq!(
        basic_authorization("CP-001", Some("s3cret")),
        "Basic Q1AtMDAxOnMzY3JldA=="
    );
}

#[test]
fn a_bare_config_has_nothing_enabled() {
    let config: ClientConfig<()> = ClientConfig::new(Duration::from_secs(7));
    assert_eq!(config.timeout, Duration::from_secs(7));
    assert!(config.reconnector.is_none());
    assert!(!config.can_redial());
    assert_eq!(config.reconnect_policy, ReconnectPolicy::default());
    assert_eq!(config.keepalive, KeepaliveBehavior::Disabled);
}

#[test]
fn builders_set_one_thing_each() {
    let policy = ReconnectPolicy {
        multiplier: 4,
        ..ReconnectPolicy::default()
    };
    let keepalive = KeepaliveBehavior::Enabled(KeepalivePolicy::every(Duration::from_secs(30)));
    let config = ClientConfig::new(Duration::from_secs(2))
        .with_reconnect("redialer", policy)
        .with_keepalive(keepalive);
    assert_eq!(config.timeout, Duration::from_secs(2));
    assert_eq!(config.reconnector, Some("redialer"));
    assert!(config.can_redial());
    assert_eq!(config.reconnect_policy, policy);
    assert_eq!(config.keepalive, keepalive);
}
