use fms_forwarder::endpoint::Endpoint;
use fms_forwarder::errors::{ConfigError, EndpointKind};
use fms_forwarder::session_config::{SessionConfigBuilder, SessionMode};

#[test]
fn endpoint_accepts_well_formed_address() {
    let ep = Endpoint::new(String::from("tcp/127.0.0.1:7447")).expect("well-formed endpoint");
    assert_eq!(ep.as_str(), "tcp/127.0.0.1:7447");
}

#[test]
fn endpoint_rejects_malformed_address() {
    let r = Endpoint::new(String::from("not-an-endpoint"));
    assert_eq!(r.err(), Some(String::from("not-an-endpoint")));
}

#[test]
fn endpoint_rejects_empty_and_partial_addresses() {
    assert!(Endpoint::new(String::new()).is_err());
    assert!(Endpoint::new(String::from("tcp/")).is_err());
    assert!(Endpoint::new(String::from("/127.0.0.1:7447")).is_err());
}

#[test]
fn empty_build_keeps_every_default() {
    let cfg = SessionConfigBuilder::new().build().expect("nothing to validate");
    assert!(cfg.mode.is_none());
    assert!(cfg.connect_endpoints.is_empty());
    assert!(cfg.listen_endpoints.is_empty());
    assert!(cfg.multicast_scouting_enabled.is_none());
}

#[test]
fn connect_only_build_leaves_other_options_unset() {
    let cfg = SessionConfigBuilder::new()
        .connect(String::from("tcp/127.0.0.1:7447"))
        .connect(String::from("udp/192.168.1.1:7448"))
        .build()
        .expect("all endpoints well-formed");
    assert_eq!(cfg.connect_endpoints.len(), 2);
    assert_eq!(cfg.connect_endpoints[0].as_str(), "tcp/127.0.0.1:7447");
    assert_eq!(cfg.connect_endpoints[1].as_str(), "udp/192.168.1.1:7448");
    assert!(cfg.listen_endpoints.is_empty());
    assert!(cfg.mode.is_none());
    assert!(cfg.multicast_scouting_enabled.is_none());
}

#[test]
fn mode_listen_and_scouting_are_taken_over() {
    let cfg = SessionConfigBuilder::new()
        .mode(SessionMode::Client)
        .multicast_scouting(false)
        .listen(String::from("tcp/0.0.0.0:7447"))
        .build()
        .expect("endpoint well-formed");
    assert_eq!(cfg.mode, Some(SessionMode::Client));
    assert_eq!(cfg.multicast_scouting_enabled, Some(false));
    assert_eq!(cfg.listen_endpoints.len(), 1);
    assert_eq!(cfg.listen_endpoints[0].as_str(), "tcp/0.0.0.0:7447");
    assert!(cfg.connect_endpoints.is_empty());
}

#[test]
fn default_builder_equals_fresh_builder() {
    let cfg = SessionConfigBuilder::default().build().expect("nothing to validate");
    assert!(cfg.mode.is_none());
    assert!(cfg.connect_endpoints.is_empty());
    assert!(cfg.listen_endpoints.is_empty());
    assert!(cfg.multicast_scouting_enabled.is_none());
}

#[test]
fn multicast_scouting_can_be_enabled_explicitly() {
    let cfg = SessionConfigBuilder::new()
        .multicast_scouting(true)
        .build()
        .expect("nothing to validate");
    assert_eq!(cfg.multicast_scouting_enabled, Some(true));
}

#[test]
fn peer_mode_is_taken_over() {
    let cfg = SessionConfigBuilder::new().mode(SessionMode::Peer).build().expect("no endpoints");
    assert_eq!(cfg.mode, Some(SessionMode::Peer));
}

#[test]
fn malformed_connect_endpoint_fails_build() {
    let err = SessionConfigBuilder::new()
        .connect(String::from("tcp/127.0.0.1:7447"))
        .connect(String::from("bogus"))
        .build()
        .expect_err("malformed endpoint must fail the build");
    assert_eq!(
        err,
        ConfigError::InvalidEndpoint {
            value: String::from("bogus"),
            which: EndpointKind::Connect,
        }
    );
}

#[test]
fn malformed_listen_endpoint_fails_build() {
    let err = SessionConfigBuilder::new()
        .listen(String::from("no-slash-here"))
        .build()
        .expect_err("malformed endpoint must fail the build");
    assert_eq!(
        err,
        ConfigError::InvalidEndpoint {
            value: String::from("no-slash-here"),
            which: EndpointKind::Listen,
        }
    );
}

#[test]
fn first_malformed_connect_endpoint_wins() {
    let err = SessionConfigBuilder::new()
        .connect(String::from("bad-one"))
        .connect(String::from("bad-two"))
        .listen(String::from("bad-three"))
        .build()
        .expect_err("malformed endpoints must fail the build");
    assert_eq!(
        err,
        ConfigError::InvalidEndpoint {
            value: String::from("bad-one"),
            which: EndpointKind::Connect,
        }
    );
}
