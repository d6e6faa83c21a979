use std::time::{Duration, UNIX_EPOCH};
use supervisor::clock::Instant;
use supervisor::config::{PackageIdent, RuntimeConfig};
use supervisor::error::SupError;
use supervisor::event::{
    health_check, init_stream, publish, publish_at, service_started, service_stopped,
    stream_connected, Event, EventCore, EventConnectionInfo, EventError, EventKind, EventStream,
    EventStreamConfig, HealthCheck,
};
use supervisor::relay::OutputRelay;
use supervisor::supervisor::{StartStep, Supervisor};

fn config() -> EventStreamConfig {
    EventStreamConfig::new(
        String::from("production"),
        String::from("shop"),
        vec![(String::from("rack"), String::from("r7")), (String::from("zone"), String::from("b"))],
        String::from("SECRET-REDACTED"),
        String::from("nats.example.com:4222"),
    )
}

fn sender() -> EventCore {
    EventCore::new(
        &config(),
        String::from("sup-1"),
        String::from("10.0.0.5:9638"),
        String::from("host.example.com"),
    )
}

fn ready_stream() -> EventStream {
    let mut stream = EventStream::new();
    assert!(init_stream(&mut stream, config()).is_some());
    stream_connected(&mut stream, sender(), true).unwrap();
    stream
}

#[test]
fn relay_tags_each_line() {
    let relay = OutputRelay::start(String::from("redis.default"), true).unwrap();
    assert_eq!(relay.label, "redis.default");
    assert_eq!(relay.forward("Ready to accept connections\n"), Some(String::from("redis.default(O): Ready to accept connections\n")));
    assert_eq!(relay.forward("\n"), Some(String::from("redis.default(O): \n")));
    assert_eq!(relay.forward("caf\u{e9}"), Some(String::from("redis.default(O): caf\u{e9}")));
}

#[test]
fn relay_ends_on_an_empty_read() {
    let relay = OutputRelay::start(String::from("redis.default"), true).unwrap();
    assert_eq!(relay.forward(""), None);
}

#[test]
fn relay_does_not_start_without_a_stream() {
    assert_eq!(OutputRelay::start(String::from("redis.default"), false).unwrap_err(), SupError::UnpackFailed);
}

#[test]
fn status_record_reports_a_fresh_supervisor() {
    let sup = Supervisor::new_at(
        PackageIdent::new(String::from("core"), String::from("redis"), None, None),
        String::from("redis.default"),
        String::from("/hab/svc/redis"),
        RuntimeConfig::new(String::from("hab"), String::from("hab")),
        Instant::new(1_234),
    );
    let record = sup.status_record();
    assert_eq!(record.pid, None);
    assert_eq!(record.package_ident, sup.package_ident);
    assert_eq!(record.preamble, "redis.default");
    assert_eq!(record.state, "down");
    assert_eq!(record.state_entered, "1234");
    assert!(!record.has_started);
    assert_eq!(record.runtime_config, sup.runtime_config);
}

#[test]
fn status_record_reports_a_running_supervisor() {
    let mut sup = Supervisor::new_at(
        PackageIdent::new(
            String::from("core"),
            String::from("redis"),
            Some(String::from("3.2.4")),
            Some(String::from("20170514150022")),
        ),
        String::from("redis.default"),
        String::from("/hab/svc/redis"),
        RuntimeConfig::new(String::from("hab"), String::from("habgroup")),
        Instant::new(1),
    );
    match sup.start_at(Instant::new(2)) {
        StartStep::Spawn(order) => {
            sup.finish_start_at(&order, Some(4242), Instant::new(18_446_744_073_709_551_615)).unwrap();
        }
        StartStep::AlreadyStarted => panic!("a fresh supervisor holds no child"),
    }
    let record = sup.status_record();
    assert_eq!(record.pid, Some(4242));
    assert_eq!(record.package_ident.version, Some(String::from("3.2.4")));
    assert_eq!(record.package_ident.release, Some(String::from("20170514150022")));
    assert_eq!(record.state, "up");
    assert_eq!(record.state_entered, "18446744073709551615");
    assert!(record.has_started);
    assert_eq!(record.runtime_config.svc_group, "habgroup");
}

#[test]
fn runtime_config_and_ident_keep_their_parts() {
    let config = RuntimeConfig::new(String::from("alice"), String::from("staff"));
    assert_eq!(config.svc_user, "alice");
    assert_eq!(config.svc_group, "staff");
    assert_eq!(config.clone(), config);
    let ident = PackageIdent::new(String::from("core"), String::from("redis"), Some(String::from("1")), None);
    assert_eq!(ident.origin, "core");
    assert_eq!(ident.name, "redis");
    assert_eq!(ident.version, Some(String::from("1")));
    assert_eq!(ident.release, None);
    assert_eq!(ident.clone(), ident);
}

#[test]
fn connection_info_has_the_fixed_client_settings() {
    let info = EventConnectionInfo::new(String::from("SECRET-REDACTED"), String::from("nats.example.com:4222"));
    assert_eq!(info.name, "hab_client");
    assert!(info.verbose);
    assert_eq!(info.cluster_uri, "nats.example.com:4222");
    assert_eq!(info.cluster_id, "event-service");
    assert_eq!(info.auth_token, "SECRET-REDACTED");
}

#[test]
fn event_core_takes_over_the_configuration() {
    let sent_by = sender();
    assert_eq!(sent_by.supervisor_id, "sup-1");
    assert_eq!(sent_by.ip_address, "10.0.0.5:9638");
    assert_eq!(sent_by.fqdn, "host.example.com");
    assert_eq!(sent_by.application, "shop");
    assert_eq!(sent_by.environment, "production");
    assert_eq!(sent_by.meta, config().meta);
    let metadata = sent_by.to_event_metadata();
    assert_eq!(metadata.timestamp, None);
    assert_eq!(metadata.supervisor_id, "sup-1");
    assert_eq!(metadata.meta, config().meta);
}

#[test]
fn the_stream_is_set_up_at_most_once() {
    let mut stream = EventStream::new();
    assert!(!stream.stream_initialized());
    let info = init_stream(&mut stream, config()).unwrap();
    assert_eq!(info.cluster_uri, "nats.example.com:4222");
    assert_eq!(info.auth_token, "SECRET-REDACTED");
    assert!(stream.attempted);
    assert!(!stream.stream_initialized());
    assert!(init_stream(&mut stream, config()).is_none());
    stream_connected(&mut stream, sender(), true).unwrap();
    assert!(stream.stream_initialized());
    assert!(init_stream(&mut stream, config()).is_none());
    assert!(stream.stream_initialized());
}

#[test]
fn a_failed_connection_leaves_the_stream_silent() {
    let mut stream = EventStream::new();
    init_stream(&mut stream, config());
    assert_eq!(stream_connected(&mut stream, sender(), false), Err(EventError::ConnectFailed));
    assert!(!stream.stream_initialized());
    assert!(init_stream(&mut stream, config()).is_none());
    assert!(service_started(&stream, "redis.default").is_none());
}

#[test]
fn nothing_goes_out_on_a_stream_that_is_not_set_up() {
    let stream = EventStream::new();
    assert!(service_started(&stream, "redis.default").is_none());
    assert!(service_stopped(&stream, "redis.default").is_none());
    assert!(health_check(&stream, "redis.default", HealthCheck::Critical, Duration::from_millis(20), true).is_none());
    let event = Event { kind: EventKind::ServiceStarted, service_metadata: Some(1u8), event_metadata: None };
    assert!(publish(&stream, event).is_none());
}

#[test]
fn publish_fills_in_the_sender_and_the_time() {
    let stream = ready_stream();
    let at = UNIX_EPOCH + Duration::from_secs(1_500_000_000);
    let event = Event { kind: EventKind::ServiceStopped, service_metadata: Some(String::from("redis.default")), event_metadata: None };
    let out = publish_at(&stream, event, at).unwrap();
    assert!(matches!(out.kind, EventKind::ServiceStopped));
    assert_eq!(out.service_metadata, Some(String::from("redis.default")));
    let metadata = out.event_metadata.unwrap();
    assert_eq!(metadata.timestamp, Some(at));
    assert_eq!(metadata.supervisor_id, "sup-1");
    assert_eq!(metadata.ip_address, "10.0.0.5:9638");
    assert_eq!(metadata.fqdn, "host.example.com");
    assert_eq!(metadata.application, "shop");
    assert_eq!(metadata.environment, "production");
    assert_eq!(metadata.meta, config().meta);
}

#[test]
fn service_events_go_out_on_a_stream_that_is_set_up() {
    let stream = ready_stream();
    let before = std::time::SystemTime::now();
    let started = service_started(&stream, "redis.default").unwrap();
    let stopped = service_stopped(&stream, "redis.default").unwrap();
    let after = std::time::SystemTime::now();
    assert!(matches!(started.kind, EventKind::ServiceStarted));
    assert!(matches!(stopped.kind, EventKind::ServiceStopped));
    assert_eq!(started.service_metadata, Some("redis.default"));
    assert_eq!(stopped.service_metadata, Some("redis.default"));
    let stamp = started.event_metadata.unwrap().timestamp.unwrap();
    assert!(before <= stamp && stamp <= after);
    assert_eq!(stopped.event_metadata.unwrap().supervisor_id, "sup-1");
}

#[test]
fn a_health_check_event_carries_result_duration_and_hook() {
    let stream = ready_stream();
    let out = health_check(&stream, 7u32, HealthCheck::Warning, Duration::from_millis(250), true).unwrap();
    match out.kind {
        EventKind::HealthCheck { result, duration, has_hook } => {
            assert_eq!(result, HealthCheck::Warning);
            assert_eq!(duration, Some(Duration::from_millis(250)));
            assert!(has_hook);
        }
        _ => panic!("a health check event was expected"),
    }
    assert_eq!(out.service_metadata, Some(7u32));
    assert!(out.event_metadata.unwrap().timestamp.is_some());
}
