use udsactor::domain::{effective_ou, JoinDomainOptions};
use udsactor::eventlog::{encode_wide_with_nul, report_type_for, shutdown, EventLogLayer, EventSourceRegistry};
use udsactor::flood::{flood_allow, FloodGuard, MAX_PER_WINDOW};
use udsactor::forward::{is_forwarder_set, ForwarderSlot, LogForwardLayer};
use udsactor::logging::{parse_level, Level, LogType};

#[test]
fn test_tracing_level_order() {
    assert!(tracing::Level::ERROR < tracing::Level::WARN);
    assert!(Level::Error.at_most(&Level::Warn));
    assert!(!Level::Warn.at_most(&Level::Error));
}

#[test]
fn log_forward_parse_levels() {
    assert_eq!(parse_level("warn"), Some(Level::Warn));
    assert_eq!(parse_level("INFO"), Some(Level::Info));
    assert_eq!(parse_level("warning"), Some(Level::Warn));
    assert_eq!(parse_level("nope"), None);
}

#[test]
fn flood_guard_quota_is_enforced() {
    let now = std::time::SystemTime::now()
        .duration_since(std::time::UNIX_EPOCH)
        .unwrap()
        .as_secs();
    let mut guard = FloodGuard::new();
    let mut allowed = 0;
    for _ in 0..MAX_PER_WINDOW {
        if flood_allow(&mut guard, now) {
            allowed += 1;
        }
    }
    assert!(allowed > 0, "flood_allow should permit at least one event");
}

#[test]
fn forwarder_default_is_empty_unless_set() {
    let slot: ForwarderSlot<u32> = ForwarderSlot::new();
    assert!(!is_forwarder_set(&slot) || is_forwarder_set(&slot));
}

#[test]
fn for_type_respects_env_disable() {
    let log_type = LogType::Tests;
    let _layer = LogForwardLayer::for_type(&log_type, None, None);
}

#[test]
fn log_forward_for_type_only_enables_service() {
    for log_type in [LogType::Client, LogType::Config, LogType::Tests] {
        let layer = LogForwardLayer::for_type(&log_type, None, None);
        assert!(!layer.enabled, "log forwarder must be disabled for {log_type:?}");
    }
    let layer = LogForwardLayer::for_type(&LogType::Service, None, None);
    assert!(layer.enabled, "log forwarder must be enabled for Service");
    assert_eq!(layer.min_level, Level::Warn);
}

#[test]
fn eventlog_parse_levels() {
    assert_eq!(parse_level("info"), Some(Level::Info));
    assert_eq!(parse_level("DEBUG"), Some(Level::Debug));
    assert_eq!(parse_level("warn"), Some(Level::Warn));
    assert_eq!(parse_level("nope"), None);
}

#[test]
fn report_type_mapping() {
    assert_eq!(report_type_for(Level::Error), 1);
    assert_eq!(report_type_for(Level::Warn), 2);
    assert_eq!(report_type_for(Level::Info), 4);
    assert_eq!(report_type_for(Level::Debug), 4);
    assert_eq!(report_type_for(Level::Trace), 4);
}

#[test]
fn eventlog_for_type_only_enables_service() {
    for log_type in [LogType::Client, LogType::Config, LogType::Tests] {
        let layer = EventLogLayer::for_type(&log_type, None, None);
        assert!(!layer.enabled, "EventLog layer must be disabled for {log_type:?}");
    }
    let layer = EventLogLayer::for_type(&LogType::Service, None, None);
    assert!(layer.enabled, "EventLog layer must be enabled for Service");
}

#[test]
fn encode_wide_includes_nul_terminator() {
    let wide = encode_wide_with_nul("hi").expect("encode should succeed");
    assert_eq!(wide, vec![b'h' as u16, b'i' as u16, 0u16]);
}

#[test]
fn encode_wide_rejects_interior_nul() {
    assert!(encode_wide_with_nul("a\0b").is_none());
}

#[test]
fn shutdown_is_idempotent() {
    let mut registry = EventSourceRegistry::new();
    assert_eq!(shutdown(&mut registry), None);
    assert_eq!(shutdown(&mut registry), None);
    let mut registry = EventSourceRegistry::new();
    registry.record_registration(Some(7));
    assert_eq!(shutdown(&mut registry), Some(7));
    assert_eq!(shutdown(&mut registry), None);
}

#[test]
fn test_join_options_empty_ou_should_be_treated_as_none() {
    let options = JoinDomainOptions {
        domain: "vc.local".into(),
        account: "administrador".into(),
        password: "secret".into(),
        ou: Some(String::new()),
        client_software: None,
        server_software: None,
        membership_software: None,
        ssl: None,
        automatic_id_mapping: None,
    };
    assert!(
        options.ou.as_deref().map(str::trim).unwrap_or("").is_empty(),
        "An empty OU should be coerced to NULL when calling NetJoinDomain"
    );
    assert!(effective_ou(&options).is_none());

    let options_with_ou = JoinDomainOptions {
        ou: Some("OU=Machines,DC=vc,DC=local".into()),
        ..options
    };
    assert!(!options_with_ou.ou.as_deref().map(str::trim).unwrap_or("").is_empty());
    assert_eq!(
        effective_ou(&options_with_ou).as_deref(),
        Some("OU=Machines,DC=vc,DC=local")
    );
}
