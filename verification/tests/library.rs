use udsactor::calls::{create_platform, Calls, FakeActions, FakeApi, FakeOperations, FakeSessionManager};
use udsactor::config::{
    register_request, registration_status, registration_step, test_status, RegistrationAction,
    RegistrationEvent, RegistrationOutcome, RegistrationState,
    authenticator_list, broker_api_config, can_test, clamp_log_level, create_config, fill_unmanaged_fields,
    fill_window_fields, full_username, host_of_url, names_le, register_commands, registered_config,
    registration_inputs_valid, selected_authenticator, sort_names, unmanaged_config, unmanaged_config_legacy,
    validate_ciphers, ActorType, FormError,
};
use udsactor::domain::{
    domain_name_from, first_nonblank_line, ipa_fqdn, DomainNameError, RealmListRun, join_after_probe, membership_first_step, missing_tool_is_warning,
    needs_ipa_hostname, realm_join_args, short_hostname, timesyncd_active, JoinDomainOptions, MembershipStep,
    TrustProbe,
};
use udsactor::eventlog::{
    encode_wide, event_message_file_bytes, event_report, registry_string_bytes, types_supported_bytes,
    EventLogLayer, EventSourceRegistry, HandleLookup,
};
use udsactor::flood::{flood_allow, FloodGuard, MAX_PER_WINDOW, WINDOW_SECS};
use udsactor::forward::{is_forwarder_set, on_event, set_log_forwarder, ForwarderSlot, LogForwardLayer};
use udsactor::http::{actor_routes, base64_fits, err, ok, response_timeout_secs, screenshot_response, Endpoint, Method};
use udsactor::logging::{
    default_log_dir, effective_level, join_log_path, log_file_path, parse_level, env_key, get_active_log_level, is_off_value, is_on_value, level_code_for,
    level_from_code, log_file_name, panic_location, panic_message, rotation_plan, set_active_level_from_str,
    set_log_level, setup_logging, stderr_enabled, stderr_filter, thread_ids_for, use_datetime_flag, ActiveLogLevel,
    Level, LoggingSetup, LogType, MessageVisitor, RotationStep,
};
use udsactor::rest::{logout_request, ping_ok, ClientRestSession, LoginResult, PongResponse};
use udsactor::tasks::{
    effective_deadline, process_alive_from, session_watch_step, session_watch_tick, should_watch_session,
    DeadlineTask, IdleMonitor, IdleTime, MonitorAction, WatchAction, WatchDecision,
};
use udsactor::text::{to_decimal, trim_end_matches, trim_start_matches, trimmed};
use udsactor::version::{build_days, copyright, version_number, version_string};
use udsactor::workers::{
    installer_exit_code, needs_rdp_access, parse_gui_args, parse_service_command, preconnect_args, register,
    service_exit_code, service_mode, unregister, GuiArgsError, PreConnect, RetryAction, RetryState,
    ServiceCommand, ServiceStartError,
};

fn s(v: &str) -> String {
    v.to_string()
}

// ---- logging ----

#[test]
fn stored_level_round_trips() {
    let mut active = ActiveLogLevel::new();
    assert_eq!(get_active_log_level(&active), Level::Info);
    for (name, level) in [
        ("error", Level::Error),
        ("WARN", Level::Warn),
        ("warning", Level::Warn),
        ("Info", Level::Info),
        ("debug", Level::Debug),
        ("TRACE", Level::Trace),
        ("verbose", Level::Info),
    ] {
        set_active_level_from_str(&mut active, name);
        assert_eq!(get_active_log_level(&active), level);
    }
    assert_eq!(level_code_for("trace"), 5);
    assert_eq!(level_code_for("bogus"), 3);
    assert_eq!(level_from_code(0), Level::Info);
    assert_eq!(level_from_code(200), Level::Info);
}

#[test]
fn level_order_is_total() {
    let all = [Level::Error, Level::Warn, Level::Info, Level::Debug, Level::Trace];
    for (i, a) in all.iter().enumerate() {
        for (j, b) in all.iter().enumerate() {
            assert_eq!(a.at_most(b), i <= j);
        }
    }
}

#[test]
fn logging_is_set_up_once() {
    let mut setup = LoggingSetup::new();
    assert!(setup_logging(&mut setup, "debug", None, LogType::Service));
    assert!(setup.initialized);
    assert_eq!(level_from_code(setup.active.code), Level::Debug);
    assert!(setup.panic_hook);
    assert!(!setup_logging(&mut setup, "error", Some("trace"), LogType::Tests));
    assert_eq!(level_from_code(setup.active.code), Level::Debug);
    assert!(setup.panic_hook);

    let mut setup = LoggingSetup::new();
    assert!(setup_logging(&mut setup, "debug", Some("WARN"), LogType::Tests));
    assert_eq!(level_from_code(setup.active.code), Level::Warn);
    assert!(!setup.panic_hook);

    let mut setup = LoggingSetup::new();
    assert!(setup_logging(&mut setup, "loud", None, LogType::Client));
    assert_eq!(level_from_code(setup.active.code), Level::Info);
}

#[test]
fn set_log_level_respects_environment() {
    let mut active = ActiveLogLevel::new();
    assert!(!set_log_level(&mut active, "debug", true));
    assert_eq!(get_active_log_level(&active), Level::Info);
    assert!(set_log_level(&mut active, "debug", false));
    assert_eq!(get_active_log_level(&active), Level::Debug);
}

#[test]
fn env_flags_and_keys() {
    assert!(is_on_value("TRUE") && is_on_value("1") && is_on_value("Yes") && is_on_value("on"));
    assert!(!is_on_value("enabled"));
    assert!(is_off_value("False") && is_off_value("0") && is_off_value("NO") && is_off_value("off"));
    assert!(!is_off_value("true"));
    assert_eq!(env_key(LogType::Service, "LOG_LEVEL"), "UDSACTOR_SERVICE_LOG_LEVEL");
    assert_eq!(env_key(LogType::Tests, "FORWARD_LOGS"), "UDSACTOR_TESTS_FORWARD_LOGS");
    assert_eq!(effective_level("info", Some("trace")), "trace");
    assert_eq!(effective_level("info", None), "info");
    assert!(use_datetime_flag(Some("True")));
    assert!(!use_datetime_flag(Some("1")));
    assert!(!use_datetime_flag(None));
}

#[test]
fn log_file_names() {
    assert_eq!(log_file_name(LogType::Client, None), "udsactor-client.log");
    assert_eq!(
        log_file_name(LogType::Service, Some(("HOST", "20250101-101010"))),
        "udsactor-service-HOST-20250101-101010.log"
    );
    assert_eq!(LogType::Config.name(), "config");
}

#[test]
fn stderr_settings() {
    assert!(stderr_enabled(LogType::Service, None));
    assert!(stderr_enabled(LogType::Client, Some("no")));
    assert!(!stderr_enabled(LogType::Client, Some("ON")));
    assert!(!stderr_enabled(LogType::Config, None));
    assert_eq!(stderr_filter(false, true, "info"), "off");
    assert_eq!(stderr_filter(true, true, "info"), "debug");
    assert_eq!(stderr_filter(true, false, "warn"), "warn");
    assert!(thread_ids_for("debug") && thread_ids_for("trace"));
    assert!(!thread_ids_for("DEBUG"));
}

#[test]
fn default_log_directories() {
    assert_eq!(default_log_dir(LogType::Service, false, true, "/tmpx"), "/var/log/udsactor");
    assert_eq!(default_log_dir(LogType::Config, false, false, "/tmpx"), "/tmp");
    assert_eq!(default_log_dir(LogType::Client, false, true, "/tmpx"), "/tmpx");
    assert_eq!(default_log_dir(LogType::Service, true, true, "C:\\Temp"), "C:\\Temp");
}

#[test]
fn rotation_plans() {
    assert!(rotation_plan(None, 10, 3).is_empty());
    assert!(rotation_plan(Some(9), 10, 3).is_empty());
    assert_eq!(
        rotation_plan(Some(10), 10, 3),
        vec![
            RotationStep::RemoveRotated(3),
            RotationStep::ShiftRotated(2),
            RotationStep::ShiftRotated(1),
            RotationStep::RotateCurrent
        ]
    );
    assert_eq!(rotation_plan(Some(11), 10, 1), vec![RotationStep::RemoveCurrent]);
    assert_eq!(
        rotation_plan(Some(16 * 1024 * 1024), 16 * 1024 * 1024, 2),
        vec![RotationStep::RemoveRotated(2), RotationStep::ShiftRotated(1), RotationStep::RotateCurrent]
    );
}

#[test]
fn message_visitor_formats_fields() {
    let mut v = MessageVisitor::new();
    v.record_str("message", "hello");
    v.record_str("user", "bob");
    v.record_debug("message", "\"quoted\"");
    v.record_debug("count", "3");
    assert_eq!(v.text, "hello user=bobquoted count=3");
}

#[test]
fn panic_report_texts() {
    assert_eq!(panic_message(Some("boom")), "boom");
    assert_eq!(panic_message(None), "Non-string panic payload");
    assert_eq!(panic_location(Some(("src/main.rs", 42))), "src/main.rs:42");
    assert_eq!(panic_location(None), "unknown location");
}

// ---- flood guard ----

#[test]
fn fresh_guard_allows_exactly_the_quota() {
    let mut guard = FloodGuard::new();
    let now = 1_700_000_000u64;
    let mut allowed = 0;
    for _ in 0..(MAX_PER_WINDOW + 25) {
        if flood_allow(&mut guard, now) {
            allowed += 1;
        }
    }
    assert_eq!(allowed, MAX_PER_WINDOW);
    assert!(!flood_allow(&mut guard, now + WINDOW_SECS - 1));
    assert!(flood_allow(&mut guard, now + WINDOW_SECS));
}

#[test]
fn flood_guard_steps() {
    let mut g = FloodGuard::new();
    assert!(flood_allow(&mut g, 100));
    assert_eq!(g, FloodGuard { window_start: 100, count: 1 });
    let mut g = FloodGuard { window_start: 100, count: 5 };
    assert!(flood_allow(&mut g, 120));
    assert_eq!(g, FloodGuard { window_start: 100, count: 6 });
    let mut g = FloodGuard { window_start: 100, count: 60 };
    assert!(!flood_allow(&mut g, 159));
    assert_eq!(g, FloodGuard { window_start: 100, count: 60 });
    assert!(flood_allow(&mut g, 160));
    assert_eq!(g, FloodGuard { window_start: 160, count: 1 });
    // A clock that goes back stays in the current window.
    let mut g = FloodGuard { window_start: 100, count: 60 };
    assert!(!flood_allow(&mut g, 50));
}

#[test]
fn flood_guard_saturates_at_large_times() {
    let ts = (u64::MAX / 4) ^ 0xFEED_BEEF_CAFE_BABE;
    let mut guard = FloodGuard::new();
    let mut allowed = 0;
    while flood_allow(&mut guard, ts) && allowed < 1000 {
        allowed += 1;
    }
    assert_eq!(allowed, MAX_PER_WINDOW);
    assert!(!flood_allow(&mut guard, ts));
}

#[test]
fn flood_guard_first_call_is_allowed_or_rejected_consistently() {
    let ts = (u64::MAX / 4) ^ 0xFEED_BEEF_CAFE_BABE;
    let mut guard = FloodGuard::new();
    let mut allowed = 0;
    while flood_allow(&mut guard, ts) && allowed < 1000 {
        allowed += 1;
    }
    assert!(
        allowed >= 1,
        "flood_allow granted an unexpected number of calls ({allowed}) within the window"
    );
    assert!(!flood_allow(&mut guard, ts));
}

#[test]
fn flood_guard_resets_after_window_slides() {
    let t0 = (u64::MAX / 2) ^ 0xDEAD_BEEF_CAFE_BABE;
    let t1 = t0 + WINDOW_SECS + 1;
    let mut guard = FloodGuard::new();
    let mut allowed = 0;
    while allowed <= MAX_PER_WINDOW && flood_allow(&mut guard, t0) {
        allowed += 1;
    }
    assert!((1..=MAX_PER_WINDOW).contains(&allowed));
    assert!(!flood_allow(&mut guard, t0));
    assert!(flood_allow(&mut guard, t1));
}

#[test]
fn flood_guard_at_time_zero_always_allows() {
    let mut guard = FloodGuard::new();
    for _ in 0..100 {
        assert!(flood_allow(&mut guard, 0));
    }
}

// ---- forwarder ----

#[test]
fn forwarder_slot_keeps_first_target() {
    let mut slot: ForwarderSlot<u32> = ForwarderSlot::new();
    assert!(!is_forwarder_set(&slot));
    assert!(set_log_forwarder(&mut slot, 7));
    assert!(!set_log_forwarder(&mut slot, 9));
    assert!(is_forwarder_set(&slot));
    assert_eq!(slot.target, Some(7));
}

#[test]
fn forward_layer_settings() {
    let l = LogForwardLayer::for_type(&LogType::Service, Some("off"), Some("debug"));
    assert!(!l.enabled);
    assert_eq!(l.min_level, Level::Debug);
    let l = LogForwardLayer::for_type(&LogType::Service, Some("yes"), Some("nonsense"));
    assert!(l.enabled);
    assert_eq!(l.min_level, Level::Warn);
    assert!(l.enabled(Level::Error) && l.enabled(Level::Warn));
    assert!(!l.enabled(Level::Info));
}

#[test]
fn forwarding_needs_target_quota_and_text() {
    let mut guard = FloodGuard::new();
    assert!(!on_event(false, &mut guard, 1000, "x"));
    assert_eq!(guard, FloodGuard { window_start: 0, count: 0 });
    assert!(!on_event(true, &mut guard, 1000, ""));
    assert_eq!(guard, FloodGuard { window_start: 1000, count: 1 });
    assert!(on_event(true, &mut guard, 1000, "x"));
}

// ---- event log ----

#[test]
fn eventlog_layer_and_reports() {
    let layer = EventLogLayer::for_type(&LogType::Service, Some("TRUE"), None);
    assert!(!layer.enabled);
    let layer = EventLogLayer::for_type(&LogType::Service, Some("false"), None);
    assert_eq!(layer.min_level, Level::Info);
    assert!(layer.enabled(Level::Warn));
    assert!(layer.enabled(Level::Info));
    assert!(!layer.enabled(Level::Debug));
    let layer = EventLogLayer::for_type(&LogType::Service, None, Some("DEBUG"));
    assert_eq!(layer.min_level, Level::Debug);
    assert!(layer.enabled(Level::Debug));
    assert!(!layer.enabled(Level::Trace));
    let layer = EventLogLayer::for_type(&LogType::Service, None, Some("error"));
    assert!(layer.enabled(Level::Error));
    assert!(!layer.enabled(Level::Warn));
    let layer = EventLogLayer::for_type(&LogType::Service, None, Some("nonsense"));
    assert_eq!(layer.min_level, Level::Info);
    assert_eq!(event_report(Level::Warn, ""), None);
    assert_eq!(event_report(Level::Error, "ok"), Some((1, vec![111, 107, 0])));
}

#[test]
fn utf16_surrogates() {
    assert_eq!(encode_wide("é😀"), vec![0xE9, 0xD83D, 0xDE00, 0]);
    assert_eq!(encode_wide(""), vec![0]);
}

#[test]
fn event_source_life_cycle() {
    let mut reg = EventSourceRegistry::new();
    assert_eq!(reg.get_or_register_handle(), HandleLookup::Register);
    assert_eq!(reg.record_registration(Some(5)), (Some(5), false));
    assert_eq!(reg.get_or_register_handle(), HandleLookup::Cached(5));
    assert_eq!(reg.record_registration(Some(8)), (Some(5), false));
    assert_eq!(udsactor::eventlog::shutdown(&mut reg), Some(5));
    assert_eq!(udsactor::eventlog::shutdown(&mut reg), None);
    assert_eq!(reg.handle, None);

    let mut failing = EventSourceRegistry::new();
    assert_eq!(failing.record_registration(None), (None, true));
    assert_eq!(failing.record_registration(None), (None, false));
    assert_eq!(failing.get_or_register_handle(), HandleLookup::Disabled);
}

#[test]
fn event_source_registration_settles() {
    // A series of events: only the first one registers.
    let mut reg = EventSourceRegistry::new();
    let outcomes = [Some(5u64), Some(8), None, Some(9)];
    let mut seen = Vec::new();
    for outcome in outcomes {
        let step = match reg.get_or_register_handle() {
            HandleLookup::Register => {
                let (h, warn) = reg.record_registration(outcome);
                (HandleLookup::Register, h, warn)
            }
            HandleLookup::Cached(h) => (HandleLookup::Cached(h), Some(h), false),
            HandleLookup::Disabled => (HandleLookup::Disabled, None, false),
        };
        seen.push(step);
    }
    assert_eq!(seen[0], (HandleLookup::Register, Some(5), false));
    for later in &seen[1..] {
        assert_eq!(*later, (HandleLookup::Cached(5), Some(5), false));
    }

    // A failed first registration: one warning, then every event skipped.
    let mut reg = EventSourceRegistry::new();
    let mut warnings = 0;
    for outcome in [None, Some(3u64), None] {
        match reg.get_or_register_handle() {
            HandleLookup::Register => {
                let (h, warn) = reg.record_registration(outcome);
                assert_eq!(h, None);
                if warn {
                    warnings += 1;
                }
            }
            other => assert_eq!(other, HandleLookup::Disabled),
        }
    }
    assert_eq!(warnings, 1);
}

#[test]
fn registry_values() {
    assert_eq!(registry_string_bytes("Ab"), vec![b'A', 0, b'b', 0, 0, 0]);
    assert_eq!(registry_string_bytes("a\0b"), vec![b'a', 0, 0, 0]);
    let msg = event_message_file_bytes();
    assert_eq!(msg.len(), ("%SystemRoot%\\System32\\EventCreate.exe".len() + 1) * 2);
    assert_eq!(types_supported_bytes(), vec![7, 0, 0, 0]);
}

// ---- configuration ----

#[test]
fn configuration_builders() {
    let c = create_config("broker.example", true);
    assert_eq!(c.broker_url, "https://broker.example/uds/rest/");
    assert_eq!(c.actor_type, ActorType::Managed);
    let c = broker_api_config("h", false, "");
    assert!(c.config.ssl_ciphers.is_none());
    let c = broker_api_config("h", false, "AES");
    assert_eq!(c.config.ssl_ciphers.as_deref(), Some("AES"));
}

#[test]
fn host_is_read_back_from_url() {
    assert_eq!(host_of_url("https://broker.example/uds/rest/"), "broker.example");
    assert_eq!(host_of_url("https://https://h/uds/rest//uds/rest/"), "h");
    assert_eq!(host_of_url("plain"), "plain");
}

#[test]
fn cipher_lists() {
    assert!(validate_ciphers(""));
    assert!(validate_ciphers("AES128:AES256"));
    assert!(!validate_ciphers("AES128::AES256"));
    assert!(!validate_ciphers("AES128: "));
    assert!(!validate_ciphers(":AES"));
    assert!(!validate_ciphers(" "));
}

#[test]
fn log_level_choice_is_capped() {
    assert_eq!(clamp_log_level(2), 2);
    assert_eq!(clamp_log_level(9), 4);
    assert_eq!(clamp_log_level(-1), 4);
    assert_eq!(clamp_log_level(258), 2);
}

#[test]
fn forms_are_filled_from_configuration() {
    let mut c = create_config("broker.example", false);
    let f = fill_window_fields(&c);
    assert!(!f.test_enabled);
    assert_eq!(f.server_host.as_deref(), Some("broker.example"));
    c.master_token = Some(s("tok"));
    c.restrict_net = Some(s("10.0.0.0/8"));
    assert!(fill_window_fields(&c).test_enabled);
    assert!(can_test(&c));
    let u = fill_unmanaged_fields(&c);
    assert_eq!(u.service_token, "tok");
    assert_eq!(u.net_restriction, "10.0.0.0/8");
    c.broker_url = String::new();
    assert!(fill_window_fields(&c).server_host.is_none());
    assert!(!can_test(&c));
}

#[test]
fn forms_select_the_saved_log_level() {
    for idx in 0..=4 {
        let c = unmanaged_config("h", "t", "", idx, "", true).unwrap();
        assert_eq!(fill_unmanaged_fields(&c).log_level, idx as u32);
        assert_eq!(fill_window_fields(&c).log_level, idx as u32);
    }
    let c = unmanaged_config("h", "t", "", 9, "", true).unwrap();
    assert_eq!(fill_unmanaged_fields(&c).log_level, 4);
}

#[test]
fn unmanaged_forms_are_validated() {
    assert_eq!(unmanaged_config("  ", "t", "", 1, "", true).unwrap_err(), FormError::HostRequired);
    let c = unmanaged_config(" h ", " ", " net ", 7, " X ", true).unwrap();
    assert_eq!(c.broker_url, "https://h/uds/rest/");
    assert!(c.master_token.is_none());
    assert_eq!(c.restrict_net.as_deref(), Some("net"));
    assert_eq!(c.log_level, 4);
    assert_eq!(c.config.ssl_ciphers.as_deref(), Some("X"));
    assert_eq!(c.actor_type, ActorType::Unmanaged);
    assert_eq!(
        unmanaged_config_legacy("h", " ", "", 1, 1).unwrap_err(),
        FormError::HostAndTokenRequired
    );
    let c = unmanaged_config_legacy("h", "tok", "", 1, 0).unwrap();
    assert!(!c.verify_ssl);
    assert_eq!(c.restrict_net.as_deref(), Some(""));
}

#[test]
fn registration_steps() {
    let names = vec![s("ldap"), s("Internal"), s("ad")];
    let (sorted, choices) = authenticator_list(&names);
    assert_eq!(sorted, vec![s("Internal"), s("ad"), s("ldap")]);
    assert_eq!(choices, vec![s("Administration"), s("Internal"), s("ad"), s("ldap")]);
    assert_eq!(selected_authenticator(0, &sorted), "admin");
    assert_eq!(selected_authenticator(2, &sorted), "ad");
    assert_eq!(selected_authenticator(4, &sorted), "admin");
    assert_eq!(selected_authenticator(-3, &sorted), "admin");
    assert_eq!(
        registration_inputs_valid("h", " ", "p").unwrap_err(),
        FormError::CredentialsRequired
    );
    assert!(registration_inputs_valid("h", "u", " ").is_ok());
    assert!(registration_inputs_valid("h", "u", "").is_err());
    assert_eq!(full_username("bob", "ad"), "bob@ad");
    let cmds = register_commands(" pre ", "  ", "post");
    assert_eq!(cmds.pre_command.as_deref(), Some("pre"));
    assert!(cmds.runonce_command.is_none());
    let c = registered_config("h", true, "master", &cmds, 3, "");
    assert_eq!(c.master_token.as_deref(), Some("master"));
    assert_eq!(c.post_command.as_deref(), Some("post"));
    assert_eq!(c.log_level, 3);
}

#[test]
fn name_sorting_is_stable_and_ordered() {
    let names = vec![s("b"), s("a"), s("ab"), s(""), s("a")];
    assert_eq!(sort_names(&names), vec![s(""), s("a"), s("a"), s("ab"), s("b")]);
    assert!(names_le("a", "ab") && !names_le("ab", "a") && names_le("Z", "a"));
}

// ---- REST session ----

#[test]
fn tests_test_logout() {
    let mut api = ClientRestSession::new("http://127.0.0.1:1234");
    api.set_callback_url("cb");
    api.set_session_id("sessid");
    assert_eq!(api.api_url("logout"), "http://127.0.0.1:1234/ui/logout");
    let body = api.logout("user", Some("type"));
    assert_eq!(body.username, "user");
    assert_eq!(body.session_type, "type");
    assert_eq!(body.callback_url, "cb");
    assert_eq!(body.session_id, "sessid");
}

#[test]
fn rest_session_flow() {
    let mut session = ClientRestSession::new("https://127.0.0.1:43910//");
    assert_eq!(session.api_url("register"), "https://127.0.0.1:43910/ui/register");
    let reg = session.register("http://callback");
    assert_eq!(reg.callback_url, "http://callback");
    let login = session.login("user", None);
    assert_eq!(login.session_type, "UNKNOWN");
    let result = LoginResult {
        ip: s("1.2.3.4"),
        hostname: s("h"),
        deadline: s(""),
        max_idle: 0,
        session_id: s("sessid"),
    };
    session.logged_in(&result, "user", Some("type"));
    let logout = session.logout("user", Some("type"));
    assert_eq!(logout.username, "user");
    assert_eq!(logout.session_type, "type");
    assert_eq!(logout.session_id, "sessid");
    assert_eq!(logout.callback_url, "http://callback");
    let other = session.logout("other", None);
    assert_eq!(other.username, "other");
    assert_eq!(other.session_type, "UNKNOWN");
    assert_eq!(other.session_id, "sessid");
    assert_eq!(session.unregister().callback_url, "http://callback");
    session.unregistered();
    assert_eq!(session.callback_url, "");
    assert!(ping_ok(&PongResponse(s("pong"))));
    assert!(!ping_ok(&PongResponse(s("Pong"))));
    assert_eq!(logout_request("u", "t", None).session_id, "");
}

// ---- HTTP bodies ----

#[test]
fn screenshot_is_base64() {
    assert_eq!(screenshot_response(Some(b"hello world~".to_vec())).result, "aGVsbG8gd29ybGR+");
    assert_eq!(screenshot_response(Some(vec![0xff])).result, "/w==");
    assert_eq!(screenshot_response(Some(vec![1, 2])).result, "AQI=");
    assert_eq!(screenshot_response(None).result, "");
    let a: udsactor::http::ApiResponse<&str> = ok("ok");
    assert_eq!(a.result, Some("ok"));
    let e: udsactor::http::ApiResponse<String> = err("timeout");
    assert_eq!(e.error.as_deref(), Some("timeout"));
}

// ---- monitors ----

#[test]
fn deadline_watcher() {
    assert_eq!(effective_deadline(None), 0);
    assert_eq!(effective_deadline(Some(300)), 0);
    assert_eq!(effective_deadline(Some(1000)), 700);
    let (_, a) = DeadlineTask::start(Some(100));
    assert_eq!(a, MonitorAction::WaitForStop);
    let (mut t, a) = DeadlineTask::start(Some(1000));
    assert_eq!(a, MonitorAction::WaitTimeout(700));
    assert_eq!(t.on_wait(false), MonitorAction::WaitTimeout(300));
    assert_eq!(t.on_wait(false), MonitorAction::StopSession);
    assert_eq!(t.on_wait(false), MonitorAction::Finish);
    let (mut t, _) = DeadlineTask::start(Some(1000));
    assert_eq!(t.on_wait(true), MonitorAction::Finish);
    let (mut t, _) = DeadlineTask::start(Some(1000));
    assert_eq!(t.on_wait(false), MonitorAction::WaitTimeout(300));
    assert_eq!(t.on_wait(true), MonitorAction::Finish);
}

#[test]
fn session_watcher_polls() {
    assert!(!should_watch_session(""));
    assert!(should_watch_session("c2"));
    assert_eq!(session_watch_tick(true, None, 0, true), WatchAction::Exit);
    assert_eq!(session_watch_tick(false, Some("active"), 0, false), WatchAction::Continue);
    assert_eq!(session_watch_tick(false, Some("active"), 42, true), WatchAction::Continue);
    assert_eq!(
        session_watch_tick(false, Some("closing"), 42, true),
        WatchAction::SignalStop(WatchDecision::SessionClosing)
    );
    assert_eq!(session_watch_tick(false, None, 42, true), WatchAction::SignalStop(WatchDecision::SessionGone));
    assert_eq!(
        session_watch_tick(false, Some("online"), 42, false),
        WatchAction::SignalStop(WatchDecision::LeaderGone)
    );
}

#[test]
fn idle_watcher() {
    assert!(IdleMonitor::start(None).is_none());
    assert!(IdleMonitor::start(Some(0)).is_none());
    let mut m = IdleMonitor::start(Some(10)).unwrap();
    let t = |secs| Some(IdleTime { secs, nanos: 0 });
    assert_eq!(m.tick(true, t(1)).notify, true);
    assert_eq!(m.tick(true, t(5)).notify, false);
    assert_eq!(m.tick(true, t(6)).notify, false);
    assert_eq!(m.tick(true, t(0)).notify, false);
    assert_eq!(m.tick(true, t(4)).notify, true);
    assert_eq!(m.tick(true, t(2)).notify, true);
    assert!(!m.tick(true, t(10)).stop);
    assert!(m.tick(true, Some(IdleTime { secs: 10, nanos: 1 })).stop);
    assert!(m.tick(false, t(0)).stop);
    assert!(!m.tick(true, None).stop);
}

#[test]
fn session_watch() {
    assert_eq!(session_watch_step(None, 0, true), WatchDecision::SessionGone);
    assert_eq!(session_watch_step(Some("closing"), 10, true), WatchDecision::SessionClosing);
    assert_eq!(session_watch_step(Some("active"), 10, false), WatchDecision::LeaderGone);
    assert_eq!(session_watch_step(Some("active"), 0, false), WatchDecision::Continue);
    assert!(process_alive_from(0, false) && process_alive_from(-1, true) && !process_alive_from(-1, false));
}

// ---- workers ----

#[test]
fn preconnect_handling() {
    let msg = PreConnect {
        user: s("jdoe"),
        protocol: s("nx"),
        ip: Some(s("10.0.0.25")),
        hostname: Some(s("laptop-01")),
        udsuser: Some(s("jdoe@corp")),
    };
    assert_eq!(preconnect_args(&msg).join(" "), "jdoe nx 10.0.0.25 laptop-01 jdoe@corp");
    let msg = PreConnect { ip: None, hostname: None, udsuser: None, ..msg };
    assert_eq!(preconnect_args(&msg).join(" "), "jdoe nx unknown unknown unknown");
    assert!(needs_rdp_access("RDP") && !needs_rdp_access("nx"));
}

#[test]
fn retry_back_off() {
    let mut r = RetryState::new(7);
    let mut pauses = vec![];
    loop {
        match r.on_attempt(false) {
            RetryAction::Sleep(ms) => pauses.push(ms),
            RetryAction::ReturnErr => break,
            RetryAction::ReturnOk => unreachable!(),
        }
    }
    assert_eq!(pauses, vec![500, 1000, 2000, 4000, 8000, 8000]);
    let mut once = RetryState::new(0);
    assert_eq!(once.on_attempt(false), RetryAction::ReturnErr);
    let mut good = RetryState::new(3);
    assert_eq!(good.on_attempt(true), RetryAction::ReturnOk);
}

#[test]
fn service_entry_points() {
    assert_eq!(parse_service_command(&vec![s("svc")]), ServiceCommand::Run);
    assert_eq!(parse_service_command(&vec![s("svc"), s("--install")]), ServiceCommand::Install);
    assert_eq!(parse_service_command(&vec![s("svc"), s("--uninstall")]), ServiceCommand::Uninstall);
    assert_eq!(parse_service_command(&vec![s("svc"), s("--x")]), ServiceCommand::Unknown);
    assert_eq!(installer_exit_code(true), 1);
    assert_eq!(service_exit_code(true), Some(1));
    assert_eq!(service_exit_code(false), None);
    assert_eq!(
        service_mode(false, ActorType::Managed),
        Err(ServiceStartError::InvalidConfiguration)
    );
    assert_eq!(service_mode(true, ActorType::Unmanaged), Ok(ActorType::Unmanaged));
    assert!(register("a", "b", "c").is_ok());
    assert!(unregister("a").is_ok());
    assert_eq!(parse_gui_args(&vec![s("g")]), Err(GuiArgsError::Usage));
    assert_eq!(
        parse_gui_args(&vec![s("g"), s("other"), s("t"), s("m")]),
        Err(GuiArgsError::UnknownCommand)
    );
    assert_eq!(
        parse_gui_args(&vec![s("g"), s("message-dialog"), s("t"), s("m")]),
        Ok((s("t"), s("m")))
    );
}

// ---- domain ----

fn options() -> JoinDomainOptions {
    JoinDomainOptions {
        domain: s("corp.local"),
        account: s("admin"),
        password: s("pw"),
        ou: Some(s("OU=X")),
        client_software: Some(s("sssd")),
        server_software: Some(s("active-directory")),
        membership_software: Some(s("automatically")),
        ssl: Some(true),
        automatic_id_mapping: Some(false),
    }
}

#[test]
fn realm_command_line() {
    assert_eq!(
        realm_join_args(&options()),
        vec![
            s("join"),
            s("--user=admin"),
            s("--client-software=sssd"),
            s("--server-software=active-directory"),
            s("--computer-ou=OU=X"),
            s("--use-ldaps"),
            s("corp.local")
        ]
    );
    let ipa = JoinDomainOptions { server_software: Some(s("ipa")), ssl: None, automatic_id_mapping: Some(true), ..options() };
    assert!(needs_ipa_hostname(&ipa));
    assert_eq!(
        realm_join_args(&ipa),
        vec![
            s("join"),
            s("--user=admin"),
            s("--client-software=sssd"),
            s("--server-software=ipa"),
            s("--automatic-id-mapping=no"),
            s("corp.local")
        ]
    );
    assert_eq!(ipa_fqdn("HOST", "corp.local"), "host.corp.local");
}

#[test]
fn membership_decisions() {
    assert_eq!(membership_first_step(None, "corp.local"), MembershipStep::Join);
    assert_eq!(membership_first_step(Some("CORP.local"), "corp.local"), MembershipStep::ProbeTrust);
    assert_eq!(membership_first_step(Some("other"), "corp.local"), MembershipStep::Join);
    assert!(!join_after_probe(TrustProbe::Healthy));
    assert!(join_after_probe(TrustProbe::Failed) && join_after_probe(TrustProbe::ToolMissing));
    assert!(join_after_probe(TrustProbe::SpawnFailed));
    assert!(missing_tool_is_warning(&options()));
    let ipa = JoinDomainOptions { server_software: Some(s("ipa")), ..options() };
    assert!(!missing_tool_is_warning(&ipa));
}

#[test]
fn host_and_realm_names() {
    assert_eq!(short_hostname("web01.corp.local"), "web01");
    assert_eq!(short_hostname("web01"), "web01");
    assert_eq!(short_hostname(".x"), "");
    assert_eq!(first_nonblank_line("\n  \n corp.local \r\nother\n"), Some(s("corp.local")));
    assert_eq!(first_nonblank_line(" \n\t\n"), None);
    assert_eq!(first_nonblank_line("last"), Some(s("last")));
    assert!(timesyncd_active(true, "active\n"));
    assert!(!timesyncd_active(true, "inactive"));
    assert!(!timesyncd_active(false, "active"));
}

// ---- recorded calls ----

#[test]
fn recorded_calls() {
    let mut calls = Calls::new();
    calls.push("operations::ensure_user_can_rdp(a)");
    calls.push("operations::ensure_user_can_rdp(b)");
    calls.push("session::stop()");
    assert!(calls.contains_prefix("session::"));
    assert!(!calls.contains_prefix("api::"));
    assert_eq!(calls.count_calls("operations::ensure_user_can_rdp("), 2);
    calls.assert_called("session::stop");
    calls.assert_not_called("api::");
    assert_eq!(calls.dump().len(), 3);
}

#[test]
fn stand_ins_record_calls() {
    let mut calls = Calls::new();
    let api = FakeApi::new();
    let login = api.login(&mut calls, "bob", Some("rdp")).unwrap();
    assert_eq!(login.session_id, "sessid");
    api.logout(&mut calls, None).unwrap();
    assert_eq!(calls.dump(), vec![s("api::login(bob,Some(\"rdp\"))"), s("api::logout(None)")]);

    let mut calls = Calls::new();
    let actions = FakeActions::new();
    let png = actions.screenshot(&mut calls).unwrap();
    assert!(png.starts_with(&[0x89, 0x50, 0x4E, 0x47]));
    assert_eq!(actions.run_script(&mut calls, "echo test").unwrap(), "Executed: echo test");
    actions.notify_user(&mut calls, "hi \"you\"").unwrap();
    assert_eq!(calls.dump()[2], "actions::notify_user(\"hi \\\"you\\\"\")");

    let mut calls = Calls::new();
    let ops = FakeOperations::new();
    ops.reboot(&mut calls, Some(12)).unwrap();
    ops.reboot(&mut calls, None).unwrap();
    assert_eq!(ops.get_computer_name(&mut calls).unwrap(), "FakeComputer");
    assert_eq!(ops.get_idle_duration(&mut calls).unwrap(), 600);
    assert_eq!(
        calls.dump()[..2].to_vec(),
        vec![s("operations::reboot(Some(12))"), s("operations::reboot(None)")]
    );

    let mut calls = Calls::new();
    let mut sm = FakeSessionManager::new();
    assert!(sm.is_running(&mut calls));
    sm.stop(&mut calls);
    assert!(!sm.is_running(&mut calls));
    assert_eq!(calls.count_calls("session::is_running()"), 2);
}

#[test]
fn stand_in_platform_shares_one_log() {
    let mut p = create_platform();
    assert!(p.session_manager.is_running(&mut p.calls));
    p.api.login(&mut p.calls, "bob", None).unwrap();
    p.operations.logoff(&mut p.calls).unwrap();
    p.actions.run_script(&mut p.calls, "x").unwrap();
    p.session_manager.stop(&mut p.calls);
    assert_eq!(
        p.calls.dump(),
        vec![
            s("session::is_running()"),
            s("api::login(bob,None)"),
            s("operations::logoff()"),
            s("actions::run_script(x)"),
            s("session::stop()"),
        ]
    );
    p.calls.assert_called("operations::logoff");
    p.calls.assert_not_called("api::logout");
}

// ---- text and versions ----

#[test]
fn text_helpers() {
    assert_eq!(trimmed("\u{3000} a b \n"), "a b");
    assert_eq!(trim_start_matches("xxxyx", "x"), "yx");
    assert_eq!(trim_end_matches("a//", "/"), "a");
    assert_eq!(trim_end_matches("abab", ""), "abab");
    assert_eq!(to_decimal(0), "0");
    assert_eq!(to_decimal(1234567890), "1234567890");
}

#[test]
fn version_information() {
    assert_eq!(version_number(5, 0, 1, 19000), (5u64 << 48) | (1 << 16) | 19000);
    assert_eq!(version_string(5, 0, 1, 19000), "5.0.1.19000");
    assert_eq!(copyright(2025), "Copyright © 2012-2025 Virtual Cable S.L.U.");
    assert_eq!(build_days(1972, 7, 1), Some(0));
    assert_eq!(build_days(1972, 7, 2), Some(1));
    assert_eq!(build_days(1973, 7, 1), Some(365));
    assert_eq!(build_days(2023, 2, 29), None);
    assert_eq!(build_days(2024, 2, 29), Some(18870));
}

#[test]
fn platform_hands_out_its_services() {
    let p = udsactor::platform::Platform::from_parts(1u32, s("ops"), vec![3u8], 4u64);
    assert_eq!(p.session_manager(), 1);
    assert_eq!(p.operations(), "ops");
    assert_eq!(p.ws_client(), vec![3]);
    assert_eq!(p.get_stop(), 4);
    p.shutdown();
}

#[test]
fn registration_and_test_status_lines() {
    let req = register_request("5.0", "19000", "host", "bob", "ad", "1.2.3.4", "aa:bb", register_commands("", "", ""), 2, "Linux");
    assert_eq!(req.username, "bob@ad");
    assert_eq!(req.os, "Linux");
    assert_eq!(registration_status(&RegistrationOutcome::Saved), "Registration successful");
    assert_eq!(registration_status(&RegistrationOutcome::LoginFailed(s("denied"))), "Login failed: denied");
    assert_eq!(registration_status(&RegistrationOutcome::RegisterFailed(s("x"))), "Registration failed: x");
    assert_eq!(registration_status(&RegistrationOutcome::SaveFailed(s("disk"))), "Failed to save config: disk");
    assert_eq!(test_status(Ok("v5"), true), "Connection successful: v5");
    assert_eq!(test_status(Ok("v5"), false), "Connection successful");
    assert_eq!(test_status(Err("refused"), false), "Connection failed: refused");
}

#[test]
fn actor_api_routes() {
    let routes = actor_routes();
    assert_eq!(routes.len(), 8);
    assert!(routes.contains(&(Method::Post, "/actor/{secret}/preconnect", Endpoint::PreConnect)));
    assert!(routes.contains(&(Method::Post, "/actor/{secret}/preConnect", Endpoint::PreConnect)));
    assert!(routes.contains(&(Method::Get, "/", Endpoint::Information)));
    assert_eq!(response_timeout_secs(Endpoint::Screenshot), Some(5));
    assert_eq!(response_timeout_secs(Endpoint::Uuid), Some(2));
    assert_eq!(response_timeout_secs(Endpoint::Logout), None);
    assert_eq!(udsactor::http::information_page("5.0", "1"), "<h1>UDS Actor 5.0.1</h1>");
}

#[test]
fn version_fields_are_recoverable() {
    let v = version_number(4, 3, 2, 1);
    assert_eq!(v >> 48, 4);
    assert_eq!((v >> 32) & 0xffff, 3);
    assert_eq!((v >> 16) & 0xffff, 2);
    assert_eq!(v & 0xffff, 1);
}

// ---- log file location ----

#[test]
fn log_file_location() {
    assert_eq!(
        log_file_path(LogType::Tests, Some("/srv/logs"), "/tmp", None, "", "", false),
        "/srv/logs/udsactor-tests.log"
    );
    assert_eq!(
        log_file_path(LogType::Service, None, "/var/log/udsactor", Some("TRUE"), "pc1", "20250101-120000", false),
        "/var/log/udsactor/udsactor-service-pc1-20250101-120000.log"
    );
    assert_eq!(
        log_file_path(LogType::Client, Some("/x/"), "/tmp", Some("yes"), "pc1", "s", false),
        "/x/udsactor-client.log"
    );
    assert_eq!(join_log_path("C:\\Temp", "a.log", true), "C:\\Temp\\a.log");
    assert_eq!(join_log_path("C:\\Temp\\", "a.log", true), "C:\\Temp\\a.log");
    assert_eq!(join_log_path("C:", "a.log", true), "C:a.log");
    assert_eq!(join_log_path("", "a.log", false), "a.log");
    assert_eq!(join_log_path("/tmp/", "a.log", false), "/tmp/a.log");
    assert_eq!(join_log_path("dir\\x", "a.log", false), "dir\\x/a.log");
}

// ---- realm membership ----

#[test]
fn realm_list_outcomes() {
    assert_eq!(domain_name_from(&RealmListRun::NotInstalled), Err(DomainNameError::RealmMissing));
    assert_eq!(domain_name_from(&RealmListRun::SpawnFailed), Err(DomainNameError::SpawnFailed));
    assert_eq!(
        domain_name_from(&RealmListRun::Exited { success: false, stdout: s("corp.local\n") }),
        Err(DomainNameError::ListFailed)
    );
    assert_eq!(
        domain_name_from(&RealmListRun::Exited { success: true, stdout: s("\n  corp.local \nb\n") }),
        Ok(Some(s("corp.local")))
    );
    assert_eq!(domain_name_from(&RealmListRun::Exited { success: true, stdout: s(" \n") }), Ok(None));
}

// ---- registration flow ----

#[test]
fn registration_flow_steps() {
    let (st, a) = registration_step(RegistrationState::Idle, RegistrationEvent::Submitted { inputs_valid: false });
    assert_eq!(st, RegistrationState::Finished);
    assert!(matches!(a, RegistrationAction::Stop));

    let (st, a) = registration_step(RegistrationState::Idle, RegistrationEvent::Submitted { inputs_valid: true });
    assert_eq!(st, RegistrationState::AwaitingLogin);
    assert!(matches!(a, RegistrationAction::Login));
    let (st, a) = registration_step(st, RegistrationEvent::LoggedIn(Ok(s("tok"))));
    assert_eq!(st, RegistrationState::AwaitingRegister);
    assert!(matches!(a, RegistrationAction::Register(ref t) if t == "tok"));
    let (st, a) = registration_step(st, RegistrationEvent::Registered(Ok(s("master"))));
    assert_eq!(st, RegistrationState::AwaitingSave);
    assert!(matches!(a, RegistrationAction::Save(ref t) if t == "master"));
    let (st, a) = registration_step(st, RegistrationEvent::Saved(Ok(())));
    assert_eq!(st, RegistrationState::Finished);
    match a {
        RegistrationAction::Report(o) => assert_eq!(registration_status(&o), "Registration successful"),
        other => panic!("unexpected {:?}", other),
    }

    let (_, a) = registration_step(RegistrationState::AwaitingLogin, RegistrationEvent::LoggedIn(Err(s("bad"))));
    match a {
        RegistrationAction::Report(o) => assert_eq!(registration_status(&o), "Login failed: bad"),
        other => panic!("unexpected {:?}", other),
    }
    let (_, a) = registration_step(RegistrationState::AwaitingRegister, RegistrationEvent::Registered(Err(s("no"))));
    match a {
        RegistrationAction::Report(o) => assert_eq!(registration_status(&o), "Registration failed: no"),
        other => panic!("unexpected {:?}", other),
    }
    let (_, a) = registration_step(RegistrationState::AwaitingSave, RegistrationEvent::Saved(Err(s("disk"))));
    match a {
        RegistrationAction::Report(o) => assert_eq!(registration_status(&o), "Failed to save config: disk"),
        other => panic!("unexpected {:?}", other),
    }
    let (st, a) = registration_step(RegistrationState::Finished, RegistrationEvent::Saved(Ok(())));
    assert_eq!(st, RegistrationState::Finished);
    assert!(matches!(a, RegistrationAction::Stop));
}

#[test]
fn base64_size_limit() {
    assert!(base64_fits(0));
    assert!(base64_fits(1_000_000));
    assert!(!base64_fits(usize::MAX));
    assert!(base64_fits(usize::MAX / 4 * 3 - 3));
}

#[test]
fn ascii_names_are_lowercased() {
    assert_eq!(parse_level("DEBUG"), Some(Level::Debug));
    assert!(needs_rdp_access("RDP"));
}
