use sigbot::audit::{
    audit_log, audit_log_default, console_text, default_service_name, init_audit_logger, log_file_name, log_line,
    mqtt_topic, AuditDelivery, AuditGuard, AuditLogConfig, AuditLogEntry, AuditLogError, AuditLogLevel, AuditLogger,
    FileAuditLogProvider, FileProviderConfig, MqttAuditLogProvider, MqttProviderConfig, ProviderConfig,
};

fn file_config(service: &str, dir: &str) -> AuditLogConfig {
    AuditLogConfig {
        service_name: service.to_string(),
        workflow_id: None,
        node_id: None,
        provider_config: ProviderConfig::File(FileProviderConfig {
            log_dir: dir.to_string(),
            max_files: 10,
            rotation_size_mb: 5,
        }),
    }
}

fn mqtt_config(prefix: Option<&str>, user: Option<&str>, pass: Option<&str>) -> MqttProviderConfig {
    MqttProviderConfig {
        host: "broker".to_string(),
        port: 1883,
        client_id: "client-1".to_string(),
        topic_prefix: prefix.map(|p| p.to_string()),
        tenant_id: "t42".to_string(),
        username: user.map(|u| u.to_string()),
        password: pass.map(|p| p.to_string()),
    }
}

#[test]
fn level_names_are_upper_case() {
    assert_eq!(AuditLogLevel::Debug.as_str(), "DEBUG");
    assert_eq!(AuditLogLevel::Info.as_str(), "INFO");
    assert_eq!(AuditLogLevel::Warn.as_str(), "WARN");
    assert_eq!(AuditLogLevel::Error.as_str(), "ERROR");
}

#[test]
fn error_messages() {
    assert_eq!(AuditLogError::ProviderNotInitialized.message(), "Provider not initialized");
    assert_eq!(AuditLogError::PublishFailed("x".to_string()).message(), "Failed to publish log: x");
    assert_eq!(AuditLogError::WriteFailed("disk".to_string()).message(), "Failed to write log: disk");
    assert_eq!(AuditLogError::ConfigurationError("bad".to_string()).message(), "Configuration error: bad");
}

#[test]
fn file_provider_config_defaults() {
    let c = FileProviderConfig::default();
    assert_eq!(c.log_dir, "./audit-logs");
    assert_eq!(c.max_files, 100);
    assert_eq!(c.rotation_size_mb, 100);
}

#[test]
fn default_service_name_fallbacks() {
    assert_eq!(default_service_name(Some("a".to_string()), Some("b".to_string())), "a");
    assert_eq!(default_service_name(None, Some("b".to_string())), "b");
    assert_eq!(default_service_name(None, None), "unknown-service");
}

#[test]
fn entry_builders_keep_other_fields() {
    let e = AuditLogEntry::new("svc".to_string(), AuditLogLevel::Warn, "hello".to_string(), Some("m".to_string()));
    assert_eq!(e.service_name, "svc");
    assert!(e.workflow_id.is_none() && e.node_id.is_none());
    let stamp = e.timestamp.to_rfc3339();
    assert!(stamp.contains('T'));
    let e = e.with_workflow_id("wf".to_string()).with_node_id("n1".to_string());
    assert_eq!(e.workflow_id.as_deref(), Some("wf"));
    assert_eq!(e.node_id.as_deref(), Some("n1"));
    assert_eq!(e.message, "hello");
    assert_eq!(e.level, AuditLogLevel::Warn);
}

#[test]
fn logger_without_provider_refuses() {
    let l = AuditLogger::new("dflt".to_string());
    match l.log(AuditLogLevel::Info, "m".to_string(), None) {
        Err(AuditLogError::ProviderNotInitialized) => {}
        _ => panic!("expected ProviderNotInitialized"),
    }
    assert_eq!(l.service_name(), "dflt");
}

#[test]
fn logger_tags_entries_from_config() {
    let mut l = AuditLogger::new("dflt".to_string());
    l.set_provider("FileAuditLogProvider".to_string());
    let mut c = file_config("svc", "/tmp/x");
    c.workflow_id = Some("wf9".to_string());
    c.node_id = Some("n3".to_string());
    l.set_config(c);
    let e = l.log(AuditLogLevel::Error, "boom".to_string(), Some("meta".to_string())).unwrap();
    assert_eq!(e.service_name, "svc");
    assert_eq!(e.workflow_id.as_deref(), Some("wf9"));
    assert_eq!(e.node_id.as_deref(), Some("n3"));
    assert_eq!(e.metadata.as_deref(), Some("meta"));
}

#[test]
fn first_logger_setup_wins() {
    let mut slot: Option<AuditLogger> = None;
    assert!(init_audit_logger(&mut slot, "p1".to_string(), file_config("", "/a"), Ok(()), "env-svc".to_string()).is_ok());
    assert_eq!(slot.as_ref().unwrap().service_name(), "");
    assert!(init_audit_logger(&mut slot, "p2".to_string(), file_config("other", "/b"), Ok(()), "x".to_string()).is_ok());
    assert_eq!(slot.as_ref().unwrap().service_name(), "");
}

#[test]
fn refused_provider_setup_leaves_slot() {
    let mut slot: Option<AuditLogger> = None;
    let r = init_audit_logger(
        &mut slot,
        "p1".to_string(),
        file_config("s", "/a"),
        Err(AuditLogError::ConfigurationError("no".to_string())),
        "d".to_string(),
    );
    assert!(matches!(r, Err(AuditLogError::ConfigurationError(_))));
    assert!(slot.is_none());
}

#[test]
fn audit_log_goes_to_console_without_provider() {
    match audit_log(None, "", "fallback", AuditLogLevel::Info, "hi", None) {
        AuditDelivery::Console(line) => assert_eq!(line, "[AUDIT INFO] [fallback] hi"),
        _ => panic!("expected console"),
    }
    assert_eq!(console_text(AuditLogLevel::Warn, "s", "m"), "[AUDIT WARN] [s] m");
}

#[test]
fn audit_log_goes_to_provider() {
    let mut l = AuditLogger::new("d".to_string());
    l.set_provider("p".to_string());
    match audit_log(Some(&l), "svc", "fallback", AuditLogLevel::Debug, "hi", Some("md")) {
        AuditDelivery::Provider(e) => {
            assert_eq!(e.service_name, "svc");
            assert_eq!(e.message, "hi");
            assert_eq!(e.metadata.as_deref(), Some("md"));
        }
        _ => panic!("expected provider"),
    }
    match audit_log_default(Some(&l), "dsvc", AuditLogLevel::Info, "x", None) {
        AuditDelivery::Provider(e) => assert_eq!(e.service_name, "dsvc"),
        _ => panic!("expected provider"),
    }
}

#[test]
fn guard_records_enter_exit_and_abort() {
    let g = AuditGuard::new(Some(""), AuditLogLevel::Info, "f(a=1)".to_string(), "meta", "dflt");
    let enter = g.enter_record();
    assert_eq!(enter.service, "dflt");
    assert_eq!(enter.message, "ENTER f(a=1)");
    assert_eq!(enter.metadata.as_deref(), Some("meta"));
    let abort = g.abort_record().unwrap();
    assert_eq!(abort.level, AuditLogLevel::Error);
    assert_eq!(abort.message, "ABORT f(a=1) (panic or early return)");
    let exit_fixed = g.exit_record("5ms");
    assert_eq!(exit_fixed.message, "EXIT f(a=1) (duration: 5ms)");
    let exit = g.exit();
    assert!(exit.message.starts_with("EXIT f(a=1) (duration: "));
    assert!(exit.message.ends_with(')'));
}

#[test]
fn guard_uses_given_service() {
    let g = AuditGuard::new(Some("svc"), AuditLogLevel::Warn, "g()".to_string(), "", "dflt");
    assert_eq!(g.enter_record().service, "svc");
    let g = AuditGuard::new(None, AuditLogLevel::Warn, "g()".to_string(), "", "dflt");
    assert_eq!(g.enter_record().service, "dflt");
}

#[test]
fn file_line_and_name() {
    let e = AuditLogEntry::new("svc".to_string(), AuditLogLevel::Info, "msg".to_string(), Some("k=v".to_string()));
    assert_eq!(log_line(&e, "2024-01-02T03:04:05+00:00"), "2024-01-02T03:04:05+00:00 [INFO] [svc] msg | k=v\n");
    let e2 = AuditLogEntry::new("svc".to_string(), AuditLogLevel::Error, "msg".to_string(), None);
    assert_eq!(log_line(&e2, "S"), "S [ERROR] [svc] msg\n");
    assert_eq!(log_file_name("2024-01-02"), "audit-2024-01-02.log");
}

#[test]
fn file_provider_setup() {
    let mut p = FileAuditLogProvider::new();
    assert_eq!(p.name(), "FileAuditLogProvider");
    let e = AuditLogEntry::new("s".to_string(), AuditLogLevel::Info, "m".to_string(), None);
    assert!(matches!(p.log(&e), Err(AuditLogError::ProviderNotInitialized)));
    let mqtt = AuditLogConfig {
        service_name: "s".to_string(),
        workflow_id: None,
        node_id: None,
        provider_config: ProviderConfig::Mqtt(mqtt_config(None, None, None)),
    };
    match p.init(mqtt, Ok(())) {
        Err(AuditLogError::ConfigurationError(m)) => assert_eq!(m, "Invalid provider config type"),
        _ => panic!("expected configuration error"),
    }
    match p.init(file_config("s", "/logs"), Err("denied".to_string())) {
        Err(AuditLogError::ConfigurationError(m)) => assert_eq!(m, "Failed to create log directory: denied"),
        _ => panic!("expected configuration error"),
    }
    assert!(p.init(file_config("s", "/logs"), Ok(())).is_ok());
    let a = p.log(&e).unwrap();
    assert_eq!(a.dir, "/logs");
    assert!(a.file_name.starts_with("audit-") && a.file_name.ends_with(".log"));
    assert!(a.line.ends_with(" [INFO] [s] m\n"));
    assert_eq!(a.line, format!("{} [INFO] [s] m\n", e.timestamp.to_rfc3339()));
}

#[test]
fn mqtt_topics_and_connection() {
    assert_eq!(mqtt_topic(&mqtt_config(None, None, None)), "/internal/v1/t42/audit/log");
    assert_eq!(mqtt_topic(&mqtt_config(Some("/p"), None, None)), "/p/t42/audit/log");
    let c = MqttAuditLogProvider::connection(&mqtt_config(None, Some("u"), Some("pw")));
    assert_eq!(c.keep_alive_secs, 30);
    assert_eq!(c.credentials, Some(("u".to_string(), "pw".to_string())));
    let c = MqttAuditLogProvider::connection(&mqtt_config(None, Some("u"), None));
    assert!(c.credentials.is_none());
}

#[test]
fn mqtt_provider_needs_config_and_client() {
    let mut p = MqttAuditLogProvider::new();
    assert_eq!(p.name(), "MqttAuditLogProvider");
    assert!(matches!(p.log(), Err(AuditLogError::ProviderNotInitialized)));
    assert!(matches!(p.init(file_config("s", "/d")), Err(AuditLogError::ConfigurationError(_))));
    let cfg = AuditLogConfig {
        service_name: "s".to_string(),
        workflow_id: None,
        node_id: None,
        provider_config: ProviderConfig::Mqtt(mqtt_config(None, None, None)),
    };
    assert!(p.init(cfg).is_ok());
    assert!(matches!(p.log(), Err(AuditLogError::ProviderNotInitialized)));
    p.set_client_ready();
    assert_eq!(p.log().unwrap(), "/internal/v1/t42/audit/log");
}
