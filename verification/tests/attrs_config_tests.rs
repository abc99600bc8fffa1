use sigbot::audit::AuditLogLevel;
use sigbot::audit_attrs::{
    entry_message, level_to_path, logged_args, metadata_text, parse_skip_args, ArgPart, AttrEntry, AuditLogAttrs,
    AuditedParam,
};
use sigbot::tenant_config::{
    configure, get_tenant_config, redis_url, to_port16, Component, ComponentConnection, ComponentType,
    DatabaseOverride, DbEndpoint, RedisOverride, RedisSettings, TenantConfigSlot, TenantOverrides, TenantSettings,
};

fn nv(key: &str, value: Option<&str>) -> AttrEntry {
    AttrEntry::NameValue { key: key.to_string(), value: value.map(|v| v.to_string()) }
}

#[test]
fn attrs_defaults() {
    let a = AuditLogAttrs::parse(&vec![]);
    assert!(a.service.is_none());
    assert_eq!(a.level, "info");
    assert!(a.skip_args.is_empty());
    assert!(a.metadata.is_none());
    assert_eq!(metadata_text(&a), "");
}

#[test]
fn attrs_entries_later_wins() {
    let a = AuditLogAttrs::parse(&vec![
        nv("service", Some("svc")),
        nv("level", Some("warn")),
        nv("level", Some("ERROR")),
        nv("skip_args", Some("0, 2,x, +3")),
        nv("metadata", Some("m")),
        nv("service", None),
        nv("unknown", Some("u")),
        AttrEntry::Other,
    ]);
    assert_eq!(a.service.as_deref(), Some("svc"));
    assert_eq!(a.level, "ERROR");
    assert_eq!(a.skip_args, vec![0, 2, 3]);
    assert_eq!(metadata_text(&a), "m");
}

#[test]
fn skip_args_parsing() {
    assert_eq!(parse_skip_args("1,2,3"), vec![1, 2, 3]);
    assert_eq!(parse_skip_args(" 4 ,, -1, 5a"), vec![4]);
    assert_eq!(parse_skip_args(""), Vec::<usize>::new());
}

#[test]
fn level_paths() {
    assert_eq!(level_to_path("debug"), AuditLogLevel::Debug);
    assert_eq!(level_to_path("WARN"), AuditLogLevel::Warn);
    assert_eq!(level_to_path("Error"), AuditLogLevel::Error);
    assert_eq!(level_to_path("info"), AuditLogLevel::Info);
    assert_eq!(level_to_path("verbose"), AuditLogLevel::Info);
}

#[test]
fn logged_args_skip_positions() {
    let params = vec![
        AuditedParam::Receiver,
        AuditedParam::Named("a".to_string()),
        AuditedParam::Pattern,
        AuditedParam::Named("b".to_string()),
    ];
    let parts = logged_args(&params, &vec![1]);
    assert_eq!(parts.len(), 2);
    assert!(matches!(parts[0], ArgPart::SelfPlaceholder));
    match &parts[1] {
        ArgPart::Named(n) => assert_eq!(n, "b"),
        _ => panic!("expected named"),
    }
}

#[test]
fn entry_message_joins_args() {
    assert_eq!(entry_message("f", &vec![]), "f()");
    assert_eq!(entry_message("f", &vec!["a=1".to_string(), "self=...".to_string()]), "f(a=1, self=...)");
}

fn endpoint(host: &str, port: u16) -> DbEndpoint {
    DbEndpoint { host: host.to_string(), port, database: "db".to_string(), username: "user".to_string() }
}

fn base() -> TenantSettings {
    TenantSettings {
        postgres: endpoint("pg", 5432),
        redis: RedisSettings { nodes: vec!["redis://old:1".to_string()], username: Some("r".to_string()) },
        pg_vector: endpoint("vec", 5433),
    }
}

fn no_overrides() -> TenantOverrides {
    TenantOverrides { components: None, database: None, redis: None }
}

#[test]
fn no_overrides_keep_base() {
    let r = configure(&base(), &no_overrides());
    assert_eq!(r.postgres.host, "pg");
    assert_eq!(r.pg_vector.port, 5433);
    assert_eq!(r.redis.nodes, vec!["redis://old:1".to_string()]);
    assert_eq!(r.redis.username.as_deref(), Some("r"));
}

#[test]
fn components_override_endpoints() {
    let comps = vec![
        Component {
            component_type: ComponentType::Postgresql,
            connection: Some(ComponentConnection {
                host: Some("pg2".to_string()),
                port: Some(6000),
                database: None,
                username: Some("u2".to_string()),
            }),
        },
        Component {
            component_type: ComponentType::Postgresql,
            connection: Some(ComponentConnection { host: Some("ignored".to_string()), port: None, database: None, username: None }),
        },
        Component {
            component_type: ComponentType::Redis,
            connection: Some(ComponentConnection { host: None, port: None, database: None, username: None }),
        },
        Component {
            component_type: ComponentType::Timescaledb,
            connection: Some(ComponentConnection { host: None, port: Some(7000), database: Some("ts".to_string()), username: None }),
        },
    ];
    let o = TenantOverrides { components: Some(comps), database: None, redis: None };
    let r = configure(&base(), &o);
    assert_eq!(r.postgres.host, "pg2");
    assert_eq!(r.postgres.port, 6000);
    assert_eq!(r.postgres.database, "db");
    assert_eq!(r.postgres.username, "u2");
    assert_eq!(r.redis.nodes, vec!["redis://127.0.0.1:6379".to_string()]);
    assert_eq!(r.redis.username.as_deref(), Some("r"));
    assert_eq!(r.pg_vector.host, "vec");
    assert_eq!(r.pg_vector.port, 7000);
    assert_eq!(r.pg_vector.database, "ts");
}

#[test]
fn direct_sections_apply_after_components() {
    let comps = vec![Component {
        component_type: ComponentType::Postgresql,
        connection: Some(ComponentConnection { host: Some("pg2".to_string()), port: None, database: None, username: None }),
    }];
    let o = TenantOverrides {
        components: Some(comps),
        database: Some(DatabaseOverride { host: Some("pg3".to_string()), port: Some(70000), database: None, username: None }),
        redis: Some(RedisOverride { host: Some("rh".to_string()), port: None, username: Some("ru".to_string()) }),
    };
    let r = configure(&base(), &o);
    assert_eq!(r.postgres.host, "pg3");
    assert_eq!(r.postgres.port, 4464);
    assert_eq!(r.redis.nodes, vec!["redis://rh:6379".to_string()]);
    assert_eq!(r.redis.username.as_deref(), Some("ru"));
}

#[test]
fn redis_section_without_host_keeps_nodes() {
    let o = TenantOverrides {
        components: None,
        database: None,
        redis: Some(RedisOverride { host: None, port: Some(1), username: Some("x".to_string()) }),
    };
    let r = configure(&base(), &o);
    assert_eq!(r.redis.nodes, vec!["redis://old:1".to_string()]);
    assert_eq!(r.redis.username.as_deref(), Some("x"));
}

#[test]
fn port_and_url_helpers() {
    assert_eq!(to_port16(65536 + 80), 80);
    assert_eq!(to_port16(8080), 8080);
    assert_eq!(redis_url("h", 6380), "redis://h:6380");
}

#[test]
fn tenant_config_slot() {
    let mut slot = TenantConfigSlot::new(base());
    assert_eq!(get_tenant_config(&slot).postgres.host, "pg");
    let o = TenantOverrides {
        components: None,
        database: Some(DatabaseOverride { host: Some("tenant-pg".to_string()), port: None, database: None, username: None }),
        redis: None,
    };
    slot.init_tenant_config(&base(), &o);
    let c = get_tenant_config(&slot);
    assert_eq!(c.postgres.host, "tenant-pg");
    assert_eq!(c.pg_vector.host, "vec");
    assert!(std::sync::Arc::ptr_eq(&c, &get_tenant_config(&slot)));
    slot.init_tenant_config(&base(), &TenantOverrides { components: None, database: None, redis: None });
    let d = get_tenant_config(&slot);
    assert!(!std::sync::Arc::ptr_eq(&c, &d));
    assert_eq!(d.postgres.host, "pg");
}

#[test]
fn component_names_ignore_ascii_case() {
    assert_eq!(ComponentType::from_name("PostgreSQL"), ComponentType::Postgresql);
    assert_eq!(ComponentType::from_name("redis"), ComponentType::Redis);
    assert_eq!(ComponentType::from_name("TIMESCALEDB"), ComponentType::Timescaledb);
    assert_eq!(ComponentType::from_name("Emqx"), ComponentType::Emqx);
    assert_eq!(ComponentType::from_name("kafka"), ComponentType::Other);
    assert_eq!(ComponentType::from_name("redis "), ComponentType::Other);
}

#[test]
fn skip_args_parse_like_std() {
    assert_eq!(parse_skip_args("+7,007,18446744073709551615"), vec![7, 7, usize::MAX]);
    assert_eq!(parse_skip_args("18446744073709551616,+,++1,1+,0"), vec![0]);
}

#[test]
fn skip_args_trim_unicode_white_space() {
    assert_eq!(parse_skip_args("\u{3000}3\u{a0},\t4\u{2028}, \u{200b}5"), vec![3, 4]);
}
