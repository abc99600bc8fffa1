use sigbot::cli::{
    api_route_layout, banner_lines, market_data_args, mcp_starter_config, position_args, register_default_resources,
    register_default_tools, run_backtest_args, BannerInfo, CommandDispatch, MgmtBanner, RouteLayout, SigbotAPIServer,
    SigbotBacktestRunnerStarter, SigbotLogServiceStarter, SigbotMCPServer, SigbotManagementServer,
    SigbotOrderManagerStarter, SigbotStandaloneStarter, SubcommandRegistry,
};
use sigbot::dlock::{
    acquire_statement, check_lock_request, check_release_request, lock_id, insert_lock_statement, lock_holder, lock_taken, pod_identity,
    release_holder, release_statement, timeout_seconds, DLockInitializer,
};
use sigbot::records::{
    first_record, inserted_id, save_action, update_target, SaveAction, SigbotBinanceDatafeedClient,
    SigbotDatafeedIngestor,
};
use sigbot::registry::{
    backtest_manager_missing, llm_operation_missing, AppDBType, ProviderRegistry, RepositoryContainer,
};

#[test]
fn command_names() {
    assert_eq!(SigbotAPIServer::COMMAND_NAME, "api");
    assert_eq!(SigbotBacktestRunnerStarter::COMMAND_NAME, "backtest");
    assert_eq!(SigbotLogServiceStarter::COMMAND_NAME, "logservice");
    assert_eq!(SigbotMCPServer::COMMAND_NAME, "mcp-server");
    assert_eq!(SigbotOrderManagerStarter::COMMAND_NAME, "order");
    assert_eq!(SigbotStandaloneStarter::COMMAND_NAME, "standalone");
}

#[test]
fn subcommand_dispatch() {
    let mut r = SubcommandRegistry::new();
    r.register("standalone");
    r.register("api");
    r.register("api");
    assert_eq!(r.len(), 3);
    assert_eq!(r.dispatch(Some("api")), CommandDispatch::Run(1));
    assert_eq!(r.dispatch(Some("x")), CommandDispatch::Unknown);
    assert_eq!(r.dispatch(None), CommandDispatch::ListAll);
}

#[test]
fn route_layouts() {
    assert!(matches!(api_route_layout(&None), RouteLayout::Root));
    assert!(matches!(api_route_layout(&Some("/".to_string())), RouteLayout::Root));
    match api_route_layout(&Some("/api".to_string())) {
        RouteLayout::Nested(p) => assert_eq!(p, "/api"),
        _ => panic!(),
    }
}

#[test]
fn metrics_merge() {
    assert_eq!(SigbotManagementServer::merge_metrics("  \n", "http 1\n"), "http 1\n");
    assert_eq!(SigbotManagementServer::merge_metrics("reg 1\n", " "), "reg 1\n");
    assert_eq!(SigbotManagementServer::merge_metrics(" reg 1\n", "\nhttp 2 "), "reg 1\nhttp 2");
}

#[test]
fn banner() {
    let b = BannerInfo {
        ascii_name: "ART".to_string(),
        git_version: "v1".to_string(),
        package_version: "0.1.0".to_string(),
        git_commit_hash: "abc".to_string(),
        git_build_date: "2024".to_string(),
        config_path: None,
        server_host: "0.0.0.0".to_string(),
        server_port: 8080,
        mgmt: Some(MgmtBanner { host: "127.0.0.1".to_string(), port: 10108, otel_endpoint: Some("http://otel".to_string()) }),
        verbose_config: None,
    };
    let lines = banner_lines(&b);
    assert_eq!(lines.len(), 11);
    assert_eq!(lines[0], "");
    assert_eq!(lines[1], "ART");
    assert_eq!(lines[2], "                Program Version: \"v1\"");
    assert_eq!(lines[6], "        Configuration file path: \"none\"");
    assert_eq!(lines[7], "            Web Serve listen on: \"http://0.0.0.0:8080\"");
    assert_eq!(lines[8], "     Management serve listen on: \"http://127.0.0.1:10108\"");
    assert_eq!(lines[9], "          Otel agent connect to: \"http://otel\"");
    assert_eq!(lines[10], "");
    let b2 = BannerInfo { mgmt: None, verbose_config: Some("{}".to_string()), config_path: Some("a\"b".to_string()), ..b };
    let lines = banner_lines(&b2);
    assert_eq!(lines.len(), 10);
    assert_eq!(lines[6], "        Configuration file path: \"a\\\"b\"");
    assert_eq!(lines[8], "Configuration loaded: {}");
}

#[test]
fn mcp_starter_settings() {
    let c = mcp_starter_config("0.0.0.0:8080", "sse", None, "1.2.3", None);
    assert_eq!(c.name, "sigbot-mcp-server");
    assert!(c.auth_enabled);
    assert_eq!(c.rate_limit, Some(100));
    assert!(c.cors_enabled);
    assert!(!mcp_starter_config("a", "stdio", Some("yes"), "1", None).auth_enabled);
    assert!(mcp_starter_config("a", "stdio", Some("true"), "1", Some("s".to_string())).auth_enabled);
}

#[test]
fn mcp_starter_defaults() {
    let res = register_default_resources();
    let uris: Vec<&str> = res.iter().map(|r| r.uri.as_str()).collect();
    assert_eq!(
        uris,
        vec!["sigbot://strategies", "sigbot://backtests", "sigbot://evaluators", "sigbot://market-data", "sigbot://positions"]
    );
    let tools = register_default_tools();
    assert_eq!(tools[1].required, vec!["strategy_id", "start_time", "end_time"]);
    assert_eq!(tools[1].properties.len(), 4);
    assert_eq!(tools[3].required, vec!["account_id"]);
    assert_eq!(run_backtest_args(None, None, None), ("default".to_string(), "".to_string(), "".to_string()));
    assert_eq!(market_data_args(Some("ETHUSDT"), None), ("ETHUSDT".to_string(), "price".to_string()));
    assert_eq!(position_args(None, None), ("default".to_string(), "BTCUSDT".to_string()));
}

#[test]
fn registry_first_registration_wins() {
    let mut r: ProviderRegistry<u32> = ProviderRegistry::new();
    assert!(r.register0("kline", 1));
    assert!(!r.register0("kline", 2));
    assert!(r.register0("trades", 3));
    assert_eq!(*r.get_implementation("kline").unwrap(), 1);
    assert_eq!(*r.get_implementation("trades").unwrap(), 3);
    assert!(r.get_implementation("x").is_none());
    assert_eq!(r.registered(), vec!["kline".to_string(), "trades".to_string()]);
    assert_eq!(backtest_manager_missing("x"), "Could not obtain registered Sigbot Backtest manager 'x'.");
    assert_eq!(llm_operation_missing("y"), "Could not get LLM operation with provider: 'y'.");
}

#[test]
fn repository_containers() {
    let c = RepositoryContainer::for_backend(AppDBType::MONGODB, 5u8);
    assert_eq!(*c.get(AppDBType::MONGODB), 5);
    assert!(c.try_get(AppDBType::SQLITE).is_none());
    let l = RepositoryContainer::postgres_only(AppDBType::SQLITE, 1u8);
    assert!(l.try_get(AppDBType::POSTGRESQL).is_none());
    let l = RepositoryContainer::postgres_only(AppDBType::POSTGRESQL, 1u8);
    assert_eq!(*l.get(AppDBType::POSTGRESQL), 1);
    assert_eq!(RepositoryContainer::<u8>::missing_message(AppDBType::SQLITE), "The sqlite repository not configured.");
}

#[test]
fn dlock_texts() {
    assert_eq!(timeout_seconds(10000), "10.000");
    assert_eq!(timeout_seconds(1234), "1.234");
    assert_eq!(timeout_seconds(5), "0.005");
    assert_eq!(lock_holder("pod-1", 42, "Id(7)"), "pod-1:42:Id(7)");
    let sql = acquire_statement(1500);
    assert!(sql.contains("OR (datetime(updated_at, '+' || '1.500' || ' seconds') < datetime('now'))"));
    assert!(sql.starts_with("\n            UPDATE sys_dlock SET status = 1"));
    assert!(insert_lock_statement().contains("INSERT OR IGNORE INTO sys_dlock"));
    assert!(release_statement().contains("holder = ?"));
    assert_eq!(release_holder(), "");
    assert!(lock_taken(1));
    assert!(!lock_taken(0));
}

#[test]
fn dlock_requests_and_identity() {
    assert_eq!(check_lock_request(&None, &None, None).unwrap_err(), "name is required");
    assert_eq!(check_lock_request(&Some("n".to_string()), &None, Some(1)).unwrap_err(), "holder is required");
    assert_eq!(check_lock_request(&Some("n".to_string()), &Some("h".to_string()), None).unwrap_err(), "timeout is required");
    assert!(check_lock_request(&Some("n".to_string()), &Some("h".to_string()), Some(1)).is_ok());
    assert_eq!(pod_identity(Some("pod".to_string()), Some("host".to_string())), "pod");
    assert_eq!(pod_identity(None, Some("host".to_string())), "host");
    let fresh = pod_identity(None, None);
    assert_eq!(fresh.len(), 36);
    assert_ne!(fresh, pod_identity(None, None));
}

#[test]
fn dlock_rows_created_once() {
    let mut i = DLockInitializer::new();
    assert!(i.first_acquire("A"));
    assert!(!i.first_acquire("A"));
    assert!(i.first_acquire("B"));
}

#[test]
fn record_decisions() {
    assert_eq!(first_record(vec![3, 4]), Some(3));
    assert_eq!(first_record::<u8>(vec![]), None);
    assert_eq!(save_action(Some(1)), SaveAction::Update);
    assert_eq!(save_action(None), SaveAction::Upsert);
    assert_eq!(inserted_id(Some(9), 2), 9);
    assert_eq!(inserted_id(None, 2), 2);
    assert_eq!(update_target(None), 0);
}

#[test]
fn datafeed_defaults_and_payload() {
    assert_eq!(SigbotBinanceDatafeedClient::kline_params(None, None), ("BTCUSDC".to_string(), "1m".to_string()));
    assert_eq!(
        SigbotBinanceDatafeedClient::kline_params(Some("ETHUSDT".to_string()), Some("5m".to_string())),
        ("ETHUSDT".to_string(), "5m".to_string())
    );
    assert_eq!(SigbotDatafeedIngestor::payload_text(&b"tick".to_vec()), "tick");
    assert_eq!(SigbotDatafeedIngestor::payload_text(&vec![0xff, 0xfe]), "");
    assert_eq!(SigbotDatafeedIngestor::payload_text(&"é→😀".as_bytes().to_vec()), "é→😀");
    assert_eq!(SigbotDatafeedIngestor::payload_text(&vec![0xe2, 0x86]), "");
}

fn provider_names() -> sigbot::cli_options::ProviderNames {
    sigbot::cli_options::ProviderNames {
        messager_local: "local".to_string(),
        messager_mqtt: "mqtt".to_string(),
        datafeed_binance: "binance".to_string(),
        datafeed_twitter: "twitter".to_string(),
        datafeed_truthsocial: "truthsocial".to_string(),
        strategy_python: "python".to_string(),
        order_default: "default".to_string(),
        wallet_default: "default".to_string(),
        backtest_kline: "kline".to_string(),
        backtest_trades: "trades".to_string(),
        notification_email: "email".to_string(),
        notification_telegram: "telegram".to_string(),
        log_default: "default".to_string(),
    }
}

#[test]
fn standalone_option_table() {
    let opts = sigbot::cli_options::standalone_options(&provider_names());
    assert_eq!(opts.len(), 13);
    assert_eq!(opts[1].id, "DATAFEED_PROVIDERS");
    assert_eq!(opts[1].long, "datafeed-providers");
    assert_eq!(opts[1].display_order, 10);
    assert_eq!(
        opts[1].help,
        "The providers of multi datafeeds separated by commas. (supported are: binance, twitter, truthsocial)"
    );
    assert_eq!(opts[1].default.as_deref(), Some("binance"));
    assert_eq!(opts[12].help, "The configuration of notification. (base64 encoded JSON string)");
    assert!(opts[12].default.is_none());
}

#[test]
fn component_option_tables() {
    let p = provider_names();
    let log = sigbot::cli_options::logservice_options(&p);
    assert_eq!(log[0].short, Some('m'));
    assert_eq!(log[0].help, "The provider of Messager. (supported are: local, mqtt)");
    assert_eq!(log[1].help, "The configuration of Messager. (base64 encoded JSON string)");
    let bt = sigbot::cli_options::backtest_options(&p);
    assert_eq!(bt[0].default.as_deref(), Some("mqtt"));
    assert_eq!(bt[1].short, Some('p'));
    let order = sigbot::cli_options::order_options(&p);
    assert_eq!(order[2].id, "ORDER_MANAGER_CONFIGURATION");
    assert_eq!(order[2].display_order, 3);
}

#[test]
fn api_server_assembly() {
    let a = sigbot::cli::api_assembly(&Some("/sigbot".to_string()), true, true, false);
    assert_eq!(a.routers, vec!["auth", "user", "tenant", "log", "addition"]);
    assert_eq!(a.layers, vec!["auth", "trace"]);
    assert!(a.swagger);
    assert!(matches!(a.layout, RouteLayout::Nested(ref p) if p == "/sigbot"));
}

#[test]
fn test_command_build() {
    let spec = sigbot::cli_options::mcp_server_command();
    let mut cmd = clap::Command::new(leak(&spec.name)).about(leak(&spec.about));
    for o in &spec.options {
        let mut a = clap::Arg::new(leak(&o.id)).long(leak(&o.long));
        if let Some(d) = &o.default {
            a = a.default_value(leak(d));
        }
        cmd = cmd.arg(a);
    }
    assert_eq!(cmd.get_name(), "mcp-server");
    let m = cmd.try_get_matches_from(vec!["mcp-server"]).unwrap();
    assert_eq!(m.get_one::<String>("BIND_ADDRESS").unwrap(), "0.0.0.0:8080");
    assert_eq!(m.get_one::<String>("TRANSPORT").unwrap(), "sse");
    assert_eq!(m.get_one::<String>("AUTH_ENABLED").unwrap(), "true");
    assert!(m.get_one::<String>("EXTERNAL_MCP_SERVICES").is_none());
}

#[test]
fn lock_requests_need_an_id() {
    assert_eq!(lock_id(Some(9)), Ok(9));
    assert_eq!(lock_id(None).unwrap_err(), "id is required");
    let n = Some("n".to_string());
    let h = Some("h".to_string());
    assert_eq!(check_release_request(&None, &h, Some(1)).unwrap_err(), "name is required");
    assert_eq!(check_release_request(&n, &None, Some(1)).unwrap_err(), "holder is required");
    assert_eq!(check_release_request(&n, &h, None).unwrap_err(), "id is required");
    assert_eq!(check_release_request(&n, &h, Some(3)), Ok(3));
}

fn leak(s: &str) -> &'static str {
    Box::leak(s.to_string().into_boxed_str())
}

fn api_cli() -> clap::Command {
    let spec = sigbot::cli_options::api_command();
    let mut cmd = clap::Command::new(leak(&spec.name)).about(leak(&spec.about));
    for sub in &spec.subcommands {
        let mut c = clap::Command::new(leak(&sub.name));
        for o in &sub.options {
            c = c.arg(clap::Arg::new(leak(&o.id)).long(leak(&o.long)));
        }
        cmd = cmd.subcommand(c);
    }
    cmd
}

#[test]
fn test_cli_no_args() {
    let app = api_cli();
    let matches = app.try_get_matches_from(vec![""]).unwrap();
    assert!(matches.subcommand_name().is_none());
}

#[test]
fn test_cli_start_command() {
    let app = api_cli();
    let matches = app.try_get_matches_from(vec!["", "start"]).unwrap();
    assert_eq!(matches.subcommand_name(), Some("start"));
}

#[test]
fn test_cli_start_with_config() {
    let app = api_cli();
    let matches = app.try_get_matches_from(vec!["", "start", "--config", "config.yaml"]).unwrap();
    let start_matches = matches.subcommand_matches("start").unwrap();
    assert_eq!(start_matches.get_one::<String>("config").unwrap(), "config.yaml");
}

#[test]
fn test_cli_invalid_command() {
    let app = api_cli();
    let result = app.try_get_matches_from(vec!["", "invalid"]);
    assert!(result.is_err());
}

#[test]
fn starter_commands_show_help_without_arguments() {
    let p = provider_names();
    let s = sigbot::cli_options::standalone_command(&p);
    assert_eq!(s.name, "standalone");
    assert!(s.help_without_args);
    assert_eq!(s.options.len(), 13);
    let api = sigbot::cli_options::api_command();
    assert!(!api.help_without_args);
    assert_eq!(api.subcommands[0].name, "start");
    assert_eq!(api.subcommands[0].options[0].long, "config");
    assert!(sigbot::cli_options::order_command(&p).help_without_args);
    assert!(sigbot::cli_options::backtest_command(&p).help_without_args);
    assert_eq!(sigbot::cli_options::logservice_command(&p).about, "Run Sigbot Log Service Server.");
}

#[test]
fn pod_identity_falls_back_to_a_v4_uuid() {
    let id = pod_identity(None, None);
    let c: Vec<char> = id.chars().collect();
    assert_eq!(c.len(), 36);
    for (i, ch) in c.iter().enumerate() {
        if i == 8 || i == 13 || i == 18 || i == 23 {
            assert_eq!(*ch, '-');
        } else {
            assert!(ch.is_ascii_digit() || ('a'..='f').contains(ch));
        }
    }
    assert_eq!(c[14], '4');
    assert!(['8', '9', 'a', 'b'].contains(&c[19]));
    assert_ne!(pod_identity(None, None), id);
}
