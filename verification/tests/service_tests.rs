use sigbot::a2a::{agent_card, handle_a2a, routes, A2AConfig, A2AReply, A2AServerBuilder, HttpMethod};
use sigbot::mcp::{
    server_details, server_transport, ConnectOutcome, EvaluatorMcpServerConfig, McpClientManager, McpError, McpServerConfig,
    McpTransport, ResourceKind, SigbotMcpClient, SigbotMcpServer, SigbotServerHandler, ToolArguments, ToolReply,
};
use sigbot::wallet::{
    balance_updates, parse_symbol, position_side, sqlite_balance_statements, sqlite_equity_statement,
    sqlite_ledger_insert, sqlite_position_statement, TradeAmount, TradeBind,
};

#[test]
fn symbols_split() {
    assert_eq!(parse_symbol("BTCUSDT").unwrap(), ("BTC".to_string(), "USDT".to_string()));
    assert_eq!(parse_symbol("ETHBTC").unwrap(), ("ETH".to_string(), "BTC".to_string()));
    assert_eq!(parse_symbol("USDT").unwrap(), ("".to_string(), "USDT".to_string()));
    assert_eq!(parse_symbol("BNBETH").unwrap(), ("BNB".to_string(), "ETH".to_string()));
    assert_eq!(parse_symbol("XRPEUR").unwrap_err(), "Failed to parse symbol: XRPEUR");
}

#[test]
fn position_sides() {
    assert_eq!(position_side("BUY"), "LONG");
    assert_eq!(position_side("SELL"), "SHORT");
    assert_eq!(position_side("buy"), "SHORT");
}

#[test]
fn buy_charges_fee_in_quote_by_default() {
    let (first, second) = balance_updates("BUY", "BTCUSDT", None).unwrap();
    assert_eq!(first.asset, "USDT");
    assert!(!first.credit && first.amount == TradeAmount::Notional && first.pays_fee);
    assert_eq!(second.asset, "BTC");
    assert!(second.credit && second.amount == TradeAmount::Quantity && !second.pays_fee);
}

#[test]
fn sell_charges_fee_in_base_by_default() {
    let (first, second) = balance_updates("SELL", "BTCUSDT", None).unwrap();
    assert_eq!(first.asset, "BTC");
    assert!(!first.credit && first.amount == TradeAmount::Quantity && first.pays_fee);
    assert_eq!(second.asset, "USDT");
    assert!(second.credit && !second.pays_fee);
    let (first, second) = balance_updates("SELL", "BTCUSDT", Some("USDT")).unwrap();
    assert!(!first.pays_fee && second.pays_fee);
    let (first, second) = balance_updates("BUY", "BTCUSDT", Some("BNB")).unwrap();
    assert!(!first.pays_fee && !second.pays_fee);
    assert!(balance_updates("BUY", "FOO", None).is_err());
}

fn bind_names(binds: &[TradeBind]) -> Vec<String> {
    binds
        .iter()
        .map(|b| match b {
            TradeBind::WalletId => "wallet_id".to_string(),
            TradeBind::OrderId => "order_id".to_string(),
            TradeBind::TradeId => "trade_id".to_string(),
            TradeBind::Price => "price".to_string(),
            TradeBind::Qty => "qty".to_string(),
            TradeBind::Fee => "fee".to_string(),
            TradeBind::TsSeconds => "ts".to_string(),
            TradeBind::Text(t) => format!("'{}'", t),
            TradeBind::OptText(Some(t)) => format!("'{}'", t),
            TradeBind::OptText(None) => "NULL".to_string(),
        })
        .collect()
}

#[test]
fn sqlite_ledger_binds_every_field_of_the_trade() {
    let st = sqlite_ledger_insert("BTCUSDT", "BUY", Some("BNB"), Some("ex-1"), None);
    assert!(st.sql.starts_with("INSERT OR IGNORE INTO s_ledger"));
    assert!(st.sql.ends_with("datetime(?, 'unixepoch'))"));
    assert_eq!(st.sql.matches('?').count(), st.binds.len());
    assert_eq!(
        bind_names(&st.binds),
        vec!["wallet_id", "order_id", "trade_id", "'BTCUSDT'", "'BUY'", "price", "qty", "fee", "'BNB'", "'ex-1'", "NULL", "ts"]
    );
}

#[test]
fn sqlite_buy_debits_quote_and_credits_base() {
    let (first, second) = sqlite_balance_statements("BUY", "BTCUSDT", None).unwrap();
    assert!(first.sql.contains("-(? * ? + CASE WHEN ? = ? THEN ? ELSE 0 END)"));
    assert_eq!(bind_names(&first.binds), vec!["wallet_id", "'USDT'", "price", "qty", "'USDT'", "'USDT'", "fee"]);
    assert!(second.sql.contains("? - CASE WHEN ? = ? THEN ? ELSE 0 END"));
    assert_eq!(bind_names(&second.binds), vec!["wallet_id", "'BTC'", "qty", "'USDT'", "'BTC'", "fee"]);
    assert_eq!(first.sql.matches('?').count(), first.binds.len());
    assert_eq!(second.sql.matches('?').count(), second.binds.len());
}

#[test]
fn sqlite_sell_debits_base_and_credits_quote() {
    let (first, second) = sqlite_balance_statements("SELL", "ETHBTC", Some("BNB")).unwrap();
    assert!(first.sql.contains("-(? + CASE WHEN ? = ? THEN ? ELSE 0 END)"));
    assert_eq!(bind_names(&first.binds), vec!["wallet_id", "'ETH'", "qty", "'BNB'", "'ETH'", "fee"]);
    assert!(second.sql.contains("? * ? - CASE WHEN ? = ? THEN ? ELSE 0 END"));
    assert_eq!(bind_names(&second.binds), vec!["wallet_id", "'BTC'", "price", "qty", "'BNB'", "'BTC'", "fee"]);
    match sqlite_balance_statements("SELL", "XRPEUR", None) {
        Err(e) => assert_eq!(e, "Failed to parse symbol: XRPEUR"),
        Ok(_) => panic!("an unknown quote is refused"),
    }
}

#[test]
fn sqlite_position_and_equity_statements() {
    let st = sqlite_position_statement("BTCUSDT", "SELL");
    assert!(st.sql.starts_with("INSERT INTO s_positions"));
    assert_eq!(bind_names(&st.binds), vec!["wallet_id", "'BTCUSDT'", "'SHORT'", "wallet_id", "'BTCUSDT'"]);
    assert_eq!(st.sql.matches('?').count(), st.binds.len());
    let st = sqlite_equity_statement();
    assert!(st.sql.starts_with("INSERT INTO equity_snapshots"));
    assert_eq!(bind_names(&st.binds), vec!["wallet_id", "wallet_id"]);
    assert_eq!(st.sql.matches('?').count(), st.binds.len());
}

#[test]
fn a2a_config_and_card() {
    let c = A2AConfig::default();
    assert_eq!(c.bind_address, "0.0.0.0:8081");
    assert_eq!(c.agent_name, "sigbot-agent");
    assert_eq!(c.agent_description, "Sigbot Agent");
    assert_eq!(c.agent_version, "1.0.0");
    let b = A2AServerBuilder::new()
        .with_bind_address("0.0.0.0:9999".to_string())
        .with_agent_name("test-agent".to_string());
    assert_eq!(b.config.bind_address, "0.0.0.0:9999");
    assert_eq!(b.config.agent_name, "test-agent");
    let b = b.with_agent_description("Test Agent Description".to_string()).with_agent_version("2".to_string());
    let card = agent_card(&b.config);
    assert_eq!(card.name, "test-agent");
    assert_eq!(card.description, "Test Agent Description");
    assert_eq!(card.version, "2");
    assert!(card.capabilities.is_empty());
}

#[test]
fn a2a_routes_and_replies() {
    let r = routes();
    assert_eq!(r, vec![(HttpMethod::Get, "/.well-known/agent.json"), (HttpMethod::Post, "/a2a"), (HttpMethod::Get, "/healthz")]);
    match handle_a2a("message/send", Some("Evaluate strategy-123")) {
        A2AReply::Message(m) => assert_eq!(m, "A2A message received: Evaluate strategy-123"),
        _ => panic!("expected message"),
    }
    match handle_a2a("message/stream", None) {
        A2AReply::Message(m) => assert_eq!(m, "A2A message received: "),
        _ => panic!("expected message"),
    }
    match handle_a2a("tasks/get", Some("x")) {
        A2AReply::Error(e) => {
            assert_eq!(e.code, -32601);
            assert_eq!(e.message, "Method not found: tasks/get");
        }
        _ => panic!("expected error"),
    }
}

#[test]
fn mcp_error_messages() {
    assert_eq!(McpError::Protocol("p".to_string()).message(), "MCP protocol error: p");
    assert_eq!(McpError::Connection("c".to_string()).message(), "MCP connection error: c");
    assert_eq!(McpError::Authentication("a".to_string()).message(), "MCP authentication error: a");
    assert_eq!(McpError::ResourceNotFound("r".to_string()).message(), "MCP resource not found: r");
    assert_eq!(McpError::ToolNotFound("t".to_string()).message(), "MCP tool not found: t");
    assert_eq!(McpError::ToolExecution("e".to_string()).message(), "MCP tool execution error: e");
    assert_eq!(McpError::Serialization("s".to_string()).message(), "MCP serialization error: s");
    assert_eq!(McpError::Internal("i".to_string()).message(), "MCP internal error: i");
    assert_eq!(McpError::Timeout("t".to_string()).message(), "MCP timeout: t");
    assert_eq!(McpError::InvalidRequest("q".to_string()).message(), "MCP invalid request: q");
    assert_eq!(McpError::SdkError("k".to_string()).message(), "SDK error: k");
}

#[test]
fn mcp_handler_lists_and_calls() {
    let h = SigbotServerHandler;
    let tools: Vec<String> = h.list_tools().into_iter().map(|t| t.name).collect();
    assert_eq!(tools, vec!["get_strategies", "run_backtest", "get_market_data", "get_position"]);
    let res = h.list_resources();
    assert_eq!(res[2].uri, "sigbot://market-data");
    assert_eq!(res[2].mime_type, "application/json");
    let none = ToolArguments { strategy_id: None, symbol: None, account_id: None };
    assert!(matches!(h.handle_call_tool_request("get_strategies", &none, 1), Ok(ToolReply::Strategies)));
    match h.handle_call_tool_request("run_backtest", &none, 1) {
        Ok(ToolReply::Backtest { strategy_id }) => assert_eq!(strategy_id, "unknown"),
        _ => panic!(),
    }
    match h.handle_call_tool_request("get_market_data", &none, 77) {
        Ok(ToolReply::MarketData { symbol, timestamp_ms }) => {
            assert_eq!(symbol, "BTCUSDT");
            assert_eq!(timestamp_ms, 77);
        }
        _ => panic!(),
    }
    let some = ToolArguments { strategy_id: None, symbol: None, account_id: Some("acc".to_string()) };
    match h.handle_call_tool_request("get_position", &some, 1) {
        Ok(ToolReply::Position { account_id }) => assert_eq!(account_id, "acc"),
        _ => panic!(),
    }
    match h.handle_call_tool_request("nope", &none, 1) {
        Err(e) => {
            assert_eq!(e.code, -32601);
            assert_eq!(e.message, "Unknown tool: nope");
        }
        _ => panic!(),
    }
    assert!(matches!(h.handle_read_resource_request("sigbot://positions"), Ok(ResourceKind::Positions)));
    match h.handle_read_resource_request("sigbot://x") {
        Err(e) => {
            assert_eq!(e.code, -32602);
            assert_eq!(e.message, "Unknown resource: sigbot://x");
        }
        _ => panic!(),
    }
}

fn server_config(transport: &str) -> McpServerConfig {
    McpServerConfig {
        name: "sigbot-mcp-server".to_string(),
        version: "1".to_string(),
        transport: transport.to_string(),
        sse_bind_address: "0.0.0.0:8080".to_string(),
    }
}

#[test]
fn mcp_transport_choice() {
    assert!(matches!(server_transport(&server_config("stdio"), Some("bad")), Ok(McpTransport::Stdio)));
    match server_transport(&server_config("sse"), None) {
        Ok(McpTransport::Sse { bind_address }) => assert_eq!(bind_address, "0.0.0.0:8080"),
        _ => panic!(),
    }
    match server_transport(&server_config("both"), Some("invalid socket address syntax")) {
        Err(McpError::InvalidRequest(m)) => assert_eq!(m, "Invalid bind address: invalid socket address syntax"),
        _ => panic!(),
    }
}

#[test]
fn mcp_server_start_stop() {
    let mut s = SigbotMcpServer::new(server_config("sse"));
    assert_eq!(s.config().name, "sigbot-mcp-server");
    assert!(!s.is_running());
    assert!(matches!(s.stop(), Err(McpError::Internal(m)) if m == "Server is not running"));
    assert!(matches!(s.start(Some("bad")), Err(McpError::InvalidRequest(_))));
    assert!(!s.is_running());
    assert!(s.start(None).is_ok());
    assert!(s.is_running());
    assert!(matches!(s.start(None), Err(McpError::Internal(m)) if m == "Server is already running"));
    assert!(s.stop().is_ok());
    assert!(!s.is_running());
}

fn client_config(name: &str, enabled: Vec<&str>) -> EvaluatorMcpServerConfig {
    EvaluatorMcpServerConfig {
        name: name.to_string(),
        url: "http://localhost:8080/sse".to_string(),
        transport: "sse".to_string(),
        auth_token: None,
        api_key: None,
        api_secret: None,
        enabled_tools: enabled.into_iter().map(|s| s.to_string()).collect(),
        timeout_secs: 30,
    }
}

#[test]
fn mcp_client_connects_and_filters_tools() {
    let mut c = SigbotMcpClient::new(client_config("test-mcp", vec!["b"]));
    assert_eq!(c.name(), "test-mcp");
    assert!(c.connect_transport().is_some());
    match c.connect(ConnectOutcome::InitFailed("refused".to_string())) {
        Err(McpError::Connection(m)) => assert_eq!(m, "Failed to initialize: refused"),
        _ => panic!(),
    }
    match c.connect(ConnectOutcome::ListFailed("oops".to_string())) {
        Err(McpError::Protocol(m)) => assert_eq!(m, "Failed to list tools: oops"),
        _ => panic!(),
    }
    assert!(matches!(c.ensure_connected(), Err(McpError::Connection(m)) if m == "Not connected to MCP server"));
    assert!(c.connect(ConnectOutcome::Listed(vec!["a".to_string(), "b".to_string()])).is_ok());
    assert!(c.is_connected());
    assert_eq!(c.list_tools(), vec!["b".to_string()]);
    assert!(c.connect_transport().is_none());
    c.disconnect();
    assert!(!c.is_connected());
    assert!(c.list_tools().is_empty());
    let mut all = SigbotMcpClient::new(client_config("x", vec![]));
    all.connect(ConnectOutcome::Listed(vec!["a".to_string(), "b".to_string()])).unwrap();
    assert_eq!(all.list_tools().len(), 2);
}

#[test]
fn mcp_client_results() {
    let c = SigbotMcpClient::new(client_config("x", vec![]));
    assert!(matches!(c.tool_result_text(Some(true), None), Err(McpError::ToolExecution(m)) if m == "Unknown error"));
    assert_eq!(c.tool_result_text(None, None).unwrap(), "{}");
    assert_eq!(c.tool_result_text(Some(false), Some("[1]".to_string())).unwrap(), "[1]");
    assert!(matches!(c.resource_text("u", Err("e".to_string())), Err(McpError::ResourceNotFound(m)) if m == "Failed to read resource: e"));
    assert!(matches!(c.resource_text("u", Ok(None)), Err(McpError::ResourceNotFound(m)) if m == "No content for: u"));
    assert_eq!(c.resource_text("u", Ok(Some("t".to_string()))).unwrap(), "t");
}

#[test]
fn mcp_manager_register_get_remove() {
    let mut m = McpClientManager::new();
    let fresh = SigbotMcpClient::new(client_config("a", vec![]));
    assert!(m.register(fresh).is_err());
    let mut c = SigbotMcpClient::new(client_config("a", vec![]));
    c.connect(ConnectOutcome::Listed(vec![])).unwrap();
    assert!(m.register(c).is_ok());
    let mut c2 = SigbotMcpClient::new(client_config("b", vec![]));
    c2.connect(ConnectOutcome::Listed(vec![])).unwrap();
    m.register(c2).unwrap();
    assert_eq!(m.get("a").unwrap().name(), "a");
    assert!(m.get("z").is_none());
    assert_eq!(m.list_clients(), vec!["a".to_string(), "b".to_string()]);
    let removed = m.remove("a").unwrap();
    assert!(!removed.is_connected());
    assert!(m.get("a").is_none());
    assert!(m.remove("a").is_none());
    m.shutdown();
    assert!(!m.get("b").unwrap().is_connected());
}

#[test]
fn mcp_server_announces_itself() {
    let d = server_details(&server_config("stdio"));
    let c = server_config("stdio");
    assert_eq!(d.name, c.name);
    assert_eq!(d.title, c.name);
    assert_eq!(d.version, c.version);
    assert_eq!(d.description, "Sigbot MCP Server for trading strategies and market data");
    assert_eq!(d.icon_src, "https://sigbot.dev/icon.png");
    assert_eq!(d.icon_mime_type, "image/png");
    assert_eq!(d.icon_sizes, vec!["128x128".to_string()]);
    assert_eq!(d.icon_theme, "dark");
    assert_eq!(d.website_url, "https://sigbot.dev");
    assert!(d.tools_list_changed && d.resources_list_changed && d.resources_subscribe);
    assert_eq!(d.instructions, "Sigbot MCP Server - access trading strategies, backtests, and market data");
    assert_eq!(d.protocol_version, "2025-11-25");
}

#[test]
fn mcp_manager_later_registration_replaces() {
    let mut m = McpClientManager::new();
    let mut first = SigbotMcpClient::new(client_config("a", vec![]));
    first.connect(ConnectOutcome::Listed(vec!["x".to_string(), "y".to_string()])).unwrap();
    m.register(first).unwrap();
    let mut second = SigbotMcpClient::new(client_config("a", vec!["y"]));
    second.connect(ConnectOutcome::Listed(vec!["x".to_string(), "y".to_string()])).unwrap();
    m.register(second).unwrap();
    assert_eq!(m.list_clients(), vec!["a".to_string()]);
    assert_eq!(m.get("a").unwrap().list_tools(), vec!["y".to_string()]);
}

#[test]
fn test_server_builder() {
    let builder = A2AServerBuilder::new()
        .with_bind_address("0.0.0.0:9999".to_string())
        .with_agent_name("test-agent".to_string());

    assert_eq!(builder.config.bind_address, "0.0.0.0:9999");
    assert_eq!(builder.config.agent_name, "test-agent");
}

#[test]
fn test_client_creation() {
    let config = EvaluatorMcpServerConfig {
        name: "test-mcp".to_string(),
        url: "http://localhost:8080/sse".to_string(),
        transport: "sse".to_string(),
        auth_token: None,
        api_key: None,
        api_secret: None,
        enabled_tools: vec![],
        timeout_secs: 30,
    };
    let client = SigbotMcpClient::new(config);
    assert_eq!(client.name(), "test-mcp");
}

#[test]
fn test_server_creation() {
    let config = McpServerConfig::default();
    let server = SigbotMcpServer::new(config);
    assert_eq!(server.config().name, "sigbot-mcp-server");
}

#[test]
fn mcp_start_passes_back_the_setup_error() {
    let mut server = SigbotMcpServer::new(server_config("sse"));
    match server.start(Some("invalid socket address syntax")) {
        Err(McpError::InvalidRequest(m)) => assert_eq!(m, "Invalid bind address: invalid socket address syntax"),
        _ => panic!("a bind address that does not parse is refused"),
    }
    assert!(!server.is_running());
    let d = McpServerConfig::default();
    assert_eq!((d.transport.as_str(), d.sse_bind_address.as_str()), ("sse", "0.0.0.0:8080"));
}
