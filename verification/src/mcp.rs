//! Model Context Protocol: the tools and resources this service offers and
//! the answers to calls on them, the running state of the server, and the
//! clients that reach external MCP services.

use vstd::prelude::*;
use vstd::string::StringExecFns;
use crate::text::{lemma_index_of_unique, str_eq};

verus! {

/// What can go wrong in an MCP exchange.
#[derive(Clone, Debug)]
pub enum McpError {
    Protocol(String),
    Connection(String),
    Authentication(String),
    ResourceNotFound(String),
    ToolNotFound(String),
    ToolExecution(String),
    Serialization(String),
    Internal(String),
    Timeout(String),
    InvalidRequest(String),
    SdkError(String),
}

/// The message of an error.
pub open spec fn mcp_error_text(e: McpError) -> Seq<char> {
    match e {
        McpError::Protocol(m) => "MCP protocol error: "@ + m@,
        McpError::Connection(m) => "MCP connection error: "@ + m@,
        McpError::Authentication(m) => "MCP authentication error: "@ + m@,
        McpError::ResourceNotFound(m) => "MCP resource not found: "@ + m@,
        McpError::ToolNotFound(m) => "MCP tool not found: "@ + m@,
        McpError::ToolExecution(m) => "MCP tool execution error: "@ + m@,
        McpError::Serialization(m) => "MCP serialization error: "@ + m@,
        McpError::Internal(m) => "MCP internal error: "@ + m@,
        McpError::Timeout(m) => "MCP timeout: "@ + m@,
        McpError::InvalidRequest(m) => "MCP invalid request: "@ + m@,
        McpError::SdkError(m) => "SDK error: "@ + m@,
    }
}

fn prefixed(prefix: &str, m: &String) -> (s: String)
    ensures
        s@ == prefix@ + m@,
{
    String::from_str(prefix).concat(m.as_str())
}

impl McpError {
    /// The message of the error.
    pub fn message(&self) -> (s: String)
        ensures
            s@ == mcp_error_text(*self),
    {
        match self {
            McpError::Protocol(m) => prefixed("MCP protocol error: ", m),
            McpError::Connection(m) => prefixed("MCP connection error: ", m),
            McpError::Authentication(m) => prefixed("MCP authentication error: ", m),
            McpError::ResourceNotFound(m) => prefixed("MCP resource not found: ", m),
            McpError::ToolNotFound(m) => prefixed("MCP tool not found: ", m),
            McpError::ToolExecution(m) => prefixed("MCP tool execution error: ", m),
            McpError::Serialization(m) => prefixed("MCP serialization error: ", m),
            McpError::Internal(m) => prefixed("MCP internal error: ", m),
            McpError::Timeout(m) => prefixed("MCP timeout: ", m),
            McpError::InvalidRequest(m) => prefixed("MCP invalid request: ", m),
            McpError::SdkError(m) => prefixed("SDK error: ", m),
        }
    }
}

/// A tool this service offers.
#[derive(Clone, Debug)]
pub struct ToolInfo {
    pub name: String,
    pub description: String,
}

/// A resource this service offers.
#[derive(Clone, Debug)]
pub struct ResourceInfo {
    pub uri: String,
    pub name: String,
    pub description: String,
    pub mime_type: String,
}

/// Names of the offered tools, in the order they are listed.
pub open spec fn tool_names() -> Seq<Seq<char>> {
    seq!["get_strategies"@, "run_backtest"@, "get_market_data"@, "get_position"@]
}

/// URIs of the offered resources, in the order they are listed.
pub open spec fn resource_uris() -> Seq<Seq<char>> {
    seq!["sigbot://strategies"@, "sigbot://backtests"@, "sigbot://market-data"@, "sigbot://positions"@]
}

/// The arguments of a tool call that the tools read.
#[derive(Clone, Debug)]
pub struct ToolArguments {
    pub strategy_id: Option<String>,
    pub symbol: Option<String>,
    pub account_id: Option<String>,
}

/// The answer of a tool, before it is written as JSON text.
#[derive(Clone, Debug)]
pub enum ToolReply {
    /// The two sample strategies.
    Strategies,
    /// A backtest started for a strategy.
    Backtest { strategy_id: String },
    /// Market data of a symbol at a time in milliseconds.
    MarketData { symbol: String, timestamp_ms: i64 },
    /// The positions of an account (none).
    Position { account_id: String },
}

/// The answer of a resource read, before it is written as JSON text.
#[derive(Clone, Debug, PartialEq, Eq, Structural)]
pub enum ResourceKind {
    Strategies,
    Backtests,
    MarketData,
    Positions,
}

/// A JSON-RPC error.
#[derive(Clone, Debug)]
pub struct RpcError {
    pub code: i32,
    pub message: String,
}

/// JSON-RPC code of an unknown method.
pub const METHOD_NOT_FOUND: i32 = -32601;

/// JSON-RPC code of invalid parameters.
pub const INVALID_PARAMS: i32 = -32602;

fn text_or(o: &Option<String>, default: &str) -> (s: String)
    ensures
        s@ == (match *o { Some(v) => v@, None => default@ }),
{
    match o {
        Some(v) => v.clone(),
        None => String::from_str(default),
    }
}

/// Answers the requests of MCP clients.
pub struct SigbotServerHandler;

impl SigbotServerHandler {
    /// The offered tools: strategies, backtests, market data and positions.
    pub fn list_tools(&self) -> (r: Vec<ToolInfo>)
        ensures
            r@.len() == 4,
            forall|i: int| 0 <= i < 4 ==> (#[trigger] r@[i]).name@ == tool_names()[i],
            r@[0].description@ == "Get list of all available trading strategies"@,
            r@[1].description@ == "Execute a backtest for a strategy"@,
            r@[2].description@ == "Get market data for a symbol"@,
            r@[3].description@ == "Get current trading position"@,
    {
        let mut r: Vec<ToolInfo> = Vec::new();
        r.push(ToolInfo { name: String::from_str("get_strategies"), description: String::from_str("Get list of all available trading strategies") });
        r.push(ToolInfo { name: String::from_str("run_backtest"), description: String::from_str("Execute a backtest for a strategy") });
        r.push(ToolInfo { name: String::from_str("get_market_data"), description: String::from_str("Get market data for a symbol") });
        r.push(ToolInfo { name: String::from_str("get_position"), description: String::from_str("Get current trading position") });
        r
    }

    /// The offered resources, all of them JSON.
    pub fn list_resources(&self) -> (r: Vec<ResourceInfo>)
        ensures
            r@.len() == 4,
            forall|i: int| 0 <= i < 4 ==> (#[trigger] r@[i]).uri@ == resource_uris()[i]
                && r@[i].mime_type@ == "application/json"@,
            r@[0].name@ == "All Strategies"@ && r@[0].description@ == "List all available trading strategies"@,
            r@[1].name@ == "All Backtests"@ && r@[1].description@ == "List all backtest results"@,
            r@[2].name@ == "Market Data"@ && r@[2].description@ == "Access real-time market data"@,
            r@[3].name@ == "Positions"@ && r@[3].description@ == "View current trading positions"@,
    {
        let mut r: Vec<ResourceInfo> = Vec::new();
        r.push(ResourceInfo {
            uri: String::from_str("sigbot://strategies"),
            name: String::from_str("All Strategies"),
            description: String::from_str("List all available trading strategies"),
            mime_type: String::from_str("application/json"),
        });
        r.push(ResourceInfo {
            uri: String::from_str("sigbot://backtests"),
            name: String::from_str("All Backtests"),
            description: String::from_str("List all backtest results"),
            mime_type: String::from_str("application/json"),
        });
        r.push(ResourceInfo {
            uri: String::from_str("sigbot://market-data"),
            name: String::from_str("Market Data"),
            description: String::from_str("Access real-time market data"),
            mime_type: String::from_str("application/json"),
        });
        r.push(ResourceInfo {
            uri: String::from_str("sigbot://positions"),
            name: String::from_str("Positions"),
            description: String::from_str("View current trading positions"),
            mime_type: String::from_str("application/json"),
        });
        r
    }

    /// Answers a call of a tool at the time `now_ms`: the tools read the
    /// strategy id (default "unknown"), the symbol (default "BTCUSDT") and
    /// the account id (default "default"); any other tool is unknown.
    pub fn handle_call_tool_request(&self, tool_name: &str, args: &ToolArguments, now_ms: i64) -> (r: Result<ToolReply, RpcError>)
        ensures
            tool_name@ == "get_strategies"@ ==> r matches Ok(ToolReply::Strategies),
            tool_name@ == "run_backtest"@ ==> (r matches Ok(ToolReply::Backtest { strategy_id })
                && strategy_id@ == (match args.strategy_id { Some(v) => v@, None => "unknown"@ })),
            tool_name@ == "get_market_data"@ ==> (r matches Ok(ToolReply::MarketData { symbol, timestamp_ms })
                && symbol@ == (match args.symbol { Some(v) => v@, None => "BTCUSDT"@ }) && timestamp_ms == now_ms),
            tool_name@ == "get_position"@ ==> (r matches Ok(ToolReply::Position { account_id })
                && account_id@ == (match args.account_id { Some(v) => v@, None => "default"@ })),
            !tool_names().contains(tool_name@) ==> (r matches Err(e) && e.code == METHOD_NOT_FOUND
                && e.message@ == "Unknown tool: "@ + tool_name@),
    {
        proof {
            reveal_strlit("get_strategies");
            reveal_strlit("run_backtest");
            reveal_strlit("get_market_data");
            reveal_strlit("get_position");
            assert("get_strategies"@[0] != "run_backtest"@[0]);
            assert("get_strategies"@[4] != "get_market_data"@[4]);
            assert("get_strategies"@[4] != "get_position"@[4]);
            assert("run_backtest"@[0] != "get_market_data"@[0]);
            assert("run_backtest"@[0] != "get_position"@[0]);
            assert("get_market_data"@[4] != "get_position"@[4]);
        }
        if str_eq(tool_name, "get_strategies") {
            Ok(ToolReply::Strategies)
        } else if str_eq(tool_name, "run_backtest") {
            Ok(ToolReply::Backtest { strategy_id: text_or(&args.strategy_id, "unknown") })
        } else if str_eq(tool_name, "get_market_data") {
            Ok(ToolReply::MarketData { symbol: text_or(&args.symbol, "BTCUSDT"), timestamp_ms: now_ms })
        } else if str_eq(tool_name, "get_position") {
            Ok(ToolReply::Position { account_id: text_or(&args.account_id, "default") })
        } else {
            proof {
                assert(tool_names()[0] == "get_strategies"@);
                assert(tool_names()[1] == "run_backtest"@);
                assert(tool_names()[2] == "get_market_data"@);
                assert(tool_names()[3] == "get_position"@);
            }
            Err(RpcError { code: METHOD_NOT_FOUND, message: String::from_str("Unknown tool: ").concat(tool_name) })
        }
    }

    /// Answers a read of a resource; any other URI is invalid.
    pub fn handle_read_resource_request(&self, uri: &str) -> (r: Result<ResourceKind, RpcError>)
        ensures
            uri@ == "sigbot://strategies"@ ==> r == Ok::<ResourceKind, RpcError>(ResourceKind::Strategies),
            uri@ == "sigbot://backtests"@ ==> r == Ok::<ResourceKind, RpcError>(ResourceKind::Backtests),
            uri@ == "sigbot://market-data"@ ==> r == Ok::<ResourceKind, RpcError>(ResourceKind::MarketData),
            uri@ == "sigbot://positions"@ ==> r == Ok::<ResourceKind, RpcError>(ResourceKind::Positions),
            !resource_uris().contains(uri@) ==> (r matches Err(e) && e.code == INVALID_PARAMS
                && e.message@ == "Unknown resource: "@ + uri@),
    {
        proof {
            reveal_strlit("sigbot://strategies");
            reveal_strlit("sigbot://backtests");
            reveal_strlit("sigbot://market-data");
            reveal_strlit("sigbot://positions");
            assert("sigbot://strategies"@[9] != "sigbot://backtests"@[9]);
            assert("sigbot://strategies"@[9] != "sigbot://market-data"@[9]);
            assert("sigbot://strategies"@[9] != "sigbot://positions"@[9]);
            assert("sigbot://backtests"@[9] != "sigbot://market-data"@[9]);
            assert("sigbot://backtests"@[9] != "sigbot://positions"@[9]);
            assert("sigbot://market-data"@[9] != "sigbot://positions"@[9]);
        }
        if str_eq(uri, "sigbot://strategies") {
            Ok(ResourceKind::Strategies)
        } else if str_eq(uri, "sigbot://backtests") {
            Ok(ResourceKind::Backtests)
        } else if str_eq(uri, "sigbot://market-data") {
            Ok(ResourceKind::MarketData)
        } else if str_eq(uri, "sigbot://positions") {
            Ok(ResourceKind::Positions)
        } else {
            proof {
                assert(resource_uris()[0] == "sigbot://strategies"@);
                assert(resource_uris()[1] == "sigbot://backtests"@);
                assert(resource_uris()[2] == "sigbot://market-data"@);
                assert(resource_uris()[3] == "sigbot://positions"@);
            }
            Err(RpcError { code: INVALID_PARAMS, message: String::from_str("Unknown resource: ").concat(uri) })
        }
    }
}

/// Settings of this service's MCP server.
#[derive(Clone, Debug)]
pub struct McpServerConfig {
    pub name: String,
    pub version: String,
    pub transport: String,
    pub sse_bind_address: String,
}

impl McpServerConfig {
    /// The server's default settings: named "sigbot-mcp-server", version
    /// "0.1.0", served over SSE on 0.0.0.0:8080.
    pub fn default_config() -> (c: Self)
        ensures
            c.name@ == "sigbot-mcp-server"@,
            c.version@ == "0.1.0"@,
            c.transport@ == "sse"@,
            c.sse_bind_address@ == "0.0.0.0:8080"@,
    {
        McpServerConfig {
            name: String::from_str("sigbot-mcp-server"),
            version: String::from_str("0.1.0"),
            transport: String::from_str("sse"),
            sse_bind_address: String::from_str("0.0.0.0:8080"),
        }
    }
}

impl Default for McpServerConfig {
    fn default() -> (c: Self)
        ensures
            c.name@ == "sigbot-mcp-server"@,
            c.version@ == "0.1.0"@,
            c.transport@ == "sse"@,
            c.sse_bind_address@ == "0.0.0.0:8080"@,
    {
        McpServerConfig::default_config()
    }
}

/// How the server talks to its clients.
#[derive(Clone, Debug)]
pub enum McpTransport {
    Stdio,
    Sse { bind_address: String },
}

/// The transport of a configuration: stdio when asked for, else SSE on the
/// bind address. `addr_error` is why the bind address does not parse as a
/// socket address, if it does not; SSE is refused then.
pub fn server_transport(config: &McpServerConfig, addr_error: Option<&str>) -> (r: Result<McpTransport, McpError>)
    ensures
        config.transport@ == "stdio"@ ==> r matches Ok(McpTransport::Stdio),
        config.transport@ != "stdio"@ && addr_error is None ==>
            (r matches Ok(McpTransport::Sse { bind_address }) && bind_address == config.sse_bind_address),
        config.transport@ != "stdio"@ && addr_error is Some ==>
            (r matches Err(McpError::InvalidRequest(m)) && m@ == "Invalid bind address: "@ + addr_error.unwrap()@),
{
    if str_eq(config.transport.as_str(), "stdio") {
        return Ok(McpTransport::Stdio);
    }
    match addr_error {
        None => Ok(McpTransport::Sse { bind_address: config.sse_bind_address.clone() }),
        Some(e) => Err(McpError::InvalidRequest(String::from_str("Invalid bind address: ").concat(e))),
    }
}

/// What the server announces of itself when a client connects.
#[derive(Clone, Debug)]
pub struct ServerDetails {
    pub name: String,
    pub version: String,
    pub title: String,
    pub description: String,
    pub icon_src: String,
    pub icon_mime_type: String,
    pub icon_sizes: Vec<String>,
    pub icon_theme: String,
    pub website_url: String,
    pub tools_list_changed: bool,
    pub resources_list_changed: bool,
    pub resources_subscribe: bool,
    pub instructions: String,
    pub protocol_version: String,
}

/// The announcement of a configured server: its name (also its title) and
/// version, this service's description, icon, site and instructions, tools
/// and resources whose lists may change, resources open to subscription.
pub fn server_details(config: &McpServerConfig) -> (d: ServerDetails)
    ensures
        d.name@ == config.name@,
        d.version@ == config.version@,
        d.title@ == config.name@,
        d.description@ == "Sigbot MCP Server for trading strategies and market data"@,
        d.icon_src@ == "https://sigbot.dev/icon.png"@,
        d.icon_mime_type@ == "image/png"@,
        d.icon_sizes@.len() == 1 && d.icon_sizes@[0]@ == "128x128"@,
        d.icon_theme@ == "dark"@,
        d.website_url@ == "https://sigbot.dev"@,
        d.tools_list_changed && d.resources_list_changed && d.resources_subscribe,
        d.instructions@ == "Sigbot MCP Server - access trading strategies, backtests, and market data"@,
        d.protocol_version@ == "2025-11-25"@,
{
    let mut sizes: Vec<String> = Vec::new();
    sizes.push(String::from_str("128x128"));
    ServerDetails {
        name: config.name.clone(),
        version: config.version.clone(),
        title: config.name.clone(),
        description: String::from_str("Sigbot MCP Server for trading strategies and market data"),
        icon_src: String::from_str("https://sigbot.dev/icon.png"),
        icon_mime_type: String::from_str("image/png"),
        icon_sizes: sizes,
        icon_theme: String::from_str("dark"),
        website_url: String::from_str("https://sigbot.dev"),
        tools_list_changed: true,
        resources_list_changed: true,
        resources_subscribe: true,
        instructions: String::from_str("Sigbot MCP Server - access trading strategies, backtests, and market data"),
        protocol_version: String::from_str("2025-11-25"),
    }
}

/// This service's MCP server: its configuration, whether its runtime has
/// been set up, and whether it is running.
pub struct SigbotMcpServer {
    config: McpServerConfig,
    initialized: bool,
    running: bool,
}

impl SigbotMcpServer {
    pub closed spec fn spec_config(&self) -> McpServerConfig {
        self.config
    }

    pub closed spec fn spec_initialized(&self) -> bool {
        self.initialized
    }

    pub closed spec fn spec_running(&self) -> bool {
        self.running
    }

    /// A running server has been set up.
    #[verifier::type_invariant]
    spec fn running_is_set_up(&self) -> bool {
        self.running ==> self.initialized
    }


    /// A server that is neither set up nor running.
    pub fn new(config: McpServerConfig) -> (s: Self)
        ensures
            s.spec_config() == config,
            !s.spec_initialized(),
            !s.spec_running(),
    {
        SigbotMcpServer { config, initialized: false, running: false }
    }

    /// The configuration.
    pub fn config(&self) -> (c: &McpServerConfig)
        ensures
            *c == self.spec_config(),
    {
        &self.config
    }

    /// Sets the runtime up: picks its transport (`addr_error` as for
    /// `server_transport`).
    pub fn init(&mut self, addr_error: Option<&str>) -> (r: Result<McpTransport, McpError>)
        ensures
            old(self).spec_running() ==> old(self).spec_initialized(),
            final(self).spec_running() ==> final(self).spec_initialized(),
            final(self).spec_config() == old(self).spec_config(),
            final(self).spec_running() == old(self).spec_running(),
            final(self).spec_initialized() == (old(self).spec_initialized() || r is Ok),
            r is Ok <==> transport_ok(old(self).spec_config(), addr_error),
            old(self).spec_config().transport@ == "stdio"@ ==> r matches Ok(McpTransport::Stdio),
            !transport_ok(old(self).spec_config(), addr_error) ==>
                (r matches Err(McpError::InvalidRequest(m)) && m@ == "Invalid bind address: "@ + addr_error.unwrap()@),
            old(self).spec_config().transport@ != "stdio"@ && r is Ok ==>
                (r matches Ok(McpTransport::Sse { bind_address }) && bind_address == old(self).spec_config().sse_bind_address),
    {
        proof {
            use_type_invariant(&*self);
        }
        let r = server_transport(&self.config, addr_error);
        if r.is_ok() {
            self.initialized = true;
        }
        r
    }

    /// Starts the server, setting its runtime up first where that has not
    /// been done. A set-up that fails is passed back; a server that is
    /// already running is refused with "Server is already running".
    pub fn start(&mut self, addr_error: Option<&str>) -> (r: Result<(), McpError>)
        ensures
            old(self).spec_running() ==> old(self).spec_initialized(),
            final(self).spec_running() ==> final(self).spec_initialized(),
            final(self).spec_config() == old(self).spec_config(),
            !old(self).spec_initialized() && !transport_ok(old(self).spec_config(), addr_error) ==> {
                &&& r matches Err(McpError::InvalidRequest(m)) && m@ == "Invalid bind address: "@ + addr_error.unwrap()@
                &&& final(self).spec_running() == old(self).spec_running()
                &&& !final(self).spec_initialized()
            },
            (old(self).spec_initialized() || transport_ok(old(self).spec_config(), addr_error)) ==> {
                &&& final(self).spec_initialized()
                &&& (old(self).spec_running() ==> (r matches Err(McpError::Internal(m)) && m@ == "Server is already running"@))
                &&& (!old(self).spec_running() ==> r is Ok)
                &&& final(self).spec_running()
            },
    {
        proof {
            use_type_invariant(&*self);
        }
        if !self.initialized {
            match self.init(addr_error) {
                Err(e) => return Err(e),
                Ok(_) => {},
            }
        }
        if self.running {
            return Err(McpError::Internal(String::from_str("Server is already running")));
        }
        self.running = true;
        Ok(())
    }

    /// Stops a running server; one that is not running is refused with
    /// "Server is not running".
    pub fn stop(&mut self) -> (r: Result<(), McpError>)
        ensures
            old(self).spec_running() ==> old(self).spec_initialized(),
            final(self).spec_config() == old(self).spec_config(),
            final(self).spec_initialized() == old(self).spec_initialized(),
            !final(self).spec_running(),
            old(self).spec_running() <==> r is Ok,
            !old(self).spec_running() ==> (r matches Err(McpError::Internal(m)) && m@ == "Server is not running"@),
    {
        proof {
            use_type_invariant(&*self);
        }
        if !self.running {
            return Err(McpError::Internal(String::from_str("Server is not running")));
        }
        self.running = false;
        Ok(())
    }

    /// Whether the server is running.
    pub fn is_running(&self) -> (b: bool)
        ensures
            b == self.spec_running(),
            b ==> self.spec_initialized(),
    {
        proof {
            use_type_invariant(self);
        }
        self.running
    }
}

/// Whether a transport can be picked for a configuration: stdio, or a bind
/// address that parses.
pub open spec fn transport_ok(config: McpServerConfig, addr_error: Option<&str>) -> bool {
    config.transport@ == "stdio"@ || addr_error is None
}


/// Settings of one external MCP service.
#[derive(Clone, Debug)]
pub struct EvaluatorMcpServerConfig {
    pub name: String,
    pub url: String,
    pub transport: String,
    pub auth_token: Option<String>,
    pub api_key: Option<String>,
    pub api_secret: Option<String>,
    /// The tools to use; all of them when empty.
    pub enabled_tools: Vec<String>,
    pub timeout_secs: u64,
}

/// How a client reaches its service: by running a process, or over SSE.
#[derive(Clone, Debug)]
pub enum ClientTransport {
    Stdio { command: String },
    Sse { url: String },
}

/// Whether a discovered tool is used: all are when none are enabled by name.
pub open spec fn tool_enabled(enabled: Seq<String>, name: Seq<char>) -> bool {
    enabled.len() == 0 || exists|i: int| 0 <= i < enabled.len() && enabled[i]@ == name
}

/// The discovered tools that are used, in the order they were discovered.
pub open spec fn enabled_tools_of(enabled: Seq<String>, discovered: Seq<Seq<char>>) -> Seq<Seq<char>>
    decreases discovered.len(),
{
    if discovered.len() == 0 {
        Seq::empty()
    } else {
        let rest = enabled_tools_of(enabled, discovered.drop_last());
        if tool_enabled(enabled, discovered.last()) { rest.push(discovered.last()) } else { rest }
    }
}

/// Names as text.
pub open spec fn names_view(v: Seq<String>) -> Seq<Seq<char>> {
    v.map_values(|s: String| s@)
}

fn is_enabled(enabled: &Vec<String>, name: &String) -> (b: bool)
    ensures
        b == tool_enabled(enabled@, name@),
{
    if enabled.len() == 0 {
        return true;
    }
    let mut i: usize = 0;
    while i < enabled.len()
        invariant
            i <= enabled.len(),
            forall|k: int| 0 <= k < i ==> enabled@[k]@ != name@,
        decreases enabled.len() - i,
    {
        if str_eq(enabled[i].as_str(), name.as_str()) {
            return true;
        }
        i += 1;
    }
    false
}

/// The outcome of connecting to a service: the handshake failed, the tool
/// listing failed, or the names of the tools the service lists.
#[derive(Clone, Debug)]
pub enum ConnectOutcome {
    InitFailed(String),
    ListFailed(String),
    Listed(Vec<String>),
}

/// A client of one external MCP service: whether it is connected, and the
/// tools it uses there.
pub struct SigbotMcpClient {
    config: EvaluatorMcpServerConfig,
    connected: bool,
    discovered_tools: Vec<String>,
}

impl SigbotMcpClient {
    pub closed spec fn spec_config(&self) -> EvaluatorMcpServerConfig {
        self.config
    }

    pub closed spec fn spec_connected(&self) -> bool {
        self.connected
    }

    pub closed spec fn spec_tools(&self) -> Seq<Seq<char>> {
        names_view(self.discovered_tools@)
    }

    /// A client that is not connected and knows no tools.
    pub fn new(config: EvaluatorMcpServerConfig) -> (c: Self)
        ensures
            c.spec_config() == config,
            !c.spec_connected(),
            c.spec_tools() == Seq::<Seq<char>>::empty(),
    {
        let c = SigbotMcpClient { config, connected: false, discovered_tools: Vec::new() };
        assert(c.spec_tools() =~= Seq::<Seq<char>>::empty());
        c
    }

    /// The service's name.
    pub fn name(&self) -> (s: &str)
        ensures
            s@ == self.spec_config().name@,
    {
        self.config.name.as_str()
    }

    /// How to reach the service, unless the client is connected already:
    /// its URL is the command to run for stdio, else the SSE endpoint.
    pub fn connect_transport(&self) -> (r: Option<ClientTransport>)
        ensures
            self.spec_connected() <==> r is None,
            r matches Some(t) ==> (if self.spec_config().transport@ == "stdio"@ {
                t matches ClientTransport::Stdio { command } && command == self.spec_config().url
            } else {
                t matches ClientTransport::Sse { url } && url == self.spec_config().url
            }),
    {
        if self.connected {
            return None;
        }
        if str_eq(self.config.transport.as_str(), "stdio") {
            Some(ClientTransport::Stdio { command: self.config.url.clone() })
        } else {
            Some(ClientTransport::Sse { url: self.config.url.clone() })
        }
    }

    /// Completes a connection with what the service answered. A client
    /// that is connected already stays as it is. A failed handshake or tool
    /// listing is reported and leaves the client as it was; otherwise the
    /// client is connected and uses the listed tools that are enabled.
    pub fn connect(&mut self, outcome: ConnectOutcome) -> (r: Result<(), McpError>)
        ensures
            final(self).spec_config() == old(self).spec_config(),
            old(self).spec_connected() ==> r is Ok && final(self).spec_connected()
                && final(self).spec_tools() == old(self).spec_tools(),
            !old(self).spec_connected() ==> match outcome {
                ConnectOutcome::InitFailed(e) => (r matches Err(McpError::Connection(m))
                    && m@ == "Failed to initialize: "@ + e@)
                    && !final(self).spec_connected() && final(self).spec_tools() == old(self).spec_tools(),
                ConnectOutcome::ListFailed(e) => (r matches Err(McpError::Protocol(m))
                    && m@ == "Failed to list tools: "@ + e@)
                    && !final(self).spec_connected() && final(self).spec_tools() == old(self).spec_tools(),
                ConnectOutcome::Listed(names) => r is Ok && final(self).spec_connected()
                    && final(self).spec_tools() == enabled_tools_of(old(self).spec_config().enabled_tools@, names_view(names@)),
            },
    {
        if self.connected {
            return Ok(());
        }
        match outcome {
            ConnectOutcome::InitFailed(e) => Err(McpError::Connection(prefixed("Failed to initialize: ", &e))),
            ConnectOutcome::ListFailed(e) => Err(McpError::Protocol(prefixed("Failed to list tools: ", &e))),
            ConnectOutcome::Listed(names) => {
                let mut kept: Vec<String> = Vec::new();
                let mut i: usize = 0;
                while i < names.len()
                    invariant
                        i <= names.len(),
                        names_view(kept@) == enabled_tools_of(self.config.enabled_tools@, names_view(names@.subrange(0, i as int))),
                    decreases names.len() - i,
                {
                    let ghost before = names_view(names@.subrange(0, i as int));
                    assert(names_view(names@.subrange(0, i + 1)).drop_last() =~= before);
                    if is_enabled(&self.config.enabled_tools, &names[i]) {
                        kept.push(names[i].clone());
                        assert(names_view(kept@) =~= names_view(old(self).discovered_tools@.subrange(0, 0)) + names_view(kept@));
                    }
                    i += 1;
                    assert(names_view(kept@) =~= enabled_tools_of(self.config.enabled_tools@, names_view(names@.subrange(0, i as int))));
                }
                assert(names@.subrange(0, names@.len() as int) =~= names@);
                self.discovered_tools = kept;
                self.connected = true;
                Ok(())
            },
        }
    }

    /// Disconnects: the client is no longer connected and knows no tools.
    pub fn disconnect(&mut self)
        ensures
            final(self).spec_config() == old(self).spec_config(),
            !final(self).spec_connected(),
            final(self).spec_tools() == Seq::<Seq<char>>::empty(),
    {
        self.connected = false;
        self.discovered_tools = Vec::new();
        assert(self.spec_tools() =~= Seq::<Seq<char>>::empty());
    }

    /// Whether the client is connected.
    pub fn is_connected(&self) -> (b: bool)
        ensures
            b == self.spec_connected(),
    {
        self.connected
    }

    /// The tools the client uses.
    pub fn list_tools(&self) -> (r: Vec<String>)
        ensures
            names_view(r@) == self.spec_tools(),
    {
        let mut r: Vec<String> = Vec::new();
        let mut i: usize = 0;
        while i < self.discovered_tools.len()
            invariant
                i <= self.discovered_tools.len(),
                r@.len() == i,
                forall|k: int| 0 <= k < i ==> #[trigger] r@[k]@ == self.discovered_tools@[k]@,
            decreases self.discovered_tools.len() - i,
        {
            let t = self.discovered_tools[i].clone();
            r.push(t);
            i += 1;
        }
        assert(names_view(r@) =~= names_view(self.discovered_tools@));
        r
    }

    /// Whether a request may be sent: only by a connected client.
    pub fn ensure_connected(&self) -> (r: Result<(), McpError>)
        ensures
            self.spec_connected() <==> r is Ok,
            !self.spec_connected() ==> (r matches Err(McpError::Connection(m)) && m@ == "Not connected to MCP server"@),
    {
        if !self.connected {
            return Err(McpError::Connection(String::from_str("Not connected to MCP server")));
        }
        Ok(())
    }

    /// The text of a tool's answer, from whether it flagged an error and the
    /// text of its first content: a flagged error is reported with that text
    /// ("Unknown error" without one); otherwise the text ("{}" without one)
    /// is what gets parsed as JSON.
    pub fn tool_result_text(&self, is_error: Option<bool>, first_text: Option<String>) -> (r: Result<String, McpError>)
        ensures
            is_error == Some(true) ==> (r matches Err(McpError::ToolExecution(m))
                && m@ == (match first_text { Some(t) => t@, None => "Unknown error"@ })),
            is_error != Some(true) ==> (r matches Ok(t)
                && t@ == (match first_text { Some(t) => t@, None => "{}"@ })),
    {
        match is_error {
            Some(true) => Err(McpError::ToolExecution(match first_text {
                Some(t) => t,
                None => String::from_str("Unknown error"),
            })),
            _ => Ok(match first_text {
                Some(t) => t,
                None => String::from_str("{}"),
            }),
        }
    }

    /// The text of a resource read: the first content's text, or an error
    /// for a failed read or a read without content.
    pub fn resource_text(&self, uri: &str, read: Result<Option<String>, String>) -> (r: Result<String, McpError>)
        ensures
            read matches Err(e) ==> (r matches Err(McpError::ResourceNotFound(m)) && m@ == "Failed to read resource: "@ + e@),
            read matches Ok(None) ==> (r matches Err(McpError::ResourceNotFound(m)) && m@ == "No content for: "@ + uri@),
            read matches Ok(Some(t)) ==> r == Ok::<String, McpError>(t),
    {
        match read {
            Err(e) => Err(McpError::ResourceNotFound(prefixed("Failed to read resource: ", &e))),
            Ok(None) => Err(McpError::ResourceNotFound(String::from_str("No content for: ").concat(uri))),
            Ok(Some(t)) => Ok(t),
        }
    }
}

/// Names of a list of clients.
pub open spec fn client_names(v: Seq<SigbotMcpClient>) -> Seq<Seq<char>> {
    v.map_values(|c: SigbotMcpClient| c.spec_config().name@)
}

/// The clients of the external services, at most one per name.
pub struct McpClientManager {
    clients: Vec<SigbotMcpClient>,
}

impl McpClientManager {
    /// The registered clients.
    pub closed spec fn spec_clients(&self) -> Seq<SigbotMcpClient> {
        self.clients@
    }

    /// The names of the registered clients.
    pub open spec fn spec_names(&self) -> Seq<Seq<char>> {
        client_names(self.spec_clients())
    }

    /// No two registered clients have the same name.
    pub open spec fn wf(&self) -> bool {
        self.spec_names().no_duplicates()
    }

    /// Whether a client of the given name is registered.
    pub open spec fn has(&self, name: Seq<char>) -> bool {
        self.spec_names().contains(name)
    }

    /// The registered clients by name.
    pub closed spec fn by_name(&self) -> Map<Seq<char>, SigbotMcpClient> {
        Map::new(
            |n: Seq<char>| self.has(n),
            |n: Seq<char>| self.spec_clients()[self.spec_names().index_of(n)],
        )
    }

    /// No client is registered.
    pub fn new() -> (m: Self)
        ensures
            m.wf(),
            m.spec_clients() == Seq::<SigbotMcpClient>::empty(),
    {
        let m = McpClientManager { clients: Vec::new() };
        assert(m.spec_names() =~= Seq::<Seq<char>>::empty());
        m
    }

    fn find(&self, name: &str) -> (r: Option<usize>)
        ensures
            match r {
                Some(i) => i < self.spec_clients().len() && self.spec_names()[i as int] == name@,
                None => !self.has(name@),
            },
    {
        let mut i: usize = 0;
        while i < self.clients.len()
            invariant
                i <= self.clients.len(),
                forall|k: int| 0 <= k < i ==> self.spec_names()[k] != name@,
            decreases self.clients.len() - i,
        {
            if str_eq(self.clients[i].name(), name) {
                return Some(i);
            }
            i += 1;
        }
        None
    }

    /// Registers a client that has connected; it replaces a client of the
    /// same name. A client that has not connected is refused.
    pub fn register(&mut self, client: SigbotMcpClient) -> (r: Result<(), McpError>)
        requires
            old(self).wf(),
        ensures
            final(self).wf(),
            client.spec_connected() <==> r is Ok,
            r is Err ==> final(self).spec_clients() == old(self).spec_clients(),
            r is Ok ==> final(self).has(client.spec_config().name@),
            r is Ok ==> forall|n: Seq<char>| n != client.spec_config().name@ ==> (final(self).has(n) == old(self).has(n)),
            r is Ok ==> exists|i: int| 0 <= i < final(self).spec_clients().len()
                && final(self).spec_clients()[i] == client,
            r is Ok ==> final(self).by_name() == old(self).by_name().insert(client.spec_config().name@, client),
            r is Err ==> final(self).by_name() == old(self).by_name(),
    {
        if let Err(e) = client.ensure_connected() {
            return Err(e);
        }
        let ghost cname = client.spec_config().name@;
        match self.find(client.name()) {
            Some(i) => {
                let ghost before = self.spec_names();
                let ghost old_m = *old(self);
                self.clients.set(i, client);
                assert(self.spec_names() =~= before.update(i as int, cname));
                assert(self.spec_names() =~= before);
                assert(self.spec_clients()[i as int] == client);
                proof {
                    lemma_index_of_unique(before, i as int);
                    assert forall|n: Seq<char>| #[trigger] old_m.has(n) && n != cname
                        implies self.by_name()[n] == old_m.by_name()[n] by {
                        let k = choose|k: int| 0 <= k < before.len() && before[k] == n;
                        lemma_index_of_unique(before, k);
                    }
                    assert(self.by_name() =~= old_m.by_name().insert(cname, client));
                }
            },
            None => {
                let ghost before = self.spec_names();
                let ghost old_m = *old(self);
                self.clients.push(client);
                assert(self.spec_names() =~= before.push(cname));
                assert(self.spec_names()[before.len() as int] == cname);
                assert forall|n: Seq<char>| n != cname implies (self.spec_names().contains(n) == before.contains(n)) by {
                    if before.contains(n) {
                        let k = choose|k: int| 0 <= k < before.len() && before[k] == n;
                        assert(self.spec_names()[k] == n);
                    }
                    if self.spec_names().contains(n) {
                        let k = choose|k: int| 0 <= k < self.spec_names().len() && self.spec_names()[k] == n;
                        assert(before[k] == n);
                    }
                }
                assert(self.spec_clients()[before.len() as int] == client);
                proof {
                    let after = self.spec_names();
                    assert forall|a: int, b: int| 0 <= a < after.len() && 0 <= b < after.len() && a != b
                        implies after[a] != after[b] by {
                        if a < before.len() && b < before.len() {
                            assert(after[a] == before[a] && after[b] == before[b]);
                        } else if a == before.len() {
                            assert(after[b] == before[b]);
                        } else {
                            assert(after[a] == before[a]);
                        }
                    }
                    lemma_index_of_unique(after, before.len() as int);
                    assert forall|n: Seq<char>| #[trigger] old_m.has(n)
                        implies self.by_name()[n] == old_m.by_name()[n] by {
                        let k = choose|k: int| 0 <= k < before.len() && before[k] == n;
                        lemma_index_of_unique(before, k);
                        assert(after[k] == n);
                        lemma_index_of_unique(after, k);
                    }
                    assert(self.by_name() =~= old_m.by_name().insert(cname, client));
                }
            },
        }
        Ok(())
    }

    /// The client of the given name.
    pub fn get(&self, name: &str) -> (r: Option<&SigbotMcpClient>)
        requires
            self.wf(),
        ensures
            self.has(name@) <==> r is Some,
            r matches Some(c) ==> c.spec_config().name@ == name@
                && exists|i: int| 0 <= i < self.spec_clients().len() && self.spec_clients()[i] == *c,
            self.by_name().contains_key(name@) <==> r is Some,
            r matches Some(c) ==> *c == self.by_name()[name@],
    {
        match self.find(name) {
            Some(i) => {
                proof { lemma_index_of_unique(self.spec_names(), i as int); }
                Some(&self.clients[i])
            },
            None => None,
        }
    }

    /// The names of the registered clients.
    pub fn list_clients(&self) -> (r: Vec<String>)
        ensures
            names_view(r@) == self.spec_names(),
    {
        let mut r: Vec<String> = Vec::new();
        let mut i: usize = 0;
        while i < self.clients.len()
            invariant
                i <= self.clients.len(),
                r@.len() == i,
                names_view(r@) == self.spec_names().subrange(0, i as int),
            decreases self.clients.len() - i,
        {
            let n = String::from_str(self.clients[i].name());
            r.push(n);
            proof {
                assert(r@[i as int]@ == self.spec_names()[i as int]);
            }
            i += 1;
            assert(names_view(r@) =~= self.spec_names().subrange(0, i as int));
        }
        assert(self.spec_names().subrange(0, i as int) =~= self.spec_names());
        r
    }

    /// Removes the client of the given name, disconnected, and hands it back.
    pub fn remove(&mut self, name: &str) -> (r: Option<SigbotMcpClient>)
        requires
            old(self).wf(),
        ensures
            final(self).wf(),
            old(self).has(name@) <==> r is Some,
            !final(self).has(name@),
            forall|n: Seq<char>| n != name@ ==> (final(self).has(n) == old(self).has(n)),
            r matches Some(c) ==> c.spec_config().name@ == name@ && !c.spec_connected(),
            r matches Some(c) ==> c.spec_config() == old(self).by_name()[name@].spec_config(),
            final(self).by_name() == old(self).by_name().remove(name@),
    {
        match self.find(name) {
            Some(i) => {
                let ghost before = self.spec_names();
                let ghost old_m = *old(self);
                proof { lemma_index_of_unique(before, i as int); }
                let mut c = self.clients.remove(i);
                assert(self.spec_names() =~= before.remove(i as int));
                proof {
                    let after = self.spec_names();
                    assert forall|a: int, b: int| 0 <= a < after.len() && 0 <= b < after.len() && a != b
                        implies after[a] != after[b] by {
                        let a2 = if a < i { a } else { a + 1 };
                        let b2 = if b < i { b } else { b + 1 };
                        assert(after[a] == before[a2]);
                        assert(after[b] == before[b2]);
                    }
                    assert forall|n: Seq<char>| n != name@ implies (self.has(n) == before.contains(n)) by {
                        if before.contains(n) {
                            let k = choose|k: int| 0 <= k < before.len() && before[k] == n;
                            if k < i { assert(self.spec_names()[k] == n); } else { assert(self.spec_names()[k - 1] == n); }
                        }
                        if self.has(n) {
                            let k = choose|k: int| 0 <= k < self.spec_names().len() && self.spec_names()[k] == n;
                            if k < i { assert(before[k] == n); } else { assert(before[k + 1] == n); }
                        }
                    }
                    if self.has(name@) {
                        let k = choose|k: int| 0 <= k < self.spec_names().len() && self.spec_names()[k] == name@;
                        if k < i { assert(before[k] == name@); } else { assert(before[k + 1] == name@); }
                    }
                    assert forall|n: Seq<char>| #[trigger] self.has(n)
                        implies self.by_name()[n] == old_m.by_name()[n] by {
                        let k = choose|k: int| 0 <= k < self.spec_names().len() && self.spec_names()[k] == n;
                        lemma_index_of_unique(self.spec_names(), k);
                        let k2 = if k < i { k } else { k + 1 };
                        assert(before[k2] == n);
                        lemma_index_of_unique(before, k2);
                    }
                    assert(self.by_name() =~= old_m.by_name().remove(name@));
                }
                c.disconnect();
                Some(c)
            },
            None => {
                assert(self.by_name() =~= old(self).by_name().remove(name@));
                None
            },
        }
    }

    /// Disconnects every client.
    pub fn shutdown(&mut self)
        requires
            old(self).wf(),
        ensures
            final(self).wf(),
            final(self).spec_names() == old(self).spec_names(),
            forall|i: int| 0 <= i < final(self).spec_clients().len() ==> !(#[trigger] final(self).spec_clients()[i]).spec_connected(),
    {
        let mut i: usize = 0;
        while i < self.clients.len()
            invariant
                i <= self.clients.len(),
                self.spec_names() == old(self).spec_names(),
                forall|k: int| 0 <= k < i ==> !(#[trigger] self.spec_clients()[k]).spec_connected(),
            decreases self.clients.len() - i,
        {
            let ghost before = self.spec_names();
            let mut c = self.clients.remove(i);
            c.disconnect();
            self.clients.insert(i, c);
            assert(self.spec_names() =~= before);
            i += 1;
        }
    }
}

/// A lookup by name after a client has registered gives that client, the
/// later of two registrations under one name; after the name is removed the
/// lookup gives nothing; other names are served as before.
pub proof fn lemma_client_lookup(
    m: Map<Seq<char>, SigbotMcpClient>,
    first: SigbotMcpClient,
    second: SigbotMcpClient,
    other: Seq<char>,
)
    requires
        first.spec_config().name@ == second.spec_config().name@,
        other != first.spec_config().name@,
    ensures
        m.insert(first.spec_config().name@, first)[first.spec_config().name@] == first,
        m.insert(first.spec_config().name@, first).insert(second.spec_config().name@, second)[first.spec_config().name@] == second,
        !m.insert(first.spec_config().name@, first).remove(first.spec_config().name@).contains_key(first.spec_config().name@),
        m.insert(first.spec_config().name@, first).contains_key(other) == m.contains_key(other),
        m.remove(first.spec_config().name@).contains_key(other) == m.contains_key(other),
        m.contains_key(other) ==> m.insert(first.spec_config().name@, first)[other] == m[other],
{
}

} // verus!
