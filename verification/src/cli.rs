//! Command-line entry points: the names of the subcommands and how a
//! matched name is dispatched, the layout of the API routes, the metrics
//! page of the management server, the startup banner, and the settings and
//! answers of the MCP server subcommand.

use vstd::prelude::*;
use vstd::string::StringExecFns;
use crate::text::{str_chars, string_from_chars, str_eq, u64_text, nat_text};

verus! {

/// The platform API server.
pub struct SigbotAPIServer;

impl SigbotAPIServer {
    pub const COMMAND_NAME: &'static str = "api";
}

/// The backtest runner of a tenant.
pub struct SigbotBacktestRunnerStarter;

impl SigbotBacktestRunnerStarter {
    pub const COMMAND_NAME: &'static str = "backtest";
}

/// The log service.
pub struct SigbotLogServiceStarter;

impl SigbotLogServiceStarter {
    pub const COMMAND_NAME: &'static str = "logservice";
}

/// The MCP server.
pub struct SigbotMCPServer;

impl SigbotMCPServer {
    pub const COMMAND_NAME: &'static str = "mcp-server";
}

/// The order manager of a tenant.
pub struct SigbotOrderManagerStarter;

impl SigbotOrderManagerStarter {
    pub const COMMAND_NAME: &'static str = "order";
}

/// All components in one process.
pub struct SigbotStandaloneStarter;

impl SigbotStandaloneStarter {
    pub const COMMAND_NAME: &'static str = "standalone";
}

/// The subcommands the program knows, in the order they were registered.
pub struct SubcommandRegistry {
    names: Vec<String>,
}

/// What the program does with the subcommand it was given: run the one at
/// an index of the registry, refuse an unknown one, or list them all when
/// none was given.
#[derive(Clone, Copy, Debug, PartialEq, Eq, Structural)]
pub enum CommandDispatch {
    Run(usize),
    Unknown,
    ListAll,
}

/// Index of the first registered name equal to `name`.
pub open spec fn first_index(names: Seq<Seq<char>>, name: Seq<char>) -> Option<int> {
    if exists|i: int| 0 <= i < names.len() && names[i] == name {
        Some(choose|i: int| 0 <= i < names.len() && names[i] == name
            && forall|j: int| 0 <= j < i ==> names[j] != name)
    } else {
        None
    }
}

impl SubcommandRegistry {
    /// The registered names, in order.
    pub closed spec fn spec_names(&self) -> Seq<Seq<char>> {
        self.names@.map_values(|s: String| s@)
    }

    /// No subcommand is registered.
    pub fn new() -> (r: Self)
        ensures
            r.spec_names() == Seq::<Seq<char>>::empty(),
    {
        let r = SubcommandRegistry { names: Vec::new() };
        assert(r.spec_names() =~= Seq::<Seq<char>>::empty());
        r
    }

    /// Registers a subcommand after the others.
    pub fn register(&mut self, name: &str)
        ensures
            final(self).spec_names() == old(self).spec_names().push(name@),
    {
        self.names.push(String::from_str(name));
        assert(self.spec_names() =~= old(self).spec_names().push(name@));
    }

    /// The number of registered subcommands.
    pub fn len(&self) -> (n: usize)
        ensures
            n == self.spec_names().len(),
    {
        self.names.len()
    }

    /// The first registered subcommand with the given name.
    pub fn find(&self, name: &str) -> (r: Option<usize>)
        ensures
            match r {
                Some(i) => first_index(self.spec_names(), name@) == Some(i as int),
                None => first_index(self.spec_names(), name@) is None,
            },
    {
        let mut i: usize = 0;
        while i < self.names.len()
            invariant
                i <= self.names.len(),
                forall|j: int| 0 <= j < i ==> self.spec_names()[j] != name@,
            decreases self.names.len() - i,
        {
            if str_eq(self.names[i].as_str(), name) {
                proof {
                    let names = self.spec_names();
                    assert(names[i as int] == name@);
                    let k = choose|k: int| 0 <= k < names.len() && names[k] == name@
                        && forall|j: int| 0 <= j < k ==> names[j] != name@;
                    if k < i {
                        assert(names[k] != name@);
                    } else if k > i {
                        assert(names[i as int] != name@);
                    }
                }
                return Some(i);
            }
            i += 1;
        }
        None
    }

    /// What to do with the subcommand given on the command line, if any.
    pub fn dispatch(&self, given: Option<&str>) -> (d: CommandDispatch)
        ensures
            match given {
                None => d == CommandDispatch::ListAll,
                Some(n) => match first_index(self.spec_names(), n@) {
                    Some(i) => d == CommandDispatch::Run(i as usize),
                    None => d == CommandDispatch::Unknown,
                },
            },
    {
        match given {
            None => CommandDispatch::ListAll,
            Some(n) => match self.find(n) {
                Some(i) => CommandDispatch::Run(i),
                None => CommandDispatch::Unknown,
            },
        }
    }
}

/// How the API routes are mounted: at the root, or nested under a context path.
#[derive(Clone, Debug)]
pub enum RouteLayout {
    Root,
    Nested(String),
}

/// How the API routes are mounted for a configured context path: at the
/// root for none or "/", else nested under it.
pub fn api_route_layout(context_path: &Option<String>) -> (r: RouteLayout)
    ensures
        match *context_path {
            None => r is Root,
            Some(p) => if p@ == "/"@ { r is Root } else { r matches RouteLayout::Nested(q) && q == p },
        },
{
    match context_path {
        None => RouteLayout::Root,
        Some(p) => if str_eq(p.as_str(), "/") { RouteLayout::Root } else { RouteLayout::Nested(p.clone()) },
    }
}

/// How the API server is put together: the module routers in the order
/// they are merged, where they are mounted (the health routes always sit at
/// the root), whether the API documentation routes are added, and the
/// middleware layers from the inside out.
pub struct ApiAssembly {
    pub routers: Vec<&'static str>,
    pub layout: RouteLayout,
    pub swagger: bool,
    pub layers: Vec<&'static str>,
}

/// The module routers of the API server, in merge order.
pub open spec fn api_routers(has_addition_router: bool) -> Seq<Seq<char>> {
    let base = seq!["auth"@, "user"@, "tenant"@, "log"@];
    if has_addition_router { base.push("addition"@) } else { base }
}

/// The middleware layers of the API server, from the inside out.
pub open spec fn api_layers(has_addition_middleware: bool) -> Seq<Seq<char>> {
    let base = seq!["auth"@, "trace"@];
    if has_addition_middleware { base.push("addition"@) } else { base }
}

/// How the API server is put together for its configuration.
pub fn api_assembly(
    context_path: &Option<String>,
    swagger_enabled: bool,
    has_addition_router: bool,
    has_addition_middleware: bool,
) -> (a: ApiAssembly)
    ensures
        a.routers@.map_values(|r: &'static str| r@) == api_routers(has_addition_router),
        a.layers@.map_values(|r: &'static str| r@) == api_layers(has_addition_middleware),
        a.swagger == swagger_enabled,
        match *context_path {
            None => a.layout is Root,
            Some(p) => if p@ == "/"@ { a.layout is Root } else { a.layout matches RouteLayout::Nested(q) && q == p },
        },
{
    let mut routers: Vec<&'static str> = Vec::new();
    routers.push("auth");
    routers.push("user");
    routers.push("tenant");
    routers.push("log");
    if has_addition_router {
        routers.push("addition");
    }
    let mut layers: Vec<&'static str> = Vec::new();
    layers.push("auth");
    layers.push("trace");
    if has_addition_middleware {
        layers.push("addition");
    }
    assert(routers@.map_values(|r: &'static str| r@) =~= api_routers(has_addition_router));
    assert(layers@.map_values(|r: &'static str| r@) =~= api_layers(has_addition_middleware));
    ApiAssembly { routers, layout: api_route_layout(context_path), swagger: swagger_enabled, layers }
}

/// Whether a character has the Unicode White_Space property, which is what
/// std's `char::is_whitespace` and `str::trim` go by.
pub open spec fn is_white_space(c: char) -> bool {
    ||| ('\u{9}' <= c && c <= '\u{d}')
    ||| c == ' ' || c == '\u{85}' || c == '\u{a0}' || c == '\u{1680}'
    ||| ('\u{2000}' <= c && c <= '\u{200a}')
    ||| c == '\u{2028}' || c == '\u{2029}' || c == '\u{202f}' || c == '\u{205f}' || c == '\u{3000}'
}

/// How many white-space characters `s` begins with.
pub open spec fn leading_space(s: Seq<char>) -> nat
    decreases s.len(),
{
    if s.len() > 0 && is_white_space(s[0]) { 1 + leading_space(s.drop_first()) } else { 0 }
}

/// How many white-space characters `s` ends with.
pub open spec fn trailing_space(s: Seq<char>) -> nat
    decreases s.len(),
{
    if s.len() > 0 && is_white_space(s.last()) { 1 + trailing_space(s.drop_last()) } else { 0 }
}

/// `s` without leading and trailing white space, as std trims it.
pub open spec fn trimmed_of(s: Seq<char>) -> Seq<char> {
    let t = s.subrange(leading_space(s) as int, s.len() as int);
    t.subrange(0, t.len() - trailing_space(t))
}

proof fn lemma_leading_space(s: Seq<char>, i: int)
    requires
        0 <= i <= s.len(),
        forall|k: int| 0 <= k < i ==> is_white_space(#[trigger] s[k]),
    ensures
        leading_space(s) == i + leading_space(s.subrange(i, s.len() as int)),
        leading_space(s) <= s.len(),
    decreases i,
{
    if i > 0 {
        lemma_leading_space(s.drop_first(), i - 1);
        assert(s.drop_first().subrange(i - 1, s.drop_first().len() as int) =~= s.subrange(i, s.len() as int));
    } else {
        assert(s.subrange(0, s.len() as int) =~= s);
        lemma_leading_space_bound(s);
    }
}

proof fn lemma_leading_space_bound(s: Seq<char>)
    ensures
        leading_space(s) <= s.len(),
    decreases s.len(),
{
    if s.len() > 0 {
        lemma_leading_space_bound(s.drop_first());
    }
}

proof fn lemma_trailing_space(s: Seq<char>, j: int)
    requires
        0 <= j <= s.len(),
        forall|k: int| j <= k < s.len() ==> is_white_space(#[trigger] s[k]),
    ensures
        trailing_space(s) == (s.len() - j) + trailing_space(s.subrange(0, j)),
    decreases s.len() - j,
{
    if j < s.len() {
        lemma_trailing_space(s.drop_last(), j);
        assert(s.drop_last().subrange(0, j) =~= s.subrange(0, j));
    } else {
        assert(s.subrange(0, j) =~= s);
    }
}

fn white_space(c: char) -> (b: bool)
    ensures
        b == is_white_space(c),
{
    ('\u{9}' <= c && c <= '\u{d}') || c == ' ' || c == '\u{85}' || c == '\u{a0}' || c == '\u{1680}'
        || ('\u{2000}' <= c && c <= '\u{200a}') || c == '\u{2028}' || c == '\u{2029}' || c == '\u{202f}'
        || c == '\u{205f}' || c == '\u{3000}'
}

/// `s` without leading and trailing white space, as `str::trim` gives it.
pub(crate) fn trim(s: &str) -> (r: String)
    ensures
        r@ == trimmed_of(s@),
{
    let v = str_chars(s);
    let mut a: usize = 0;
    while a < v.len() && white_space(v[a])
        invariant
            v@ == s@,
            a <= v.len(),
            forall|k: int| 0 <= k < a ==> is_white_space(#[trigger] v@[k]),
        decreases v.len() - a,
    {
        a += 1;
    }
    let ghost t = s@.subrange(a as int, s@.len() as int);
    proof {
        lemma_leading_space(s@, a as int);
        if a < v.len() {
            assert(t[0] == v@[a as int]);
        }
        assert(leading_space(t) == 0);
        assert(leading_space(s@) == a);
    }
    let mut b: usize = v.len();
    while b > a && white_space(v[b - 1])
        invariant
            v@ == s@,
            a <= b <= v.len(),
            forall|k: int| b <= k < v.len() ==> is_white_space(#[trigger] v@[k]),
        decreases b - a,
    {
        b -= 1;
    }
    proof {
        let m = (b - a) as int;
        assert forall|k: int| m <= k < t.len() implies is_white_space(#[trigger] t[k]) by {
            assert(t[k] == v@[a + k]);
        }
        lemma_trailing_space(t, m);
        let u = t.subrange(0, m);
        if m > 0 {
            assert(u.last() == v@[b - 1]);
        }
        assert(trailing_space(u) == 0);
    }
    let mut out: Vec<char> = Vec::new();
    let mut k: usize = a;
    while k < b
        invariant
            v@ == s@,
            a <= k <= b <= v.len(),
            out@ == v@.subrange(a as int, k as int),
        decreases b - k,
    {
        out.push(v[k]);
        k += 1;
        assert(out@ =~= v@.subrange(a as int, k as int));
    }
    proof {
        assert(out@ =~= t.subrange(0, t.len() - trailing_space(t)));
    }
    string_from_chars(&out)
}

/// The metrics page: the registry's metrics and the HTTP metrics, one after
/// the other (trimmed and separated by a line break) when both have
/// content, else whichever has.
pub open spec fn merged_metrics_text(registry: Seq<char>, http: Seq<char>) -> Seq<char> {
    if trimmed_of(registry).len() == 0 {
        http
    } else if trimmed_of(http).len() == 0 {
        registry
    } else {
        trimmed_of(registry) + "\n"@ + trimmed_of(http)
    }
}

/// The management server: its metrics page.
pub struct SigbotManagementServer;

impl SigbotManagementServer {
    /// The metrics page from the registry's metrics and the HTTP metrics.
    pub fn merge_metrics(registry: &str, http: &str) -> (r: String)
        ensures
            r@ == merged_metrics_text(registry@, http@),
    {
        let tr = trim(registry);
        if tr.as_str().is_empty() {
            return String::from_str(http);
        }
        let th = trim(http);
        if th.as_str().is_empty() {
            return String::from_str(registry);
        }
        let mut s = tr;
        s.append("\n");
        s.append(th.as_str());
        s
    }
}

/// A text written with `{:?}`: quoted, with special characters escaped.
pub uninterp spec fn debug_quoted_of(s: Seq<char>) -> Seq<char>;

/// Writes a text with `{:?}`; the result depends on the text alone and is named.
#[verifier::external_body]
fn debug_quoted(s: &str) -> (r: String)
    ensures
        r@ == debug_quoted_of(s@),
{
    format!("{:?}", s)
}

/// What the startup banner shows.
pub struct BannerInfo {
    pub ascii_name: String,
    pub git_version: String,
    pub package_version: String,
    pub git_commit_hash: String,
    pub git_build_date: String,
    /// The configuration file's path, when it is set.
    pub config_path: Option<String>,
    pub server_host: String,
    pub server_port: u16,
    /// The management server, when it is enabled.
    pub mgmt: Option<MgmtBanner>,
    /// The configuration as JSON, shown in verbose mode.
    pub verbose_config: Option<String>,
}

/// What the banner shows of an enabled management server.
pub struct MgmtBanner {
    pub host: String,
    pub port: u16,
    /// The OpenTelemetry endpoint, when tracing is enabled.
    pub otel_endpoint: Option<String>,
}

/// An address line of the banner: a label and a quoted http URL.
pub open spec fn listen_line(label: Seq<char>, host: Seq<char>, port: u16) -> Seq<char> {
    label + "\"http://"@ + host + ":"@ + nat_text(port as nat) + "\""@
}

/// The lines of the standalone starter's banner.
pub open spec fn banner_text(b: BannerInfo) -> Seq<Seq<char>> {
    let head = seq![
        Seq::<char>::empty(),
        b.ascii_name@,
        "                Program Version: "@ + debug_quoted_of(b.git_version@),
        "                Package Version: "@ + debug_quoted_of(b.package_version@),
        "                Git Commit Hash: "@ + debug_quoted_of(b.git_commit_hash@),
        "                 Git Build Date: "@ + debug_quoted_of(b.git_build_date@),
        "        Configuration file path: "@ + debug_quoted_of(match b.config_path { Some(p) => p@, None => "none"@ }),
        listen_line("            Web Serve listen on: "@, b.server_host@, b.server_port),
    ];
    let mgmt = match b.mgmt {
        Some(m) => {
            let l = seq![listen_line("     Management serve listen on: "@, m.host@, m.port)];
            match m.otel_endpoint {
                Some(e) => l.push("          Otel agent connect to: \""@ + e@ + "\""@),
                None => l,
            }
        },
        None => Seq::empty(),
    };
    let verbose = match b.verbose_config {
        Some(c) => seq!["Configuration loaded: "@ + c@],
        None => Seq::empty(),
    };
    head + mgmt + verbose + seq![Seq::<char>::empty()]
}

fn listen_text(label: &str, host: &str, port: u16) -> (s: String)
    ensures
        s@ == listen_line(label@, host@, port),
{
    let mut s = String::from_str(label);
    s.append("\"http://");
    s.append(host);
    s.append(":");
    let p = u64_text(port as u64);
    s.append(p.as_str());
    s.append("\"");
    s
}

fn labelled(label: &str, value: &str) -> (s: String)
    ensures
        s@ == label@ + debug_quoted_of(value@),
{
    let q = debug_quoted(value);
    String::from_str(label).concat(q.as_str())
}

/// The lines of the standalone starter's banner.
pub fn banner_lines(b: &BannerInfo) -> (r: Vec<String>)
    ensures
        r@.map_values(|s: String| s@) == banner_text(*b),
{
    let mut r: Vec<String> = Vec::new();
    r.push(String::new());
    r.push(b.ascii_name.clone());
    r.push(labelled("                Program Version: ", b.git_version.as_str()));
    r.push(labelled("                Package Version: ", b.package_version.as_str()));
    r.push(labelled("                Git Commit Hash: ", b.git_commit_hash.as_str()));
    r.push(labelled("                 Git Build Date: ", b.git_build_date.as_str()));
    let path: &str = match &b.config_path {
        Some(p) => p.as_str(),
        None => "none",
    };
    r.push(labelled("        Configuration file path: ", path));
    r.push(listen_text("            Web Serve listen on: ", b.server_host.as_str(), b.server_port));
    let ghost head = r@.map_values(|s: String| s@);
    match &b.mgmt {
        Some(m) => {
            r.push(listen_text("     Management serve listen on: ", m.host.as_str(), m.port));
            match &m.otel_endpoint {
                Some(e) => {
                    let mut l = String::from_str("          Otel agent connect to: \"");
                    l.append(e.as_str());
                    l.append("\"");
                    r.push(l);
                },
                None => {},
            }
        },
        None => {},
    }
    let ghost with_mgmt = r@.map_values(|s: String| s@);
    match &b.verbose_config {
        Some(c) => {
            r.push(String::from_str("Configuration loaded: ").concat(c.as_str()));
        },
        None => {},
    }
    let ghost with_verbose = r@.map_values(|s: String| s@);
    r.push(String::new());
    proof {
        let t = banner_text(*b);
        assert(with_verbose.len() + 1 == r@.len());
        assert(r@.map_values(|s: String| s@) =~= t);
    }
    r
}

/// Settings of the MCP server subcommand.
#[derive(Clone, Debug)]
pub struct McpStarterConfig {
    pub name: String,
    pub version: String,
    pub transport: String,
    pub sse_bind_address: String,
    pub auth_enabled: bool,
    pub jwt_secret: Option<String>,
    pub rate_limit: Option<u32>,
    pub cors_enabled: bool,
}

/// The settings of the MCP server subcommand from its options (bind
/// address, transport, the text of the authentication flag), the package
/// version and the JWT secret: authentication is on unless the flag is given
/// as anything but "true"; the rate limit is 100 and CORS is on.
pub fn mcp_starter_config(
    bind_address: &str,
    transport: &str,
    auth_enabled: Option<&str>,
    version: &str,
    jwt_secret: Option<String>,
) -> (c: McpStarterConfig)
    ensures
        c.name@ == "sigbot-mcp-server"@,
        c.version@ == version@,
        c.transport@ == transport@,
        c.sse_bind_address@ == bind_address@,
        c.auth_enabled == (match auth_enabled { Some(a) => a@ == "true"@, None => true }),
        c.jwt_secret == jwt_secret,
        c.rate_limit == Some(100u32),
        c.cors_enabled,
{
    let auth = match auth_enabled {
        Some(a) => str_eq(a, "true"),
        None => true,
    };
    McpStarterConfig {
        name: String::from_str("sigbot-mcp-server"),
        version: String::from_str(version),
        transport: String::from_str(transport),
        sse_bind_address: String::from_str(bind_address),
        auth_enabled: auth,
        jwt_secret,
        rate_limit: Some(100),
        cors_enabled: true,
    }
}

/// A resource registered by the MCP server subcommand: URI, name, description.
pub struct StarterResource {
    pub uri: String,
    pub name: String,
    pub description: String,
}

/// The URIs of the resources registered by the MCP server subcommand, in order.
pub open spec fn starter_resource_uris() -> Seq<Seq<char>> {
    seq!["sigbot://strategies"@, "sigbot://backtests"@, "sigbot://evaluators"@, "sigbot://market-data"@,
        "sigbot://positions"@]
}

fn resource(uri: &str, name: &str, description: &str) -> (r: StarterResource)
    ensures
        r.uri@ == uri@,
        r.name@ == name@,
        r.description@ == description@,
{
    StarterResource { uri: String::from_str(uri), name: String::from_str(name), description: String::from_str(description) }
}

/// The resources registered by the MCP server subcommand.
pub fn register_default_resources() -> (r: Vec<StarterResource>)
    ensures
        r@.len() == 5,
        forall|i: int| 0 <= i < 5 ==> (#[trigger] r@[i]).uri@ == starter_resource_uris()[i],
        r@[0].name@ == "All Strategies"@ && r@[0].description@ == "List all available trading strategies"@,
        r@[1].name@ == "All Backtests"@ && r@[1].description@ == "List all backtest results"@,
        r@[2].name@ == "All Evaluators"@ && r@[2].description@ == "List all evaluator states"@,
        r@[3].name@ == "Market Data"@ && r@[3].description@ == "Access real-time market data"@,
        r@[4].name@ == "Positions"@ && r@[4].description@ == "View current trading positions"@,
{
    let mut r: Vec<StarterResource> = Vec::new();
    r.push(resource("sigbot://strategies", "All Strategies", "List all available trading strategies"));
    r.push(resource("sigbot://backtests", "All Backtests", "List all backtest results"));
    r.push(resource("sigbot://evaluators", "All Evaluators", "List all evaluator states"));
    r.push(resource("sigbot://market-data", "Market Data", "Access real-time market data"));
    r.push(resource("sigbot://positions", "Positions", "View current trading positions"));
    r
}

/// A tool registered by the MCP server subcommand: its name, description,
/// the arguments it takes (name and JSON type) and those it requires.
pub struct StarterTool {
    pub name: String,
    pub description: String,
    pub properties: Vec<(String, String)>,
    pub required: Vec<String>,
}

fn strs(v: &[&str]) -> (r: Vec<String>)
    ensures
        r@.len() == v@.len(),
        forall|i: int| 0 <= i < v@.len() ==> (#[trigger] r@[i])@ == v@[i]@,
{
    let mut r: Vec<String> = Vec::new();
    let mut i: usize = 0;
    while i < v.len()
        invariant
            i <= v@.len(),
            r@.len() == i,
            forall|k: int| 0 <= k < i ==> (#[trigger] r@[k])@ == v@[k]@,
        decreases v@.len() - i,
    {
        r.push(String::from_str(v[i]));
        i += 1;
    }
    r
}

fn props(v: &[(&str, &str)]) -> (r: Vec<(String, String)>)
    ensures
        r@.len() == v@.len(),
        forall|i: int| 0 <= i < v@.len() ==> (#[trigger] r@[i]).0@ == v@[i].0@ && r@[i].1@ == v@[i].1@,
{
    let mut r: Vec<(String, String)> = Vec::new();
    let mut i: usize = 0;
    while i < v.len()
        invariant
            i <= v@.len(),
            r@.len() == i,
            forall|k: int| 0 <= k < i ==> (#[trigger] r@[k]).0@ == v@[k].0@ && r@[k].1@ == v@[k].1@,
        decreases v@.len() - i,
    {
        let (a, b) = v[i];
        r.push((String::from_str(a), String::from_str(b)));
        i += 1;
    }
    r
}

/// Names of the tools registered by the MCP server subcommand, in order.
pub open spec fn starter_tool_names() -> Seq<Seq<char>> {
    seq!["get_strategies"@, "run_backtest"@, "get_market_data"@, "get_position"@]
}

/// The tools registered by the MCP server subcommand.
pub fn register_default_tools() -> (r: Vec<StarterTool>)
    ensures
        r@.len() == 4,
        forall|i: int| 0 <= i < 4 ==> (#[trigger] r@[i]).name@ == starter_tool_names()[i],
        r@[0].required@.len() == 0,
        r@[1].required@.map_values(|s: String| s@) == seq!["strategy_id"@, "start_time"@, "end_time"@],
        r@[2].required@.map_values(|s: String| s@) == seq!["symbol"@, "data_type"@],
        r@[3].required@.map_values(|s: String| s@) == seq!["account_id"@],
{
    let mut r: Vec<StarterTool> = Vec::new();
    r.push(StarterTool {
        name: String::from_str("get_strategies"),
        description: String::from_str("Get list of all available trading strategies"),
        properties: props(&[("tenant_id", "string")]),
        required: Vec::new(),
    });
    let req1 = strs(&["strategy_id", "start_time", "end_time"]);
    assert(req1@.map_values(|s: String| s@) =~= seq!["strategy_id"@, "start_time"@, "end_time"@]);
    r.push(StarterTool {
        name: String::from_str("run_backtest"),
        description: String::from_str("Execute a backtest for a strategy"),
        properties: props(&[("strategy_id", "string"), ("start_time", "string"), ("end_time", "string"), ("initial_capital", "number")]),
        required: req1,
    });
    let req2 = strs(&["symbol", "data_type"]);
    assert(req2@.map_values(|s: String| s@) =~= seq!["symbol"@, "data_type"@]);
    r.push(StarterTool {
        name: String::from_str("get_market_data"),
        description: String::from_str("Get market data for a symbol"),
        properties: props(&[("symbol", "string"), ("data_type", "string"), ("interval", "string")]),
        required: req2,
    });
    let req3 = strs(&["account_id"]);
    assert(req3@.map_values(|s: String| s@) =~= seq!["account_id"@]);
    r.push(StarterTool {
        name: String::from_str("get_position"),
        description: String::from_str("Get current trading position"),
        properties: props(&[("account_id", "string"), ("symbol", "string")]),
        required: req3,
    });
    r
}

fn or_default(o: Option<&str>, d: &str) -> (s: String)
    ensures
        s@ == (match o { Some(v) => v@, None => d@ }),
{
    match o {
        Some(v) => String::from_str(v),
        None => String::from_str(d),
    }
}

/// The arguments a backtest is started with: the strategy ("default" when
/// missing) and the start and end times (empty when missing).
pub fn run_backtest_args(strategy_id: Option<&str>, start_time: Option<&str>, end_time: Option<&str>)
    -> (r: (String, String, String))
    ensures
        r.0@ == (match strategy_id { Some(v) => v@, None => "default"@ }),
        r.1@ == (match start_time { Some(v) => v@, None => Seq::<char>::empty() }),
        r.2@ == (match end_time { Some(v) => v@, None => Seq::<char>::empty() }),
{
    proof {
        reveal_strlit("");
    }
    (or_default(strategy_id, "default"), or_default(start_time, ""), or_default(end_time, ""))
}

/// The market data asked for: the symbol ("BTCUSDT" when missing) and the
/// kind of data ("price" when missing).
pub fn market_data_args(symbol: Option<&str>, data_type: Option<&str>) -> (r: (String, String))
    ensures
        r.0@ == (match symbol { Some(v) => v@, None => "BTCUSDT"@ }),
        r.1@ == (match data_type { Some(v) => v@, None => "price"@ }),
{
    (or_default(symbol, "BTCUSDT"), or_default(data_type, "price"))
}

/// The position asked for: the account ("default" when missing) and the
/// symbol reported ("BTCUSDT" when missing).
pub fn position_args(account_id: Option<&str>, symbol: Option<&str>) -> (r: (String, String))
    ensures
        r.0@ == (match account_id { Some(v) => v@, None => "default"@ }),
        r.1@ == (match symbol { Some(v) => v@, None => "BTCUSDT"@ }),
{
    (or_default(account_id, "default"), or_default(symbol, "BTCUSDT"))
}

} // verus!
