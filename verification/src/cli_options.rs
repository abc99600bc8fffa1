//! The options each component subcommand takes: their ids, flags, order
//! in the help, help text and defaults. Provider names come from the
//! component modules and are passed in.

use vstd::prelude::*;
use vstd::string::StringExecFns;
use crate::audit_attrs::{join_comma, join_with_comma};

verus! {

/// One option of a subcommand.
#[derive(Clone, Debug)]
pub struct CliOption {
    pub id: String,
    pub short: Option<char>,
    pub long: String,
    pub display_order: usize,
    pub help: String,
    pub default: Option<String>,
    /// The placeholder for the option's value in the help.
    pub value_name: Option<String>,
}

/// An option as text: id, short flag, long flag, order in the help, help text,
/// default and value placeholder.
pub type OptionView = (Seq<char>, Option<char>, Seq<char>, usize, Seq<char>, Option<Seq<char>>, Option<Seq<char>>);

/// An option as text.
pub open spec fn option_view(o: CliOption) -> OptionView {
    (o.id@, o.short, o.long@, o.display_order, o.help@, match o.default { Some(d) => Some(d@), None => None },
        match o.value_name { Some(v) => Some(v@), None => None })
}

/// Options as text.
pub open spec fn options_view(v: Seq<CliOption>) -> Seq<OptionView> {
    v.map_values(|o: CliOption| option_view(o))
}

/// An option that picks a provider: its help lists the supported names,
/// and the given default is used when it is left out.
pub open spec fn provider_option_spec(
    id: Seq<char>,
    short: Option<char>,
    long: Seq<char>,
    order: usize,
    prefix: Seq<char>,
    names: Seq<Seq<char>>,
    default: Seq<char>,
) -> OptionView {
    (id, short, long, order, prefix + " (supported are: "@ + join_comma(names) + ")"@, Some(default), None)
}

/// An option that takes a base64 encoded JSON configuration, with no default.
pub open spec fn config_option_spec(id: Seq<char>, short: Option<char>, long: Seq<char>, order: usize, subject: Seq<char>)
    -> OptionView {
    (id, short, long, order, "The configuration of "@ + subject + ". (base64 encoded JSON string)"@, None, None)
}

/// The names the component modules give their providers.
pub struct ProviderNames {
    pub messager_local: String,
    pub messager_mqtt: String,
    pub datafeed_binance: String,
    pub datafeed_twitter: String,
    pub datafeed_truthsocial: String,
    pub strategy_python: String,
    pub order_default: String,
    pub wallet_default: String,
    pub backtest_kline: String,
    pub backtest_trades: String,
    pub notification_email: String,
    pub notification_telegram: String,
    pub log_default: String,
}

fn provider_option(
    id: &str,
    short: Option<char>,
    long: &str,
    order: usize,
    prefix: &str,
    names: Vec<String>,
    default: &String,
) -> (o: CliOption)
    ensures
        option_view(o) == provider_option_spec(id@, short, long@, order, prefix@, names@.map_values(|n: String| n@), default@),
{
    let joined = join_with_comma(&names);
    let mut help = String::from_str(prefix);
    help.append(" (supported are: ");
    help.append(joined.as_str());
    help.append(")");
    CliOption {
        id: String::from_str(id),
        short,
        long: String::from_str(long),
        display_order: order,
        help,
        default: Some(default.clone()),
        value_name: None,
    }
}

fn config_option(id: &str, short: Option<char>, long: &str, order: usize, subject: &str) -> (o: CliOption)
    ensures
        option_view(o) == config_option_spec(id@, short, long@, order, subject@),
{
    let mut help = String::from_str("The configuration of ");
    help.append(subject);
    help.append(". (base64 encoded JSON string)");
    CliOption { id: String::from_str(id), short, long: String::from_str(long), display_order: order, help, default: None, value_name: None }
}

fn two(a: &String, b: &String) -> (v: Vec<String>)
    ensures
        v@.map_values(|n: String| n@) == seq![a@, b@],
{
    let mut v: Vec<String> = Vec::new();
    v.push(a.clone());
    v.push(b.clone());
    assert(v@.map_values(|n: String| n@) =~= seq![a@, b@]);
    v
}

fn one(a: &String) -> (v: Vec<String>)
    ensures
        v@.map_values(|n: String| n@) == seq![a@],
{
    let mut v: Vec<String> = Vec::new();
    v.push(a.clone());
    assert(v@.map_values(|n: String| n@) =~= seq![a@]);
    v
}

/// The options of the standalone subcommand, which runs every component.
pub open spec fn standalone_options_spec(p: ProviderNames) -> Seq<OptionView> {
    seq![
        provider_option_spec("MESSAGER_PROVIDER"@, None, "messager-provider"@, 1, "The providers of messager."@,
            seq![p.messager_local@, p.messager_mqtt@], p.messager_local@),
        provider_option_spec("DATAFEED_PROVIDERS"@, None, "datafeed-providers"@, 10,
            "The providers of multi datafeeds separated by commas."@,
            seq![p.datafeed_binance@, p.datafeed_twitter@, p.datafeed_truthsocial@], p.datafeed_binance@),
        config_option_spec("DATAFEED_CONFIGURATION"@, None, "datafeed-configuration"@, 11, "datafeed"@),
        provider_option_spec("STRATEGY_RUNNER_PROVIDER"@, None, "strategy-runner-provider"@, 20,
            "The strategy runner provider to use."@, seq![p.strategy_python@], p.strategy_python@),
        config_option_spec("STRATEGY_RUNNER_CONFIGURATION"@, None, "strategy-runner-configuration"@, 21, "strategy"@),
        provider_option_spec("ORDER_MANAGER_PROVIDER"@, None, "order-manager-provider"@, 30,
            "The provider of Order Manager."@, seq![p.order_default@], p.order_default@),
        config_option_spec("ORDER_MANAGER_CONFIGURATION"@, None, "order-manager-configuration"@, 31, "order manager"@),
        provider_option_spec("WALLET_MANAGER_PROVIDER"@, None, "wallet-manager-provider"@, 40,
            "The provider of Wallet Manager."@, seq![p.wallet_default@], p.wallet_default@),
        config_option_spec("WALLET_MANAGER_CONFIGURATION"@, None, "wallet-manager-configuration"@, 41, "wallet manager"@),
        provider_option_spec("BACKTEST_MANAGER_PROVIDER"@, None, "backtest-manager-provider"@, 50,
            "The backtest manager provider to use."@, seq![p.backtest_kline@, p.backtest_trades@], p.backtest_kline@),
        config_option_spec("BACKTEST_MANAGER_CONFIGURATION"@, None, "backtest-manager-configuration"@, 51, "backtest manager"@),
        provider_option_spec("NOTIFICATION_PROVIDERS"@, None, "notification-providers"@, 60,
            "The providers of multi notification separated by commas."@,
            seq![p.notification_email@, p.notification_telegram@], p.notification_email@),
        config_option_spec("NOTIFICATION_CONFIGURATION"@, None, "notification-configuration"@, 61, "notification"@),
    ]
}

/// The options of the standalone subcommand.
pub fn standalone_options(p: &ProviderNames) -> (r: Vec<CliOption>)
    ensures
        options_view(r@) == standalone_options_spec(*p),
{
    let mut r: Vec<CliOption> = Vec::new();
    let mut three: Vec<String> = Vec::new();
    three.push(p.datafeed_binance.clone());
    three.push(p.datafeed_twitter.clone());
    three.push(p.datafeed_truthsocial.clone());
    assert(three@.map_values(|n: String| n@) =~= seq![p.datafeed_binance@, p.datafeed_twitter@, p.datafeed_truthsocial@]);
    let o0 = provider_option("MESSAGER_PROVIDER", None, "messager-provider", 1, "The providers of messager.",
        two(&p.messager_local, &p.messager_mqtt), &p.messager_local);
    let o1 = provider_option("DATAFEED_PROVIDERS", None, "datafeed-providers", 10,
        "The providers of multi datafeeds separated by commas.", three, &p.datafeed_binance);
    let o2 = config_option("DATAFEED_CONFIGURATION", None, "datafeed-configuration", 11, "datafeed");
    let o3 = provider_option("STRATEGY_RUNNER_PROVIDER", None, "strategy-runner-provider", 20,
        "The strategy runner provider to use.", one(&p.strategy_python), &p.strategy_python);
    let o4 = config_option("STRATEGY_RUNNER_CONFIGURATION", None, "strategy-runner-configuration", 21, "strategy");
    let o5 = provider_option("ORDER_MANAGER_PROVIDER", None, "order-manager-provider", 30,
        "The provider of Order Manager.", one(&p.order_default), &p.order_default);
    let o6 = config_option("ORDER_MANAGER_CONFIGURATION", None, "order-manager-configuration", 31, "order manager");
    let o7 = provider_option("WALLET_MANAGER_PROVIDER", None, "wallet-manager-provider", 40,
        "The provider of Wallet Manager.", one(&p.wallet_default), &p.wallet_default);
    let o8 = config_option("WALLET_MANAGER_CONFIGURATION", None, "wallet-manager-configuration", 41, "wallet manager");
    let o9 = provider_option("BACKTEST_MANAGER_PROVIDER", None, "backtest-manager-provider", 50,
        "The backtest manager provider to use.", two(&p.backtest_kline, &p.backtest_trades), &p.backtest_kline);
    let o10 = config_option("BACKTEST_MANAGER_CONFIGURATION", None, "backtest-manager-configuration", 51, "backtest manager");
    let o11 = provider_option("NOTIFICATION_PROVIDERS", None, "notification-providers", 60,
        "The providers of multi notification separated by commas.",
        two(&p.notification_email, &p.notification_telegram), &p.notification_email);
    let o12 = config_option("NOTIFICATION_CONFIGURATION", None, "notification-configuration", 61, "notification");
    r.push(o0);
    r.push(o1);
    r.push(o2);
    r.push(o3);
    r.push(o4);
    r.push(o5);
    r.push(o6);
    r.push(o7);
    r.push(o8);
    r.push(o9);
    r.push(o10);
    r.push(o11);
    r.push(o12);
    assert(options_view(r@) =~= standalone_options_spec(*p));
    r
}

/// The options of the log service subcommand.
pub open spec fn logservice_options_spec(p: ProviderNames) -> Seq<OptionView> {
    seq![
        provider_option_spec("MESSAGER_PROVIDER"@, Some('m'), "messager-provider"@, 1, "The provider of Messager."@,
            seq![p.messager_local@, p.messager_mqtt@], p.messager_local@),
        config_option_spec("MESSAGER_CONFIGURATION"@, Some('c'), "messager-configuration"@, 2, "Messager"@),
        provider_option_spec("LOG_MANAGER_PROVIDER"@, None, "log-manager-provider"@, 3, "The provider of Log Manager."@,
            seq![p.log_default@], p.log_default@),
        config_option_spec("LOG_MANAGER_CONFIGURATION"@, None, "log-manager-configuration"@, 4, "Log Manager"@),
    ]
}

/// The options of the log service subcommand.
pub fn logservice_options(p: &ProviderNames) -> (r: Vec<CliOption>)
    ensures
        options_view(r@) == logservice_options_spec(*p),
{
    let o0 = provider_option("MESSAGER_PROVIDER", Some('m'), "messager-provider", 1, "The provider of Messager.",
        two(&p.messager_local, &p.messager_mqtt), &p.messager_local);
    let o1 = config_option("MESSAGER_CONFIGURATION", Some('c'), "messager-configuration", 2, "Messager");
    let o2 = provider_option("LOG_MANAGER_PROVIDER", None, "log-manager-provider", 3, "The provider of Log Manager.",
        one(&p.log_default), &p.log_default);
    let o3 = config_option("LOG_MANAGER_CONFIGURATION", None, "log-manager-configuration", 4, "Log Manager");
    let mut r: Vec<CliOption> = Vec::new();
    r.push(o0);
    r.push(o1);
    r.push(o2);
    r.push(o3);
    assert(options_view(r@) =~= logservice_options_spec(*p));
    r
}

/// The options of the backtest runner subcommand.
pub open spec fn backtest_options_spec(p: ProviderNames) -> Seq<OptionView> {
    seq![
        provider_option_spec("MESSAGER_PROVIDER"@, Some('m'), "messager-provider"@, 1, "The providers of Messager."@,
            seq![p.messager_mqtt@], p.messager_mqtt@),
        provider_option_spec("BACKTEST_MANAGER_PROVIDER"@, Some('p'), "backtest-manager-provider"@, 2,
            "The Backtest Manager provider to use."@, seq![p.backtest_kline@, p.backtest_trades@], p.backtest_kline@),
        config_option_spec("BACKTEST_MANAGER_CONFIGURATION"@, Some('c'), "backtest-manager-configuration"@, 3, "Backtest Manager"@),
    ]
}

/// The options of the backtest runner subcommand.
pub fn backtest_options(p: &ProviderNames) -> (r: Vec<CliOption>)
    ensures
        options_view(r@) == backtest_options_spec(*p),
{
    let o0 = provider_option("MESSAGER_PROVIDER", Some('m'), "messager-provider", 1, "The providers of Messager.",
        one(&p.messager_mqtt), &p.messager_mqtt);
    let o1 = provider_option("BACKTEST_MANAGER_PROVIDER", Some('p'), "backtest-manager-provider", 2,
        "The Backtest Manager provider to use.", two(&p.backtest_kline, &p.backtest_trades), &p.backtest_kline);
    let o2 = config_option("BACKTEST_MANAGER_CONFIGURATION", Some('c'), "backtest-manager-configuration", 3, "Backtest Manager");
    let mut r: Vec<CliOption> = Vec::new();
    r.push(o0);
    r.push(o1);
    r.push(o2);
    assert(options_view(r@) =~= backtest_options_spec(*p));
    r
}

/// The options of the order manager subcommand.
pub open spec fn order_options_spec(p: ProviderNames) -> Seq<OptionView> {
    seq![
        provider_option_spec("MESSAGER_PROVIDER"@, Some('m'), "messager-provider"@, 1, "The provider of Messager."@,
            seq![p.messager_local@, p.messager_mqtt@], p.messager_local@),
        provider_option_spec("ORDER_MANAGER_PROVIDER"@, Some('p'), "order-manager-provider"@, 2,
            "The provider of Order Manager."@, seq![p.order_default@], p.order_default@),
        config_option_spec("ORDER_MANAGER_CONFIGURATION"@, Some('c'), "order-manager-configuration"@, 3, "Order Manager"@),
    ]
}

/// The options of the order manager subcommand.
pub fn order_options(p: &ProviderNames) -> (r: Vec<CliOption>)
    ensures
        options_view(r@) == order_options_spec(*p),
{
    let o0 = provider_option("MESSAGER_PROVIDER", Some('m'), "messager-provider", 1, "The provider of Messager.",
        two(&p.messager_local, &p.messager_mqtt), &p.messager_local);
    let o1 = provider_option("ORDER_MANAGER_PROVIDER", Some('p'), "order-manager-provider", 2,
        "The provider of Order Manager.", one(&p.order_default), &p.order_default);
    let o2 = config_option("ORDER_MANAGER_CONFIGURATION", Some('c'), "order-manager-configuration", 3, "Order Manager");
    let mut r: Vec<CliOption> = Vec::new();
    r.push(o0);
    r.push(o1);
    r.push(o2);
    assert(options_view(r@) =~= order_options_spec(*p));
    r
}

/// A subcommand nested under a component's subcommand, with its options.
#[derive(Clone, Debug)]
pub struct SubcommandSpec {
    pub name: String,
    pub options: Vec<CliOption>,
}

/// A component's subcommand: its name, its description, whether it shows its
/// help when given no arguments, its options and its own subcommands.
#[derive(Clone, Debug)]
pub struct CommandSpec {
    pub name: String,
    pub about: String,
    pub help_without_args: bool,
    pub options: Vec<CliOption>,
    pub subcommands: Vec<SubcommandSpec>,
}

/// A nested subcommand as text.
pub open spec fn subcommand_view(s: SubcommandSpec) -> (Seq<char>, Seq<OptionView>) {
    (s.name@, options_view(s.options@))
}

/// A component's subcommand as text.
pub open spec fn command_view(c: CommandSpec) -> (
    Seq<char>,
    Seq<char>,
    bool,
    Seq<OptionView>,
    Seq<(Seq<char>, Seq<OptionView>)>,
) {
    (c.name@, c.about@, c.help_without_args, options_view(c.options@), c.subcommands@.map_values(|x: SubcommandSpec| subcommand_view(x)))
}

/// The API server's `start` subcommand takes a configuration file.
pub open spec fn api_start_view() -> (Seq<char>, Seq<OptionView>) {
    ("start"@, seq![("config"@, Some('c'), "config"@, 1usize, "The configuration file of API Server."@, None::<Seq<char>>, None::<Seq<char>>)])
}

/// The standalone subcommand: shows its help when given no arguments.
pub open spec fn standalone_command_view(p: ProviderNames) -> (
    Seq<char>, Seq<char>, bool,
    Seq<OptionView>,
    Seq<(Seq<char>, Seq<OptionView>)>,
) {
    ("standalone"@, "Run Sigbot Components All in One with Standalone."@, true, standalone_options_spec(p), Seq::empty())
}

/// The API server subcommand: a `start` subcommand with a configuration file.
pub open spec fn api_command_view() -> (
    Seq<char>, Seq<char>, bool,
    Seq<OptionView>,
    Seq<(Seq<char>, Seq<OptionView>)>,
) {
    ("api"@, "Run Sigbot platformization API Server."@, false, Seq::empty(), seq![api_start_view()])
}

/// The order manager subcommand: shows its help when given no arguments.
pub open spec fn order_command_view(p: ProviderNames) -> (
    Seq<char>, Seq<char>, bool,
    Seq<OptionView>,
    Seq<(Seq<char>, Seq<OptionView>)>,
) {
    ("order"@, "Run Sigbot tenantization Order Manager"@, true, order_options_spec(p), Seq::empty())
}

/// The backtest runner subcommand: shows its help when given no arguments.
pub open spec fn backtest_command_view(p: ProviderNames) -> (
    Seq<char>, Seq<char>, bool,
    Seq<OptionView>,
    Seq<(Seq<char>, Seq<OptionView>)>,
) {
    ("backtest"@, "Run Sigbot tenantization Backtest Runner."@, true, backtest_options_spec(p), Seq::empty())
}

/// The log service subcommand: shows its help when given no arguments.
pub open spec fn logservice_command_view(p: ProviderNames) -> (
    Seq<char>, Seq<char>, bool,
    Seq<OptionView>,
    Seq<(Seq<char>, Seq<OptionView>)>,
) {
    ("logservice"@, "Run Sigbot Log Service Server."@, true, logservice_options_spec(p), Seq::empty())
}

fn command(name: &str, about: &str, help_without_args: bool, options: Vec<CliOption>) -> (c: CommandSpec)
    ensures
        command_view(c) == (name@, about@, help_without_args, options_view(options@),
            Seq::<(Seq<char>, Seq<OptionView>)>::empty()),
{
    let c = CommandSpec {
        name: String::from_str(name),
        about: String::from_str(about),
        help_without_args,
        options,
        subcommands: Vec::new(),
    };
    assert(c.subcommands@.map_values(|x: SubcommandSpec| subcommand_view(x)) =~= Seq::empty());
    c
}

/// The standalone subcommand.
pub fn standalone_command(p: &ProviderNames) -> (c: CommandSpec)
    ensures
        command_view(c) == standalone_command_view(*p),
{
    command("standalone", "Run Sigbot Components All in One with Standalone.", true, standalone_options(p))
}

/// The API server subcommand.
pub fn api_command() -> (c: CommandSpec)
    ensures
        command_view(c) == api_command_view(),
{
    let mut opts: Vec<CliOption> = Vec::new();
    opts.push(CliOption {
        id: String::from_str("config"),
        short: Some('c'),
        long: String::from_str("config"),
        display_order: 1,
        help: String::from_str("The configuration file of API Server."),
        default: None,
        value_name: None,
    });
    let mut subs: Vec<SubcommandSpec> = Vec::new();
    subs.push(SubcommandSpec { name: String::from_str("start"), options: opts });
    let c = CommandSpec {
        name: String::from_str("api"),
        about: String::from_str("Run Sigbot platformization API Server."),
        help_without_args: false,
        options: Vec::new(),
        subcommands: subs,
    };
    assert(options_view(c.options@) =~= Seq::empty());
    assert(options_view(c.subcommands@[0].options@) =~= api_start_view().1);
    assert(c.subcommands@.map_values(|x: SubcommandSpec| subcommand_view(x)) =~= seq![api_start_view()]);
    c
}

/// The order manager subcommand.
pub fn order_command(p: &ProviderNames) -> (c: CommandSpec)
    ensures
        command_view(c) == order_command_view(*p),
{
    command("order", "Run Sigbot tenantization Order Manager", true, order_options(p))
}

/// The backtest runner subcommand.
pub fn backtest_command(p: &ProviderNames) -> (c: CommandSpec)
    ensures
        command_view(c) == backtest_command_view(*p),
{
    command("backtest", "Run Sigbot tenantization Backtest Runner.", true, backtest_options(p))
}

/// The log service subcommand.
pub fn logservice_command(p: &ProviderNames) -> (c: CommandSpec)
    ensures
        command_view(c) == logservice_command_view(*p),
{
    command("logservice", "Run Sigbot Log Service Server.", true, logservice_options(p))
}

/// An option with a value placeholder and, maybe, a default.
pub open spec fn valued_option_spec(id: Seq<char>, long: Seq<char>, order: usize, value_name: Seq<char>, help: Seq<char>, default: Option<Seq<char>>) -> OptionView {
    (id, None, long, order, help, default, Some(value_name))
}

/// The options of the MCP server subcommand.
pub open spec fn mcp_server_options_spec() -> Seq<OptionView> {
    seq![
        valued_option_spec("BIND_ADDRESS"@, "bind-address"@, 1, "ADDRESS"@, "MCP Server bind address"@, Some("0.0.0.0:8080"@)),
        valued_option_spec("TRANSPORT"@, "transport"@, 2, "TYPE"@, "Transport type: sse, stdio, or both"@, Some("sse"@)),
        valued_option_spec("AUTH_ENABLED"@, "auth-enabled"@, 3, "BOOL"@, "Enable authentication"@, Some("true"@)),
        valued_option_spec("EXTERNAL_MCP_SERVICES"@, "external-mcp-services"@, 4, "CONFIG"@,
            "Path to external MCP services configuration file"@, None),
    ]
}

/// The MCP server subcommand: runs with its defaults when given no arguments.
pub open spec fn mcp_server_command_view() -> (Seq<char>, Seq<char>, bool, Seq<OptionView>, Seq<(Seq<char>, Seq<OptionView>)>) {
    ("mcp-server"@, "Start the MCP Server for Sigbot"@, false, mcp_server_options_spec(), Seq::empty())
}

fn valued_option(id: &str, long: &str, order: usize, value_name: &str, help: &str, default: Option<&str>) -> (o: CliOption)
    ensures
        option_view(o) == valued_option_spec(id@, long@, order, value_name@, help@,
            match default { Some(d) => Some(d@), None => None }),
{
    CliOption {
        id: String::from_str(id),
        short: None,
        long: String::from_str(long),
        display_order: order,
        help: String::from_str(help),
        default: match default { Some(d) => Some(String::from_str(d)), None => None },
        value_name: Some(String::from_str(value_name)),
    }
}

/// The MCP server subcommand.
pub fn mcp_server_command() -> (c: CommandSpec)
    ensures
        command_view(c) == mcp_server_command_view(),
{
    let mut r: Vec<CliOption> = Vec::new();
    r.push(valued_option("BIND_ADDRESS", "bind-address", 1, "ADDRESS", "MCP Server bind address", Some("0.0.0.0:8080")));
    r.push(valued_option("TRANSPORT", "transport", 2, "TYPE", "Transport type: sse, stdio, or both", Some("sse")));
    r.push(valued_option("AUTH_ENABLED", "auth-enabled", 3, "BOOL", "Enable authentication", Some("true")));
    r.push(valued_option("EXTERNAL_MCP_SERVICES", "external-mcp-services", 4, "CONFIG",
        "Path to external MCP services configuration file", None));
    assert(options_view(r@) =~= mcp_server_options_spec());
    command("mcp-server", "Start the MCP Server for Sigbot", false, r)
}

} // verus!
