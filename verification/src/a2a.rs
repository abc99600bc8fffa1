//! Agent-to-agent endpoint: the agent card that describes the agent, and
//! the answer to a JSON-RPC request on the invoke route.

use vstd::prelude::*;
use vstd::string::StringExecFns;
use crate::text::str_eq;

verus! {

/// One capability an agent advertises.
#[derive(Clone, Debug)]
pub struct AgentCapability {
    pub name: String,
    pub description: String,
}

/// What the discovery route tells about the agent.
#[derive(Clone, Debug)]
pub struct AgentCard {
    pub name: String,
    pub description: String,
    pub version: String,
    pub capabilities: Vec<AgentCapability>,
}

/// The error part of a JSON-RPC answer.
#[derive(Clone, Debug)]
pub struct A2AErrorDetail {
    pub code: i32,
    pub message: String,
}

/// Where the server listens and how the agent presents itself.
#[derive(Clone, Debug)]
pub struct A2AConfig {
    pub bind_address: String,
    pub agent_name: String,
    pub agent_description: String,
    pub agent_version: String,
}

impl Default for A2AConfig {
    fn default() -> (c: Self)
        ensures
            c.bind_address@ == "0.0.0.0:8081"@,
            c.agent_name@ == "sigbot-agent"@,
            c.agent_description@ == "Sigbot Agent"@,
            c.agent_version@ == "1.0.0"@,
    {
        A2AConfig {
            bind_address: String::from_str("0.0.0.0:8081"),
            agent_name: String::from_str("sigbot-agent"),
            agent_description: String::from_str("Sigbot Agent"),
            agent_version: String::from_str("1.0.0"),
        }
    }
}

/// Collects the configuration of an agent server, starting from the defaults.
pub struct A2AServerBuilder {
    pub config: A2AConfig,
}

impl A2AServerBuilder {
    /// A builder holding the default configuration.
    pub fn new() -> (b: Self)
        ensures
            b.config.bind_address@ == "0.0.0.0:8081"@,
            b.config.agent_name@ == "sigbot-agent"@,
            b.config.agent_description@ == "Sigbot Agent"@,
            b.config.agent_version@ == "1.0.0"@,
    {
        A2AServerBuilder { config: A2AConfig::default() }
    }

    pub fn with_bind_address(self, addr: String) -> (b: Self)
        ensures
            b.config.bind_address == addr,
            b.config.agent_name == self.config.agent_name,
            b.config.agent_description == self.config.agent_description,
            b.config.agent_version == self.config.agent_version,
    {
        let mut b = self;
        b.config.bind_address = addr;
        b
    }

    pub fn with_agent_name(self, name: String) -> (b: Self)
        ensures
            b.config.agent_name == name,
            b.config.bind_address == self.config.bind_address,
            b.config.agent_description == self.config.agent_description,
            b.config.agent_version == self.config.agent_version,
    {
        let mut b = self;
        b.config.agent_name = name;
        b
    }

    pub fn with_agent_description(self, desc: String) -> (b: Self)
        ensures
            b.config.agent_description == desc,
            b.config.bind_address == self.config.bind_address,
            b.config.agent_name == self.config.agent_name,
            b.config.agent_version == self.config.agent_version,
    {
        let mut b = self;
        b.config.agent_description = desc;
        b
    }

    pub fn with_agent_version(self, version: String) -> (b: Self)
        ensures
            b.config.agent_version == version,
            b.config.bind_address == self.config.bind_address,
            b.config.agent_name == self.config.agent_name,
            b.config.agent_description == self.config.agent_description,
    {
        let mut b = self;
        b.config.agent_version = version;
        b
    }
}

/// The agent card of a configuration: its name, description and version,
/// with no capabilities listed.
pub fn agent_card(config: &A2AConfig) -> (c: AgentCard)
    ensures
        c.name == config.agent_name,
        c.description == config.agent_description,
        c.version == config.agent_version,
        c.capabilities@.len() == 0,
{
    AgentCard {
        name: config.agent_name.clone(),
        description: config.agent_description.clone(),
        version: config.agent_version.clone(),
        capabilities: Vec::new(),
    }
}

/// The HTTP method of a route.
#[derive(Clone, Copy, Debug, PartialEq, Eq, Structural)]
pub enum HttpMethod {
    Get,
    Post,
}

/// The routes of an agent server: the agent card, the invoke route and the
/// health check.
pub fn routes() -> (r: Vec<(HttpMethod, &'static str)>)
    ensures
        r@.len() == 3,
        r@[0].0 == HttpMethod::Get && r@[0].1@ == "/.well-known/agent.json"@,
        r@[1].0 == HttpMethod::Post && r@[1].1@ == "/a2a"@,
        r@[2].0 == HttpMethod::Get && r@[2].1@ == "/healthz"@,
{
    let mut r: Vec<(HttpMethod, &'static str)> = Vec::new();
    r.push((HttpMethod::Get, "/.well-known/agent.json"));
    r.push((HttpMethod::Post, "/a2a"));
    r.push((HttpMethod::Get, "/healthz"));
    r
}

/// What the invoke route answers: a message from the agent, or an error.
#[derive(Clone, Debug)]
pub enum A2AReply {
    Message(String),
    Error(A2AErrorDetail),
}

/// JSON-RPC code of an unknown method.
pub const METHOD_NOT_FOUND: i32 = -32601;

/// Whether a method sends a message to the agent.
pub open spec fn is_message_method(method: Seq<char>) -> bool {
    method == "message/send"@ || method == "message/stream"@
}

/// Answers a JSON-RPC request with the given method, whose first message
/// part has the given text (absent when the request has none). A message
/// is acknowledged by echoing its text; any other method is unknown.
pub fn handle_a2a(method: &str, message_text: Option<&str>) -> (r: A2AReply)
    ensures
        is_message_method(method@) ==> (r matches A2AReply::Message(m)
            && m@ == "A2A message received: "@ + (match message_text { Some(t) => t@, None => Seq::<char>::empty() })),
        !is_message_method(method@) ==> (r matches A2AReply::Error(e)
            && e.code == METHOD_NOT_FOUND && e.message@ == "Method not found: "@ + method@),
{
    if str_eq(method, "message/send") || str_eq(method, "message/stream") {
        let mut m = String::from_str("A2A message received: ");
        match message_text {
            Some(t) => { m.append(t); },
            None => {},
        }
        A2AReply::Message(m)
    } else {
        A2AReply::Error(A2AErrorDetail {
            code: METHOD_NOT_FOUND,
            message: String::from_str("Method not found: ").concat(method),
        })
    }
}

} // verus!
