//! Tenant-level configuration: the middleware endpoints of a service are
//! taken from the platform configuration and then overridden by what the
//! tenant's deployment describes (its components, or direct database and
//! Redis sections).

use vstd::prelude::*;
use vstd::string::StringExecFns;
use crate::text::{copy_opt, u64_text};

verus! {

/// Where a SQL database is reached.
#[derive(Clone, Debug)]
pub struct DbEndpoint {
    pub host: String,
    pub port: u16,
    pub database: String,
    pub username: String,
}

/// The Redis nodes and the user name of the cache.
#[derive(Clone, Debug)]
pub struct RedisSettings {
    pub nodes: Vec<String>,
    pub username: Option<String>,
}

/// The part of a service's configuration that a tenant can override: the
/// application database, the cache and the vector database.
#[derive(Clone, Debug)]
pub struct TenantSettings {
    pub postgres: DbEndpoint,
    pub redis: RedisSettings,
    pub pg_vector: DbEndpoint,
}

/// Kind of a deployed tenant component.
#[derive(Clone, Copy, Debug, PartialEq, Eq, Structural)]
pub enum ComponentType {
    Postgresql,
    Redis,
    Timescaledb,
    Emqx,
    Other,
}

/// A character with ASCII capitals made small.
pub open spec fn ascii_lower_char(c: char) -> char {
    if 'A' <= c && c <= 'Z' { ((c as u8) + 32) as char } else { c }
}

/// A text with ASCII capitals made small.
pub open spec fn ascii_lower(s: Seq<char>) -> Seq<char> {
    s.map_values(|c: char| ascii_lower_char(c))
}

/// The kind a component's name stands for, ignoring ASCII case; a name of
/// no known kind is `Other`.
pub open spec fn component_type_spec(name: Seq<char>) -> ComponentType {
    let n = ascii_lower(name);
    if n == "postgresql"@ {
        ComponentType::Postgresql
    } else if n == "redis"@ {
        ComponentType::Redis
    } else if n == "timescaledb"@ {
        ComponentType::Timescaledb
    } else if n == "emqx"@ {
        ComponentType::Emqx
    } else {
        ComponentType::Other
    }
}

fn lower_ascii(s: &str) -> (r: String)
    ensures
        r@ == ascii_lower(s@),
{
    let v = crate::text::str_chars(s);
    let mut out: Vec<char> = Vec::new();
    let mut i: usize = 0;
    while i < v.len()
        invariant
            0 <= i <= v.len(),
            v@ == s@,
            out@ == ascii_lower(v@.take(i as int)),
        decreases v.len() - i,
    {
        let c = v[i];
        let l = if 'A' <= c && c <= 'Z' { ((c as u8) + 32) as char } else { c };
        out.push(l);
        i += 1;
        assert(out@ =~= ascii_lower(v@.take(i as int)));
    }
    assert(v@.take(i as int) =~= v@);
    crate::text::string_from_chars(&out)
}

impl ComponentType {
    /// The kind a component's name stands for, ignoring ASCII case.
    pub fn from_name(name: &str) -> (t: ComponentType)
        ensures
            t == component_type_spec(name@),
    {
        let n = lower_ascii(name);
        if crate::text::str_eq(n.as_str(), "postgresql") {
            ComponentType::Postgresql
        } else if crate::text::str_eq(n.as_str(), "redis") {
            ComponentType::Redis
        } else if crate::text::str_eq(n.as_str(), "timescaledb") {
            ComponentType::Timescaledb
        } else if crate::text::str_eq(n.as_str(), "emqx") {
            ComponentType::Emqx
        } else {
            ComponentType::Other
        }
    }
}

/// How a deployed component is reached; each part may be missing.
#[derive(Clone, Debug)]
pub struct ComponentConnection {
    pub host: Option<String>,
    pub port: Option<u16>,
    pub database: Option<String>,
    pub username: Option<String>,
}

/// One deployed component of a tenant.
#[derive(Clone, Debug)]
pub struct Component {
    pub component_type: ComponentType,
    pub connection: Option<ComponentConnection>,
}

/// A direct database section; a part that is missing or of the wrong kind is absent.
#[derive(Clone, Debug)]
pub struct DatabaseOverride {
    pub host: Option<String>,
    pub port: Option<u64>,
    pub database: Option<String>,
    pub username: Option<String>,
}

/// A direct Redis section; a part that is missing or of the wrong kind is absent.
#[derive(Clone, Debug)]
pub struct RedisOverride {
    pub host: Option<String>,
    pub port: Option<u64>,
    pub username: Option<String>,
}

/// What a tenant's configuration document says about middleware: its list
/// of components (absent when missing or malformed), and the direct
/// database and Redis sections.
#[derive(Clone, Debug)]
pub struct TenantOverrides {
    pub components: Option<Vec<Component>>,
    pub database: Option<DatabaseOverride>,
    pub redis: Option<RedisOverride>,
}

/// Index of the first component of the given kind.
pub open spec fn first_of(cs: Seq<Component>, t: ComponentType) -> Option<int> {
    if exists|i: int| 0 <= i < cs.len() && cs[i].component_type == t {
        Some(choose|i: int| 0 <= i < cs.len() && cs[i].component_type == t
            && forall|j: int| 0 <= j < i ==> cs[j].component_type != t)
    } else {
        None
    }
}

/// The connection of the first component of the given kind, if it has one.
pub open spec fn connection_of(overrides: TenantOverrides, t: ComponentType) -> Option<ComponentConnection> {
    match overrides.components {
        Some(cs) => match first_of(cs@, t) {
            Some(i) => cs@[i].connection,
            None => None,
        },
        None => None,
    }
}

/// An endpoint with the parts that a component connection names replaced.
pub open spec fn apply_connection(e: DbEndpoint, c: Option<ComponentConnection>) -> DbEndpoint {
    match c {
        Some(c) => DbEndpoint {
            host: match c.host { Some(h) => h, None => e.host },
            port: match c.port { Some(p) => p, None => e.port },
            database: match c.database { Some(d) => d, None => e.database },
            username: match c.username { Some(u) => u, None => e.username },
        },
        None => e,
    }
}

/// A port number taken to 16 bits, as a cast does.
pub open spec fn port16(p: u64) -> u16 {
    (p % 65536) as u16
}

/// An endpoint with the parts that a direct database section names replaced.
pub open spec fn apply_database(e: DbEndpoint, d: Option<DatabaseOverride>) -> DbEndpoint {
    match d {
        Some(d) => DbEndpoint {
            host: match d.host { Some(h) => h, None => e.host },
            port: match d.port { Some(p) => port16(p), None => e.port },
            database: match d.database { Some(x) => x, None => e.database },
            username: match d.username { Some(u) => u, None => e.username },
        },
        None => e,
    }
}

/// The URL of a Redis node.
pub open spec fn redis_url_text(host: Seq<char>, port: nat) -> Seq<char> {
    "redis://"@ + host + ":"@ + crate::text::nat_text(port)
}

/// Redis settings after a Redis component's connection: one node built from
/// its host and port (127.0.0.1 and 6379 where missing), and its user name
/// where it has one.
pub open spec fn apply_redis_component(r: Seq<Seq<char>>, u: Option<Seq<char>>, c: Option<ComponentConnection>)
    -> (Seq<Seq<char>>, Option<Seq<char>>) {
    match c {
        Some(c) => (
            seq![redis_url_text(
                match c.host { Some(h) => h@, None => "127.0.0.1"@ },
                match c.port { Some(p) => p as nat, None => 6379 },
            )],
            match c.username { Some(n) => Some(n@), None => u },
        ),
        None => (r, u),
    }
}

/// Redis settings after a direct Redis section: a host gives one node (port
/// 6379 where missing, taken to 16 bits), and a user name replaces the old one.
pub open spec fn apply_redis_section(r: Seq<Seq<char>>, u: Option<Seq<char>>, s: Option<RedisOverride>)
    -> (Seq<Seq<char>>, Option<Seq<char>>) {
    match s {
        Some(s) => (
            match s.host {
                Some(h) => seq![redis_url_text(h@, match s.port { Some(p) => port16(p) as nat, None => 6379 })],
                None => r,
            },
            match s.username { Some(n) => Some(n@), None => u },
        ),
        None => (r, u),
    }
}

/// The text of each node.
pub open spec fn nodes_view(v: Seq<String>) -> Seq<Seq<char>> {
    v.map_values(|s: String| s@)
}

/// The text of an optional user name.
pub open spec fn opt_text(o: Option<String>) -> Option<Seq<char>> {
    match o {
        Some(s) => Some(s@),
        None => None,
    }
}

/// Redis settings as text.
pub open spec fn redis_view(r: RedisSettings) -> (Seq<Seq<char>>, Option<Seq<char>>) {
    (nodes_view(r.nodes@), opt_text(r.username))
}

/// The endpoint of the application database after the overrides: first the
/// PostgreSQL component, then the direct database section.
pub open spec fn configured_postgres(base: TenantSettings, o: TenantOverrides) -> DbEndpoint {
    apply_database(apply_connection(base.postgres, connection_of(o, ComponentType::Postgresql)), o.database)
}

/// The endpoint of the vector database after the TimescaleDB component.
pub open spec fn configured_pg_vector(base: TenantSettings, o: TenantOverrides) -> DbEndpoint {
    apply_connection(base.pg_vector, connection_of(o, ComponentType::Timescaledb))
}

/// The cache settings after the overrides: first the Redis component, then
/// the direct Redis section.
pub open spec fn configured_redis(base: TenantSettings, o: TenantOverrides) -> (Seq<Seq<char>>, Option<Seq<char>>) {
    let (n, u) = apply_redis_component(redis_view(base.redis).0, redis_view(base.redis).1,
        connection_of(o, ComponentType::Redis));
    apply_redis_section(n, u, o.redis)
}

fn copy_endpoint(e: &DbEndpoint) -> (r: DbEndpoint)
    ensures
        r == *e,
{
    DbEndpoint { host: e.host.clone(), port: e.port, database: e.database.clone(), username: e.username.clone() }
}

fn copy_nodes(v: &Vec<String>) -> (r: Vec<String>)
    ensures
        r@ == v@,
{
    let mut r: Vec<String> = Vec::new();
    let mut i: usize = 0;
    while i < v.len()
        invariant
            i <= v.len(),
            r@ == v@.subrange(0, i as int),
        decreases v.len() - i,
    {
        r.push(v[i].clone());
        i += 1;
        assert(r@ =~= v@.subrange(0, i as int));
    }
    assert(r@ =~= v@);
    r
}

/// Finds the first component of a kind.
fn find_component(cs: &Vec<Component>, t: ComponentType) -> (r: Option<usize>)
    ensures
        match r {
            Some(i) => i < cs.len() && first_of(cs@, t) == Some(i as int),
            None => first_of(cs@, t) is None,
        },
{
    let mut i: usize = 0;
    while i < cs.len()
        invariant
            i <= cs.len(),
            forall|j: int| 0 <= j < i ==> cs@[j].component_type != t,
        decreases cs.len() - i,
    {
        if cs[i].component_type == t {
            proof {
                let k = choose|k: int| 0 <= k < cs@.len() && cs@[k].component_type == t
                    && forall|j: int| 0 <= j < k ==> cs@[j].component_type != t;
                assert(0 <= i < cs@.len() && cs@[i as int].component_type == t
                    && forall|j: int| 0 <= j < i ==> cs@[j].component_type != t);
                if k < i {
                    assert(cs@[k].component_type != t);
                } else if k > i {
                    assert(cs@[i as int].component_type != t);
                }
            }
            return Some(i);
        }
        i += 1;
    }
    None
}

/// The connection of the first component of a kind.
fn component_connection(o: &TenantOverrides, t: ComponentType) -> (r: Option<ComponentConnection>)
    ensures
        r == connection_of(*o, t),
{
    match &o.components {
        Some(cs) => match find_component(cs, t) {
            Some(i) => match &cs[i].connection {
                Some(c) => Some(ComponentConnection {
                    host: copy_opt(&c.host),
                    port: c.port,
                    database: copy_opt(&c.database),
                    username: copy_opt(&c.username),
                }),
                None => None,
            },
            None => None,
        },
        None => None,
    }
}

fn override_endpoint(e: &mut DbEndpoint, c: &Option<ComponentConnection>)
    ensures
        *final(e) == apply_connection(*old(e), *c),
{
    match c {
        Some(c) => {
            match &c.host {
                Some(h) => { e.host = h.clone(); },
                None => {},
            }
            match c.port {
                Some(p) => { e.port = p; },
                None => {},
            }
            match &c.database {
                Some(d) => { e.database = d.clone(); },
                None => {},
            }
            match &c.username {
                Some(u) => { e.username = u.clone(); },
                None => {},
            }
        },
        None => {},
    }
}

/// A port number taken to 16 bits.
pub fn to_port16(p: u64) -> (r: u16)
    ensures
        r == port16(p),
{
    let r = p as u16;
    assert(r == p % 65536) by (bit_vector)
        requires r == p as u16;
    r
}

fn override_database(e: &mut DbEndpoint, d: &Option<DatabaseOverride>)
    ensures
        *final(e) == apply_database(*old(e), *d),
{
    match d {
        Some(d) => {
            match &d.host {
                Some(h) => { e.host = h.clone(); },
                None => {},
            }
            match d.port {
                Some(p) => { e.port = to_port16(p); },
                None => {},
            }
            match &d.database {
                Some(x) => { e.database = x.clone(); },
                None => {},
            }
            match &d.username {
                Some(u) => { e.username = u.clone(); },
                None => {},
            }
        },
        None => {},
    }
}

/// The URL of a Redis node.
pub fn redis_url(host: &str, port: u16) -> (s: String)
    ensures
        s@ == redis_url_text(host@, port as nat),
{
    let mut s = String::from_str("redis://");
    s.append(host);
    s.append(":");
    let p = u64_text(port as u64);
    s.append(p.as_str());
    s
}

fn redis_after_component(r: RedisSettings, c: &Option<ComponentConnection>) -> (out: RedisSettings)
    ensures
        redis_view(out) == apply_redis_component(redis_view(r).0, redis_view(r).1, *c),
{
    match c {
        Some(c) => {
            let host = match &c.host {
                Some(h) => h.clone(),
                None => String::from_str("127.0.0.1"),
            };
            let port: u16 = match c.port {
                Some(p) => p,
                None => 6379,
            };
            let url = redis_url(host.as_str(), port);
            let mut nodes: Vec<String> = Vec::new();
            nodes.push(url);
            let username = match &c.username {
                Some(n) => Some(n.clone()),
                None => r.username,
            };
            let out = RedisSettings { nodes, username };
            assert(nodes_view(out.nodes@) =~= apply_redis_component(redis_view(r).0, redis_view(r).1, Some(*c)).0);
            out
        },
        None => r,
    }
}

fn redis_after_section(r: RedisSettings, s: &Option<RedisOverride>) -> (out: RedisSettings)
    ensures
        redis_view(out) == apply_redis_section(redis_view(r).0, redis_view(r).1, *s),
{
    match s {
        Some(s) => {
            let nodes = match &s.host {
                Some(h) => {
                    let port: u16 = match s.port {
                        Some(p) => to_port16(p),
                        None => 6379,
                    };
                    let url = redis_url(h.as_str(), port);
                    let mut nodes: Vec<String> = Vec::new();
                    nodes.push(url);
                    assert(nodes_view(nodes@) =~= apply_redis_section(redis_view(r).0, redis_view(r).1, Some(*s)).0);
                    nodes
                },
                None => r.nodes,
            };
            let username = match &s.username {
                Some(n) => Some(n.clone()),
                None => r.username,
            };
            RedisSettings { nodes, username }
        },
        None => r,
    }
}

/// Applies a tenant's overrides to the platform settings of a service.
pub fn configure(base: &TenantSettings, overrides: &TenantOverrides) -> (r: TenantSettings)
    ensures
        r.postgres == configured_postgres(*base, *overrides),
        r.pg_vector == configured_pg_vector(*base, *overrides),
        redis_view(r.redis) == configured_redis(*base, *overrides),
{
    let mut postgres = copy_endpoint(&base.postgres);
    let pg_conn = component_connection(overrides, ComponentType::Postgresql);
    override_endpoint(&mut postgres, &pg_conn);
    override_database(&mut postgres, &overrides.database);

    let mut pg_vector = copy_endpoint(&base.pg_vector);
    let ts_conn = component_connection(overrides, ComponentType::Timescaledb);
    override_endpoint(&mut pg_vector, &ts_conn);

    let base_redis = RedisSettings { nodes: copy_nodes(&base.redis.nodes), username: copy_opt(&base.redis.username) };
    let redis_conn = component_connection(overrides, ComponentType::Redis);
    let redis = redis_after_component(base_redis, &redis_conn);
    let redis = redis_after_section(redis, &overrides.redis);
    TenantSettings { postgres, redis, pg_vector }
}

/// The configuration a tenant-level service runs with: the platform
/// settings until a tenant configuration has been stored. The stored
/// settings are shared: every reader gets the same `Arc`.
pub struct TenantConfigSlot {
    config: std::sync::Arc<TenantSettings>,
    configurer_registered: bool,
}

/// Calls `Arc::clone`: another handle on the same settings.
#[verifier::external_body]
fn share(a: &std::sync::Arc<TenantSettings>) -> (r: std::sync::Arc<TenantSettings>)
    ensures
        r == *a,
{
    a.clone()
}

impl TenantConfigSlot {
    pub closed spec fn spec_config(&self) -> TenantSettings {
        *self.config
    }

    pub closed spec fn spec_configurer_registered(&self) -> bool {
        self.configurer_registered
    }

    /// A slot holding the platform settings.
    pub fn new(platform: TenantSettings) -> (s: Self)
        ensures
            s.spec_config() == platform,
            !s.spec_configurer_registered(),
    {
        TenantConfigSlot { config: std::sync::Arc::new(platform), configurer_registered: false }
    }

    /// Stores the platform settings with the tenant's overrides applied,
    /// replacing what was stored before.
    pub fn init_tenant_config(&mut self, base: &TenantSettings, overrides: &TenantOverrides)
        ensures
            final(self).spec_configurer_registered(),
            final(self).spec_config().postgres == configured_postgres(*base, *overrides),
            final(self).spec_config().pg_vector == configured_pg_vector(*base, *overrides),
            redis_view(final(self).spec_config().redis) == configured_redis(*base, *overrides),
    {
        if !self.configurer_registered {
            self.configurer_registered = true;
        }
        self.config = std::sync::Arc::new(configure(base, overrides));
    }
}

/// The configuration currently stored in the slot: a handle on the stored
/// settings themselves.
pub fn get_tenant_config(slot: &TenantConfigSlot) -> (r: std::sync::Arc<TenantSettings>)
    ensures
        *r == slot.spec_config(),
{
    share(&slot.config)
}

/// What a tenant's overrides do to the application database: a part that the
/// direct database section names is used (its port taken to 16 bits), else
/// the part that the first PostgreSQL component's connection names, else the
/// platform's. The vector database takes the parts that the first TimescaleDB
/// component's connection names, and keeps the platform's otherwise.
pub proof fn lemma_database_overrides(base: TenantSettings, o: TenantOverrides)
    ensures
        o.database is Some && o.database.unwrap().database is Some ==>
            configured_postgres(base, o).database == o.database.unwrap().database.unwrap(),
        o.database is Some && o.database.unwrap().host is Some ==>
            configured_postgres(base, o).host == o.database.unwrap().host.unwrap(),
        o.database is Some && o.database.unwrap().username is Some ==>
            configured_postgres(base, o).username == o.database.unwrap().username.unwrap(),
        o.database is Some && o.database.unwrap().port is Some ==>
            configured_postgres(base, o).port == (o.database.unwrap().port.unwrap() % 65536) as u16,
        (o.database is None || o.database.unwrap().database is None) ==> configured_postgres(base, o).database == (
            match connection_of(o, ComponentType::Postgresql) {
                Some(c) => match c.database { Some(x) => x, None => base.postgres.database },
                None => base.postgres.database,
            }),
        (o.database is None || o.database.unwrap().host is None) ==> configured_postgres(base, o).host == (
            match connection_of(o, ComponentType::Postgresql) {
                Some(c) => match c.host { Some(x) => x, None => base.postgres.host },
                None => base.postgres.host,
            }),
        configured_pg_vector(base, o).database == (match connection_of(o, ComponentType::Timescaledb) {
            Some(c) => match c.database { Some(x) => x, None => base.pg_vector.database },
            None => base.pg_vector.database,
        }),
        configured_pg_vector(base, o).host == (match connection_of(o, ComponentType::Timescaledb) {
            Some(c) => match c.host { Some(x) => x, None => base.pg_vector.host },
            None => base.pg_vector.host,
        }),
        connection_of(o, ComponentType::Postgresql) is None && o.database is None ==> configured_postgres(base, o) == base.postgres,
        connection_of(o, ComponentType::Timescaledb) is None ==> configured_pg_vector(base, o) == base.pg_vector,
{
}

/// What a tenant's overrides do to the cache: a direct Redis section with a
/// host gives the one node `redis://host:port` (6379 when no port is given),
/// and its user name replaces the platform's; without overrides the cache is
/// the platform's.
pub proof fn lemma_redis_overrides(base: TenantSettings, o: TenantOverrides)
    ensures
        o.redis is Some && o.redis.unwrap().host is Some && o.redis.unwrap().port is None ==>
            configured_redis(base, o).0 == seq!["redis://"@ + o.redis.unwrap().host.unwrap()@ + ":6379"@],
        o.redis is Some && o.redis.unwrap().username is Some ==>
            configured_redis(base, o).1 == Some(o.redis.unwrap().username.unwrap()@),
        o.redis is None && connection_of(o, ComponentType::Redis) is None ==> configured_redis(base, o) == redis_view(base.redis),
{
    reveal_strlit(":6379");
    reveal_strlit(":");
    reveal_strlit("6379");
    assert(crate::text::nat_text(6379) =~= "6379"@) by {
        reveal_with_fuel(crate::text::nat_text, 5);
    }
    assert(":"@ + "6379"@ =~= ":6379"@);
    if o.redis is Some && o.redis.unwrap().host is Some && o.redis.unwrap().port is None {
        let h = o.redis.unwrap().host.unwrap()@;
        assert(redis_url_text(h, 6379) =~= "redis://"@ + h + ":6379"@);
    }
}

} // verus!
