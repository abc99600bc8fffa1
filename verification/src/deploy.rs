//! Tenant deployment plans: the Kubernetes deployments and the Docker
//! containers that make up a tenant's middleware (EMQX, PostgreSQL,
//! TimescaleDB) and services (datafeed, strategy, notification, backtest),
//! the names they are found under, and the bookkeeping of the standalone
//! deployer, whose components run in-process.

use vstd::prelude::*;
use vstd::string::StringExecFns;
use crate::text::{int_text, i64_text};

verus! {

broadcast use vstd::std_specs::hash::group_hash_axioms;

/// The identity of a tenant as the deployers use it: its id (0 when it has
/// none) and its name ("unknown" when it has none).
pub fn tenant_identity(id: Option<i64>, name: &Option<String>) -> (r: (i64, String))
    ensures
        r.0 == (match id { Some(i) => i, None => 0 }),
        r.1@ == (match *name { Some(n) => n@, None => "unknown"@ }),
{
    let i = match id {
        Some(i) => i,
        None => 0,
    };
    let n = match name {
        Some(n) => n.clone(),
        None => String::from_str("unknown"),
    };
    (i, n)
}

/// The Kubernetes namespace of a tenant.
pub open spec fn namespace_text(tenant_id: i64) -> Seq<char> {
    "sigbot-tenant-"@ + int_text(tenant_id as int)
}

/// The Kubernetes namespace of a tenant.
pub fn tenant_namespace(tenant_id: i64) -> (s: String)
    ensures
        s@ == namespace_text(tenant_id),
{
    let id = i64_text(tenant_id);
    String::from_str("sigbot-tenant-").concat(id.as_str())
}

/// The name of a component's deployment or container for a tenant.
pub open spec fn component_name_text(component: Seq<char>, tenant_id: i64) -> Seq<char> {
    component + "-"@ + int_text(tenant_id as int)
}

/// The name of a component's deployment or container for a tenant.
pub fn component_name(component: &str, tenant_id: i64) -> (s: String)
    ensures
        s@ == component_name_text(component@, tenant_id),
{
    let id = i64_text(tenant_id);
    let mut s = String::from_str(component);
    s.append("-");
    s.append(id.as_str());
    s
}

/// The middleware components of a tenant, in the order they are deployed.
pub open spec fn middleware_components() -> Seq<Seq<char>> {
    seq!["emqx"@, "postgresql"@, "timescaledb"@]
}

/// The services of a tenant, in the order they are deployed.
pub open spec fn service_components() -> Seq<Seq<char>> {
    seq!["datafeed"@, "strategy"@, "notification"@, "backtest"@]
}

/// A label or environment pair as text.
pub open spec fn pair_view(p: (String, String)) -> (Seq<char>, Seq<char>) {
    (p.0@, p.1@)
}

/// Labels as text.
pub open spec fn pairs_view(v: Seq<(String, String)>) -> Seq<(Seq<char>, Seq<char>)> {
    v.map_values(|p: (String, String)| pair_view(p))
}

/// Strings as text.
pub open spec fn strings_view(v: Seq<String>) -> Seq<Seq<char>> {
    v.map_values(|s: String| s@)
}

/// The labels that select a tenant's component: its app and the tenant id.
pub open spec fn selector_labels(app: Seq<char>, tenant_id: i64) -> Seq<(Seq<char>, Seq<char>)> {
    seq![("app"@, app), ("tenant-id"@, int_text(tenant_id as int))]
}

/// Where a container's environment variable takes its value from.
#[derive(Clone, Debug)]
pub enum EnvSource {
    Value(String),
    SecretKey { secret: String, key: String },
}

/// One environment variable of a container.
#[derive(Clone, Debug)]
pub struct EnvVar {
    pub name: String,
    pub source: EnvSource,
}

/// One named port of a container.
#[derive(Clone, Debug)]
pub struct PortSpec {
    pub container_port: i32,
    pub name: String,
}

/// The one container of a deployment's pods.
#[derive(Clone, Debug)]
pub struct ContainerManifest {
    pub name: String,
    pub image: String,
    pub command: Option<Vec<String>>,
    pub env: Option<Vec<EnvVar>>,
    pub ports: Option<Vec<PortSpec>>,
}

/// A Kubernetes deployment of one replica: its name and labels, the labels
/// it selects its pods by, the labels of its pods, and their container.
#[derive(Clone, Debug)]
pub struct DeploymentManifest {
    pub name: String,
    pub labels: Vec<(String, String)>,
    pub replicas: i32,
    pub selector: Vec<(String, String)>,
    pub pod_labels: Vec<(String, String)>,
    pub container: ContainerManifest,
}

/// An environment variable as text: its name and either its value or the
/// secret and key it is read from.
pub open spec fn env_view(e: EnvVar) -> (Seq<char>, Seq<char>, Seq<char>) {
    match e.source {
        EnvSource::Value(v) => (e.name@, v@, Seq::empty()),
        EnvSource::SecretKey { secret, key } => (e.name@, secret@, key@),
    }
}

/// Whether an environment variable reads a secret.
pub open spec fn env_is_secret(e: EnvVar) -> bool {
    e.source is SecretKey
}

/// A port as a number and a name.
pub open spec fn port_view(p: PortSpec) -> (i32, Seq<char>) {
    (p.container_port, p.name@)
}

fn pair(k: &str, v: &str) -> (p: (String, String))
    ensures
        pair_view(p) == (k@, v@),
{
    (String::from_str(k), String::from_str(v))
}

fn selector(app: &str, tenant_id: i64) -> (v: Vec<(String, String)>)
    ensures
        pairs_view(v@) == selector_labels(app@, tenant_id),
{
    let id = i64_text(tenant_id);
    let mut v: Vec<(String, String)> = Vec::new();
    v.push(pair("app", app));
    v.push(pair("tenant-id", id.as_str()));
    assert(pairs_view(v@) =~= selector_labels(app@, tenant_id));
    v
}

/// Labels of a middleware deployment: app, tenant id and tenant name.
pub open spec fn middleware_labels(app: Seq<char>, tenant_id: i64, tenant_name: Seq<char>) -> Seq<(Seq<char>, Seq<char>)> {
    selector_labels(app, tenant_id).push(("tenant-name"@, tenant_name))
}

fn middleware_label_set(app: &str, tenant_id: i64, tenant_name: &str) -> (v: Vec<(String, String)>)
    ensures
        pairs_view(v@) == middleware_labels(app@, tenant_id, tenant_name@),
{
    let mut v = selector(app, tenant_id);
    v.push(pair("tenant-name", tenant_name));
    assert(pairs_view(v@) =~= middleware_labels(app@, tenant_id, tenant_name@));
    v
}

fn plain_env(name: &str, value: &str) -> (e: EnvVar)
    ensures
        env_view(e) == (name@, value@, Seq::<char>::empty()),
        !env_is_secret(e),
{
    EnvVar { name: String::from_str(name), source: EnvSource::Value(String::from_str(value)) }
}

fn secret_env(name: &str, secret: String, key: &str) -> (e: EnvVar)
    ensures
        env_view(e) == (name@, secret@, key@),
        env_is_secret(e),
{
    EnvVar { name: String::from_str(name), source: EnvSource::SecretKey { secret, key: String::from_str(key) } }
}

fn port(container_port: i32, name: &str) -> (p: PortSpec)
    ensures
        port_view(p) == (container_port, name@),
{
    PortSpec { container_port, name: String::from_str(name) }
}

/// A deployment of one middleware container, labelled with the tenant.
fn middleware_deployment(
    name: &str,
    app: &str,
    tenant_id: i64,
    tenant_name: &str,
    image: &str,
    env: Option<Vec<EnvVar>>,
    ports: Vec<PortSpec>,
) -> (d: DeploymentManifest)
    ensures
        d.name@ == name@,
        pairs_view(d.labels@) == middleware_labels(app@, tenant_id, tenant_name@),
        d.replicas == 1,
        pairs_view(d.selector@) == selector_labels(app@, tenant_id),
        pairs_view(d.pod_labels@) == selector_labels(app@, tenant_id),
        d.container.name@ == app@,
        d.container.image@ == image@,
        d.container.command is None,
        d.container.env == env,
        d.container.ports == Some(ports),
{
    DeploymentManifest {
        name: String::from_str(name),
        labels: middleware_label_set(app, tenant_id, tenant_name),
        replicas: 1,
        selector: selector(app, tenant_id),
        pod_labels: selector(app, tenant_id),
        container: ContainerManifest {
            name: String::from_str(app),
            image: String::from_str(image),
            command: None,
            env,
            ports: Some(ports),
        },
    }
}

/// The EMQX deployment of a tenant: image emqx/emqx:latest, MQTT on 1883 and HTTP on 8083.
pub fn create_emqx_deployment(name: &str, tenant_id: i64, tenant_name: &str) -> (d: DeploymentManifest)
    ensures
        d.name@ == name@,
        pairs_view(d.labels@) == middleware_labels("emqx"@, tenant_id, tenant_name@),
        d.replicas == 1,
        pairs_view(d.selector@) == selector_labels("emqx"@, tenant_id),
        pairs_view(d.pod_labels@) == selector_labels("emqx"@, tenant_id),
        d.container.name@ == "emqx"@,
        d.container.image@ == "emqx/emqx:latest"@,
        d.container.command is None,
        d.container.env is None,
        d.container.ports matches Some(ps) && ps@.map_values(|p: PortSpec| port_view(p))
            == seq![(1883i32, "mqtt"@), (8083i32, "http"@)],
{
    let mut ports: Vec<PortSpec> = Vec::new();
    ports.push(port(1883, "mqtt"));
    ports.push(port(8083, "http"));
    assert(ports@.map_values(|p: PortSpec| port_view(p)) =~= seq![(1883i32, "mqtt"@), (8083i32, "http"@)]);
    middleware_deployment(name, "emqx", tenant_id, tenant_name, "emqx/emqx:latest", None, ports)
}

/// The environment of a PostgreSQL container: the database, the user
/// postgres, and the password from the key "password" of a secret.
pub open spec fn postgres_env(ev: Seq<EnvVar>, database: Seq<char>, secret: Seq<char>) -> bool {
    &&& ev.len() == 3
    &&& env_view(ev[0]) == ("POSTGRES_DB"@, database, Seq::<char>::empty()) && !env_is_secret(ev[0])
    &&& env_view(ev[1]) == ("POSTGRES_USER"@, "postgres"@, Seq::<char>::empty()) && !env_is_secret(ev[1])
    &&& env_view(ev[2]) == ("POSTGRES_PASSWORD"@, secret, "password"@) && env_is_secret(ev[2])
}

fn postgres_env_vars(database: String, secret: String) -> (v: Vec<EnvVar>)
    ensures
        postgres_env(v@, database@, secret@),
{
    let mut v: Vec<EnvVar> = Vec::new();
    v.push(plain_env("POSTGRES_DB", database.as_str()));
    v.push(plain_env("POSTGRES_USER", "postgres"));
    v.push(secret_env("POSTGRES_PASSWORD", secret, "password"));
    v
}

/// The PostgreSQL deployment of a tenant: image postgres:16, database
/// sigbot_{id}, its password in the secret postgresql-secret-{id}, port 5432.
pub fn create_postgresql_deployment(name: &str, tenant_id: i64, tenant_name: &str) -> (d: DeploymentManifest)
    ensures
        d.name@ == name@,
        pairs_view(d.labels@) == middleware_labels("postgresql"@, tenant_id, tenant_name@),
        d.replicas == 1,
        pairs_view(d.selector@) == selector_labels("postgresql"@, tenant_id),
        pairs_view(d.pod_labels@) == selector_labels("postgresql"@, tenant_id),
        d.container.name@ == "postgresql"@,
        d.container.image@ == "postgres:16"@,
        d.container.command is None,
        d.container.env matches Some(ev) && postgres_env(ev@, "sigbot_"@ + int_text(tenant_id as int),
            "postgresql-secret-"@ + int_text(tenant_id as int)),
        d.container.ports matches Some(ps) && ps@.map_values(|p: PortSpec| port_view(p))
            == seq![(5432i32, "postgresql"@)],
{
    let id = i64_text(tenant_id);
    let db = String::from_str("sigbot_").concat(id.as_str());
    let secret = String::from_str("postgresql-secret-").concat(id.as_str());
    let env = postgres_env_vars(db, secret);
    let mut ports: Vec<PortSpec> = Vec::new();
    ports.push(port(5432, "postgresql"));
    assert(ports@.map_values(|p: PortSpec| port_view(p)) =~= seq![(5432i32, "postgresql"@)]);
    middleware_deployment(name, "postgresql", tenant_id, tenant_name, "postgres:16", Some(env), ports)
}

/// The TimescaleDB deployment of a tenant: image
/// timescale/timescaledb:latest-pg16, database sigbot_ts_{id}, its password
/// in the secret timescaledb-secret-{id}, port 5432.
pub fn create_timescaledb_deployment(name: &str, tenant_id: i64, tenant_name: &str) -> (d: DeploymentManifest)
    ensures
        d.name@ == name@,
        pairs_view(d.labels@) == middleware_labels("timescaledb"@, tenant_id, tenant_name@),
        d.replicas == 1,
        pairs_view(d.selector@) == selector_labels("timescaledb"@, tenant_id),
        pairs_view(d.pod_labels@) == selector_labels("timescaledb"@, tenant_id),
        d.container.name@ == "timescaledb"@,
        d.container.image@ == "timescale/timescaledb:latest-pg16"@,
        d.container.command is None,
        d.container.env matches Some(ev) && postgres_env(ev@, "sigbot_ts_"@ + int_text(tenant_id as int),
            "timescaledb-secret-"@ + int_text(tenant_id as int)),
        d.container.ports matches Some(ps) && ps@.map_values(|p: PortSpec| port_view(p))
            == seq![(5432i32, "postgresql"@)],
{
    let id = i64_text(tenant_id);
    let db = String::from_str("sigbot_ts_").concat(id.as_str());
    let secret = String::from_str("timescaledb-secret-").concat(id.as_str());
    let env = postgres_env_vars(db, secret);
    let mut ports: Vec<PortSpec> = Vec::new();
    ports.push(port(5432, "postgresql"));
    assert(ports@.map_values(|p: PortSpec| port_view(p)) =~= seq![(5432i32, "postgresql"@)]);
    middleware_deployment(name, "timescaledb", tenant_id, tenant_name, "timescale/timescaledb:latest-pg16", Some(env), ports)
}

/// The image of the services: the configured one, else sigbot:latest.
pub fn sigbot_image(configured: Option<String>) -> (s: String)
    ensures
        s@ == (match configured { Some(i) => i@, None => "sigbot:latest"@ }),
{
    match configured {
        Some(i) => i,
        None => String::from_str("sigbot:latest"),
    }
}

/// Labels of a service deployment: app, component, tenant id and tenant name.
pub open spec fn service_labels(component: Seq<char>, tenant_id: i64, tenant_name: Seq<char>) -> Seq<(Seq<char>, Seq<char>)> {
    seq![("app"@, component), ("component"@, component), ("tenant-id"@, int_text(tenant_id as int)),
        ("tenant-name"@, tenant_name)]
}

/// The deployment of one service of a tenant: the image given, the command
/// given, and TENANT_ID in its environment.
pub fn create_microservice_deployment(
    name: &str,
    component: &str,
    tenant_id: i64,
    tenant_name: &str,
    command: Vec<String>,
    image: &str,
) -> (d: DeploymentManifest)
    ensures
        d.name@ == name@,
        pairs_view(d.labels@) == service_labels(component@, tenant_id, tenant_name@),
        d.replicas == 1,
        pairs_view(d.selector@) == selector_labels(component@, tenant_id),
        pairs_view(d.pod_labels@) == selector_labels(component@, tenant_id),
        d.container.name@ == component@,
        d.container.image@ == image@,
        d.container.command == Some(command),
        d.container.env matches Some(ev) && ev@.len() == 1
            && env_view(ev@[0]) == ("TENANT_ID"@, int_text(tenant_id as int), Seq::<char>::empty())
            && !env_is_secret(ev@[0]),
        d.container.ports is None,
{
    let id = i64_text(tenant_id);
    let mut labels: Vec<(String, String)> = Vec::new();
    labels.push(pair("app", component));
    labels.push(pair("component", component));
    labels.push(pair("tenant-id", id.as_str()));
    labels.push(pair("tenant-name", tenant_name));
    assert(pairs_view(labels@) =~= service_labels(component@, tenant_id, tenant_name@));
    let mut env: Vec<EnvVar> = Vec::new();
    env.push(plain_env("TENANT_ID", id.as_str()));
    DeploymentManifest {
        name: String::from_str(name),
        labels,
        replicas: 1,
        selector: selector(component, tenant_id),
        pod_labels: selector(component, tenant_id),
        container: ContainerManifest {
            name: String::from_str(component),
            image: String::from_str(image),
            command: Some(command),
            env: Some(env),
            ports: None,
        },
    }
}

/// What the Kubernetes deployer creates for an active tenant: its
/// namespace, its three middleware deployments, and one deployment per
/// service, each running the service's name as its command. Each is only
/// created where it does not exist yet.
pub struct KubernetesRollout {
    pub namespace: String,
    pub middleware: Vec<DeploymentManifest>,
    pub services: Vec<DeploymentManifest>,
}

fn service_deployment(component: &str, tenant_id: i64, tenant_name: &str, image: &str) -> (d: DeploymentManifest)
    ensures
        d.name@ == component_name_text(component@, tenant_id),
        d.container.name@ == component@,
        d.container.command matches Some(c) && strings_view(c@) == seq![component@],
        d.container.image@ == image@,
        pairs_view(d.labels@) == service_labels(component@, tenant_id, tenant_name@),
{
    let name = component_name(component, tenant_id);
    let mut command: Vec<String> = Vec::new();
    command.push(String::from_str(component));
    assert(strings_view(command@) =~= seq![component@]);
    create_microservice_deployment(name.as_str(), component, tenant_id, tenant_name, command, image)
}

/// The rollout of a tenant on Kubernetes; `image` is the services' image.
pub fn kubernetes_rollout(tenant_id: i64, tenant_name: &str, image: &str) -> (r: KubernetesRollout)
    ensures
        r.namespace@ == namespace_text(tenant_id),
        r.middleware@.len() == 3,
        forall|i: int| 0 <= i < 3 ==> #[trigger] r.middleware@[i].name@
            == component_name_text(middleware_components()[i], tenant_id)
            && r.middleware@[i].container.name@ == middleware_components()[i],
        r.services@.len() == 4,
        forall|i: int| 0 <= i < 4 ==> {
            &&& #[trigger] r.services@[i].name@ == component_name_text(service_components()[i], tenant_id)
            &&& r.services@[i].container.name@ == service_components()[i]
            &&& r.services@[i].container.image@ == image@
            &&& r.services@[i].container.command matches Some(c) && strings_view(c@) == seq![service_components()[i]]
            &&& pairs_view(r.services@[i].labels@) == service_labels(service_components()[i], tenant_id, tenant_name@)
        },
{
    let namespace = tenant_namespace(tenant_id);
    let mut middleware: Vec<DeploymentManifest> = Vec::new();
    let n0 = component_name("emqx", tenant_id);
    let m0 = create_emqx_deployment(n0.as_str(), tenant_id, tenant_name);
    let n1 = component_name("postgresql", tenant_id);
    let m1 = create_postgresql_deployment(n1.as_str(), tenant_id, tenant_name);
    let n2 = component_name("timescaledb", tenant_id);
    let m2 = create_timescaledb_deployment(n2.as_str(), tenant_id, tenant_name);
    middleware.push(m0);
    middleware.push(m1);
    middleware.push(m2);
    assert(middleware@ =~= seq![m0, m1, m2]);
    let mut services: Vec<DeploymentManifest> = Vec::new();
    let s0 = service_deployment("datafeed", tenant_id, tenant_name, image);
    let s1 = service_deployment("strategy", tenant_id, tenant_name, image);
    let s2 = service_deployment("notification", tenant_id, tenant_name, image);
    let s3 = service_deployment("backtest", tenant_id, tenant_name, image);
    services.push(s0);
    services.push(s1);
    services.push(s2);
    services.push(s3);
    assert(services@ =~= seq![s0, s1, s2, s3]);
    KubernetesRollout { namespace, middleware, services }
}

/// What the Kubernetes deployer removes for an inactive tenant: its
/// namespace (with everything in it), then each service deployment by name.
pub struct KubernetesTeardown {
    pub namespace: String,
    pub deployments: Vec<String>,
}

/// The teardown of a tenant on Kubernetes.
pub fn kubernetes_teardown(tenant_id: i64) -> (r: KubernetesTeardown)
    ensures
        r.namespace@ == namespace_text(tenant_id),
        strings_view(r.deployments@) == service_components().map_values(|c: Seq<char>| component_name_text(c, tenant_id)),
{
    let mut deployments: Vec<String> = Vec::new();
    deployments.push(component_name("datafeed", tenant_id));
    deployments.push(component_name("strategy", tenant_id));
    deployments.push(component_name("notification", tenant_id));
    deployments.push(component_name("backtest", tenant_id));
    assert(strings_view(deployments@) =~= service_components().map_values(|c: Seq<char>| component_name_text(c, tenant_id)));
    KubernetesTeardown { namespace: tenant_namespace(tenant_id), deployments }
}

/// How the Docker daemon is reached: through a Unix socket at a path, or over HTTP at a URL.
#[derive(Clone, Debug)]
pub enum DockerEndpoint {
    Socket(String),
    Http(String),
}

/// `s` with every occurrence of `pat` taken out, scanning from the left.
pub open spec fn remove_all(s: Seq<char>, pat: Seq<char>) -> Seq<char>
    decreases s.len(),
{
    if pat.len() == 0 || s.len() < pat.len() {
        s
    } else if s.subrange(0, pat.len() as int) == pat {
        remove_all(s.subrange(pat.len() as int, s.len() as int), pat)
    } else {
        seq![s[0]] + remove_all(s.subrange(1, s.len() as int), pat)
    }
}

fn starts_with_at(s: &Vec<char>, at: usize, pat: &Vec<char>) -> (r: bool)
    requires
        at <= s.len(),
    ensures
        r == (at + pat.len() <= s.len() && s@.subrange(at as int, at + pat.len()) == pat@),
{
    if pat.len() > s.len() - at {
        return false;
    }
    let mut i: usize = 0;
    while i < pat.len()
        invariant
            at + pat.len() <= s.len(),
            i <= pat.len(),
            forall|k: int| 0 <= k < i ==> s@[at + k] == pat@[k],
        decreases pat.len() - i,
    {
        if s[at + i] != pat[i] {
            assert(s@.subrange(at as int, at + pat.len())[i as int] != pat@[i as int]);
            return false;
        }
        i += 1;
    }
    assert(s@.subrange(at as int, at + pat.len()) =~= pat@);
    true
}

/// `s` with every occurrence of `pat` taken out.
pub fn remove_all_occurrences(s: &str, pat: &str) -> (r: String)
    ensures
        r@ == remove_all(s@, pat@),
{
    let sv = crate::text::str_chars(s);
    let pv = crate::text::str_chars(pat);
    let mut out: Vec<char> = Vec::new();
    let mut i: usize = 0;
    assert(sv@.subrange(0, sv@.len() as int) =~= sv@);
    while i < sv.len()
        invariant
            i <= sv.len(),
            out@ + remove_all(sv@.subrange(i as int, sv@.len() as int), pv@) == remove_all(sv@, pv@),
        decreases sv.len() - i,
    {
        let ghost rest = sv@.subrange(i as int, sv@.len() as int);
        if pv.len() > 0 && starts_with_at(&sv, i, &pv) {
            assert(rest.subrange(0, pv@.len() as int) =~= sv@.subrange(i as int, i + pv.len()));
            assert(rest.subrange(pv@.len() as int, rest.len() as int) =~= sv@.subrange(i + pv.len(), sv@.len() as int));
            i = i + pv.len();
        } else {
            let ghost rest2 = sv@.subrange(i + 1, sv@.len() as int);
            proof {
                assert(rest.subrange(1, rest.len() as int) =~= rest2);
                if pv.len() > 0 && rest.len() >= pv@.len() {
                    assert(rest.subrange(0, pv@.len() as int) =~= sv@.subrange(i as int, i + pv.len()));
                    assert(remove_all(rest, pv@) == seq![rest[0]] + remove_all(rest2, pv@));
                } else {
                    assert(remove_all(rest, pv@) == rest);
                    assert(remove_all(rest2, pv@) == rest2);
                    assert(rest =~= seq![rest[0]] + rest2);
                }
            }
            out.push(sv[i]);
            assert(out@ + remove_all(rest2, pv@) =~= remove_all(sv@, pv@));
            i += 1;
        }
    }
    assert(sv@.subrange(sv@.len() as int, sv@.len() as int) =~= Seq::<char>::empty());
    assert(out@ =~= remove_all(sv@, pv@));
    crate::text::string_from_chars(&out)
}

/// Whether `s` starts with `p`.
pub open spec fn has_prefix(s: Seq<char>, p: Seq<char>) -> bool {
    p.len() <= s.len() && s.subrange(0, p.len() as int) == p
}

/// Whether `s` starts with `p`.
pub fn starts_with(s: &str, p: &str) -> (r: bool)
    ensures
        r == has_prefix(s@, p@),
{
    let sv = crate::text::str_chars(s);
    let pv = crate::text::str_chars(p);
    starts_with_at(&sv, 0, &pv)
}

/// The Docker daemon address in use: the configured one, else the local socket.
pub open spec fn docker_url_text(docker_host: Option<String>) -> Seq<char> {
    match docker_host {
        Some(h) => h@,
        None => "unix:///var/run/docker.sock"@,
    }
}

/// How the Docker deployer connects: a unix:// address is a socket whose
/// path is the address without "unix://"; any other address is used over HTTP.
pub fn docker_endpoint(docker_host: Option<String>) -> (e: DockerEndpoint)
    ensures
        ({
            let url = docker_url_text(docker_host);
            if has_prefix(url, "unix://"@) {
                e matches DockerEndpoint::Socket(p) && p@ == remove_all(url, "unix://"@)
            } else {
                e matches DockerEndpoint::Http(u) && u@ == url
            }
        }),
{
    let url = match docker_host {
        Some(h) => h,
        None => String::from_str("unix:///var/run/docker.sock"),
    };
    if starts_with(url.as_str(), "unix://") {
        DockerEndpoint::Socket(remove_all_occurrences(url.as_str(), "unix://"))
    } else {
        DockerEndpoint::Http(url)
    }
}

/// The images the Docker deployer runs, as configured.
#[derive(Clone, Debug)]
pub struct DeployerImages {
    pub emqx: String,
    pub postgresql: String,
    pub timescaledb: String,
    pub sigbot: String,
}

/// A Docker container to create and start on a tenant's network.
#[derive(Clone, Debug)]
pub struct ContainerSpec {
    pub name: String,
    pub image: String,
    pub cmd: Option<Vec<String>>,
    pub env: Vec<String>,
    pub exposed_ports: Option<Vec<String>>,
    pub network: String,
}

/// The Docker network of a tenant.
pub open spec fn network_text(prefix: Seq<char>, tenant_id: i64) -> Seq<char> {
    prefix + int_text(tenant_id as int) + "-network"@
}

/// The Docker network of a tenant.
pub fn tenant_network(prefix: &str, tenant_id: i64) -> (s: String)
    ensures
        s@ == network_text(prefix@, tenant_id),
{
    let id = i64_text(tenant_id);
    let mut s = String::from_str(prefix);
    s.append(id.as_str());
    s.append("-network");
    s
}

fn env_entry(name: &str, value: &str) -> (s: String)
    ensures
        s@ == name@ + "="@ + value@,
{
    let mut s = String::from_str(name);
    s.append("=");
    s.append(value);
    s
}

/// The environment that names a tenant: TENANT_ID and TENANT_NAME.
pub open spec fn tenant_env(tenant_id: i64, tenant_name: Seq<char>) -> Seq<Seq<char>> {
    seq!["TENANT_ID"@ + "="@ + int_text(tenant_id as int), "TENANT_NAME"@ + "="@ + tenant_name]
}

/// The environment of a PostgreSQL container with the given database.
pub open spec fn docker_postgres_env(database: Seq<char>) -> Seq<Seq<char>> {
    seq!["POSTGRES_DB"@ + "="@ + database, "POSTGRES_USER=postgres"@, "POSTGRES_PASSWORD=changeit"@]
}

fn tenant_env_vec(tenant_id: i64, tenant_name: &str) -> (v: Vec<String>)
    ensures
        strings_view(v@) == tenant_env(tenant_id, tenant_name@),
{
    let id = i64_text(tenant_id);
    let mut v: Vec<String> = Vec::new();
    v.push(env_entry("TENANT_ID", id.as_str()));
    v.push(env_entry("TENANT_NAME", tenant_name));
    assert(strings_view(v@) =~= tenant_env(tenant_id, tenant_name@));
    v
}

fn docker_postgres_env_vec(database: &str) -> (v: Vec<String>)
    ensures
        strings_view(v@) == docker_postgres_env(database@),
{
    let mut v: Vec<String> = Vec::new();
    v.push(env_entry("POSTGRES_DB", database));
    v.push(String::from_str("POSTGRES_USER=postgres"));
    v.push(String::from_str("POSTGRES_PASSWORD=changeit"));
    assert(strings_view(v@) =~= docker_postgres_env(database@));
    v
}

fn ports_of(a: &str, b: Option<&str>) -> (v: Vec<String>)
    ensures
        strings_view(v@) == (match b { Some(b) => seq![a@, b@], None => seq![a@] }),
{
    let mut v: Vec<String> = Vec::new();
    v.push(String::from_str(a));
    match b {
        Some(b) => { v.push(String::from_str(b)); },
        None => {},
    }
    assert(strings_view(v@) =~= (match b { Some(b) => seq![a@, b@], None => seq![a@] }));
    v
}

/// The EMQX container of a tenant.
pub fn emqx_container(network: &str, tenant_id: i64, tenant_name: &str, images: &DeployerImages) -> (c: ContainerSpec)
    ensures
        c.name@ == component_name_text("emqx"@, tenant_id),
        c.image == images.emqx,
        c.cmd is None,
        strings_view(c.env@) == tenant_env(tenant_id, tenant_name@),
        c.exposed_ports matches Some(p) && strings_view(p@) == seq!["1883/tcp"@, "8083/tcp"@],
        c.network@ == network@,
{
    ContainerSpec {
        name: component_name("emqx", tenant_id),
        image: images.emqx.clone(),
        cmd: None,
        env: tenant_env_vec(tenant_id, tenant_name),
        exposed_ports: Some(ports_of("1883/tcp", Some("8083/tcp"))),
        network: String::from_str(network),
    }
}

/// The PostgreSQL container of a tenant, with database sigbot_{id}.
pub fn postgresql_container(network: &str, tenant_id: i64, images: &DeployerImages) -> (c: ContainerSpec)
    ensures
        c.name@ == component_name_text("postgresql"@, tenant_id),
        c.image == images.postgresql,
        c.cmd is None,
        strings_view(c.env@) == docker_postgres_env("sigbot_"@ + int_text(tenant_id as int)),
        c.exposed_ports matches Some(p) && strings_view(p@) == seq!["5432/tcp"@],
        c.network@ == network@,
{
    let id = i64_text(tenant_id);
    let db = String::from_str("sigbot_").concat(id.as_str());
    ContainerSpec {
        name: component_name("postgresql", tenant_id),
        image: images.postgresql.clone(),
        cmd: None,
        env: docker_postgres_env_vec(db.as_str()),
        exposed_ports: Some(ports_of("5432/tcp", None)),
        network: String::from_str(network),
    }
}

/// The TimescaleDB container of a tenant, with database sigbot_ts_{id}.
pub fn timescaledb_container(network: &str, tenant_id: i64, images: &DeployerImages) -> (c: ContainerSpec)
    ensures
        c.name@ == component_name_text("timescaledb"@, tenant_id),
        c.image == images.timescaledb,
        c.cmd is None,
        strings_view(c.env@) == docker_postgres_env("sigbot_ts_"@ + int_text(tenant_id as int)),
        c.exposed_ports matches Some(p) && strings_view(p@) == seq!["5432/tcp"@],
        c.network@ == network@,
{
    let id = i64_text(tenant_id);
    let db = String::from_str("sigbot_ts_").concat(id.as_str());
    ContainerSpec {
        name: component_name("timescaledb", tenant_id),
        image: images.timescaledb.clone(),
        cmd: None,
        env: docker_postgres_env_vec(db.as_str()),
        exposed_ports: Some(ports_of("5432/tcp", None)),
        network: String::from_str(network),
    }
}

/// The container of one service of a tenant: the sigbot image, running the
/// service's name as its command.
pub fn service_container(component: &str, network: &str, tenant_id: i64, tenant_name: &str, images: &DeployerImages)
    -> (c: ContainerSpec)
    ensures
        c.name@ == component_name_text(component@, tenant_id),
        c.image == images.sigbot,
        c.cmd matches Some(v) && strings_view(v@) == seq![component@],
        strings_view(c.env@) == tenant_env(tenant_id, tenant_name@),
        c.exposed_ports is None,
        c.network@ == network@,
{
    let mut cmd: Vec<String> = Vec::new();
    cmd.push(String::from_str(component));
    assert(strings_view(cmd@) =~= seq![component@]);
    ContainerSpec {
        name: component_name(component, tenant_id),
        image: images.sigbot.clone(),
        cmd: Some(cmd),
        env: tenant_env_vec(tenant_id, tenant_name),
        exposed_ports: None,
        network: String::from_str(network),
    }
}

/// What the Docker deployer creates for an active tenant: a bridge network,
/// then the middleware containers, then one container per service, each
/// only where it does not exist yet.
pub struct DockerRollout {
    pub network: String,
    pub middleware: Vec<ContainerSpec>,
    pub services: Vec<ContainerSpec>,
}

/// The rollout of a tenant on Docker.
pub fn docker_rollout(network_prefix: &str, tenant_id: i64, tenant_name: &str, images: &DeployerImages) -> (r: DockerRollout)
    ensures
        r.network@ == network_text(network_prefix@, tenant_id),
        r.middleware@.len() == 3,
        forall|i: int| 0 <= i < 3 ==> #[trigger] r.middleware@[i].name@
            == component_name_text(middleware_components()[i], tenant_id)
            && r.middleware@[i].network@ == r.network@,
        r.services@.len() == 4,
        forall|i: int| 0 <= i < 4 ==> {
            &&& #[trigger] r.services@[i].name@ == component_name_text(service_components()[i], tenant_id)
            &&& r.services@[i].image == images.sigbot
            &&& r.services@[i].cmd matches Some(v) && strings_view(v@) == seq![service_components()[i]]
            &&& r.services@[i].network@ == r.network@
        },
{
    let network = tenant_network(network_prefix, tenant_id);
    let mut middleware: Vec<ContainerSpec> = Vec::new();
    let m0 = emqx_container(network.as_str(), tenant_id, tenant_name, images);
    let m1 = postgresql_container(network.as_str(), tenant_id, images);
    let m2 = timescaledb_container(network.as_str(), tenant_id, images);
    middleware.push(m0);
    middleware.push(m1);
    middleware.push(m2);
    assert(middleware@ =~= seq![m0, m1, m2]);
    let mut services: Vec<ContainerSpec> = Vec::new();
    let s0 = service_container("datafeed", network.as_str(), tenant_id, tenant_name, images);
    let s1 = service_container("strategy", network.as_str(), tenant_id, tenant_name, images);
    let s2 = service_container("notification", network.as_str(), tenant_id, tenant_name, images);
    let s3 = service_container("backtest", network.as_str(), tenant_id, tenant_name, images);
    services.push(s0);
    services.push(s1);
    services.push(s2);
    services.push(s3);
    assert(services@ =~= seq![s0, s1, s2, s3]);
    DockerRollout { network, middleware, services }
}

/// What the Docker deployer removes for an inactive tenant: the middleware
/// containers (stopped, then removed), the network, then the service containers.
pub struct DockerTeardown {
    pub middleware: Vec<String>,
    pub network: String,
    pub services: Vec<String>,
}

/// The teardown of a tenant on Docker.
pub fn docker_teardown(network_prefix: &str, tenant_id: i64) -> (r: DockerTeardown)
    ensures
        strings_view(r.middleware@) == middleware_components().map_values(|c: Seq<char>| component_name_text(c, tenant_id)),
        r.network@ == network_text(network_prefix@, tenant_id),
        strings_view(r.services@) == service_components().map_values(|c: Seq<char>| component_name_text(c, tenant_id)),
{
    let mut middleware: Vec<String> = Vec::new();
    middleware.push(component_name("emqx", tenant_id));
    middleware.push(component_name("postgresql", tenant_id));
    middleware.push(component_name("timescaledb", tenant_id));
    assert(strings_view(middleware@) =~= middleware_components().map_values(|c: Seq<char>| component_name_text(c, tenant_id)));
    let mut services: Vec<String> = Vec::new();
    services.push(component_name("datafeed", tenant_id));
    services.push(component_name("strategy", tenant_id));
    services.push(component_name("notification", tenant_id));
    services.push(component_name("backtest", tenant_id));
    assert(strings_view(services@) =~= service_components().map_values(|c: Seq<char>| component_name_text(c, tenant_id)));
    DockerTeardown { middleware, network: tenant_network(network_prefix, tenant_id), services }
}

/// The tenants whose middleware the standalone deployer has initialized.
/// Its components run in-process and are shared, so a tenant is only marked
/// and unmarked.
pub struct StandaloneTenants {
    initialized: std::collections::HashMap<i64, bool>,
}

impl StandaloneTenants {
    /// The ids of the initialized tenants.
    pub closed spec fn ids(&self) -> Set<i64> {
        self.initialized@.dom()
    }

    /// No tenant is initialized.
    pub fn new() -> (s: Self)
        ensures
            s.ids() == Set::<i64>::empty(),
    {
        StandaloneTenants { initialized: std::collections::HashMap::new() }
    }

    /// Marks a tenant initialized.
    pub fn startup_middleware_components(&mut self, tenant_id: i64)
        ensures
            final(self).ids() == old(self).ids().insert(tenant_id),
    {
        self.initialized.insert(tenant_id, true);
    }

    /// Unmarks a tenant.
    pub fn shutdown_middleware_components(&mut self, tenant_id: i64)
        ensures
            final(self).ids() == old(self).ids().remove(tenant_id),
    {
        self.initialized.remove(&tenant_id);
    }

    /// Whether a tenant is initialized.
    pub fn is_initialized(&self, tenant_id: i64) -> (b: bool)
        ensures
            b == self.ids().contains(tenant_id),
    {
        self.initialized.contains_key(&tenant_id)
    }
}

} // verus!
