use sigbot::deploy::{
    component_name, create_emqx_deployment, create_microservice_deployment, create_postgresql_deployment,
    create_timescaledb_deployment, docker_endpoint, docker_rollout, docker_teardown, kubernetes_rollout,
    kubernetes_teardown, remove_all_occurrences, sigbot_image, starts_with, tenant_identity, tenant_namespace,
    tenant_network, DeployerImages, DockerEndpoint, EnvSource, StandaloneTenants,
};

fn labels(v: &Vec<(String, String)>) -> Vec<(&str, &str)> {
    v.iter().map(|(k, v)| (k.as_str(), v.as_str())).collect()
}

fn images() -> DeployerImages {
    DeployerImages {
        emqx: "emqx:5".to_string(),
        postgresql: "pg:16".to_string(),
        timescaledb: "ts:2".to_string(),
        sigbot: "sigbot:1".to_string(),
    }
}

#[test]
fn identity_defaults() {
    assert_eq!(tenant_identity(None, &None), (0, "unknown".to_string()));
    assert_eq!(tenant_identity(Some(7), &Some("acme".to_string())), (7, "acme".to_string()));
}

#[test]
fn names() {
    assert_eq!(tenant_namespace(42), "sigbot-tenant-42");
    assert_eq!(tenant_namespace(-3), "sigbot-tenant--3");
    assert_eq!(component_name("emqx", 42), "emqx-42");
    assert_eq!(tenant_network("sigbot-", 5), "sigbot-5-network");
}

#[test]
fn emqx_manifest() {
    let d = create_emqx_deployment("emqx-7", 7, "acme");
    assert_eq!(d.name, "emqx-7");
    assert_eq!(labels(&d.labels), vec![("app", "emqx"), ("tenant-id", "7"), ("tenant-name", "acme")]);
    assert_eq!(labels(&d.selector), vec![("app", "emqx"), ("tenant-id", "7")]);
    assert_eq!(d.replicas, 1);
    assert_eq!(d.container.image, "emqx/emqx:latest");
    let ports = d.container.ports.unwrap();
    assert_eq!(ports.len(), 2);
    assert_eq!((ports[0].container_port, ports[0].name.as_str()), (1883, "mqtt"));
    assert_eq!((ports[1].container_port, ports[1].name.as_str()), (8083, "http"));
    assert!(d.container.env.is_none());
}

#[test]
fn postgres_and_timescale_manifests() {
    let d = create_postgresql_deployment("postgresql-7", 7, "acme");
    assert_eq!(d.container.image, "postgres:16");
    let env = d.container.env.unwrap();
    assert_eq!(env[0].name, "POSTGRES_DB");
    assert!(matches!(&env[0].source, EnvSource::Value(v) if v == "sigbot_7"));
    assert!(matches!(&env[1].source, EnvSource::Value(v) if v == "postgres"));
    match &env[2].source {
        EnvSource::SecretKey { secret, key } => {
            assert_eq!(secret, "postgresql-secret-7");
            assert_eq!(key, "password");
        }
        _ => panic!("expected secret"),
    }
    let t = create_timescaledb_deployment("timescaledb-7", 7, "acme");
    assert_eq!(t.container.image, "timescale/timescaledb:latest-pg16");
    let env = t.container.env.unwrap();
    assert!(matches!(&env[0].source, EnvSource::Value(v) if v == "sigbot_ts_7"));
    assert!(matches!(&env[2].source, EnvSource::SecretKey { secret, .. } if secret == "timescaledb-secret-7"));
}

#[test]
fn microservice_manifest() {
    let d = create_microservice_deployment("datafeed-3", "datafeed", 3, "n", vec!["datafeed".to_string()], "img:1");
    assert_eq!(
        labels(&d.labels),
        vec![("app", "datafeed"), ("component", "datafeed"), ("tenant-id", "3"), ("tenant-name", "n")]
    );
    assert_eq!(d.container.command, Some(vec!["datafeed".to_string()]));
    let env = d.container.env.unwrap();
    assert_eq!(env[0].name, "TENANT_ID");
    assert!(matches!(&env[0].source, EnvSource::Value(v) if v == "3"));
    assert!(d.container.ports.is_none());
    assert_eq!(sigbot_image(None), "sigbot:latest");
    assert_eq!(sigbot_image(Some("x".to_string())), "x");
}

#[test]
fn kubernetes_plans() {
    let r = kubernetes_rollout(9, "t", "img");
    assert_eq!(r.namespace, "sigbot-tenant-9");
    let names: Vec<&str> = r.middleware.iter().map(|d| d.name.as_str()).collect();
    assert_eq!(names, vec!["emqx-9", "postgresql-9", "timescaledb-9"]);
    let names: Vec<&str> = r.services.iter().map(|d| d.name.as_str()).collect();
    assert_eq!(names, vec!["datafeed-9", "strategy-9", "notification-9", "backtest-9"]);
    let t = kubernetes_teardown(9);
    assert_eq!(t.namespace, "sigbot-tenant-9");
    assert_eq!(t.deployments, vec!["datafeed-9", "strategy-9", "notification-9", "backtest-9"]);
}

#[test]
fn docker_plans() {
    let r = docker_rollout("net-", 4, "acme", &images());
    assert_eq!(r.network, "net-4-network");
    assert_eq!(r.middleware[0].env, vec!["TENANT_ID=4".to_string(), "TENANT_NAME=acme".to_string()]);
    assert_eq!(r.middleware[0].exposed_ports, Some(vec!["1883/tcp".to_string(), "8083/tcp".to_string()]));
    assert_eq!(
        r.middleware[1].env,
        vec!["POSTGRES_DB=sigbot_4".to_string(), "POSTGRES_USER=postgres".to_string(), "POSTGRES_PASSWORD=changeit".to_string()]
    );
    assert_eq!(r.middleware[2].env[0], "POSTGRES_DB=sigbot_ts_4");
    assert_eq!(r.services[3].name, "backtest-4");
    assert_eq!(r.services[3].cmd, Some(vec!["backtest".to_string()]));
    assert_eq!(r.services[3].image, "sigbot:1");
    let t = docker_teardown("net-", 4);
    assert_eq!(t.middleware, vec!["emqx-4", "postgresql-4", "timescaledb-4"]);
    assert_eq!(t.network, "net-4-network");
    assert_eq!(t.services.len(), 4);
}

#[test]
fn docker_endpoints() {
    match docker_endpoint(None) {
        DockerEndpoint::Socket(p) => assert_eq!(p, "/var/run/docker.sock"),
        _ => panic!("expected socket"),
    }
    match docker_endpoint(Some("tcp://localhost:2375".to_string())) {
        DockerEndpoint::Http(u) => assert_eq!(u, "tcp://localhost:2375"),
        _ => panic!("expected http"),
    }
    match docker_endpoint(Some("unix:///a/unix://b".to_string())) {
        DockerEndpoint::Socket(p) => assert_eq!(p, "/a/b"),
        _ => panic!("expected socket"),
    }
}

#[test]
fn text_helpers() {
    assert_eq!(remove_all_occurrences("aXbXc", "X"), "abc");
    assert_eq!(remove_all_occurrences("abc", ""), "abc");
    assert!(starts_with("unix://x", "unix://"));
    assert!(!starts_with("uni", "unix://"));
}

#[test]
fn standalone_startup_then_shutdown() {
    let mut s = StandaloneTenants::new();
    assert!(!s.is_initialized(1));
    s.startup_middleware_components(1);
    s.startup_middleware_components(2);
    assert!(s.is_initialized(1));
    s.shutdown_middleware_components(1);
    assert!(!s.is_initialized(1));
    assert!(s.is_initialized(2));
}
