//! Sigbot core logic: workflow job registry, tenant key management,
//! audit logging, query construction and deployment planning.

pub mod text;
pub mod workflow;
pub mod schedule;
pub mod tenant;
pub mod sql_params;
pub mod log_query;
pub mod audit;
pub mod audit_attrs;
pub mod tenant_config;
pub mod deploy;
pub mod wallet;
pub mod a2a;
pub mod mcp;
pub mod cli;
pub mod cli_options;
pub mod registry;
pub mod dlock;
pub mod records;
