# sigbot

The decision logic of the Sigbot trading platform's services, written in Verus
with contracts that Verus proves.

## Layout

- `src/` — the verified library, one module per concern:
  - `workflow`: the job registry of the workflow manager and its scan, as a
    step function from what was learned to what is to be done next.
  - `tenant`, `tenant_config`: tenant key handling and per-tenant settings.
  - `sql_params`: named parameters (`:name`, and `$name` for PostgreSQL)
    turned into positional ones (`?` for SQLite, `$1`, `$2`, ... for
    PostgreSQL), each replaced where it stands.
  - `log_query`, `records`, `wallet`, `dlock`: statements and filters for the
    stores, and the decisions taken around them.
  - `audit`, `audit_attrs`: audit entries, loggers, providers and the audit
    attribute's arguments.
  - `deploy`: Kubernetes manifests, Docker containers and standalone tenants.
  - `a2a`, `mcp`: the agent server's card and routes, and the MCP server,
    client and client manager.
  - `cli`, `cli_options`, `registry`: subcommands and their options, the
    API assembly, banners and provider registries.
  - `schedule`, `text`: the scan schedule and text helpers.
- `tests/` — tests that run the library with its outside crates linked.
- `app/` — the command-line program: argument parsing, environment, files,
  printing and network calls around the library, and the driver that performs
  the workflow scan's actions.

Calls into outside crates (chrono, regex, uuid, tokio-cron-scheduler and a few
std functions) go through small wrappers whose contracts state what those
crates document.
