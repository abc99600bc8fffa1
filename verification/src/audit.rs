//! Audit records: levels, errors, provider configuration, entries, the
//! logger that stamps entries, and the guard that brackets a call with
//! ENTER / EXIT / ABORT records.
//!
//! Writing a record out (to a file, to MQTT or to the console) is left to the
//! caller; this module decides what is written and where.

use vstd::prelude::*;
use vstd::string::StringExecFns;

verus! {

/// Severity of an audit record.
#[derive(Clone, Copy, Debug, PartialEq, Eq, Structural)]
pub enum AuditLogLevel {
    Debug,
    Info,
    Warn,
    Error,
}

/// The upper-case name under which a level is written.
pub open spec fn level_text(l: AuditLogLevel) -> Seq<char> {
    match l {
        AuditLogLevel::Debug => "DEBUG"@,
        AuditLogLevel::Info => "INFO"@,
        AuditLogLevel::Warn => "WARN"@,
        AuditLogLevel::Error => "ERROR"@,
    }
}

impl AuditLogLevel {
    /// The upper-case name of the level.
    pub fn as_str(&self) -> (s: &'static str)
        ensures
            s@ == level_text(*self),
    {
        match self {
            AuditLogLevel::Debug => "DEBUG",
            AuditLogLevel::Info => "INFO",
            AuditLogLevel::Warn => "WARN",
            AuditLogLevel::Error => "ERROR",
        }
    }
}

/// What can go wrong while configuring a provider or writing a record.
#[derive(Clone, Debug)]
pub enum AuditLogError {
    ProviderNotInitialized,
    PublishFailed(String),
    WriteFailed(String),
    ConfigurationError(String),
}

/// The message of an error.
pub open spec fn audit_error_text(e: AuditLogError) -> Seq<char> {
    match e {
        AuditLogError::ProviderNotInitialized => "Provider not initialized"@,
        AuditLogError::PublishFailed(m) => "Failed to publish log: "@ + m@,
        AuditLogError::WriteFailed(m) => "Failed to write log: "@ + m@,
        AuditLogError::ConfigurationError(m) => "Configuration error: "@ + m@,
    }
}

impl AuditLogError {
    /// The message of the error.
    pub fn message(&self) -> (s: String)
        ensures
            s@ == audit_error_text(*self),
    {
        match self {
            AuditLogError::ProviderNotInitialized => String::from_str("Provider not initialized"),
            AuditLogError::PublishFailed(m) => String::from_str("Failed to publish log: ").concat(m.as_str()),
            AuditLogError::WriteFailed(m) => String::from_str("Failed to write log: ").concat(m.as_str()),
            AuditLogError::ConfigurationError(m) => String::from_str("Configuration error: ").concat(m.as_str()),
        }
    }
}

/// Settings of the file provider.
#[derive(Clone, Debug)]
pub struct FileProviderConfig {
    /// Directory that holds the log files.
    pub log_dir: String,
    /// How many log files are kept.
    pub max_files: usize,
    /// Size in MB at which a file is rotated.
    pub rotation_size_mb: u64,
}

impl Default for FileProviderConfig {
    fn default() -> (c: Self)
        ensures
            c.log_dir@ == "./audit-logs"@,
            c.max_files == 100,
            c.rotation_size_mb == 100,
    {
        FileProviderConfig { log_dir: String::from_str("./audit-logs"), max_files: 100, rotation_size_mb: 100 }
    }
}

/// Settings of the MQTT provider.
#[derive(Clone, Debug)]
pub struct MqttProviderConfig {
    pub host: String,
    pub port: u16,
    pub client_id: String,
    /// Prefix of the topic; the default topic is used when absent.
    pub topic_prefix: Option<String>,
    pub tenant_id: String,
    pub username: Option<String>,
    pub password: Option<String>,
}

/// Settings of one provider.
#[derive(Clone, Debug)]
pub enum ProviderConfig {
    File(FileProviderConfig),
    Mqtt(MqttProviderConfig),
}

/// Settings of the audit logger of one service.
#[derive(Clone, Debug)]
pub struct AuditLogConfig {
    pub service_name: String,
    pub workflow_id: Option<String>,
    pub node_id: Option<String>,
    pub provider_config: ProviderConfig,
}

/// RFC 3339 text of the UTC instant `secs` seconds and `nanos` nanoseconds
/// after the Unix epoch, or none where chrono cannot represent that instant.
pub uninterp spec fn rfc3339_of(secs: i64, nanos: u32) -> Option<Seq<char>>;

/// The `%Y-%m-%d` text of the UTC day of the instant `secs` seconds and
/// `nanos` nanoseconds after the Unix epoch, or none where chrono cannot
/// represent that instant.
pub uninterp spec fn ymd_of(secs: i64, nanos: u32) -> Option<Seq<char>>;

/// A UTC instant, as seconds and nanoseconds since the Unix epoch.
#[derive(Clone, Copy, Debug)]
pub struct AuditTimestamp {
    secs: i64,
    nanos: u32,
}

impl AuditTimestamp {
    /// Every timestamp can be written as RFC 3339 text.
    #[verifier::type_invariant]
    spec fn representable(self) -> bool {
        rfc3339_of(self.secs, self.nanos) is Some
    }

    pub closed spec fn spec_secs(self) -> i64 {
        self.secs
    }

    pub closed spec fn spec_nanos(self) -> u32 {
        self.nanos
    }

    /// The RFC 3339 text of the timestamp.
    pub closed spec fn text(self) -> Seq<char> {
        rfc3339_of(self.secs, self.nanos).unwrap()
    }

    pub fn secs(&self) -> (s: i64)
        ensures
            s == self.spec_secs(),
    {
        self.secs
    }

    pub fn nanos(&self) -> (n: u32)
        ensures
            n == self.spec_nanos(),
    {
        self.nanos
    }

    /// Calls `chrono::DateTime::<Utc>::from_timestamp` and `to_rfc3339`. The
    /// timestamp is representable, so the first call gives a value, whose
    /// text is the named result.
    #[verifier::external_body]
    fn rfc3339_text(&self) -> (s: String)
        requires
            rfc3339_of(self.secs, self.nanos) is Some,
        ensures
            rfc3339_of(self.secs, self.nanos) == Some(s@),
    {
        match chrono::DateTime::<chrono::Utc>::from_timestamp(self.secs, self.nanos) {
            Some(d) => d.to_rfc3339(),
            None => String::new(),
        }
    }

    /// Calls `chrono::DateTime::<Utc>::from_timestamp` and formats the day
    /// with `%Y-%m-%d`. Chrono represents an instant exactly when it writes
    /// it as RFC 3339, so the day of a representable timestamp is named.
    #[verifier::external_body]
    fn ymd_text(&self) -> (s: String)
        requires
            rfc3339_of(self.secs, self.nanos) is Some,
        ensures
            ymd_of(self.secs, self.nanos) == Some(s@),
    {
        match chrono::DateTime::<chrono::Utc>::from_timestamp(self.secs, self.nanos) {
            Some(d) => d.format("%Y-%m-%d").to_string(),
            None => String::new(),
        }
    }

    /// The UTC day of the timestamp as `%Y-%m-%d`.
    pub fn date_text(&self) -> (s: String)
        ensures
            ymd_of(self.spec_secs(), self.spec_nanos()) == Some(s@),
    {
        proof {
            use_type_invariant(self);
        }
        self.ymd_text()
    }

    /// The RFC 3339 text of the timestamp.
    pub fn to_rfc3339(&self) -> (s: String)
        ensures
            s@ == self.text(),
    {
        proof {
            use_type_invariant(self);
        }
        self.rfc3339_text()
    }
}

/// Calls `chrono::Utc::now` and takes its seconds and nanoseconds. What comes
/// back depends on the clock; chrono documents that `from_timestamp` gives
/// back the same instant from these two parts, so the result is representable.
#[verifier::external_body]
fn now_utc() -> (t: AuditTimestamp)
    ensures
        rfc3339_of(t.secs, t.nanos) is Some,
{
    let now = chrono::Utc::now();
    AuditTimestamp { secs: now.timestamp(), nanos: now.timestamp_subsec_nanos() }
}

/// One audit record as handed to a provider.
#[derive(Clone, Debug)]
pub struct AuditLogEntry {
    pub timestamp: AuditTimestamp,
    pub service_name: String,
    pub level: AuditLogLevel,
    pub message: String,
    pub metadata: Option<String>,
    pub workflow_id: Option<String>,
    pub node_id: Option<String>,
}

impl AuditLogEntry {
    /// A record stamped with the current time, without workflow or node.
    pub fn new(service_name: String, level: AuditLogLevel, message: String, metadata: Option<String>) -> (e: Self)
        ensures
            e.service_name == service_name,
            e.level == level,
            e.message == message,
            e.metadata == metadata,
            e.workflow_id is None,
            e.node_id is None,
    {
        AuditLogEntry {
            timestamp: now_utc(),
            service_name,
            level,
            message,
            metadata,
            workflow_id: None,
            node_id: None,
        }
    }

    /// The same record, tagged with a workflow.
    pub fn with_workflow_id(self, workflow_id: String) -> (e: Self)
        ensures
            e.workflow_id == Some(workflow_id),
            e.timestamp == self.timestamp,
            e.service_name == self.service_name,
            e.level == self.level,
            e.message == self.message,
            e.metadata == self.metadata,
            e.node_id == self.node_id,
    {
        let mut e = self;
        e.workflow_id = Some(workflow_id);
        e
    }

    /// The same record, tagged with a node.
    pub fn with_node_id(self, node_id: String) -> (e: Self)
        ensures
            e.node_id == Some(node_id),
            e.timestamp == self.timestamp,
            e.service_name == self.service_name,
            e.level == self.level,
            e.message == self.message,
            e.metadata == self.metadata,
            e.workflow_id == self.workflow_id,
    {
        let mut e = self;
        e.node_id = Some(node_id);
        e
    }
}


/// Picks the service name from the two environment settings, in order, or
/// falls back to "unknown-service".
pub fn default_service_name(sigbot_service_name: Option<String>, service_name: Option<String>) -> (s: String)
    ensures
        s@ == (match sigbot_service_name {
            Some(n) => n@,
            None => match service_name {
                Some(n) => n@,
                None => "unknown-service"@,
            },
        }),
{
    match sigbot_service_name {
        Some(n) => n,
        None => match service_name {
            Some(n) => n,
            None => String::from_str("unknown-service"),
        },
    }
}

/// The logger of one service: which provider is installed (by name), the
/// configuration, and the service name used when there is none.
pub struct AuditLogger {
    provider: Option<String>,
    config: Option<AuditLogConfig>,
    default_service: String,
}

impl AuditLogger {
    pub closed spec fn spec_provider(&self) -> Option<String> {
        self.provider
    }

    pub closed spec fn spec_config(&self) -> Option<AuditLogConfig> {
        self.config
    }

    pub closed spec fn spec_default_service(&self) -> String {
        self.default_service
    }

    /// The service name that records of this logger carry.
    pub open spec fn spec_service_name(&self) -> Seq<char> {
        match self.spec_config() {
            Some(c) => c.service_name@,
            None => self.spec_default_service()@,
        }
    }

    /// A logger with no provider and no configuration.
    pub fn new(default_service: String) -> (l: Self)
        ensures
            l.spec_provider() is None,
            l.spec_config() is None,
            l.spec_default_service() == default_service,
    {
        AuditLogger { provider: None, config: None, default_service }
    }

    /// Installs the provider with the given name.
    pub fn set_provider(&mut self, provider_name: String)
        ensures
            final(self).spec_provider() == Some(provider_name),
            final(self).spec_config() == old(self).spec_config(),
            final(self).spec_default_service() == old(self).spec_default_service(),
    {
        self.provider = Some(provider_name);
    }

    /// Replaces the configuration.
    pub fn set_config(&mut self, config: AuditLogConfig)
        ensures
            final(self).spec_config() == Some(config),
            final(self).spec_provider() == old(self).spec_provider(),
            final(self).spec_default_service() == old(self).spec_default_service(),
    {
        self.config = Some(config);
    }

    /// Whether a provider is installed.
    pub fn has_provider(&self) -> (b: bool)
        ensures
            b == self.spec_provider() is Some,
    {
        self.provider.is_some()
    }

    /// The service name of the configuration, else the default one.
    pub fn service_name(&self) -> (s: String)
        ensures
            s@ == self.spec_service_name(),
    {
        match &self.config {
            Some(c) => c.service_name.clone(),
            None => self.default_service.clone(),
        }
    }

    /// The record that the installed provider is handed for one message:
    /// it carries the logger's service name and the workflow and node of the
    /// configuration. Without a provider there is nothing to hand it to.
    pub fn log(&self, level: AuditLogLevel, message: String, metadata: Option<String>) -> (r: Result<AuditLogEntry, AuditLogError>)
        ensures
            self.spec_provider() is None <==> r matches Err(AuditLogError::ProviderNotInitialized),
            self.spec_provider() is None <==> r is Err,
            r matches Ok(e) ==> {
                &&& e.service_name@ == self.spec_service_name()
                &&& e.level == level
                &&& e.message == message
                &&& e.metadata == metadata
                &&& e.workflow_id == (match self.spec_config() { Some(c) => c.workflow_id, None => None })
                &&& e.node_id == (match self.spec_config() { Some(c) => c.node_id, None => None })
            },
    {
        if self.provider.is_none() {
            return Err(AuditLogError::ProviderNotInitialized);
        }
        let service_name = self.service_name();
        let mut entry = AuditLogEntry::new(service_name, level, message, metadata);
        match &self.config {
            Some(c) => {
                match &c.workflow_id {
                    Some(w) => {
                        entry = entry.with_workflow_id(w.clone());
                    },
                    None => {},
                }
                match &c.node_id {
                    Some(n) => {
                        entry = entry.with_node_id(n.clone());
                    },
                    None => {},
                }
            },
            None => {},
        }
        Ok(entry)
    }
}

/// The service name under which a logger is set up: the configured one,
/// unless it is empty.
pub open spec fn init_service_name(config: AuditLogConfig, default_service: Seq<char>) -> Seq<char> {
    if config.service_name@.len() == 0 { default_service } else { config.service_name@ }
}

/// Sets up the process-wide logger in `slot` once the provider has accepted
/// `config` (`provider_init` is what the provider's own set-up returned).
/// A refused set-up leaves `slot` as it was and is passed back; a logger
/// that is already set up stays as it is.
pub fn init_audit_logger(
    slot: &mut Option<AuditLogger>,
    provider_name: String,
    config: AuditLogConfig,
    provider_init: Result<(), AuditLogError>,
    default_service: String,
) -> (r: Result<(), AuditLogError>)
    ensures
        provider_init is Err ==> r == provider_init && *final(slot) == *old(slot),
        provider_init is Ok ==> r is Ok,
        provider_init is Ok && (*old(slot)) is Some ==> *final(slot) == *old(slot),
        provider_init is Ok && (*old(slot)) is None ==> (*final(slot) matches Some(l) && {
            &&& l.spec_provider() == Some(provider_name)
            &&& l.spec_config() == Some(config)
            &&& l.spec_default_service()@ == init_service_name(config, default_service@)
            &&& l.spec_service_name() == config.service_name@
        }),
{
    match provider_init {
        Err(e) => Err(e),
        Ok(()) => {
            if slot.is_none() {
                let service_name = if config.service_name.as_str().is_empty() {
                    default_service
                } else {
                    config.service_name.clone()
                };
                let mut logger = AuditLogger::new(service_name);
                logger.set_provider(provider_name);
                logger.set_config(config);
                *slot = Some(logger);
            }
            Ok(())
        },
    }
}

/// Where one audit message goes: to the installed provider, or, without
/// one, as a line on the console.
#[derive(Clone, Debug)]
pub enum AuditDelivery {
    Provider(AuditLogEntry),
    Console(String),
}

/// The console line for a message.
pub open spec fn console_line(level: AuditLogLevel, service: Seq<char>, message: Seq<char>) -> Seq<char> {
    "[AUDIT "@ + level_text(level) + "] ["@ + service + "] "@ + message
}

/// The console line for a message.
pub fn console_text(level: AuditLogLevel, service: &str, message: &str) -> (s: String)
    ensures
        s@ == console_line(level, service@, message@),
{
    let mut s = String::from_str("[AUDIT ");
    s.append(level.as_str());
    s.append("] [");
    s.append(service);
    s.append("] ");
    s.append(message);
    s
}

/// The service a message is logged under: the one given, unless it is empty.
pub open spec fn effective_service(service: Seq<char>, default_service: Seq<char>) -> Seq<char> {
    if service.len() == 0 { default_service } else { service }
}

/// Routes one message of `service` (the default service where it is empty):
/// a logger with a provider gets a record with the message and metadata;
/// otherwise the message becomes a console line.
pub fn audit_log(
    logger: Option<&AuditLogger>,
    service: &str,
    default_service: &str,
    level: AuditLogLevel,
    message: &str,
    metadata: Option<&str>,
) -> (d: AuditDelivery)
    ensures
        (match logger { Some(l) => l.spec_provider() is Some, None => false }) ==> (d matches AuditDelivery::Provider(e) && {
            &&& e.service_name@ == effective_service(service@, default_service@)
            &&& e.level == level
            &&& e.message@ == message@
            &&& (match metadata { Some(m) => e.metadata matches Some(em) && em@ == m@, None => e.metadata is None })
            &&& e.workflow_id is None
            &&& e.node_id is None
        }),
        !(match logger { Some(l) => l.spec_provider() is Some, None => false }) ==> (d matches AuditDelivery::Console(line)
            && line@ == console_line(level, effective_service(service@, default_service@), message@)),
{
    let svc = if service.is_empty() { String::from_str(default_service) } else { String::from_str(service) };
    let has_provider = match logger {
        Some(l) => l.has_provider(),
        None => false,
    };
    if has_provider {
        let meta = match metadata {
            Some(m) => Some(String::from_str(m)),
            None => None,
        };
        AuditDelivery::Provider(AuditLogEntry::new(svc, level, String::from_str(message), meta))
    } else {
        AuditDelivery::Console(console_text(level, svc.as_str(), message))
    }
}

/// Routes one message under the default service.
pub fn audit_log_default(
    logger: Option<&AuditLogger>,
    default_service: &str,
    level: AuditLogLevel,
    message: &str,
    metadata: Option<&str>,
) -> (d: AuditDelivery)
    ensures
        (match logger { Some(l) => l.spec_provider() is Some, None => false }) ==> (d matches AuditDelivery::Provider(e) && {
            &&& e.service_name@ == default_service@
            &&& e.level == level
            &&& e.message@ == message@
            &&& (match metadata { Some(m) => e.metadata matches Some(em) && em@ == m@, None => e.metadata is None })
            &&& e.workflow_id is None
            &&& e.node_id is None
        }),
        !(match logger { Some(l) => l.spec_provider() is Some, None => false }) ==> (d matches AuditDelivery::Console(line)
            && line@ == console_line(level, default_service@, message@)),
{
    audit_log(logger, default_service, default_service, level, message, metadata)
}


#[verifier::external_type_specification]
#[verifier::external_body]
pub struct ExInstant(std::time::Instant);

/// Calls `std::time::Instant::now`; what comes back depends on the clock.
#[verifier::external_body]
fn instant_now() -> (t: std::time::Instant) {
    std::time::Instant::now()
}

/// Calls `std::time::Instant::elapsed` and writes the duration with `{:?}`.
/// The result depends on the clock, so nothing is stated of it.
#[verifier::external_body]
fn elapsed_text(start: &std::time::Instant) -> (s: String) {
    format!("{:?}", start.elapsed())
}

/// The arguments of one `audit_log` call: service, level, message and metadata.
#[derive(Clone, Debug)]
pub struct AuditRecord {
    pub service: String,
    pub level: AuditLogLevel,
    pub message: String,
    pub metadata: Option<String>,
}

/// The service a guard logs under: the one given unless it is absent or
/// empty, else the default service.
pub open spec fn guard_service(service: Option<&str>, default_service: Seq<char>) -> Seq<char> {
    match service {
        Some(s) => if s@.len() == 0 { default_service } else { s@ },
        None => default_service,
    }
}

/// The message logged when a guarded call starts.
pub open spec fn enter_text(entry_message: Seq<char>) -> Seq<char> {
    "ENTER "@ + entry_message
}

/// The message logged when a guarded call ends, `duration` being the time it took.
pub open spec fn exit_text(entry_message: Seq<char>, duration: Seq<char>) -> Seq<char> {
    "EXIT "@ + entry_message + " (duration: "@ + duration + ")"@
}

/// The message logged when a guarded call ends without reaching its exit.
pub open spec fn abort_text(entry_message: Seq<char>) -> Seq<char> {
    "ABORT "@ + entry_message + " (panic or early return)"@
}

/// Brackets one call: an ENTER record when it starts, an EXIT record with
/// the elapsed time when it returns, or an ABORT record at ERROR level when
/// it is left another way.
pub struct AuditGuard {
    service: String,
    level: AuditLogLevel,
    entry_message: String,
    metadata: String,
    start_time: std::time::Instant,
    exited: bool,
}

impl AuditGuard {
    pub closed spec fn spec_service(&self) -> Seq<char> {
        self.service@
    }

    pub closed spec fn spec_level(&self) -> AuditLogLevel {
        self.level
    }

    pub closed spec fn spec_entry_message(&self) -> Seq<char> {
        self.entry_message@
    }

    pub closed spec fn spec_metadata(&self) -> Seq<char> {
        self.metadata@
    }

    pub closed spec fn spec_exited(&self) -> bool {
        self.exited
    }

    /// Starts guarding a call; the clock starts now. `default_service` is the
    /// service used when `service` is absent or empty.
    pub fn new(service: Option<&str>, level: AuditLogLevel, entry_message: String, metadata: &str, default_service: &str) -> (g: Self)
        ensures
            g.spec_service() == guard_service(service, default_service@),
            g.spec_level() == level,
            g.spec_entry_message() == entry_message@,
            g.spec_metadata() == metadata@,
            !g.spec_exited(),
    {
        let service_name = match service {
            Some(s) => if s.is_empty() { String::from_str(default_service) } else { String::from_str(s) },
            None => String::from_str(default_service),
        };
        AuditGuard {
            service: service_name,
            level,
            entry_message,
            metadata: String::from_str(metadata),
            start_time: instant_now(),
            exited: false,
        }
    }

    /// The record logged when the call starts.
    pub fn enter_record(&self) -> (r: AuditRecord)
        ensures
            r.service@ == self.spec_service(),
            r.level == self.spec_level(),
            r.message@ == enter_text(self.spec_entry_message()),
            r.metadata matches Some(m) && m@ == self.spec_metadata(),
    {
        AuditRecord {
            service: self.service.clone(),
            level: self.level,
            message: String::from_str("ENTER ").concat(self.entry_message.as_str()),
            metadata: Some(self.metadata.clone()),
        }
    }

    /// The record logged when the call returns after `duration`.
    pub fn exit_record(&self, duration: &str) -> (r: AuditRecord)
        ensures
            r.service@ == self.spec_service(),
            r.level == self.spec_level(),
            r.message@ == exit_text(self.spec_entry_message(), duration@),
            r.metadata matches Some(m) && m@ == self.spec_metadata(),
    {
        let mut message = String::from_str("EXIT ");
        message.append(self.entry_message.as_str());
        message.append(" (duration: ");
        message.append(duration);
        message.append(")");
        AuditRecord { service: self.service.clone(), level: self.level, message, metadata: Some(self.metadata.clone()) }
    }

    /// Ends the guard normally: the EXIT record, with the time since `new`.
    /// No ABORT record follows.
    pub fn exit(self) -> (r: AuditRecord)
        ensures
            r.service@ == self.spec_service(),
            r.level == self.spec_level(),
            exists|d: Seq<char>| r.message@ == exit_text(self.spec_entry_message(), d),
            r.metadata matches Some(m) && m@ == self.spec_metadata(),
    {
        let mut g = self;
        g.exited = true;
        let duration = elapsed_text(&g.start_time);
        let r = g.exit_record(duration.as_str());
        assert(r.message@ == exit_text(self.spec_entry_message(), duration@));
        r
    }

    /// The record logged when the guard is dropped: an ABORT record at ERROR
    /// level unless the guard has exited.
    pub fn abort_record(&self) -> (r: Option<AuditRecord>)
        ensures
            self.spec_exited() <==> r is None,
            r matches Some(rec) ==> {
                &&& rec.service@ == self.spec_service()
                &&& rec.level == AuditLogLevel::Error
                &&& rec.message@ == abort_text(self.spec_entry_message())
                &&& rec.metadata matches Some(m) && m@ == self.spec_metadata()
            },
    {
        if self.exited {
            return None;
        }
        let mut message = String::from_str("ABORT ");
        message.append(self.entry_message.as_str());
        message.append(" (panic or early return)");
        Some(AuditRecord {
            service: self.service.clone(),
            level: AuditLogLevel::Error,
            message,
            metadata: Some(self.metadata.clone()),
        })
    }
}


/// The line a file provider appends for a record whose timestamp reads `stamp`.
pub open spec fn file_line(entry: AuditLogEntry, stamp: Seq<char>) -> Seq<char> {
    stamp + " ["@ + level_text(entry.level) + "] ["@ + entry.service_name@ + "] "@ + entry.message@
        + (match entry.metadata {
            Some(m) => " | "@ + m@,
            None => Seq::<char>::empty(),
        })
        + "\n"@
}

/// The name of the file that takes the records of the day `date`.
pub open spec fn file_name_for(date: Seq<char>) -> Seq<char> {
    "audit-"@ + date + ".log"@
}

/// The line a file provider appends for a record whose timestamp reads `stamp`.
pub fn log_line(entry: &AuditLogEntry, stamp: &str) -> (s: String)
    ensures
        s@ == file_line(*entry, stamp@),
{
    let mut s = String::from_str(stamp);
    s.append(" [");
    s.append(entry.level.as_str());
    s.append("] [");
    s.append(entry.service_name.as_str());
    s.append("] ");
    s.append(entry.message.as_str());
    match &entry.metadata {
        Some(m) => {
            s.append(" | ");
            s.append(m.as_str());
        },
        None => {},
    }
    s.append("\n");
    s
}

/// The name of the file that takes the records of the day `date`.
pub fn log_file_name(date: &str) -> (s: String)
    ensures
        s@ == file_name_for(date@),
{
    let mut s = String::from_str("audit-");
    s.append(date);
    s.append(".log");
    s
}

/// One append to a log file: the directory, the file's name in it, and the line.
#[derive(Clone, Debug)]
pub struct FileAppend {
    pub dir: String,
    pub file_name: String,
    pub line: String,
}

/// Writes records to one file per day under a configured directory.
pub struct FileAuditLogProvider {
    config: Option<FileProviderConfig>,
}

impl FileAuditLogProvider {
    pub closed spec fn spec_config(&self) -> Option<FileProviderConfig> {
        self.config
    }

    /// A provider that is not set up yet.
    pub fn new() -> (p: Self)
        ensures
            p.spec_config() is None,
    {
        FileAuditLogProvider { config: None }
    }

    /// The name of the provider.
    pub fn name(&self) -> (s: &'static str)
        ensures
            s@ == "FileAuditLogProvider"@,
    {
        "FileAuditLogProvider"
    }

    /// The directory that setting up with `config` creates, or the error for
    /// a configuration that is not a file one.
    pub fn directory_to_create(config: &AuditLogConfig) -> (r: Result<String, AuditLogError>)
        ensures
            (match config.provider_config {
                ProviderConfig::File(fc) => r matches Ok(d) && d@ == fc.log_dir@,
                ProviderConfig::Mqtt(_) => r matches Err(AuditLogError::ConfigurationError(m))
                    && m@ == "Invalid provider config type"@,
            }),
    {
        match &config.provider_config {
            ProviderConfig::File(fc) => Ok(fc.log_dir.clone()),
            ProviderConfig::Mqtt(_) => Err(AuditLogError::ConfigurationError(String::from_str("Invalid provider config type"))),
        }
    }

    /// Sets the provider up with `config`; `dir_created` is what creating its
    /// directory gave (the error's text on failure). Only a file
    /// configuration whose directory exists is taken.
    pub fn init(&mut self, config: AuditLogConfig, dir_created: Result<(), String>) -> (r: Result<(), AuditLogError>)
        ensures
            (match config.provider_config {
                ProviderConfig::File(fc) => match dir_created {
                    Ok(()) => r is Ok && final(self).spec_config() == Some(fc),
                    Err(e) => r matches Err(AuditLogError::ConfigurationError(m))
                        && m@ == "Failed to create log directory: "@ + e@
                        && final(self).spec_config() == old(self).spec_config(),
                },
                ProviderConfig::Mqtt(_) => r matches Err(AuditLogError::ConfigurationError(m))
                    && m@ == "Invalid provider config type"@
                    && final(self).spec_config() == old(self).spec_config(),
            }),
    {
        match config.provider_config {
            ProviderConfig::File(fc) => match dir_created {
                Ok(()) => {
                    self.config = Some(fc);
                    Ok(())
                },
                Err(e) => Err(AuditLogError::ConfigurationError(
                    String::from_str("Failed to create log directory: ").concat(e.as_str()),
                )),
            },
            ProviderConfig::Mqtt(_) => Err(AuditLogError::ConfigurationError(String::from_str("Invalid provider config type"))),
        }
    }

    /// The append for `entry` on the day `date`.
    pub fn append_for(&self, entry: &AuditLogEntry, date: &str, stamp: &str) -> (r: Result<FileAppend, AuditLogError>)
        ensures
            self.spec_config() is None <==> r matches Err(AuditLogError::ProviderNotInitialized),
            self.spec_config() is None <==> r is Err,
            r matches Ok(a) ==> {
                &&& a.dir@ == self.spec_config().unwrap().log_dir@
                &&& a.file_name@ == file_name_for(date@)
                &&& a.line@ == file_line(*entry, stamp@)
            },
    {
        match &self.config {
            None => Err(AuditLogError::ProviderNotInitialized),
            Some(c) => Ok(FileAppend { dir: c.log_dir.clone(), file_name: log_file_name(date), line: log_line(entry, stamp) }),
        }
    }

    /// The append for `entry`, in the file of the current UTC day (read
    /// from the clock now), its line starting with the entry's RFC 3339
    /// timestamp.
    pub fn log(&self, entry: &AuditLogEntry) -> (r: Result<FileAppend, AuditLogError>)
        ensures
            self.spec_config() is None <==> r matches Err(AuditLogError::ProviderNotInitialized),
            self.spec_config() is None <==> r is Err,
            r matches Ok(a) ==> {
                &&& a.dir@ == self.spec_config().unwrap().log_dir@
                &&& exists|secs: i64, nanos: u32| #[trigger] ymd_of(secs, nanos) matches Some(date) && a.file_name@ == file_name_for(date)
                &&& a.line@ == file_line(*entry, entry.timestamp.text())
            },
    {
        if self.config.is_none() {
            return Err(AuditLogError::ProviderNotInitialized);
        }
        let today = now_utc();
        let date = today.date_text();
        let stamp = entry.timestamp.to_rfc3339();
        let r = self.append_for(entry, date.as_str(), stamp.as_str());
        assert(ymd_of(today.spec_secs(), today.spec_nanos()) == Some(date@));
        r
    }
}

/// How the MQTT client connects: identity, broker, keep-alive in seconds, and
/// the credentials, which are only sent when both parts are configured.
#[derive(Clone, Debug)]
pub struct MqttConnection {
    pub client_id: String,
    pub host: String,
    pub port: u16,
    pub keep_alive_secs: u64,
    pub credentials: Option<(String, String)>,
}

/// The topic that audit records of `config`'s tenant are published to.
pub open spec fn mqtt_topic_text(config: MqttProviderConfig) -> Seq<char> {
    match config.topic_prefix {
        Some(p) => p@ + "/"@ + config.tenant_id@ + "/audit/log"@,
        None => "/internal/v1/"@ + config.tenant_id@ + "/audit/log"@,
    }
}

/// The topic that audit records of `config`'s tenant are published to.
pub fn mqtt_topic(config: &MqttProviderConfig) -> (s: String)
    ensures
        s@ == mqtt_topic_text(*config),
{
    let mut s = match &config.topic_prefix {
        Some(p) => {
            let mut t = p.clone();
            t.append("/");
            t
        },
        None => String::from_str("/internal/v1/"),
    };
    s.append(config.tenant_id.as_str());
    s.append("/audit/log");
    s
}

/// Publishes records to the tenant's audit topic on an MQTT broker.
pub struct MqttAuditLogProvider {
    config: Option<MqttProviderConfig>,
    client_ready: bool,
}

impl MqttAuditLogProvider {
    pub closed spec fn spec_config(&self) -> Option<MqttProviderConfig> {
        self.config
    }

    pub closed spec fn spec_client_ready(&self) -> bool {
        self.client_ready
    }

    /// A provider that is not set up yet and has no client.
    pub fn new() -> (p: Self)
        ensures
            p.spec_config() is None,
            !p.spec_client_ready(),
    {
        MqttAuditLogProvider { config: None, client_ready: false }
    }

    /// The name of the provider.
    pub fn name(&self) -> (s: &'static str)
        ensures
            s@ == "MqttAuditLogProvider"@,
    {
        "MqttAuditLogProvider"
    }

    /// Takes an MQTT configuration; any other kind is refused.
    pub fn init(&mut self, config: AuditLogConfig) -> (r: Result<(), AuditLogError>)
        ensures
            final(self).spec_client_ready() == old(self).spec_client_ready(),
            (match config.provider_config {
                ProviderConfig::Mqtt(mc) => r is Ok && final(self).spec_config() == Some(mc),
                ProviderConfig::File(_) => r matches Err(AuditLogError::ConfigurationError(m))
                    && m@ == "Invalid provider config type"@
                    && final(self).spec_config() == old(self).spec_config(),
            }),
    {
        match config.provider_config {
            ProviderConfig::Mqtt(mc) => {
                self.config = Some(mc);
                Ok(())
            },
            ProviderConfig::File(_) => Err(AuditLogError::ConfigurationError(String::from_str("Invalid provider config type"))),
        }
    }

    /// Records that the client has connected.
    pub fn set_client_ready(&mut self)
        ensures
            final(self).spec_client_ready(),
            final(self).spec_config() == old(self).spec_config(),
    {
        self.client_ready = true;
    }

    /// How the client connects for `config`.
    pub fn connection(config: &MqttProviderConfig) -> (c: MqttConnection)
        ensures
            c.client_id == config.client_id,
            c.host == config.host,
            c.port == config.port,
            c.keep_alive_secs == 30,
            (match (config.username, config.password) {
                (Some(u), Some(p)) => c.credentials == Some((u, p)),
                _ => c.credentials is None,
            }),
    {
        let credentials = match (&config.username, &config.password) {
            (Some(u), Some(p)) => Some((u.clone(), p.clone())),
            _ => None,
        };
        MqttConnection {
            client_id: config.client_id.clone(),
            host: config.host.clone(),
            port: config.port,
            keep_alive_secs: 30,
            credentials,
        }
    }

    /// The topic a record is published to; without a configuration or a
    /// connected client there is nothing to publish with.
    pub fn log(&self) -> (r: Result<String, AuditLogError>)
        ensures
            (self.spec_config() is None || !self.spec_client_ready()) <==> r matches Err(AuditLogError::ProviderNotInitialized),
            (self.spec_config() is None || !self.spec_client_ready()) <==> r is Err,
            r matches Ok(t) ==> t@ == mqtt_topic_text(self.spec_config().unwrap()),
    {
        match &self.config {
            None => Err(AuditLogError::ProviderNotInitialized),
            Some(c) => {
                if !self.client_ready {
                    return Err(AuditLogError::ProviderNotInitialized);
                }
                Ok(mqtt_topic(c))
            },
        }
    }
}

} // verus!
