//! The commands of the command-line tool: their arguments, and what each decides and
//! prints. Reading files, sending requests and printing are the caller's.

use vstd::prelude::*;
use crate::ax::record::{Agent, AgentExchangeDocument, AgentExchangeRecord};
use crate::ax::types::{protocol_debug, Endpoint};
use crate::ax::generator::{builtin_providers, generated_from, record_fails, AxGenerator};
use crate::ax::validator::{
    has_error, record_findings, record_passes, items_with, ref_views, AxValidator, ItemView, Severity,
};
use crate::config::models::{AgentConfig, CacheConfig, PolicyConfig, RateLimitConfig, ServerConfig};
use crate::config::validator::{agent_acceptable, config_acceptable, ConfigValidator};
use crate::error::{AxError, ConfigError};
use crate::text::{
    concat, concat3, decimal, opt_chars, push_decimal, string_views, trim_end_char, trim_end_matches_char,
};

verus! {

/// The command line: one subcommand.
pub struct Cli {
    pub command: Commands,
}

/// The subcommands.
pub enum Commands {
    /// Generate AX records from configuration.
    Generate(GenerateCommand),
    /// Validate AX records.
    Validate(ValidateCommand),
    /// Discover agents from a domain.
    Discover(DiscoverCommand),
    /// Start the cache server.
    Serve(ServeCommand),
    /// Invalidate cache entries.
    CacheInvalidate(CacheInvalidateCommand),
}

// ---------------------------------------------------------------------------
// cache-invalidate
// ---------------------------------------------------------------------------

/// Arguments of `cache-invalidate`.
pub struct CacheInvalidateCommand {
    /// The domain whose entry goes (unless `all`).
    pub domain: Option<String>,
    /// Whether the whole cache goes.
    pub all: bool,
    /// The cache server's URL.
    pub server: String,
}

/// The URL that `cache-invalidate` sends its DELETE request to: `<server>/cache` for the
/// whole cache, `<server>/cache/<domain>` for one domain (the server URL without trailing
/// slashes); `None` when neither is asked for.
pub open spec fn invalidation_url(server: Seq<char>, domain: Option<Seq<char>>, all: bool) -> Option<
    Seq<char>,
> {
    if all {
        Some(trim_end_char(server, '/') + "/cache"@)
    } else {
        match domain {
            Some(d) => Some(trim_end_char(server, '/') + "/cache/"@ + d),
            None => None,
        }
    }
}

impl CacheInvalidateCommand {
    /// The URL to send the DELETE request to; an error when neither `--domain` nor
    /// `--all` is given.
    pub fn request_url(&self) -> (r: Result<String, String>)
        ensures
            match invalidation_url(self.server@, opt_chars(self.domain), self.all) {
                Some(u) => r matches Ok(s) && s@ == u,
                None => r matches Err(m) && m@ == "Either --domain or --all must be specified"@,
            },
    {
        let base = trim_end_matches_char(self.server.as_str(), '/');
        if self.all {
            Ok(concat(base.as_str(), "/cache"))
        } else {
            match &self.domain {
                Some(domain) => Ok(concat3(base.as_str(), "/cache/", domain.as_str())),
                None => Err(String::from_str("Either --domain or --all must be specified")),
            }
        }
    }

    /// What is printed once the server has accepted the request.
    pub fn success_message(&self) -> (r: String)
        ensures
            self.all ==> r@ == "Cache cleared successfully"@,
            !self.all ==> r@ == "Cache entry for '"@ + (match self.domain {
                Some(d) => d@,
                None => Seq::<char>::empty(),
            }) + "' invalidated"@,
    {
        if self.all {
            String::from_str("Cache cleared successfully")
        } else {
            match &self.domain {
                Some(d) => concat3("Cache entry for '", d.as_str(), "' invalidated"),
                None => {
                    proof {
                        reveal_strlit("");
                    }
                    concat3("Cache entry for '", "", "' invalidated")
                },
            }
        }
    }

    /// What is printed when the server refuses the request with the status `status_text`.
    pub fn failure_message(status_text: &str) -> (r: String)
        ensures
            r@ == "Cache invalidation failed: HTTP "@ + status_text@,
    {
        concat("Cache invalidation failed: HTTP ", status_text)
    }
}

// ---------------------------------------------------------------------------
// serve
// ---------------------------------------------------------------------------

/// Arguments of `serve`.
pub struct ServeCommand {
    /// The domain to serve.
    pub domain: Option<String>,
    /// The port to bind.
    pub port: u16,
    /// The path of a configuration file.
    pub config: Option<String>,
    /// The most entries the cache holds.
    pub max_entries: usize,
    /// The time to live of cache entries, in seconds.
    pub ttl: u64,
}

/// `serve`'s server settings where no configuration file gives them: the arguments'
/// domain (`localhost` where none is given), port, cache size and time to live; default
/// cache cleanup, policy and rate limits; the log level from `OPEN_TETHYR_LOG` (`info`
/// where it is unset).
pub open spec fn serve_defaults(cmd: ServeCommand, log_env: Option<Seq<char>>, c: ServerConfig) -> bool {
    &&& c.domain@ == (match cmd.domain {
        Some(d) => d@,
        None => "localhost"@,
    })
    &&& c.port == cmd.port
    &&& c.cache.max_entries == cmd.max_entries
    &&& c.cache.default_ttl == cmd.ttl
    &&& c.cache.cleanup_interval == 300
    &&& c.cache.enable_lru
    &&& !c.policy.domain_locking
    &&& c.policy.home_domain is None
    &&& c.policy.allowlist@.len() == 0
    &&& c.rate_limit.requests_per_minute == 60
    &&& c.rate_limit.requests_per_hour == 1000
    &&& c.log_level@ == (match log_env {
        Some(l) => l,
        None => "info"@,
    })
}

impl ServeCommand {
    /// The server settings from the arguments alone; `log_env` is the value of
    /// `OPEN_TETHYR_LOG`, where it is set.
    pub fn default_server_config(&self, log_env: Option<String>) -> (r: ServerConfig)
        ensures
            serve_defaults(*self, opt_chars(log_env), r),
    {
        let domain = match &self.domain {
            Some(d) => d.clone(),
            None => String::from_str("localhost"),
        };
        let defaults = CacheConfig::default();
        let log_level = match log_env {
            Some(l) => l,
            None => String::from_str("info"),
        };
        ServerConfig {
            domain,
            port: self.port,
            cache: CacheConfig {
                max_entries: self.max_entries,
                default_ttl: self.ttl,
                cleanup_interval: defaults.cleanup_interval,
                enable_lru: defaults.enable_lru,
            },
            policy: PolicyConfig::default(),
            rate_limit: RateLimitConfig::default(),
            log_level,
        }
    }

    /// The server settings: those of the loaded configuration file where it has a server
    /// section, the arguments' otherwise.
    pub fn server_config(&self, loaded: Option<AgentConfig>, log_env: Option<String>) -> (r:
        ServerConfig)
        ensures
            (match loaded {
                Some(c) => match c.server {
                    Some(s) => r == s,
                    None => serve_defaults(*self, opt_chars(log_env), r),
                },
                None => serve_defaults(*self, opt_chars(log_env), r),
            }),
    {
        match loaded {
            Some(config) => match config.server {
                Some(server) => server,
                None => self.default_server_config(log_env),
            },
            None => self.default_server_config(log_env),
        }
    }
}

// ---------------------------------------------------------------------------
// generate
// ---------------------------------------------------------------------------

/// Arguments of `generate`.
pub struct GenerateCommand {
    /// The path of the configuration file.
    pub config: String,
    /// The directory the well-known structure is written under.
    pub output: String,
    /// Whether the record is validated before it is written.
    pub validate: bool,
}

/// Why `generate` failed.
pub enum GenerateError {
    /// The configuration did not validate.
    Config(ConfigError),
    /// No record could be generated, or it did not validate.
    Ax(AxError),
}

/// The provider of an agent as `generate` prints it: `unspecified` where there is none.
pub open spec fn provider_text(a: Agent) -> Seq<char> {
    match a.provider {
        Some(p) => p@,
        None => "unspecified"@,
    }
}

impl GenerateCommand {
    /// The record to write: the configuration is validated, the record of its first agent
    /// generated, and, where asked, the record validated.
    pub fn build_record(&self, config: &AgentConfig) -> (r: Result<AgentExchangeRecord, GenerateError>)
        ensures
            r is Err && r->Err_0 is Config <==> !config_acceptable(*config),
            (exists|i: int|
                0 <= i < config.agents@.len() && !agent_acceptable(config.defaults, #[trigger] config.agents@[i]))
                ==> r is Err,
            r matches Ok(rec) ==> config.agents@.len() > 0 && generated_from(
                config.defaults,
                config.agents@[0],
                rec,
            ) && (self.validate ==> record_passes(rec)),
            config_acceptable(*config) && config.agents@.len() == 0 ==> (r matches Err(
                GenerateError::Ax(AxError::GenerationFailed(s)),
            ) && s@ == "No agents in config"@),
            config_acceptable(*config) && config.agents@.len() > 0 && !self.validate ==> (r is Ok
                <==> !record_fails(config.agents@[0], builtin_providers())),
    {
        match ConfigValidator::validate_config(config) {
            Err(e) => {
                return Err(GenerateError::Config(e));
            },
            Ok(()) => {},
        }
        let record = match AxGenerator::generate_record(config) {
            Err(e) => {
                return Err(GenerateError::Ax(e));
            },
            Ok(rec) => rec,
        };
        if self.validate {
            match AxValidator::validate_record(&record) {
                Err(e) => {
                    return Err(GenerateError::Ax(e));
                },
                Ok(()) => {},
            }
        }
        Ok(record)
    }

    /// What is printed once the record is written at `ax_record_path`.
    pub fn summary_lines(record: &AgentExchangeRecord, ax_record_path: &str) -> (r: Vec<String>)
        ensures
            string_views(r@) == seq![
                "Generated AX record at "@ + ax_record_path@,
                "  Agent: "@ + record.agent.name@ + " ("@ + provider_text(record.agent) + ")"@,
            ],
    {
        let mut lines: Vec<String> = Vec::new();
        lines.push(concat("Generated AX record at ", ax_record_path));
        let provider = match &record.agent.provider {
            Some(p) => p.as_str(),
            None => "unspecified",
        };
        let mut second = concat3("  Agent: ", record.agent.name.as_str(), " (");
        second.append(provider);
        second.append(")");
        lines.push(second);
        assert(string_views(lines@) =~= seq![
            "Generated AX record at "@ + ax_record_path@,
            "  Agent: "@ + record.agent.name@ + " ("@ + provider_text(record.agent) + ")"@,
        ]);
        lines
    }
}

// ---------------------------------------------------------------------------
// discover
// ---------------------------------------------------------------------------

/// Arguments of `discover`.
pub struct DiscoverCommand {
    /// The domain to discover agents of.
    pub domain: String,
    /// A cache server to ask (instead of one that DNS announces).
    pub cache: Option<String>,
    /// Whether the domain is asked directly, without DNS cache discovery.
    pub direct: bool,
    /// Whether the document is printed as JSON.
    pub json: bool,
    /// The request timeout, in seconds.
    pub timeout: u64,
}

/// The line that shows an endpoint: its protocol as `{:?}` shows it, then its URL.
pub open spec fn endpoint_line(e: Endpoint) -> Seq<char> {
    "    "@ + protocol_debug(e.protocol) + " "@ + e.url@
}

/// The lines that show a record: the agent, then one line per endpoint.
pub open spec fn record_summary(rec: AgentExchangeRecord) -> Seq<Seq<char>> {
    seq![
        "  "@ + rec.agent.name@ + " - "@ + rec.agent.description@ + " (provider: "@
            + provider_text(rec.agent) + ")"@,
    ] + rec.endpoints@.map_values(|e: Endpoint| endpoint_line(e))
}

/// The lines that show the records, in order.
pub open spec fn records_summary(recs: Seq<AgentExchangeRecord>) -> Seq<Seq<char>>
    decreases recs.len(),
{
    if recs.len() == 0 {
        seq![]
    } else {
        records_summary(recs.drop_last()) + record_summary(recs.last())
    }
}

/// What `discover` prints of the document found for `domain` (as text, not JSON).
pub open spec fn discovery_report(domain: Seq<char>, doc: AgentExchangeDocument) -> Seq<Seq<char>> {
    if doc.records@.len() == 0 {
        seq!["No agents found for domain: "@ + domain]
    } else {
        seq![
            "Discovered "@ + decimal(doc.records@.len()) + " agent(s) for "@ + domain + ":"@,
        ] + records_summary(doc.records@)
    }
}

impl DiscoverCommand {
    /// The lines that show the document found for the command's domain.
    pub fn report_lines(&self, doc: &AgentExchangeDocument) -> (r: Vec<String>)
        ensures
            string_views(r@) == discovery_report(self.domain@, *doc),
    {
        let mut lines: Vec<String> = Vec::new();
        let n = doc.records.len();
        if n == 0 {
            lines.push(concat("No agents found for domain: ", self.domain.as_str()));
            assert(string_views(lines@) =~= discovery_report(self.domain@, *doc));
            return lines;
        }
        let mut head = String::from_str("Discovered ");
        push_decimal(&mut head, n as u64);
        head.append(" agent(s) for ");
        head.append(self.domain.as_str());
        head.append(":");
        lines.push(head);
        let ghost first = string_views(lines@);
        let mut i: usize = 0;
        while i < n
            invariant
                n == doc.records@.len(),
                i <= n,
                string_views(lines@) == first + records_summary(doc.records@.subrange(0, i as int)),
            decreases n - i,
        {
            let rec = &doc.records[i];
            let ghost before = string_views(lines@);
            let provider = match &rec.agent.provider {
                Some(p) => p.as_str(),
                None => "unspecified",
            };
            let mut line = concat3("  ", rec.agent.name.as_str(), " - ");
            line.append(rec.agent.description.as_str());
            line.append(" (provider: ");
            line.append(provider);
            line.append(")");
            lines.push(line);
            let m = rec.endpoints.len();
            let mut j: usize = 0;
            while j < m
                invariant
                    m == rec.endpoints@.len(),
                    j <= m,
                    string_views(lines@) == before + seq![
                        "  "@ + rec.agent.name@ + " - "@ + rec.agent.description@ + " (provider: "@
                            + provider_text(rec.agent) + ")"@,
                    ] + rec.endpoints@.subrange(0, j as int).map_values(
                        |e: Endpoint| endpoint_line(e),
                    ),
                decreases m - j,
            {
                let ep = &rec.endpoints[j];
                let proto = ep.protocol.debug_text();
                let mut l = concat("    ", proto.as_str());
                l.append(" ");
                l.append(ep.url.as_str());
                let ghost prev = string_views(lines@);
                lines.push(l);
                assert(string_views(lines@) =~= prev.push(l@));
                assert(rec.endpoints@.subrange(0, j + 1).map_values(|e: Endpoint| endpoint_line(e))
                    =~= rec.endpoints@.subrange(0, j as int).map_values(
                    |e: Endpoint| endpoint_line(e),
                ).push(endpoint_line(rec.endpoints@[j as int])));
                j = j + 1;
            }
            assert(rec.endpoints@.subrange(0, m as int) =~= rec.endpoints@);
            assert(doc.records@.subrange(0, i + 1).drop_last() =~= doc.records@.subrange(
                0,
                i as int,
            ));
            assert(string_views(lines@) =~= first + records_summary(
                doc.records@.subrange(0, i + 1),
            ));
            i = i + 1;
        }
        assert(doc.records@.subrange(0, n as int) =~= doc.records@);
        assert(string_views(lines@) =~= discovery_report(self.domain@, *doc));
        lines
    }
}

// ---------------------------------------------------------------------------
// validate
// ---------------------------------------------------------------------------

/// Arguments of `validate`.
pub struct ValidateCommand {
    /// The path of the AX file.
    pub file: String,
}

/// What `validate` prints, and whether the records passed.
pub struct ValidateOutcome {
    /// The lines for standard error.
    pub stderr: Vec<String>,
    /// The lines for standard output.
    pub stdout: Vec<String>,
    /// Whether no record has an error.
    pub passed: bool,
}

/// A finding as `validate` prints it, after `prefix`: `[field]: message`.
pub open spec fn finding_line(prefix: Seq<char>, it: ItemView) -> Seq<char> {
    prefix + "["@ + it.field + "]: "@ + it.message
}

/// The lines for record `i`: where it has errors, a heading that names it and one line per
/// error; then one line per warning.
pub open spec fn record_report(i: nat, rec: AgentExchangeRecord) -> Seq<Seq<char>> {
    let f = record_findings(rec);
    (if has_error(f) {
        seq!["Record "@ + decimal(i) + " ("@ + rec.agent.name@ + "):"@] + items_with(
            f,
            Severity::Error,
        ).map_values(|it: ItemView| finding_line("  ERROR "@, it))
    } else {
        seq![]
    }) + items_with(f, Severity::Warning).map_values(|it: ItemView| finding_line("  WARN  "@, it))
}

/// The lines for the records, in order.
pub open spec fn records_report(recs: Seq<AgentExchangeRecord>) -> Seq<Seq<char>>
    decreases recs.len(),
{
    if recs.len() == 0 {
        seq![]
    } else {
        records_report(recs.drop_last()) + record_report((recs.len() - 1) as nat, recs.last())
    }
}

/// Whether some record has an error.
pub open spec fn some_record_fails(recs: Seq<AgentExchangeRecord>) -> bool {
    exists|i: int| 0 <= i < recs.len() && has_error(record_findings(#[trigger] recs[i]))
}

/// The lines for a list of found items, each after `prefix`.
fn push_findings(lines: &mut Vec<String>, items: &Vec<&crate::ax::validator::ValidationItem>, prefix: &str)
    ensures
        string_views(final(lines)@) == string_views(old(lines)@) + ref_views(items@).map_values(
            |it: ItemView| finding_line(prefix@, it),
        ),
{
    let mut k: usize = 0;
    while k < items.len()
        invariant
            k <= items@.len(),
            string_views(lines@) == string_views(old(lines)@) + ref_views(items@).subrange(
                0,
                k as int,
            ).map_values(|it: ItemView| finding_line(prefix@, it)),
        decreases items@.len() - k,
    {
        let it = items[k];
        let mut l = concat3(prefix, "[", it.field.as_str());
        l.append("]: ");
        l.append(it.message.as_str());
        let ghost prev = string_views(lines@);
        lines.push(l);
        assert(string_views(lines@) =~= prev.push(l@));
        assert(ref_views(items@).subrange(0, k + 1).map_values(|it: ItemView| finding_line(prefix@, it))
            =~= ref_views(items@).subrange(0, k as int).map_values(
            |it: ItemView| finding_line(prefix@, it),
        ).push(finding_line(prefix@, ref_views(items@)[k as int])));
        k = k + 1;
    }
    assert(ref_views(items@).subrange(0, items@.len() as int) =~= ref_views(items@));
}

impl ValidateCommand {
    /// Validates each record and says what to print: the findings of each record, then
    /// `Validation FAILED` where some record has an error, or else
    /// `Validation PASSED: <n> record(s) valid`.
    pub fn report(records: &Vec<AgentExchangeRecord>) -> (r: ValidateOutcome)
        ensures
            r.passed == !some_record_fails(records@),
            string_views(r.stderr@) == records_report(records@) + (if r.passed {
                seq![]
            } else {
                seq!["\nValidation FAILED"@]
            }),
            string_views(r.stdout@) == (if r.passed {
                seq!["Validation PASSED: "@ + decimal(records@.len()) + " record(s) valid"@]
            } else {
                seq![]
            }),
    {
        let mut stderr: Vec<String> = Vec::new();
        let mut failed = false;
        let n = records.len();
        let mut i: usize = 0;
        while i < n
            invariant
                n == records@.len(),
                i <= n,
                string_views(stderr@) == records_report(records@.subrange(0, i as int)),
                failed == some_record_fails(records@.subrange(0, i as int)),
            decreases n - i,
        {
            let record = &records[i];
            let report = AxValidator::validate_record_detailed(record);
            let ghost f = record_findings(*record);
            let ghost before = string_views(stderr@);
            let errs = report.has_errors();
            assert(errs == has_error(f));
            if errs {
                failed = true;
                let mut head = String::from_str("Record ");
                push_decimal(&mut head, i as u64);
                head.append(" (");
                head.append(record.agent.name.as_str());
                head.append("):");
                stderr.push(head);
                let errors = report.errors();
                push_findings(&mut stderr, &errors, "  ERROR ");
            }
            let warnings = report.warnings();
            push_findings(&mut stderr, &warnings, "  WARN  ");
            let ghost sub = records@.subrange(0, i + 1);
            assert(sub.drop_last() =~= records@.subrange(0, i as int));
            assert(sub.last() == *record);
            assert(string_views(stderr@) =~= before + record_report(i as nat, *record));
            assert(some_record_fails(sub) == (some_record_fails(records@.subrange(0, i as int))
                || has_error(f))) by {
                if has_error(f) {
                    assert(sub[i as int] == *record);
                }
                if some_record_fails(records@.subrange(0, i as int)) {
                    let j = choose|j: int| 0 <= j < i && has_error(record_findings(#[trigger] records@.subrange(0, i as int)[j]));
                    assert(sub[j] == records@.subrange(0, i as int)[j]);
                }
                if some_record_fails(sub) {
                    let j = choose|j: int| 0 <= j < i + 1 && has_error(record_findings(#[trigger] sub[j]));
                    if j < i {
                        assert(sub[j] == records@.subrange(0, i as int)[j]);
                    }
                }
            }
            i = i + 1;
        }
        assert(records@.subrange(0, n as int) =~= records@);
        let mut stdout: Vec<String> = Vec::new();
        if failed {
            let ghost before = string_views(stderr@);
            stderr.push(String::from_str("\nValidation FAILED"));
            assert(string_views(stderr@) =~= before.push("\nValidation FAILED"@));
        } else {
            let mut line = String::from_str("Validation PASSED: ");
            push_decimal(&mut line, n as u64);
            line.append(" record(s) valid");
            stdout.push(line);
            assert(string_views(stderr@) =~= records_report(records@) + seq![]);
        }
        assert(string_views(stdout@) =~= (if !failed {
            seq!["Validation PASSED: "@ + decimal(records@.len()) + " record(s) valid"@]
        } else {
            seq![]
        }));
        ValidateOutcome { stderr, stdout, passed: !failed }
    }
}

} // verus!
