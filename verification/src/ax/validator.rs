//! Validation of AX records, as a detailed report and as a first-failure check.

use vstd::prelude::*;
use vstd::string::*;
use super::record::{Agent, AgentExchangeRecord};
use super::types::Endpoint;
use crate::error::{approved_auth_method, is_valid_auth_method, AxError};
use crate::text::{concat, concat3, decimal, push_decimal, str_eq};

verus! {

/// How serious a finding is.
#[derive(Debug, Clone, Copy, PartialEq, Eq, Structural)]
pub enum Severity {
    Error,
    Warning,
}

/// One finding of a validation.
#[derive(Debug, Clone)]
pub struct ValidationItem {
    pub severity: Severity,
    pub field: String,
    pub message: String,
}

/// A finding, with its texts as character sequences.
pub struct ItemView {
    pub severity: Severity,
    pub field: Seq<char>,
    pub message: Seq<char>,
}

impl View for ValidationItem {
    type V = ItemView;

    open spec fn view(&self) -> ItemView {
        ItemView { severity: self.severity, field: self.field@, message: self.message@ }
    }
}

/// The findings of a validation, in the order in which they were made.
#[derive(Debug, Clone)]
pub struct ValidationReport {
    pub items: Vec<ValidationItem>,
}

impl View for ValidationReport {
    type V = Seq<ItemView>;

    open spec fn view(&self) -> Seq<ItemView> {
        self.items@.map_values(|i: ValidationItem| i@)
    }
}

/// The findings of `s` that have severity `sev`, in order.
pub open spec fn items_with(s: Seq<ItemView>, sev: Severity) -> Seq<ItemView>
    decreases s.len(),
{
    if s.len() == 0 {
        seq![]
    } else {
        let p = items_with(s.drop_last(), sev);
        if s.last().severity == sev {
            p.push(s.last())
        } else {
            p
        }
    }
}

/// Views of the findings that a vector of references points to.
pub open spec fn ref_views(v: Seq<&ValidationItem>) -> Seq<ItemView> {
    v.map_values(|i: &ValidationItem| i@)
}

impl ValidationReport {
    /// A report with no findings.
    pub fn new() -> (r: Self)
        ensures
            r@ == Seq::<ItemView>::empty(),
    {
        let r = ValidationReport { items: Vec::new() };
        assert(r@ =~= Seq::<ItemView>::empty());
        r
    }

    /// Whether some finding is an error.
    pub fn has_errors(&self) -> (r: bool)
        ensures
            r == exists|i: int| 0 <= i < self@.len() && #[trigger] self@[i].severity == Severity::Error,
    {
        let mut i: usize = 0;
        while i < self.items.len()
            invariant
                i <= self.items@.len(),
                forall|j: int| 0 <= j < i ==> self@[j].severity != Severity::Error,
            decreases self.items@.len() - i,
        {
            if self.items[i].severity == Severity::Error {
                assert(self@[i as int].severity == Severity::Error);
                return true;
            }
            i = i + 1;
        }
        false
    }

    fn filtered(&self, sev: Severity) -> (r: Vec<&ValidationItem>)
        ensures
            ref_views(r@) == items_with(self@, sev),
    {
        let mut r: Vec<&ValidationItem> = Vec::new();
        let mut i: usize = 0;
        while i < self.items.len()
            invariant
                i <= self.items@.len(),
                ref_views(r@) == items_with(self@.subrange(0, i as int), sev),
            decreases self.items@.len() - i,
        {
            let ghost before = r@;
            let item = &self.items[i];
            assert(self@.subrange(0, i + 1).drop_last() =~= self@.subrange(0, i as int));
            if item.severity == sev {
                r.push(item);
                assert(ref_views(r@) =~= ref_views(before).push(item@));
            }
            i = i + 1;
        }
        assert(self@.subrange(0, self.items@.len() as int) =~= self@);
        r
    }

    /// The findings that are errors, in order.
    pub fn errors(&self) -> (r: Vec<&ValidationItem>)
        ensures
            ref_views(r@) == items_with(self@, Severity::Error),
    {
        self.filtered(Severity::Error)
    }

    /// The findings that are warnings, in order.
    pub fn warnings(&self) -> (r: Vec<&ValidationItem>)
        ensures
            ref_views(r@) == items_with(self@, Severity::Warning),
    {
        self.filtered(Severity::Warning)
    }

    fn push_item(&mut self, severity: Severity, field: String, message: String)
        ensures
            final(self)@ == old(self)@.push(ItemView { severity, field: field@, message: message@ }),
    {
        let item = ValidationItem { severity, field, message };
        self.items.push(item);
        assert(self@ =~= old(self)@.push(item@));
    }
}

/// A finding with the given texts.
pub open spec fn finding(severity: Severity, field: Seq<char>, message: Seq<char>) -> ItemView {
    ItemView { severity, field, message }
}

/// The text listing the known auth methods, as `{:?}` prints the list.
pub open spec fn known_auth_methods_text() -> Seq<char> {
    "[\"OIDC\", \"OAuth2\", \"mTLS\", \"JWT\", \"API_KEY\"]"@
}

/// The name of a field of the `i`-th endpoint: `endpoints[i]` followed by `suffix`.
pub open spec fn endpoint_field(i: nat, suffix: Seq<char>) -> Seq<char> {
    "endpoints["@ + decimal(i) + suffix
}

/// Findings on the record as a whole: its type, version, agent and endpoint list.
pub open spec fn header_findings(r: AgentExchangeRecord) -> Seq<ItemView> {
    let a = if r.record_type@ != "AX"@ {
        seq![finding(Severity::Error, "record_type"@, "Expected 'AX', got '"@ + r.record_type@ + "'"@)]
    } else {
        seq![]
    };
    let b = if r.version@ != "1.0"@ {
        seq![finding(Severity::Warning, "version"@, "Unsupported version '"@ + r.version@ + "', expected '1.0'"@)]
    } else {
        seq![]
    };
    let c = if r.agent.name@.len() == 0 {
        seq![finding(Severity::Error, "agent.name"@, "Agent name is required"@)]
    } else {
        seq![]
    };
    let d = if r.agent.description@.len() == 0 {
        seq![finding(Severity::Error, "agent.description"@, "Agent description is required"@)]
    } else {
        seq![]
    };
    let e = if r.endpoints@.len() == 0 {
        seq![finding(Severity::Error, "endpoints"@, "At least one endpoint is required"@)]
    } else {
        seq![]
    };
    a + b + c + d + e
}

/// Warnings on the auth methods of the `i`-th endpoint that are not known.
pub open spec fn auth_findings(i: nat, methods: Seq<String>) -> Seq<ItemView>
    decreases methods.len(),
{
    if methods.len() == 0 {
        seq![]
    } else {
        let m = methods.last()@;
        auth_findings(i, methods.drop_last()) + if approved_auth_method(m) {
            seq![]
        } else {
            seq![finding(Severity::Warning, endpoint_field(i, "].auth"@),
                "Unknown auth method '"@ + m + "' (known: "@ + known_auth_methods_text() + ")"@)]
        }
    }
}

/// Findings on the `i`-th endpoint.
pub open spec fn endpoint_findings(i: nat, ep: Endpoint) -> Seq<ItemView> {
    (if ep.url@.len() == 0 {
        seq![finding(Severity::Error, endpoint_field(i, "].url"@), "Endpoint URL is required"@)]
    } else {
        seq![]
    }) + auth_findings(i, ep.auth@)
}

/// Findings on each endpoint in turn.
pub open spec fn endpoints_findings(eps: Seq<Endpoint>) -> Seq<ItemView>
    decreases eps.len(),
{
    if eps.len() == 0 {
        seq![]
    } else {
        endpoints_findings(eps.drop_last()) + endpoint_findings((eps.len() - 1) as nat, eps.last())
    }
}

/// All findings on a record, in the order in which the validator makes them.
pub open spec fn record_findings(r: AgentExchangeRecord) -> Seq<ItemView> {
    header_findings(r) + endpoints_findings(r.endpoints@)
}

/// Whether an agent has the fields that the AX draft requires (the provider is optional).
pub open spec fn agent_valid(a: Agent) -> bool {
    a.name@.len() > 0 && a.description@.len() > 0
}

/// Whether every endpoint has a URL (auth methods are optional).
pub open spec fn endpoints_have_urls(eps: Seq<Endpoint>) -> bool {
    forall|i: int| 0 <= i < eps.len() ==> (#[trigger] eps[i]).url@.len() > 0
}

fn indexed_field(i: usize, suffix: &str) -> (r: String)
    ensures
        r@ == endpoint_field(i as nat, suffix@),
{
    let mut r = String::from_str("endpoints[");
    push_decimal(&mut r, i as u64);
    r.append(suffix);
    r
}

/// AX record validator.
pub struct AxValidator;

impl AxValidator {
    /// Validates a record and reports every finding: errors for what the AX draft
    /// requires, warnings for an unsupported version and unknown auth methods.
    pub fn validate_record_detailed(record: &AgentExchangeRecord) -> (report: ValidationReport)
        ensures
            report@ == record_findings(*record),
    {
        let mut report = ValidationReport::new();
        if !str_eq(record.record_type.as_str(), "AX") {
            report.push_item(
                Severity::Error,
                String::from_str("record_type"),
                concat3("Expected 'AX', got '", record.record_type.as_str(), "'"),
            );
        }
        if !str_eq(record.version.as_str(), "1.0") {
            report.push_item(
                Severity::Warning,
                String::from_str("version"),
                concat3("Unsupported version '", record.version.as_str(), "', expected '1.0'"),
            );
        }
        if record.agent.name.as_str().is_empty() {
            report.push_item(
                Severity::Error,
                String::from_str("agent.name"),
                String::from_str("Agent name is required"),
            );
        }
        if record.agent.description.as_str().is_empty() {
            report.push_item(
                Severity::Error,
                String::from_str("agent.description"),
                String::from_str("Agent description is required"),
            );
        }
        if record.endpoints.len() == 0 {
            report.push_item(
                Severity::Error,
                String::from_str("endpoints"),
                String::from_str("At least one endpoint is required"),
            );
        }
        proof {
            reveal_strlit("AX");
            reveal_strlit("1.0");
            reveal_strlit("record_type");
            reveal_strlit("version");
            reveal_strlit("agent.name");
            reveal_strlit("agent.description");
            reveal_strlit("endpoints");
            reveal_strlit("Agent name is required");
            reveal_strlit("Agent description is required");
            reveal_strlit("At least one endpoint is required");
            reveal_strlit("Expected 'AX', got '");
            reveal_strlit("'");
            reveal_strlit("Unsupported version '");
            reveal_strlit("', expected '1.0'");
        }
        assert(report@ =~= header_findings(*record));
        let n = record.endpoints.len();
        let mut i: usize = 0;
        while i < n
            invariant
                n == record.endpoints@.len(),
                i <= n,
                report@ == header_findings(*record) + endpoints_findings(
                    record.endpoints@.subrange(0, i as int),
                ),
            decreases n - i,
        {
            let ep = &record.endpoints[i];
            let ghost before = report@;
            if ep.url.as_str().is_empty() {
                report.push_item(
                    Severity::Error,
                    indexed_field(i, "].url"),
                    String::from_str("Endpoint URL is required"),
                );
            }
            proof {
                reveal_strlit("].url");
                reveal_strlit("Endpoint URL is required");
            }
            assert(report@ =~= before + (if ep.url@.len() == 0 {
                seq![finding(Severity::Error, endpoint_field(i as nat, "].url"@), "Endpoint URL is required"@)]
            } else {
                seq![]
            }));
            let ghost mid = report@;
            let m = ep.auth.len();
            let mut j: usize = 0;
            while j < m
                invariant
                    m == ep.auth@.len(),
                    j <= m,
                    report@ == mid + auth_findings(i as nat, ep.auth@.subrange(0, j as int)),
                decreases m - j,
            {
                let method = &ep.auth[j];
                let ghost prev = report@;
                assert(ep.auth@.subrange(0, j + 1).drop_last() =~= ep.auth@.subrange(0, j as int));
                if !is_valid_auth_method(method.as_str()) {
                    let mut msg = concat3("Unknown auth method '", method.as_str(), "' (known: ");
                    msg.append("[\"OIDC\", \"OAuth2\", \"mTLS\", \"JWT\", \"API_KEY\"]");
                    msg.append(")");
                    report.push_item(Severity::Warning, indexed_field(i, "].auth"), msg);
                }
                proof {
                    reveal_strlit("].auth");
                    reveal_strlit("Unknown auth method '");
                    reveal_strlit("' (known: ");
                    reveal_strlit("[\"OIDC\", \"OAuth2\", \"mTLS\", \"JWT\", \"API_KEY\"]");
                    reveal_strlit(")");
                }
                assert(report@ =~= mid + auth_findings(i as nat, ep.auth@.subrange(0, j + 1)));
                j = j + 1;
            }
            assert(ep.auth@.subrange(0, m as int) =~= ep.auth@);
            assert(record.endpoints@.subrange(0, i + 1).drop_last() =~= record.endpoints@.subrange(
                0,
                i as int,
            ));
            assert(report@ =~= header_findings(*record) + endpoints_findings(
                record.endpoints@.subrange(0, i + 1),
            ));
            i = i + 1;
        }
        assert(record.endpoints@.subrange(0, n as int) =~= record.endpoints@);
        report
    }

    /// Validates a record, stopping at the first failure: the record type must be "AX",
    /// the version "1.0", the agent complete, and the endpoints present with URLs.
    pub fn validate_record(record: &AgentExchangeRecord) -> (r: Result<(), AxError>)
        ensures
            record.record_type@ != "AX"@ ==> (r matches Err(AxError::InvalidRecordType(s))
                && s@ == record.record_type@),
            record.record_type@ == "AX"@ && record.version@ != "1.0"@ ==> (r matches Err(
                AxError::UnsupportedVersion(s),
            ) && s@ == record.version@),
            record.record_type@ == "AX"@ && record.version@ == "1.0"@ ==> missing_field_result(
                r,
                rest_problem(record.agent, record.endpoints@),
            ),
            r is Ok <==> record_passes(*record),
    {
        if !str_eq(record.record_type.as_str(), "AX") {
            return Err(AxError::InvalidRecordType(record.record_type.clone()));
        }
        proof {
            reveal_strlit("AX");
        }
        Self::validate_version(record.version.as_str())?;
        Self::validate_agent(&record.agent)?;
        Self::validate_endpoints(record.endpoints.as_slice())?;
        Ok(())
    }

    /// Validates the agent: name and description are required, the provider is not.
    pub fn validate_agent(agent: &Agent) -> (r: Result<(), AxError>)
        ensures
            agent.name@.len() == 0 ==> (r matches Err(AxError::MissingField(s)) && s@ == "agent.name"@),
            agent.name@.len() > 0 && agent.description@.len() == 0 ==> (r matches Err(
                AxError::MissingField(s),
            ) && s@ == "agent.description"@),
            agent_valid(*agent) ==> r is Ok,
            missing_field_result(r, agent_problem(*agent)),
    {
        if agent.name.as_str().is_empty() {
            return Err(AxError::MissingField(field("agent.name")));
        }
        if agent.description.as_str().is_empty() {
            return Err(AxError::MissingField(field("agent.description")));
        }
        Ok(())
    }

    /// Validates the version: only "1.0" is supported.
    pub fn validate_version(version: &str) -> (r: Result<(), AxError>)
        ensures
            version@ == "1.0"@ ==> r is Ok,
            version@ != "1.0"@ ==> (r matches Err(AxError::UnsupportedVersion(s)) && s@ == version@),
    {
        if str_eq(version, "1.0") {
            Ok(())
        } else {
            Err(AxError::UnsupportedVersion(String::from_str(version)))
        }
    }

    /// Validates the endpoints: at least one, each with a URL. Auth methods are optional.
    pub fn validate_endpoints(endpoints: &[Endpoint]) -> (r: Result<(), AxError>)
        ensures
            missing_field_result(r, endpoints_problem(endpoints@)),
    {
        if endpoints.len() == 0 {
            return Err(AxError::MissingField(field("endpoints")));
        }
        let mut i: usize = 0;
        while i < endpoints.len()
            invariant
                i <= endpoints@.len(),
                forall|j: int| 0 <= j < i ==> (#[trigger] endpoints@[j]).url@.len() > 0,
            decreases endpoints@.len() - i,
        {
            if endpoints[i].url.as_str().is_empty() {
                return Err(AxError::MissingField(field("endpoint.url")));
            }
            i = i + 1;
        }
        Ok(())
    }
}

/// The field that `validate_agent` reports missing, if any.
pub open spec fn agent_problem(a: Agent) -> Option<Seq<char>> {
    if a.name@.len() == 0 {
        Some("agent.name"@)
    } else if a.description@.len() == 0 {
        Some("agent.description"@)
    } else {
        None
    }
}

/// The field that `validate_endpoints` reports missing, if any.
pub open spec fn endpoints_problem(eps: Seq<Endpoint>) -> Option<Seq<char>> {
    if eps.len() == 0 {
        Some("endpoints"@)
    } else if endpoints_have_urls(eps) {
        None
    } else {
        Some("endpoint.url"@)
    }
}

/// Whether a record passes `validate_record`: type "AX", version "1.0", nothing missing.
pub open spec fn record_passes(rec: AgentExchangeRecord) -> bool {
    &&& rec.record_type@ == "AX"@
    &&& rec.version@ == "1.0"@
    &&& rest_problem(rec.agent, rec.endpoints@) is None
}

/// The field that `validate_record` reports missing once type and version have passed.
pub open spec fn rest_problem(a: Agent, eps: Seq<Endpoint>) -> Option<Seq<char>> {
    match agent_problem(a) {
        Some(f) => Some(f),
        None => endpoints_problem(eps),
    }
}

/// `r` is success when no field is missing, else the error naming the missing field.
pub open spec fn missing_field_result(r: Result<(), AxError>, missing: Option<Seq<char>>) -> bool {
    match missing {
        None => r is Ok,
        Some(f) => r matches Err(AxError::MissingField(s)) && s@ == f,
    }
}

/// A string holding exactly the characters of `s`.
fn field(s: &str) -> (r: String)
    ensures
        r@ == s@,
{
    String::from_str(s)
}

/// Whether some finding is an error.
pub open spec fn has_error(f: Seq<ItemView>) -> bool {
    exists|j: int| 0 <= j < f.len() && #[trigger] f[j].severity == Severity::Error
}

proof fn lemma_has_error_concat(a: Seq<ItemView>, b: Seq<ItemView>)
    ensures
        has_error(a + b) <==> has_error(a) || has_error(b),
{
    let c = a + b;
    if has_error(a) {
        let j = choose|j: int| 0 <= j < a.len() && #[trigger] a[j].severity == Severity::Error;
        assert(c[j] == a[j]);
    }
    if has_error(b) {
        let j = choose|j: int| 0 <= j < b.len() && #[trigger] b[j].severity == Severity::Error;
        assert(c[a.len() + j] == b[j]);
    }
    if has_error(c) {
        let j = choose|j: int| 0 <= j < c.len() && #[trigger] c[j].severity == Severity::Error;
        if j < a.len() {
            assert(c[j] == a[j]);
        } else {
            assert(c[j] == b[j - a.len()]);
        }
    }
}

proof fn lemma_auth_findings_warn_only(i: nat, methods: Seq<String>)
    ensures
        !has_error(auth_findings(i, methods)),
    decreases methods.len(),
{
    if methods.len() > 0 {
        lemma_auth_findings_warn_only(i, methods.drop_last());
        let m = methods.last()@;
        let tail = if approved_auth_method(m) {
            seq![]
        } else {
            seq![finding(Severity::Warning, endpoint_field(i, "].auth"@),
                "Unknown auth method '"@ + m + "' (known: "@ + known_auth_methods_text() + ")"@)]
        };
        assert(!has_error(tail)) by {
            if has_error(tail) {
                let j = choose|j: int| 0 <= j < tail.len() && #[trigger] tail[j].severity == Severity::Error;
                assert(tail[j].severity == Severity::Warning);
            }
        }
        lemma_has_error_concat(auth_findings(i, methods.drop_last()), tail);
    }
}

proof fn lemma_endpoints_errors(eps: Seq<Endpoint>)
    ensures
        has_error(endpoints_findings(eps)) <==> !endpoints_have_urls(eps),
    decreases eps.len(),
{
    if eps.len() == 0 {
    } else {
        let last = eps.last();
        let i = (eps.len() - 1) as nat;
        lemma_endpoints_errors(eps.drop_last());
        let u = if last.url@.len() == 0 {
            seq![finding(Severity::Error, endpoint_field(i, "].url"@), "Endpoint URL is required"@)]
        } else {
            seq![]
        };
        lemma_auth_findings_warn_only(i, last.auth@);
        lemma_has_error_concat(u, auth_findings(i, last.auth@));
        lemma_has_error_concat(endpoints_findings(eps.drop_last()), endpoint_findings(i, last));
        if last.url@.len() == 0 {
            assert(u[0].severity == Severity::Error);
        } else {
            assert(!has_error(u));
        }
        if endpoints_have_urls(eps) {
            assert forall|k: int| 0 <= k < eps.drop_last().len() implies (#[trigger] eps.drop_last()[k]).url@.len() > 0 by {
                assert(eps.drop_last()[k] == eps[k]);
            }
            assert(eps[eps.len() - 1] == last);
        }
        if !endpoints_have_urls(eps) {
            let k = choose|k: int| 0 <= k < eps.len() && !((#[trigger] eps[k]).url@.len() > 0);
            if k < eps.len() - 1 {
                assert(eps.drop_last()[k] == eps[k]);
            }
        }
    }
}

/// The detailed report and the first-failure check agree: the report has an error exactly
/// where the record's type is not "AX", the agent lacks a name or description, or the
/// endpoints are missing or lack a URL; and a record passes `validate_record` exactly
/// where its report has no error and its version is "1.0".
pub proof fn law_report_agrees_with_check(r: AgentExchangeRecord)
    ensures
        has_error(record_findings(r)) <==> !(r.record_type@ == "AX"@ && agent_valid(r.agent)
            && r.endpoints@.len() > 0 && endpoints_have_urls(r.endpoints@)),
        record_passes(r) <==> !has_error(record_findings(r)) && r.version@ == "1.0"@,
{
    let a = if r.record_type@ != "AX"@ {
        seq![finding(Severity::Error, "record_type"@, "Expected 'AX', got '"@ + r.record_type@ + "'"@)]
    } else {
        seq![]
    };
    let b = if r.version@ != "1.0"@ {
        seq![finding(Severity::Warning, "version"@, "Unsupported version '"@ + r.version@ + "', expected '1.0'"@)]
    } else {
        seq![]
    };
    let c = if r.agent.name@.len() == 0 {
        seq![finding(Severity::Error, "agent.name"@, "Agent name is required"@)]
    } else {
        seq![]
    };
    let d = if r.agent.description@.len() == 0 {
        seq![finding(Severity::Error, "agent.description"@, "Agent description is required"@)]
    } else {
        seq![]
    };
    let e = if r.endpoints@.len() == 0 {
        seq![finding(Severity::Error, "endpoints"@, "At least one endpoint is required"@)]
    } else {
        seq![]
    };
    assert(header_findings(r) == a + b + c + d + e);
    lemma_has_error_concat(a, b);
    lemma_has_error_concat(a + b, c);
    lemma_has_error_concat(a + b + c, d);
    lemma_has_error_concat(a + b + c + d, e);
    lemma_has_error_concat(header_findings(r), endpoints_findings(r.endpoints@));
    lemma_endpoints_errors(r.endpoints@);
    assert(has_error(a) <==> r.record_type@ != "AX"@) by {
        if r.record_type@ != "AX"@ {
            assert(a[0].severity == Severity::Error);
        }
    }
    assert(!has_error(b)) by {
        if has_error(b) {
            let j = choose|j: int| 0 <= j < b.len() && #[trigger] b[j].severity == Severity::Error;
            assert(b[j].severity == Severity::Warning);
        }
    }
    assert(has_error(c) <==> r.agent.name@.len() == 0) by {
        if r.agent.name@.len() == 0 {
            assert(c[0].severity == Severity::Error);
        }
    }
    assert(has_error(d) <==> r.agent.description@.len() == 0) by {
        if r.agent.description@.len() == 0 {
            assert(d[0].severity == Severity::Error);
        }
    }
    assert(has_error(e) <==> r.endpoints@.len() == 0) by {
        if r.endpoints@.len() == 0 {
            assert(e[0].severity == Severity::Error);
        }
    }
}

/// A report splits into its errors and its warnings: every finding is one or the other, and
/// the report has an error exactly where its list of errors is not empty.
pub proof fn law_report_partition(s: Seq<ItemView>)
    ensures
        items_with(s, Severity::Error).len() + items_with(s, Severity::Warning).len() == s.len(),
        has_error(s) <==> items_with(s, Severity::Error).len() > 0,
    decreases s.len(),
{
    if s.len() > 0 {
        law_report_partition(s.drop_last());
        lemma_has_error_concat(s.drop_last(), seq![s.last()]);
        assert(s.drop_last() + seq![s.last()] =~= s);
        if s.last().severity == Severity::Error {
            assert(seq![s.last()][0].severity == Severity::Error);
        } else {
            assert(!has_error(seq![s.last()])) by {
                if has_error(seq![s.last()]) {
                    let j = choose|j: int| 0 <= j < 1 && #[trigger] seq![s.last()][j].severity == Severity::Error;
                    assert(seq![s.last()][j] == s.last());
                }
            }
        }
    }
}

} // verus!
