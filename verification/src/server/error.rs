//! Errors of the HTTP server and the status, message and code each is answered with.

use vstd::prelude::*;
use vstd::string::*;
use crate::error::CacheError;
use crate::policy::enforcement::PolicyViolation;
use crate::json::{json_string, json_string_literal};
use crate::text::{concat, decimal, digit_char, push_char, push_decimal};

verus! {

/// Server errors, each answered with an HTTP status.
#[derive(Debug, Clone, PartialEq, Eq)]
pub enum ServerError {
    PolicyViolation(PolicyViolation),
    DiscoveryFailed(String),
    CacheError(CacheError),
    InvalidRequest(String),
    NotFound(String),
    RateLimitExceeded,
    /// A timeout, with the time waited in nanoseconds.
    Timeout(u64),
    ServiceUnavailable(String),
    InternalError(String),
    ConfigError(String),
    StartupFailed(String),
    InvalidBindAddress(String),
    /// An I/O failure, with the text of the I/O error.
    IoError(String),
}

/// The digits of a fraction `f` of a unit, written as `{:?}` writes the fractional part of a
/// duration: the digit of each place from `place` down, stopping once nothing is left.
pub open spec fn fraction_digits(f: nat, place: nat) -> Seq<char>
    decreases place,
{
    if f == 0 || place == 0 {
        seq![]
    } else {
        seq![digit_char(f / place)] + fraction_digits(f % place, place / 10)
    }
}

/// A whole number and its fraction (`f` parts of `place * 10`), with the unit after it.
pub open spec fn with_fraction(whole: nat, f: nat, place: nat, unit: Seq<char>) -> Seq<char> {
    decimal(whole) + (if f > 0 {
        seq!['.'] + fraction_digits(f, place)
    } else {
        seq![]
    }) + unit
}

/// How `{:?}` writes a duration of `n` nanoseconds: in seconds when it is at least one,
/// else in milliseconds, microseconds or nanoseconds, with the exact fraction.
pub open spec fn duration_text(n: nat) -> Seq<char> {
    let secs = n / 1_000_000_000;
    let sub = n % 1_000_000_000;
    if secs > 0 {
        with_fraction(secs, sub, 100_000_000, "s"@)
    } else if sub >= 1_000_000 {
        with_fraction(sub / 1_000_000, sub % 1_000_000, 100_000, "ms"@)
    } else if sub >= 1_000 {
        with_fraction(sub / 1_000, sub % 1_000, 100, "µs"@)
    } else {
        decimal(sub) + "ns"@
    }
}

/// Whether `p` is a power of ten.
pub open spec fn power_of_ten(p: nat) -> bool
    decreases p,
{
    p == 1 || (p >= 10 && p % 10 == 0 && power_of_ten(p / 10))
}

fn push_fraction(s: &mut String, f: u64, place: u64)
    requires
        power_of_ten(place as nat),
        f < place * 10,
    ensures
        final(s)@ == old(s)@ + fraction_digits(f as nat, place as nat),
    decreases place,
{
    if f == 0 {
        assert(final(s)@ =~= old(s)@ + fraction_digits(f as nat, place as nat));
        return;
    }
    let d = f / place;
    assert(d < 10) by (nonlinear_arith)
        requires
            f < place * 10,
            place > 0,
            d == f / place,
    ;
    let c = if d == 0 {
        '0'
    } else if d == 1 {
        '1'
    } else if d == 2 {
        '2'
    } else if d == 3 {
        '3'
    } else if d == 4 {
        '4'
    } else if d == 5 {
        '5'
    } else if d == 6 {
        '6'
    } else if d == 7 {
        '7'
    } else if d == 8 {
        '8'
    } else {
        '9'
    };
    let ghost before = s@;
    push_char(s, c);
    let rest = f % place;
    if place == 1 {
        assert(fraction_digits(rest as nat, 0) =~= Seq::<char>::empty());
        assert(s@ =~= before + fraction_digits(f as nat, place as nat));
    } else {
        let next = place / 10;
        assert(rest < next * 10) by (nonlinear_arith)
            requires
                place >= 10,
                place % 10 == 0,
                next == place / 10,
                rest == f % place,
        ;
        push_fraction(s, rest, next);
        assert(s@ =~= before + fraction_digits(f as nat, place as nat));
    }
}

/// Writes a duration of `n` nanoseconds as `{:?}` writes a `Duration`.
pub fn push_duration(s: &mut String, n: u64)
    ensures
        final(s)@ == old(s)@ + duration_text(n as nat),
{
    let secs = n / 1_000_000_000;
    let sub = n % 1_000_000_000;
    let ghost before = s@;
    if secs > 0 {
        push_decimal(s, secs);
        if sub > 0 {
            push_char(s, '.');
            proof {
                reveal_with_fuel(power_of_ten, 10);
            }
            push_fraction(s, sub, 100_000_000);
        }
        s.append("s");
    } else if sub >= 1_000_000 {
        push_decimal(s, sub / 1_000_000);
        if sub % 1_000_000 > 0 {
            push_char(s, '.');
            proof {
                reveal_with_fuel(power_of_ten, 7);
            }
            push_fraction(s, sub % 1_000_000, 100_000);
        }
        s.append("ms");
    } else if sub >= 1_000 {
        push_decimal(s, sub / 1_000);
        if sub % 1_000 > 0 {
            push_char(s, '.');
            proof {
                reveal_with_fuel(power_of_ten, 4);
            }
            push_fraction(s, sub % 1_000, 100);
        }
        s.append("µs");
    } else {
        push_decimal(s, sub);
        s.append("ns");
    }
    assert(s@ =~= before + duration_text(n as nat));
}

/// The answer to a failed request: HTTP status, message, and error code.
pub struct ErrorResponse {
    pub status: u16,
    pub message: String,
    pub code: String,
}

impl ServerError {
    /// The text that describes the error.
    pub open spec fn spec_message(&self) -> Seq<char> {
        match self {
            ServerError::PolicyViolation(v) => "Policy violation: "@ + v.spec_message(),
            ServerError::DiscoveryFailed(m) => "Discovery failed: "@ + m@,
            ServerError::CacheError(e) => "Cache error: "@ + e.spec_message(),
            ServerError::InvalidRequest(m) => "Invalid request: "@ + m@,
            ServerError::NotFound(m) => "Domain not found: "@ + m@,
            ServerError::RateLimitExceeded => "Rate limit exceeded"@,
            ServerError::Timeout(n) => "Request timeout after "@ + duration_text(*n as nat),
            ServerError::ServiceUnavailable(m) => "Service unavailable: "@ + m@,
            ServerError::InternalError(m) => "Internal server error: "@ + m@,
            ServerError::ConfigError(m) => "Configuration error: "@ + m@,
            ServerError::StartupFailed(m) => "Server startup failed: "@ + m@,
            ServerError::InvalidBindAddress(m) => "Invalid bind address: "@ + m@,
            ServerError::IoError(m) => "IO error: "@ + m@,
        }
    }

    /// The text that describes the error.
    pub fn message(&self) -> (r: String)
        ensures
            r@ == self.spec_message(),
    {
        match self {
            ServerError::PolicyViolation(v) => concat("Policy violation: ", v.message().as_str()),
            ServerError::DiscoveryFailed(m) => concat("Discovery failed: ", m.as_str()),
            ServerError::CacheError(e) => concat("Cache error: ", e.message().as_str()),
            ServerError::InvalidRequest(m) => concat("Invalid request: ", m.as_str()),
            ServerError::NotFound(m) => concat("Domain not found: ", m.as_str()),
            ServerError::RateLimitExceeded => String::from_str("Rate limit exceeded"),
            ServerError::Timeout(n) => {
                let mut r = String::from_str("Request timeout after ");
                push_duration(&mut r, *n);
                r
            },
            ServerError::ServiceUnavailable(m) => concat("Service unavailable: ", m.as_str()),
            ServerError::InternalError(m) => concat("Internal server error: ", m.as_str()),
            ServerError::ConfigError(m) => concat("Configuration error: ", m.as_str()),
            ServerError::StartupFailed(m) => concat("Server startup failed: ", m.as_str()),
            ServerError::InvalidBindAddress(m) => concat("Invalid bind address: ", m.as_str()),
            ServerError::IoError(m) => concat("IO error: ", m.as_str()),
        }
    }

    /// The HTTP status an error is answered with: 400 for invalid requests and domains,
    /// 403 for domains the policy refuses, 404, 429, 502 for upstream and cache failures,
    /// 503 for unavailability and timeouts, 500 otherwise.
    pub open spec fn spec_status(&self) -> u16 {
        match self {
            ServerError::InvalidRequest(_) => 400,
            ServerError::PolicyViolation(PolicyViolation::InvalidDomain { .. }) => 400,
            ServerError::PolicyViolation(_) => 403,
            ServerError::NotFound(_) => 404,
            ServerError::RateLimitExceeded => 429,
            ServerError::DiscoveryFailed(_) => 502,
            ServerError::CacheError(_) => 502,
            ServerError::ServiceUnavailable(_) => 503,
            ServerError::Timeout(_) => 503,
            _ => 500,
        }
    }

    /// The message an error is answered with.
    pub open spec fn spec_response_message(&self) -> Seq<char> {
        match self {
            ServerError::InvalidRequest(m) => m@,
            ServerError::PolicyViolation(v) => v.spec_message(),
            ServerError::NotFound(m) => m@,
            ServerError::RateLimitExceeded => "Rate limit exceeded"@,
            ServerError::ServiceUnavailable(m) => m@,
            ServerError::InternalError(m) => m@,
            _ => self.spec_message(),
        }
    }

    /// The error code an error is answered with.
    pub open spec fn spec_code(&self) -> Seq<char> {
        match self {
            ServerError::InvalidRequest(_) => "INVALID_REQUEST"@,
            ServerError::PolicyViolation(PolicyViolation::InvalidDomain { .. }) => "INVALID_DOMAIN"@,
            ServerError::PolicyViolation(PolicyViolation::DomainNotAllowed { .. }) => "DOMAIN_NOT_ALLOWED"@,
            ServerError::PolicyViolation(PolicyViolation::ExternalDomainBlocked { .. }) => "EXTERNAL_DOMAIN_BLOCKED"@,
            ServerError::NotFound(_) => "NOT_FOUND"@,
            ServerError::RateLimitExceeded => "RATE_LIMIT_EXCEEDED"@,
            ServerError::DiscoveryFailed(_) => "DISCOVERY_FAILED"@,
            ServerError::CacheError(_) => "CACHE_ERROR"@,
            ServerError::ServiceUnavailable(_) => "SERVICE_UNAVAILABLE"@,
            ServerError::Timeout(_) => "TIMEOUT"@,
            ServerError::InternalError(_) => "INTERNAL_ERROR"@,
            ServerError::ConfigError(_) => "CONFIG_ERROR"@,
            ServerError::StartupFailed(_) => "STARTUP_FAILED"@,
            ServerError::InvalidBindAddress(_) => "INVALID_BIND_ADDRESS"@,
            ServerError::IoError(_) => "IO_ERROR"@,
        }
    }

    /// The status, message and code that an error is answered with.
    pub fn response_parts(&self) -> (r: ErrorResponse)
        ensures
            r.status == self.spec_status(),
            r.message@ == self.spec_response_message(),
            r.code@ == self.spec_code(),
    {
        match self {
            ServerError::InvalidRequest(m) => ErrorResponse {
                status: 400,
                message: m.clone(),
                code: String::from_str("INVALID_REQUEST"),
            },
            ServerError::PolicyViolation(v) => {
                let (status, code) = match v {
                    PolicyViolation::InvalidDomain { .. } => (400u16, String::from_str("INVALID_DOMAIN")),
                    PolicyViolation::DomainNotAllowed { .. } => (403u16, String::from_str("DOMAIN_NOT_ALLOWED")),
                    PolicyViolation::ExternalDomainBlocked { .. } => (
                        403u16,
                        String::from_str("EXTERNAL_DOMAIN_BLOCKED"),
                    ),
                };
                ErrorResponse { status, message: v.message(), code }
            },
            ServerError::NotFound(m) => ErrorResponse {
                status: 404,
                message: m.clone(),
                code: String::from_str("NOT_FOUND"),
            },
            ServerError::RateLimitExceeded => ErrorResponse {
                status: 429,
                message: String::from_str("Rate limit exceeded"),
                code: String::from_str("RATE_LIMIT_EXCEEDED"),
            },
            ServerError::DiscoveryFailed(_) => ErrorResponse {
                status: 502,
                message: self.message(),
                code: String::from_str("DISCOVERY_FAILED"),
            },
            ServerError::CacheError(_) => ErrorResponse {
                status: 502,
                message: self.message(),
                code: String::from_str("CACHE_ERROR"),
            },
            ServerError::ServiceUnavailable(m) => ErrorResponse {
                status: 503,
                message: m.clone(),
                code: String::from_str("SERVICE_UNAVAILABLE"),
            },
            ServerError::Timeout(_) => ErrorResponse {
                status: 503,
                message: self.message(),
                code: String::from_str("TIMEOUT"),
            },
            ServerError::InternalError(m) => ErrorResponse {
                status: 500,
                message: m.clone(),
                code: String::from_str("INTERNAL_ERROR"),
            },
            ServerError::ConfigError(_) => ErrorResponse {
                status: 500,
                message: self.message(),
                code: String::from_str("CONFIG_ERROR"),
            },
            ServerError::StartupFailed(_) => ErrorResponse {
                status: 500,
                message: self.message(),
                code: String::from_str("STARTUP_FAILED"),
            },
            ServerError::InvalidBindAddress(_) => ErrorResponse {
                status: 500,
                message: self.message(),
                code: String::from_str("INVALID_BIND_ADDRESS"),
            },
            ServerError::IoError(_) => ErrorResponse {
                status: 500,
                message: self.message(),
                code: String::from_str("IO_ERROR"),
            },
        }
    }
}

/// The JSON body of an error reply:
/// `{"correlation_id":<id>,"error":{"code":<code>,"message":<message>},"timestamp":<time>}`.
pub open spec fn error_response_body(
    code: Seq<char>,
    message: Seq<char>,
    timestamp: Seq<char>,
    correlation_id: Seq<char>,
) -> Seq<char> {
    "{\"correlation_id\":"@ + json_string(correlation_id) + ",\"error\":{\"code\":"@ + json_string(
        code,
    ) + ",\"message\":"@ + json_string(message) + "},\"timestamp\":"@ + json_string(timestamp)
        + "}"@
}

impl ErrorResponse {
    /// The JSON body of the reply, with the time of the reply and the request's
    /// correlation id.
    pub fn body(&self, timestamp: &str, correlation_id: &str) -> (r: String)
        ensures
            r@ == error_response_body(self.code@, self.message@, timestamp@, correlation_id@),
    {
        let mut r = String::from_str("{\"correlation_id\":");
        let c = json_string_literal(correlation_id);
        r.append(c.as_str());
        r.append(",\"error\":{\"code\":");
        let k = json_string_literal(self.code.as_str());
        r.append(k.as_str());
        r.append(",\"message\":");
        let m = json_string_literal(self.message.as_str());
        r.append(m.as_str());
        r.append("},\"timestamp\":");
        let t = json_string_literal(timestamp);
        r.append(t.as_str());
        r.append("}");
        r
    }
}

/// A complete error reply: status, content type, the correlation id sent in the
/// `x-correlation-id` header, and the JSON body.
pub struct ErrorReply {
    pub status: u16,
    pub content_type: String,
    pub correlation_id: String,
    pub body: String,
}

/// uuid's `Uuid::new_v4`, as text: a fresh random identifier. Nothing is claimed of its
/// value.
#[verifier::external_body]
fn new_correlation_id() -> String {
    uuid::Uuid::new_v4().to_string()
}

/// chrono's `Utc::now`, as RFC 3339 text. Nothing is claimed of its value.
#[verifier::external_body]
fn rfc3339_now() -> String {
    chrono::Utc::now().to_rfc3339()
}

impl ServerError {
    /// The reply to this error made with the given time and correlation id: its status,
    /// JSON, the id in the header and the same id in the body.
    pub fn reply_with(&self, timestamp: &str, correlation_id: &str) -> (r: ErrorReply)
        ensures
            r.status == self.spec_status(),
            r.content_type@ == "application/json"@,
            r.correlation_id@ == correlation_id@,
            r.body@ == error_response_body(self.spec_code(), self.spec_response_message(), timestamp@, correlation_id@),
    {
        let parts = self.response_parts();
        let body = parts.body(timestamp, correlation_id);
        ErrorReply {
            status: parts.status,
            content_type: String::from_str("application/json"),
            correlation_id: String::from_str(correlation_id),
            body,
        }
    }

    /// The reply to this error, with a fresh correlation id and the current time: the id in
    /// the header is the one in the body, whatever id and time were drawn.
    pub fn error_reply(&self) -> (r: ErrorReply)
        ensures
            r.status == self.spec_status(),
            r.content_type@ == "application/json"@,
            exists|timestamp: Seq<char>|
                r.body@ == #[trigger] error_response_body(
                    self.spec_code(),
                    self.spec_response_message(),
                    timestamp,
                    r.correlation_id@,
                ),
    {
        let correlation_id = new_correlation_id();
        let timestamp = rfc3339_now();
        self.reply_with(timestamp.as_str(), correlation_id.as_str())
    }
}

} // verus!
