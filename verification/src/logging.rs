//! Logging settings: level, output format, colours and source locations, and how they are
//! read from the values of the environment variables `RUST_LOG`, `LOG_FORMAT`, `LOG_COLORS`
//! and `LOG_LOCATION`.

use vstd::prelude::*;
use crate::text::{lowercase, opt_chars, str_eq, to_lowercase};

verus! {

/// The verbosity of a log event, from the most severe to the most verbose.
#[derive(Debug, Clone, Copy, PartialEq, Eq, Structural)]
pub enum LogLevel {
    Error,
    Warn,
    Info,
    Debug,
    Trace,
}

/// Log output format.
#[derive(Debug, Clone, Copy, PartialEq, Eq, Structural)]
pub enum LogFormat {
    /// Human-readable text.
    Text,
    /// Structured JSON.
    Json,
}

/// `c` with ASCII upper case letters made lower case; other characters unchanged.
pub open spec fn ascii_lower(c: char) -> char {
    if 'A' <= c && c <= 'Z' {
        ((c as u32) + 32) as char
    } else {
        c
    }
}

/// `s` with ASCII upper case letters made lower case.
pub open spec fn ascii_lowercase(s: Seq<char>) -> Seq<char> {
    s.map_values(|c: char| ascii_lower(c))
}

/// The level that tracing's `Level::from_str` reads from `s`: a number from 1 (error) to 5
/// (trace) as `usize` parsing reads it, or else one of the names `error`, `warn`, `info`,
/// `debug`, `trace` in any ASCII case.
pub open spec fn level_named(s: Seq<char>) -> Option<LogLevel> {
    match crate::text::parse_u64_spec(s) {
        Some(n) if n == 1 => Some(LogLevel::Error),
        Some(n) if n == 2 => Some(LogLevel::Warn),
        Some(n) if n == 3 => Some(LogLevel::Info),
        Some(n) if n == 4 => Some(LogLevel::Debug),
        Some(n) if n == 5 => Some(LogLevel::Trace),
        _ => {
            let l = ascii_lowercase(s);
            if l == "error"@ {
                Some(LogLevel::Error)
            } else if l == "warn"@ {
                Some(LogLevel::Warn)
            } else if l == "info"@ {
                Some(LogLevel::Info)
            } else if l == "debug"@ {
                Some(LogLevel::Debug)
            } else if l == "trace"@ {
                Some(LogLevel::Trace)
            } else {
                None
            }
        },
    }
}

/// tracing's `Level::from_str`: the level named by `s` (see `level_named`), or `None`
/// where `s` names none.
#[verifier::external_body]
fn parse_level(s: &str) -> (r: Option<LogLevel>)
    ensures
        r == level_named(s@),
{
    match s.parse::<tracing::Level>() {
        Ok(tracing::Level::ERROR) => Some(LogLevel::Error),
        Ok(tracing::Level::WARN) => Some(LogLevel::Warn),
        Ok(tracing::Level::INFO) => Some(LogLevel::Info),
        Ok(tracing::Level::DEBUG) => Some(LogLevel::Debug),
        Ok(_) => Some(LogLevel::Trace),
        Err(_) => None,
    }
}

/// Logging settings.
#[derive(Debug, Clone, Copy, PartialEq, Eq, Structural)]
pub struct LoggingConfig {
    /// The most verbose level that is logged.
    pub level: LogLevel,
    /// Output format.
    pub format: LogFormat,
    /// Whether ANSI colours are used.
    pub enable_colors: bool,
    /// Whether file and line numbers are included.
    pub include_location: bool,
}

/// The default settings: info level, text, colours, no locations.
pub open spec fn default_logging() -> LoggingConfig {
    LoggingConfig {
        level: LogLevel::Info,
        format: LogFormat::Text,
        enable_colors: true,
        include_location: false,
    }
}

/// Whether a flag's text reads as `true`, case aside.
pub open spec fn reads_true(s: Seq<char>) -> bool {
    lowercase(s) == "true"@
}

/// The settings that the environment variables give, each of them where it is set:
/// `RUST_LOG` sets the level where it names one; `LOG_FORMAT` sets the format where it
/// reads `json` or `text`, case aside; `LOG_COLORS` and `LOG_LOCATION` are on exactly
/// where they read `true`, case aside. What is unset, or unreadable, keeps its default.
pub open spec fn logging_from(
    rust_log: Option<Seq<char>>,
    log_format: Option<Seq<char>>,
    log_colors: Option<Seq<char>>,
    log_location: Option<Seq<char>>,
) -> LoggingConfig {
    let d = default_logging();
    LoggingConfig {
        level: match rust_log {
            Some(s) => match level_named(s) {
                Some(l) => l,
                None => d.level,
            },
            None => d.level,
        },
        format: match log_format {
            Some(s) => if lowercase(s) == "json"@ {
                LogFormat::Json
            } else if lowercase(s) == "text"@ {
                LogFormat::Text
            } else {
                d.format
            },
            None => d.format,
        },
        enable_colors: match log_colors {
            Some(s) => reads_true(s),
            None => d.enable_colors,
        },
        include_location: match log_location {
            Some(s) => reads_true(s),
            None => d.include_location,
        },
    }
}

impl Default for LoggingConfig {
    fn default() -> (r: Self)
        ensures
            r == default_logging(),
    {
        LoggingConfig {
            level: LogLevel::Info,
            format: LogFormat::Text,
            enable_colors: true,
            include_location: false,
        }
    }
}

impl LoggingConfig {
    /// The default settings.
    pub fn new() -> (r: Self)
        ensures
            r == default_logging(),
    {
        Self::default()
    }

    /// These settings with the level `level`.
    pub fn with_level(self, level: LogLevel) -> (r: Self)
        ensures
            r == (LoggingConfig { level, ..self }),
    {
        let mut c = self;
        c.level = level;
        c
    }

    /// These settings with the format `format`.
    pub fn with_format(self, format: LogFormat) -> (r: Self)
        ensures
            r == (LoggingConfig { format, ..self }),
    {
        let mut c = self;
        c.format = format;
        c
    }

    /// These settings with colours on or off.
    pub fn with_colors(self, enable: bool) -> (r: Self)
        ensures
            r == (LoggingConfig { enable_colors: enable, ..self }),
    {
        let mut c = self;
        c.enable_colors = enable;
        c
    }

    /// These settings with source locations on or off.
    pub fn with_location(self, enable: bool) -> (r: Self)
        ensures
            r == (LoggingConfig { include_location: enable, ..self }),
    {
        let mut c = self;
        c.include_location = enable;
        c
    }

    /// The settings that the values of `RUST_LOG`, `LOG_FORMAT`, `LOG_COLORS` and
    /// `LOG_LOCATION` give (`None` for a variable that is not set).
    pub fn from_env_values(
        rust_log: Option<String>,
        log_format: Option<String>,
        log_colors: Option<String>,
        log_location: Option<String>,
    ) -> (r: Self)
        ensures
            r == logging_from(
                opt_chars(rust_log),
                opt_chars(log_format),
                opt_chars(log_colors),
                opt_chars(log_location),
            ),
    {
        let mut config = Self::default();
        match rust_log {
            Some(level_str) => match parse_level(level_str.as_str()) {
                Some(level) => {
                    config.level = level;
                },
                None => {},
            },
            None => {},
        }
        match log_format {
            Some(format_str) => {
                let lower = to_lowercase(format_str.as_str());
                if str_eq(lower.as_str(), "json") {
                    config.format = LogFormat::Json;
                } else if str_eq(lower.as_str(), "text") {
                    config.format = LogFormat::Text;
                }
            },
            None => {},
        }
        match log_colors {
            Some(colors_str) => {
                let lower = to_lowercase(colors_str.as_str());
                config.enable_colors = str_eq(lower.as_str(), "true");
            },
            None => {},
        }
        match log_location {
            Some(location_str) => {
                let lower = to_lowercase(location_str.as_str());
                config.include_location = str_eq(lower.as_str(), "true");
            },
            None => {},
        }
        config
    }
}

} // verus!
