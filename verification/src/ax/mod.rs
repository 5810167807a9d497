//! The Agent Discovery Exchange (AX) record: its types, validation and generation.

pub mod record;
pub mod types;
pub mod generator;
pub mod validator;

pub use generator::AxGenerator;
pub use record::{Agent, AgentExchangeDocument, AgentExchangeRecord};
pub use types::{Capabilities, Endpoint, Limits, Protocol, Schema, Security};
pub use validator::{AxValidator, Severity, ValidationItem, ValidationReport};
