//! The AX record and its legacy wrapper document.

use vstd::prelude::*;
use vstd::string::*;
use super::types::{Capabilities, Endpoint, Limits, Schema, Security};

verus! {

/// An AX document: one flat record, per the AX draft.
#[derive(Debug, Clone, PartialEq, Eq)]
pub struct AgentExchangeRecord {
    pub record_type: String,
    pub version: String,
    pub agent: Agent,
    pub endpoints: Vec<Endpoint>,
    pub capabilities: Option<Capabilities>,
    pub schema: Option<Schema>,
    pub limits: Option<Limits>,
    pub security: Option<Security>,
    /// The JSON text of the `extensions` value, when there is one.
    pub extensions: Option<String>,
}

/// The record type written when a document names none.
pub fn default_record_type() -> (r: String)
    ensures
        r@ == "AX"@,
{
    String::from_str("AX")
}

/// The version written when a document names none.
pub fn default_version() -> (r: String)
    ensures
        r@ == "1.0"@,
{
    String::from_str("1.0")
}

/// The agent that a record describes; the provider is optional per the AX draft.
#[derive(Debug, Clone, PartialEq, Eq)]
pub struct Agent {
    pub name: String,
    pub description: String,
    pub provider: Option<String>,
}

/// Legacy wrapper format: a list of records.
#[derive(Debug, Clone, PartialEq, Eq)]
pub struct AgentExchangeDocument {
    pub records: Vec<AgentExchangeRecord>,
}

/// The records of an AX text, from its two readings: as one flat record (the AX draft's
/// form) where it reads as one, otherwise as a legacy wrapper document, whose error is
/// reported where that reading fails too.
pub fn records_from_readings<E>(
    flat: Option<AgentExchangeRecord>,
    wrapped: Result<AgentExchangeDocument, E>,
) -> (r: Result<Vec<AgentExchangeRecord>, E>)
    ensures
        flat matches Some(rec) ==> (r matches Ok(v) && v@ == seq![rec]),
        flat is None ==> (match wrapped {
            Ok(doc) => r matches Ok(v) && v@ == doc.records@,
            Err(e) => r matches Err(e2) && e2 == e,
        }),
{
    match flat {
        Some(record) => {
            let mut v: Vec<AgentExchangeRecord> = Vec::new();
            v.push(record);
            assert(v@ =~= seq![record]);
            Ok(v)
        },
        None => match wrapped {
            Ok(doc) => Ok(doc.records),
            Err(e) => Err(e),
        },
    }
}

} // verus!
