//! Demo services of an insurer, as verified rules over plain values.

pub mod api_error;
pub mod claim_documents;
pub mod claim_fields;
pub mod claim_risk;
pub mod claim_summary;
pub mod claim_tools;
pub mod claim_triage;
pub mod coverage;
pub mod customer_profile;
pub mod customer_records;
pub mod headers;
pub mod json;
pub mod laws;
pub mod liability;
pub mod logging;
pub mod mcp_error;
pub mod mcp_server;
pub mod model;
pub mod offer_decision;
pub mod offers;
pub mod text;
