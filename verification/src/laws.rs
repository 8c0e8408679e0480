//! What holds of the services as a whole.

pub mod customers;
pub mod decisions;
pub mod documents;
pub mod headers;
pub mod offers;
pub mod records;
pub mod sessions;
pub mod texts;
pub mod tools;
pub mod triage;
