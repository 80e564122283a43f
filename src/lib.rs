//! Page logic of a small desktop application: configuration record, the
//! navigation messages, and the paid-entries controller, which ingests a JSON
//! ledger, builds price requests and decides which dialog is shown.
pub mod config;
pub mod keyed;
pub mod ledger;
pub mod pages;
pub mod paid_entries;
pub mod quotes;
pub mod text;
