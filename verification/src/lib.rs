//! Core engine of a CloudWatch log viewer: error classification, credential
//! session bookkeeping, re-authentication polling, and budget-bounded
//! paginated fetching, all with verified contracts. Network and process I/O
//! stay outside; the functions here work on plain values handed in by the
//! surrounding application.

pub mod classify;
pub mod fetch;
pub mod groups;
pub mod profiles;
pub mod reauth;
pub mod session;
pub mod text;
