//! Orchestration of media-history imports: the normalised import model, the
//! ordering and reconciliation rules, the report lifecycle and the background
//! job plans, each with a contract that Verus proves.

pub mod background;
pub mod importer;
pub mod models;
pub mod time;
