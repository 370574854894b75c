//! Sandbox policy for task commands: the policy model, the plan by which a
//! policy becomes kernel rules, and the audit of what a traced command touched.

pub mod audit;
pub mod cache;
pub mod enforce;
pub mod error;
pub mod kernel;
pub mod plan;
pub mod policy;
pub mod report;
pub mod text;
pub mod trace;

pub use crate::cache::{CachedParseResult, CueCache};
pub use crate::error::Error;
pub use crate::policy::{AccessRestrictions, Platform, SecurityConfig, TaskConfig};
pub use crate::report::AuditReport;
pub use crate::trace::{extract_file_path, extract_network_address};
