//! Core of a business-outreach workflow system: the approval state machine,
//! the durable approval queue, the workflow orchestrator that drives one CRM
//! task through a seven-step pipeline, and the watcher logic that resumes a
//! suspended workflow after a human decision.
//!
//! Everything here is verified; collaborator calls (CRM, profile store,
//! dossier and letter generation, document rendering, physical mail and the
//! messaging channel) are reached through the `WorkflowSteps` capability
//! trait, and the few outside computations the logic leans on (UUIDs,
//! timestamps, base64, MD5, the postal-code pattern) stand behind small
//! trusted wrappers.

pub mod address;
pub mod approval;
pub use approval::{ApprovalData, ApprovalState, Feedback, HealthCheckResult, HealthStatus,
    LetterHistoryEntry, StateCountMap, WorkflowTrigger};
pub use config::LennardConfig;
pub use errors::{LennardError, Result};
pub use ids::{ApprovalId, ContactId, TaskId, TelegramChatId, TelegramMessageId, UserId};
pub use queue::ApprovalQueue;
pub use steps::WorkflowSteps;
pub use orchestrator::WorkflowOrchestrator;
pub use watchers::{ApprovalWatcher, NeedsImprovementWatcher};
pub mod b64;
pub mod clock;
pub mod codec;
pub mod config;
pub mod dispatch;
pub mod errors;
pub mod ids;
pub mod letters;
pub mod notify;
pub mod orchestrator;
pub mod paths;
pub mod queue;
pub mod render;
pub mod shared;
pub mod steps;
pub mod text;
pub mod types;
pub mod watchers;
