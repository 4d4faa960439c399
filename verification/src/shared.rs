//! Types shared with the outer service surface: trigger submission, workflow
//! status reporting, and approval decisions as the RPC layer sees them.

use vstd::prelude::*;
use crate::clock::now_millis;
use crate::ids::fresh_uuid_string;

verus! {

/// A workflow trigger request as submitted from outside.
#[derive(Debug, Clone)]
pub struct WorkflowTrigger {
    pub trigger_id: String,
    pub requested_by: i64,
    pub requested_at: i64,
    pub max_tasks: u32,
    pub dry_run: bool,
}

impl WorkflowTrigger {
    /// Create a trigger with a fresh random id; never a dry run by default.
    pub fn new(requested_by: i64, max_tasks: u32) -> (r: Self)
        ensures
            r.requested_by == requested_by,
            r.max_tasks == max_tasks,
            !r.dry_run,
            r.trigger_id@.len() == 36,
    {
        WorkflowTrigger {
            trigger_id: fresh_uuid_string(),
            requested_by,
            requested_at: now_millis(),
            max_tasks,
            dry_run: false,
        }
    }
}

/// Workflow processing state.
#[derive(Debug, Clone, Copy, PartialEq, Eq, Structural)]
pub enum WorkflowStatus {
    Pending,
    Running,
    WaitingApproval,
    Completed,
    Failed,
    Cancelled,
}

/// Result of processing a single task.
#[derive(Debug, Clone)]
pub struct TaskResult {
    pub task_id: String,
    pub contact_name: String,
    pub company_name: String,
    pub success: bool,
    pub tracking_id: Option<String>,
    pub error_message: Option<String>,
    pub processed_at: i64,
}

/// Workflow state information reported to callers.
#[derive(Debug, Clone)]
pub struct WorkflowState {
    pub workflow_id: String,
    pub status: WorkflowStatus,
    pub task_results: Vec<TaskResult>,
    pub started_at: i64,
    pub updated_at: i64,
    pub error_message: Option<String>,
    pub total_tasks: u32,
    pub completed_tasks: u32,
}

/// An approval request as shown to the approval channel.
#[derive(Debug, Clone)]
pub struct ApprovalRequest {
    pub approval_id: String,
    pub workflow_id: String,
    pub contact_name: String,
    pub company_name: String,
    pub letter_content: String,
    pub pdf_content: Vec<u8>,
    pub pdf_filename: String,
    pub pdf_url: Option<String>,
    pub created_at: i64,
    pub task_id: String,
    pub contact_id: String,
    pub tracking_info: Option<String>,
}

/// The human decision on an approval.
#[derive(Debug, Clone, Copy, PartialEq, Eq, Structural)]
pub enum ApprovalDecision {
    Approved,
    Rejected,
    NeedsRevision,
}

/// The human response, with optional feedback text.
#[derive(Debug, Clone)]
pub struct ApprovalResponse {
    pub approval_id: String,
    pub decision: ApprovalDecision,
    pub feedback: Option<String>,
    pub revised_letter_content: Option<String>,
    pub decided_at: i64,
    pub decided_by: i64,
}

/// Approval state as the outer surface reports it.
#[derive(Debug, Clone, Copy, PartialEq, Eq, Structural)]
pub enum ApprovalState {
    Pending,
    Approved,
    Rejected,
    Expired,
    InRevision,
}

/// Mailing address as exchanged with the outer surface.
#[derive(Debug, Clone)]
pub struct MailingAddress {
    pub street: String,
    pub city: String,
    pub state: Option<String>,
    pub postal_code: String,
    pub country: String,
}

/// Contact information as exchanged with the outer surface.
#[derive(Debug, Clone)]
pub struct Contact {
    pub id: String,
    pub full_name: String,
    pub first_name: String,
    pub last_name: String,
    pub email: Option<String>,
    pub phone: Option<String>,
    pub company: Option<String>,
    pub linkedin_id: Option<String>,
    pub mailing_address: Option<MailingAddress>,
}

/// Letter content as exchanged with the outer surface.
#[derive(Debug, Clone)]
pub struct LetterContent {
    pub subject: String,
    pub greeting: String,
    pub body: String,
    pub closing: String,
    pub sender_name: String,
    pub recipient_name: String,
    pub company_name: String,
}

/// Dossier generation result as exchanged with the outer surface.
#[derive(Debug, Clone)]
pub struct DossierResult {
    pub person_dossier: String,
    pub company_dossier: String,
    pub company_name: String,
    pub mailing_address: Option<MailingAddress>,
}

/// Error taxonomy of the outer service surface.
#[derive(Debug, Clone)]
pub enum WorkflowError {
    Configuration(String),
    ExternalService(String),
    Validation(String),
    NotFound(String),
    Internal(String),
    Unauthorized(String),
    Timeout(String),
    Network(String),
}

} // verus!
