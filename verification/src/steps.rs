//! The workflow-steps capability interface and the data that crosses it.
//!
//! Every external collaborator — CRM, profile store, dossier generator,
//! letter generator, document renderer, mail dispatcher, messaging channel —
//! is reached exclusively through `WorkflowSteps`.  The orchestrator is
//! verified against this interface; the surrounding process implements it
//! with real clients, and tests substitute fakes.

use vstd::prelude::*;
use crate::approval::ApprovalData;
use crate::config::{DossierConfig, LetterServiceConfig};
use crate::errors::Result;
use crate::text::dec_of;
use crate::text::u64_to_string;
use crate::types::{LetterContent, LinkedInProfile, MailingAddress, ZohoContact};

verus! {

/// The contact a CRM task points at.
#[derive(Debug, Clone)]
pub struct TaskWho {
    pub id: String,
    pub name: Option<String>,
}

/// One CRM task, as the task loader hands it over.
#[derive(Debug, Clone)]
pub struct CrmTask {
    pub id: String,
    pub subject: String,
    pub status: String,
    pub who_id: Option<TaskWho>,
    pub created_time: Option<String>,
}

/// Result from dossier generation: the two dossier texts plus the company
/// name and mailing address extracted along the way.
#[derive(Debug, Clone)]
pub struct DossierResult {
    pub person_dossier_content: String,
    pub company_dossier_content: String,
    pub company_name: String,
    pub mailing_address: Option<MailingAddress>,
}

/// The atomic operations the orchestrator composes.  Their outcomes depend
/// on the collaborators, so nothing is promised of them; the orchestrator
/// validates whatever comes back.
pub trait WorkflowSteps {
    /// Load up to `max_count` candidate tasks for processing.
    fn load_available_tasks(&mut self, max_count: u32) -> Result<Vec<CrmTask>>;

    /// Load one task by id.
    fn load_task(&mut self, task_id: &str) -> Result<CrmTask>;

    /// Mark a task as in progress, so a second batch cannot pick it up.
    fn mark_task_in_progress(&mut self, task_id: &str) -> Result<()>;

    /// Load the contact a task points at.
    fn load_contact(&mut self, task: &CrmTask) -> Result<ZohoContact>;

    /// Load the profile behind a contact.
    fn load_profile(&mut self, contact: &ZohoContact) -> Result<LinkedInProfile>;

    /// Generate the dossiers for a profile.
    fn generate_dossiers(&mut self, profile: &LinkedInProfile, contact_id: &str) -> Result<
        DossierResult,
    >;

    /// Persist an extracted mailing address back to the CRM contact.
    fn update_contact_address(&mut self, contact_id: &str, address: &MailingAddress) -> Result<()>;

    /// Generate a letter from contact, profile and dossier.
    fn generate_letter(
        &mut self,
        contact: &ZohoContact,
        profile: &LinkedInProfile,
        dossier: &DossierResult,
    ) -> Result<LetterContent>;

    /// Generate an improved letter iteration from the full approval context
    /// and the human decider's feedback.
    fn generate_improved_letter(&mut self, approval_data: &ApprovalData, feedback: &str) -> Result<
        LetterContent,
    >;

    /// Render the letter into a document for the given mailing address.
    fn generate_pdf_with_address(
        &mut self,
        letter: &LetterContent,
        address: &MailingAddress,
    ) -> Result<Vec<u8>>;

    /// Send the approval prompt, with the already-rendered document, through
    /// the messaging channel.
    fn send_approval_prompt(
        &mut self,
        letter: &LetterContent,
        contact: &ZohoContact,
        approval_id: &str,
        pdf: Vec<u8>,
    ) -> Result<()>;

    /// Resend the approval prompt for an improved letter.
    fn send_improved_approval_to_telegram(&mut self, approval_data: &ApprovalData) -> Result<()>;

    /// Note that an approval update is ready for another approval pass.
    fn request_approval_update(&mut self, approval_id: &str, iteration_count: usize) -> Result<()>;

    /// Dispatch a rendered document as physical mail; returns the tracking
    /// id.
    fn send_pdf_binary(&mut self, pdf: Vec<u8>, address: &MailingAddress) -> Result<String>;

    /// Send a failure notice through the messaging channel.
    fn send_error_notification(
        &mut self,
        task_id: &str,
        contact_name: &str,
        company_name: &str,
        error_message: &str,
    ) -> Result<()>;

    /// Record a task failure in the CRM.
    fn update_task_error_status(&mut self, task_id: &str, error_message: &str) -> Result<()>;

    /// Record a task completion in the CRM.
    fn update_task_completed_status(&mut self, task_id: &str, success_message: &str) -> Result<()>;

    /// Attach a file to the CRM task.
    fn attach_file_to_task(&mut self, task_id: &str, file_data: Vec<u8>, filename: &str) -> Result<
        (),
    >;

    /// Create a follow-up task for the contact; returns the new task id.
    fn create_follow_up_task(&mut self, contact_id: &str, task_id: &str) -> Result<String>;
}

/// Client handle for the dossier generation service.
pub struct DossierClient {
    pub grpc_url: String,
}

impl DossierClient {
    /// The service endpoint, built from host and port.
    pub fn new(config: DossierConfig) -> (r: Self)
        ensures
            r.grpc_url@ == "http://"@ + config.grpc_host@ + ":"@ + dec_of(
                config.grpc_port as nat,
            ),
    {
        let grpc_url = String::from_str("http://").concat(config.grpc_host.as_str()).concat(
            ":",
        ).concat(u64_to_string(config.grpc_port as u64).as_str());
        DossierClient { grpc_url }
    }
}

/// Client handle for the letter generation service.
pub struct LetterServiceClient {
    pub grpc_url: String,
}

impl LetterServiceClient {
    /// The service endpoint, built from host and port.
    pub fn new(config: LetterServiceConfig) -> (r: Self)
        ensures
            r.grpc_url@ == "http://"@ + config.grpc_host@ + ":"@ + dec_of(
                config.grpc_port as nat,
            ),
    {
        let grpc_url = String::from_str("http://").concat(config.grpc_host.as_str()).concat(
            ":",
        ).concat(u64_to_string(config.grpc_port as u64).as_str());
        LetterServiceClient { grpc_url }
    }
}

} // verus!
