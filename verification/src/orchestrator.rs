//! The workflow orchestrator: drives one CRM task through the seven-step
//! pipeline, isolates per-task failures inside a batch, and resumes a
//! suspended workflow after the human decision.
//!
//! The orchestrator is stateless between tasks; every collaborator is
//! reached through the `WorkflowSteps` interface, and the approval queue is
//! handed in by the caller.

use vstd::prelude::*;
use crate::approval::{ApprovalData, ApprovalState, WorkflowTrigger};
use crate::b64::{b64_decode, b64_encode, b64_of};
use crate::clock::now_millis;
use crate::errors::{LennardError, Result};
use crate::ids::ApprovalId;
use crate::queue::ApprovalQueue;
use crate::steps::{CrmTask, DossierResult, WorkflowSteps};
use crate::text::{extract_tagged, u64_to_string};
use crate::types::{LetterContent, MailingAddress, ZohoContact};

verus! {

/// Subject filter for candidate tasks.
pub const TASK_SUBJECT_FILTER: &'static str = "Connect on LinkedIn";

/// Status filter for candidate tasks (the CRM speaks German).
pub const TASK_STATUS_FILTER: &'static str = "Nicht gestartet";

/// Owner filter for candidate tasks.
pub const TASK_OWNER_ID: &'static str = "1294764000001730350";

/// Lines joined with a newline between each pair.
pub open spec fn join_nl(ls: Seq<Seq<char>>) -> Seq<char>
    decreases ls.len(),
{
    if ls.len() == 0 {
        Seq::<char>::empty()
    } else if ls.len() == 1 {
        ls[0]
    } else {
        join_nl(ls.drop_last()) + "\n"@ + ls.last()
    }
}

fn join_lines(lines: &Vec<String>) -> (r: String)
    ensures
        r@ == join_nl(lines.deep_view()),
{
    let mut acc = String::new();
    let n = lines.len();
    let mut i: usize = 0;
    while i < n
        invariant
            n == lines@.len(),
            0 <= i <= n,
            acc@ == join_nl(lines.deep_view().take(i as int)),
        decreases n - i,
    {
        if i == 0 {
            acc = lines[0].clone();
        } else {
            acc = acc.concat("\n").concat(lines[i].as_str());
        }
        proof {
            assert(lines.deep_view().take(i as int + 1).drop_last() =~= lines.deep_view().take(
                i as int,
            ));
            assert(lines.deep_view().take(i as int + 1).last() == lines.deep_view()[i as int]);
            if i == 0 {
                assert(lines.deep_view().take(1)[0] == lines.deep_view()[0]);
            }
        }
        i = i + 1;
    }
    proof {
        assert(lines.deep_view().take(n as int) =~= lines.deep_view());
    }
    acc
}

/// Wrap a step failure with the failing step's identity, so a batch line
/// names where the task died.
fn wrap_step_error(prefix: &str, e: &LennardError) -> (r: LennardError)
    ensures
        r matches LennardError::Workflow(s) && s@ == prefix@ + e.spec_message(),
{
    LennardError::Workflow(String::from_str(prefix).concat(e.message().as_str()))
}

/// Single orchestration component with the workflow steps wired in.
pub struct WorkflowOrchestrator<T: WorkflowSteps> {
    steps: T,
}

impl<T: WorkflowSteps> WorkflowOrchestrator<T> {
    pub fn new(steps: T) -> Self {
        WorkflowOrchestrator { steps }
    }

    /// Notify the human channel and record the failure in the CRM.  Both are
    /// best-effort: their own failure is swallowed so it can never mask the
    /// error that triggered them.
    pub fn handle_task_error(
        &mut self,
        task: &CrmTask,
        error: &LennardError,
        company_name: Option<&str>,
    ) -> Result<()> {
        let contact_name = match &task.who_id {
            Some(who) => match &who.name {
                Some(name) => String::from_str(name.as_str()),
                None => String::from_str("Unknown Contact"),
            },
            None => String::from_str("Unknown Contact"),
        };
        let company = match company_name {
            Some(c) => String::from_str(c),
            None => String::from_str("Unknown Company"),
        };
        let error_message = error.message();
        let _ = self.steps.send_error_notification(
            task.id.as_str(),
            contact_name.as_str(),
            company.as_str(),
            error_message.as_str(),
        );
        let _ = self.steps.update_task_error_status(task.id.as_str(), error_message.as_str());
        Ok(())
    }

    /// Step 5a: render the document now — the human decider must see the exact
    /// artifact that will later be mailed — extract the recipient metadata
    /// from the dossiers, and persist the approval record in
    /// `PendingApproval`.
    pub fn approval_start(
        &mut self,
        queue: &mut ApprovalQueue,
        task_id: &str,
        contact: &ZohoContact,
        letter: &LetterContent,
        dossier: &DossierResult,
    ) -> (r: Result<ApprovalId>)
        requires
            old(queue).wf(),
        ensures
            final(queue).wf(),
            r matches Ok(id) ==> {
                &&& final(queue).lookup(id@) matches Some(v)
                &&& v.state == ApprovalState::PendingApproval
                &&& v.task_id == task_id@
                &&& v.contact_id == contact.id@
                &&& v.recipient_name == contact.full_name@
                &&& v.company_name == dossier.company_name@
                &&& v.mailing_address == crate::approval::addr_opt_view(contact.mailing_address)
                &&& v.mailing_address is Some
                &&& v.pdf_base64 is Some
                &&& v.person_dossier == Some(dossier.person_dossier_content@)
                &&& v.company_dossier == Some(dossier.company_dossier_content@)
                &&& v.recipient_email == crate::text::tagged_value(
                    dossier.person_dossier_content@,
                    "**Email**:"@,
                )
                &&& v.recipient_title == crate::text::tagged_value(
                    dossier.person_dossier_content@,
                    "**Headline**:"@,
                )
                &&& v.industry == crate::text::tagged_value(
                    dossier.company_dossier_content@,
                    "- **Industry**:"@,
                )
                &&& v.website == crate::text::tagged_value(
                    dossier.company_dossier_content@,
                    "- **Website**:"@,
                )
                &&& v.current_letter == letter@
                &&& v.letter_history.len() == 1
            },
            contact.mailing_address is None ==> (r matches Err(e) && e matches
                LennardError::Workflow(_)),
            r is Err ==> *final(queue) == *old(queue),
    {
        let mailing_address = match &contact.mailing_address {
            Some(a) => a,
            None => {
                return Err(
                    LennardError::Workflow(
                        String::from_str("Contact has no mailing address: ").concat(
                            contact.full_name.as_str(),
                        ),
                    ),
                );
            },
        };
        let pdf_data = match self.steps.generate_pdf_with_address(letter, mailing_address) {
            Ok(d) => d,
            Err(e) => {
                return Err(
                    LennardError::ServiceUnavailable(
                        String::from_str("PDF generation failed: ").concat(e.message().as_str()),
                    ),
                );
            },
        };
        let recipient_email = extract_tagged(dossier.person_dossier_content.as_str(), "**Email**:");
        let recipient_title = extract_tagged(
            dossier.person_dossier_content.as_str(),
            "**Headline**:",
        );
        let industry = extract_tagged(dossier.company_dossier_content.as_str(), "- **Industry**:");
        let website = extract_tagged(dossier.company_dossier_content.as_str(), "- **Website**:");
        queue.create_approval(
            crate::ids::TaskId::new(String::from_str(task_id)),
            crate::ids::ContactId::new(String::from_str(contact.id.as_str())),
            String::from_str(contact.full_name.as_str()),
            recipient_email,
            recipient_title,
            String::from_str(dossier.company_name.as_str()),
            letter.duplicate(),
            crate::ids::UserId::new(1),
            Some(mailing_address.duplicate()),
            Some(b64_encode(pdf_data.as_slice())),
            Some(String::from_str(dossier.person_dossier_content.as_str())),
            Some(String::from_str(dossier.company_dossier_content.as_str())),
            industry,
            website,
        )
    }

    /// Step 5b: send the approval prompt with the already-rendered document,
    /// then move the record to `AwaitingUserResponse`.  The workflow
    /// suspends here; a watcher resumes it after the human decision.
    pub fn request_approval(
        &mut self,
        queue: &mut ApprovalQueue,
        approval_id: &ApprovalId,
        letter: &LetterContent,
        contact: &ZohoContact,
    ) -> (r: Result<ApprovalState>)
        requires
            old(queue).wf(),
        ensures
            final(queue).wf(),
            r matches Ok(s) ==> s == ApprovalState::AwaitingUserResponse && (old(queue).lookup(
                approval_id@,
            ) matches Some(w) && final(queue).lookup(approval_id@) matches Some(v)
                && v.same_but_state(w) && v.state == ApprovalState::AwaitingUserResponse),
            r is Err ==> *final(queue) == *old(queue),
            !old(queue).contains_id(approval_id@) ==> (r matches Err(e) && e matches
                LennardError::Workflow(_)),
            (old(queue).lookup(approval_id@) matches Some(w) && w.pdf_base64 is None) ==> (r
                matches Err(e) && e matches LennardError::Workflow(_)),
            (old(queue).lookup(approval_id@) matches Some(w) && w.pdf_base64 matches Some(p) && (
            forall|bs: Seq<u8>| p != b64_of(bs))) ==> (r matches Err(e) && e matches
                LennardError::Workflow(_)),
    {
        let approval_data = match queue.get_approval_request(approval_id, None) {
            Ok(Some(d)) => d,
            Ok(None) => {
                return Err(LennardError::Workflow(String::from_str("Approval not found")));
            },
            Err(e) => {
                return Err(e);
            },
        };
        let pdf_data = match &approval_data.pdf_base64 {
            Some(b) => match b64_decode(b.as_str()) {
                Some(d) => d,
                None => {
                    return Err(
                        LennardError::Workflow(String::from_str("Failed to decode PDF")),
                    );
                },
            },
            None => {
                return Err(LennardError::Workflow(String::from_str("Approval has no PDF data")));
            },
        };
        match self.steps.send_approval_prompt(letter, contact, approval_id.as_str(), pdf_data) {
            Ok(_) => {},
            Err(e) => {
                return Err(e);
            },
        }
        match queue.mark_as_awaiting_response(approval_id) {
            Ok(_) => Ok(ApprovalState::AwaitingUserResponse),
            Err(e) => Err(e),
        }
    }

    /// Process a single task through the complete seven-step pipeline.  A
    /// successfully initiated task suspends after the approval prompt went
    /// out: it reports "awaiting user response" and leaves a record in the
    /// `AwaitingUserResponse` partition.
    pub fn process_single_task(&mut self, queue: &mut ApprovalQueue, task: &CrmTask) -> (r: Result<
        String,
    >)
        requires
            old(queue).wf(),
        ensures
            final(queue).wf(),
            r matches Ok(msg) ==> msg@ == "Awaiting user response via Telegram"@ && (exists|
                id: Seq<char>,
            |
                #[trigger] final(queue).in_state(id, ApprovalState::AwaitingUserResponse)
                    && final(queue).lookup(id).unwrap().task_id == task.id@),
    {
        if let Err(e) = self.steps.mark_task_in_progress(task.id.as_str()) {
            return Err(
                LennardError::Workflow(
                    String::from_str("Failed to mark task as in progress: ").concat(
                        e.message().as_str(),
                    ),
                ),
            );
        }
        // Step 1: load the contact behind the task.
        let mut contact = match self.steps.load_contact(task) {
            Ok(c) => c,
            Err(e) => {
                let error = wrap_step_error("Step 1 (load contact) failed: ", &e);
                let _ = self.handle_task_error(task, &error, None);
                return Err(error);
            },
        };
        // Step 2: load the profile behind the contact.
        let profile = match self.steps.load_profile(&contact) {
            Ok(p) => p,
            Err(e) => {
                let error = wrap_step_error("Step 2 (load profile) failed: ", &e);
                let _ = self.handle_task_error(task, &error, None);
                return Err(error);
            },
        };
        // Step 3: generate the dossiers and take the extracted company name.
        let dossier_result = match self.steps.generate_dossiers(&profile, contact.id.as_str()) {
            Ok(d) => d,
            Err(e) => {
                return Err(wrap_step_error("Step 3 (generate dossiers) failed: ", &e));
            },
        };
        let company_name = if dossier_result.company_name.as_str().unicode_len() > 0 {
            String::from_str(dossier_result.company_name.as_str())
        } else {
            String::from_str("Unknown Company")
        };
        // Step 3.5: the pipeline cannot proceed without a valid postal
        // destination; fill a missing contact address from the dossier and
        // persist it back to the CRM.
        if contact.mailing_address.is_none() {
            match &dossier_result.mailing_address {
                Some(address) => {
                    if address.is_valid() {
                        contact.mailing_address = Some(address.duplicate());
                        if let Err(e) = self.steps.update_contact_address(
                            contact.id.as_str(),
                            address,
                        ) {
                            return Err(e);
                        }
                    } else {
                        return Err(
                            LennardError::Workflow(
                                String::from_str(
                                    "Extracted address is invalid (empty fields). Cannot proceed without valid recipient address.",
                                ),
                            ),
                        );
                    }
                },
                None => {
                    return Err(
                        LennardError::Workflow(
                            String::from_str(
                                "Failed to extract mailing address. Cannot proceed without recipient address.",
                            ),
                        ),
                    );
                },
            }
        } else {
            let valid = match &contact.mailing_address {
                Some(addr) => addr.is_valid(),
                None => false,
            };
            if !valid {
                return Err(
                    LennardError::Workflow(
                        String::from_str(
                            "Contact has invalid mailing address (empty fields). Cannot proceed.",
                        ),
                    ),
                );
            }
        }
        // Step 4: generate the letter.
        let letter = match self.steps.generate_letter(&contact, &profile, &dossier_result) {
            Ok(l) => l,
            Err(e) => {
                return Err(wrap_step_error("Step 4 (generate letter) failed: ", &e));
            },
        };
        // Step 5a: render the document and persist the approval record.
        let approval_id = match self.approval_start(
            queue,
            task.id.as_str(),
            &contact,
            &letter,
            &dossier_result,
        ) {
            Ok(id) => id,
            Err(e) => {
                let error = wrap_step_error("Step 5a (approval start) failed: ", &e);
                let _ = self.handle_task_error(task, &error, Some(company_name.as_str()));
                return Err(error);
            },
        };
        // Step 5b: send the approval prompt and suspend.
        match self.request_approval(queue, &approval_id, &letter, &contact) {
            Ok(_) => {},
            Err(e) => {
                let error = wrap_step_error("Step 5b (request approval) failed: ", &e);
                let _ = self.handle_task_error(task, &error, Some(company_name.as_str()));
                return Err(error);
            },
        }
        proof {
            assert(final(queue).in_state(approval_id@, ApprovalState::AwaitingUserResponse));
        }
        Ok(String::from_str("Awaiting user response via Telegram"))
    }

    /// Process a workflow trigger: load up to `max_tasks` candidate tasks,
    /// run each through the pipeline, and aggregate one outcome line per
    /// task.  One task's failure never aborts the batch, and the trigger
    /// comes back marked processed either way.
    pub fn process_workflow(&mut self, queue: &mut ApprovalQueue, trigger: WorkflowTrigger) -> (r:
        Result<WorkflowTrigger>)
        requires
            old(queue).wf(),
        ensures
            final(queue).wf(),
            r matches Ok(t) ==> {
                &&& t@.processed
                &&& t@.result is Some
                &&& t@.processed_at is Some
                &&& t@.trigger_id == trigger@.trigger_id
                &&& t@.max_tasks == trigger@.max_tasks
                &&& t@.requested_by == trigger@.requested_by
                &&& t@.dry_run == trigger@.dry_run
            },
            r is Err ==> *final(queue) == *old(queue),
    {
        let available_tasks = match self.steps.load_available_tasks(trigger.max_tasks) {
            Ok(ts) => ts,
            Err(e) => {
                return Err(e);
            },
        };
        if available_tasks.len() == 0 {
            let mut done = trigger.duplicate();
            done.result = Some(String::from_str("No tasks available for processing"));
            done.processed = true;
            done.processed_at = Some(now_millis());
            return Ok(done);
        }
        let mut processed_count: usize = 0;
        let mut results: Vec<String> = Vec::new();
        let n = available_tasks.len();
        let mut i: usize = 0;
        let ghost mut iterations: int = 0;
        while i < n
            invariant
                queue.wf(),
                n == available_tasks@.len(),
                0 <= i <= n,
                processed_count as int <= iterations,
                iterations <= i as int,
            decreases n - i,
        {
            let task = &available_tasks[i];
            match self.process_single_task(queue, task) {
                Ok(result_msg) => {
                    processed_count = processed_count + 1;
                    results.push(
                        String::from_str("✅ Task ").concat(task.id.as_str()).concat(
                            ": ",
                        ).concat(result_msg.as_str()),
                    );
                },
                Err(e) => {
                    results.push(
                        String::from_str("❌ Task ").concat(task.id.as_str()).concat(
                            ": ",
                        ).concat(e.message().as_str()),
                    );
                    let _ = self.handle_task_error(task, &e, None);
                },
            }
            proof {
                iterations = iterations + 1;
            }
            // Respect the max-tasks limit even if the loader over-returned.
            if processed_count >= trigger.max_tasks as usize {
                i = n;
            } else {
                i = i + 1;
            }
        }
        let final_result = if processed_count > 0 {
            String::from_str("Processed ").concat(
                u64_to_string(processed_count as u64).as_str(),
            ).concat(" tasks:\n").concat(join_lines(&results).as_str())
        } else {
            String::from_str("No tasks were successfully processed")
        };
        let mut done = trigger.duplicate();
        done.result = Some(final_result);
        done.processed = true;
        done.processed_at = Some(now_millis());
        Ok(done)
    }

    /// Continue the workflow after approval: decode the previously rendered
    /// document — never a freshly regenerated one, so what goes to the
    /// printer is exactly what the human approved — dispatch it, attach a
    /// copy to the CRM task, mark the task completed, and best-effort create
    /// a follow-up task.  A record without a mailing address or without the
    /// stored document fails fast with a workflow error and dispatches
    /// nothing.
    pub fn continue_after_approval(&mut self, approval_data: &ApprovalData) -> (r: Result<String>)
        ensures
            approval_data@.mailing_address is None ==> (r matches Err(e) && e matches
                LennardError::Workflow(_)),
            (approval_data@.mailing_address is Some && approval_data@.pdf_base64 is None) ==> (r
                matches Err(e) && e matches LennardError::Workflow(_)),
            ({
                &&& approval_data@.mailing_address is Some
                &&& approval_data@.pdf_base64 matches Some(p)
                &&& forall|bs: Seq<u8>| p != b64_of(bs)
            }) ==> (r matches Err(e) && e matches LennardError::Workflow(_)),
            r is Ok ==> approval_data@.mailing_address is Some && approval_data@.pdf_base64
                is Some,
    {
        let mailing_address = match &approval_data.mailing_address {
            Some(a) => a,
            None => {
                return Err(
                    LennardError::Workflow(String::from_str("Approval missing mailing address")),
                );
            },
        };
        let pdf_base64 = match &approval_data.pdf_base64 {
            Some(b) => b,
            None => {
                return Err(LennardError::Workflow(String::from_str("Approval missing PDF data")));
            },
        };
        // Step 6: decode and dispatch the exact approved document.
        let pdf_data = match b64_decode(pdf_base64.as_str()) {
            Some(d) => d,
            None => {
                return Err(LennardError::Workflow(String::from_str("Failed to decode PDF")));
            },
        };
        let tracking_id = match self.steps.send_pdf_binary(pdf_data, mailing_address) {
            Ok(t) => t,
            Err(e) => {
                return Err(wrap_step_error("Step 6 (send approved PDF) failed: ", &e));
            },
        };
        // Step 7: record the completion in the CRM; each of these is
        // best-effort and must not undo a successful dispatch.
        let success_message = String::from_str("Brief erfolgreich versendet. Tracking: ").concat(
            tracking_id.as_str(),
        );
        if let Some(attachment) = b64_decode(pdf_base64.as_str()) {
            let pdf_filename = String::from_str("Brief_").concat(
                approval_data.contact_id.as_str(),
            ).concat(".pdf");
            let _ = self.steps.attach_file_to_task(
                approval_data.task_id.as_str(),
                attachment,
                pdf_filename.as_str(),
            );
        }
        let _ = self.steps.update_task_completed_status(
            approval_data.task_id.as_str(),
            success_message.as_str(),
        );
        let _ = self.steps.create_follow_up_task(
            approval_data.contact_id.as_str(),
            approval_data.task_id.as_str(),
        );
        Ok(
            String::from_str("Letter sent successfully after approval, tracking: ").concat(
                tracking_id.as_str(),
            ),
        )
    }

    /// Generate an improved letter iteration from the human decider's feedback:
    /// the history grows by exactly one entry, the document is re-rendered
    /// from the stored mailing address, the prompt is re-sent, and the
    /// updated record comes back in `AwaitingUserResponse` for the watcher
    /// to persist.
    pub fn process_improvement_request(
        &mut self,
        approval_data: &ApprovalData,
        feedback: &str,
    ) -> (r: Result<ApprovalData>)
        requires
            approval_data@.wf(),
            approval_data@.letter_history.len() < u32::MAX as int,
        ensures
            approval_data@.mailing_address is None ==> (r matches Err(e) && e matches
                LennardError::Workflow(_)),
            r matches Ok(d) ==> {
                &&& d@.wf()
                &&& d@.same_identity(approval_data@)
                &&& d@.state == ApprovalState::AwaitingUserResponse
                &&& d@.letter_history.len() == approval_data@.letter_history.len() + 1
                &&& d@.current_letter == d@.letter_history.last().content
                &&& d@.pdf_base64 is Some
                &&& d@.telegram_message_id is None
                &&& d@.telegram_chat_id is None
            },
    {
        let mailing_address = match &approval_data.mailing_address {
            Some(a) => a.duplicate(),
            None => {
                return Err(
                    LennardError::Workflow(
                        String::from_str("Missing mailing address in approval data"),
                    ),
                );
            },
        };
        let improved_letter = match self.steps.generate_improved_letter(approval_data, feedback) {
            Ok(l) => l,
            Err(e) => {
                return Err(e);
            },
        };
        let mut improved_approval = approval_data.duplicate();
        improved_approval.add_improved_letter(improved_letter);
        // Re-render the document for the improved letter using the stored
        // mailing address.
        let pdf_bytes = match self.steps.generate_pdf_with_address(
            &improved_approval.current_letter,
            &mailing_address,
        ) {
            Ok(b) => b,
            Err(e) => {
                return Err(e);
            },
        };
        improved_approval.pdf_base64 = Some(b64_encode(pdf_bytes.as_slice()));
        // Send the improved letter out for re-approval.
        match self.steps.send_improved_approval_to_telegram(&improved_approval) {
            Ok(_) => {},
            Err(e) => {
                return Err(e);
            },
        }
        improved_approval.set_awaiting_response();
        let iteration_count = improved_approval.letter_history.len();
        match self.steps.request_approval_update(
            improved_approval.approval_id.as_str(),
            iteration_count,
        ) {
            Ok(_) => {},
            Err(e) => {
                return Err(e);
            },
        }
        Ok(improved_approval)
    }
}

} // verus!
