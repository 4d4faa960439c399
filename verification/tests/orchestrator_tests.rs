use base64::Engine;
use lennard_workflow::approval::{ApprovalData, ApprovalState, WorkflowTrigger};
use lennard_workflow::errors::{LennardError, Result};
use lennard_workflow::ids::{ApprovalId, ContactId, TaskId, UserId};
use lennard_workflow::orchestrator::WorkflowOrchestrator;
use lennard_workflow::queue::ApprovalQueue;
use lennard_workflow::steps::{CrmTask, DossierResult, TaskWho, WorkflowSteps};
use lennard_workflow::types::{LetterContent, LinkedInProfile, MailingAddress, ZohoContact};
use lennard_workflow::watchers::{ApprovalWatcher, NeedsImprovementWatcher};

struct MockSteps {
    tasks: Vec<CrmTask>,
    fail_contact_for: Option<String>,
    fail_dispatch: bool,
    fail_improve: bool,
    dispatched: usize,
    prompts_sent: usize,
    errors_notified: usize,
}

impl MockSteps {
    fn new(tasks: Vec<CrmTask>) -> Self {
        MockSteps {
            tasks,
            fail_contact_for: None,
            fail_dispatch: false,
            fail_improve: false,
            dispatched: 0,
            prompts_sent: 0,
            errors_notified: 0,
        }
    }
}

fn mock_task(id: &str) -> CrmTask {
    CrmTask {
        id: id.to_string(),
        subject: "Connect on LinkedIn".to_string(),
        status: "Nicht gestartet".to_string(),
        who_id: Some(TaskWho { id: format!("contact-{}", id), name: Some("Mock Contact".to_string()) }),
        created_time: None,
    }
}

fn mock_letter() -> LetterContent {
    LetterContent {
        subject: "Mock Letter Subject".to_string(),
        greeting: "Dear Mock Contact".to_string(),
        body: "This is a mock letter body.".to_string(),
        sender_name: "Mock Sender".to_string(),
        recipient_name: "Mock Contact".to_string(),
        company_name: "Mock Company".to_string(),
    }
}

fn mock_address() -> MailingAddress {
    MailingAddress {
        street: "123 Mock Street".to_string(),
        city: "Mock City".to_string(),
        state: Some("Mock State".to_string()),
        postal_code: "12345".to_string(),
        country: "Germany".to_string(),
    }
}

impl WorkflowSteps for MockSteps {
    fn load_available_tasks(&mut self, _max_count: u32) -> Result<Vec<CrmTask>> {
        Ok(self.tasks.clone())
    }

    fn load_task(&mut self, task_id: &str) -> Result<CrmTask> {
        self.tasks
            .iter()
            .find(|t| t.id == task_id)
            .cloned()
            .ok_or_else(|| LennardError::NotFound("Task not found".to_string()))
    }

    fn mark_task_in_progress(&mut self, _task_id: &str) -> Result<()> {
        Ok(())
    }

    fn load_contact(&mut self, task: &CrmTask) -> Result<ZohoContact> {
        if self.fail_contact_for.as_deref() == Some(task.id.as_str()) {
            return Err(LennardError::ServiceUnavailable("Contact load failed".to_string()));
        }
        Ok(ZohoContact {
            id: format!("contact-{}", task.id),
            full_name: "Mock Contact".to_string(),
            email: Some("mock@example.com".to_string()),
            phone: None,
            company: Some("Mock Company".to_string()),
            linkedin_id: Some("mock-linkedin-123".to_string()),
            mailing_address: Some(mock_address()),
        })
    }

    fn load_profile(&mut self, _contact: &ZohoContact) -> Result<LinkedInProfile> {
        Ok(LinkedInProfile {
            profile_id: "mock-profile-123".to_string(),
            profile_url: "https://linkedin.example/in/mock".to_string(),
            full_name: "Mock LinkedIn Profile".to_string(),
            headline: Some("Mock Professional".to_string()),
            location: Some("Test City".to_string()),
            company: Some("Mock Company".to_string()),
        })
    }

    fn generate_dossiers(&mut self, _profile: &LinkedInProfile, _contact_id: &str) -> Result<DossierResult> {
        Ok(DossierResult {
            person_dossier_content: "**Email**: mock@example.com\n**Headline**: Mock Professional".to_string(),
            company_dossier_content: "- **Industry**: Software\n- **Website**: https://acme.example".to_string(),
            company_name: "Mock Company".to_string(),
            mailing_address: Some(mock_address()),
        })
    }

    fn update_contact_address(&mut self, _contact_id: &str, _address: &MailingAddress) -> Result<()> {
        Ok(())
    }

    fn generate_letter(
        &mut self,
        _contact: &ZohoContact,
        _profile: &LinkedInProfile,
        _dossier: &DossierResult,
    ) -> Result<LetterContent> {
        Ok(mock_letter())
    }

    fn generate_improved_letter(&mut self, _approval_data: &ApprovalData, feedback: &str) -> Result<LetterContent> {
        if self.fail_improve {
            return Err(LennardError::ServiceUnavailable("Letter service is down".to_string()));
        }
        let mut letter = mock_letter();
        letter.subject = "Improved Subject".to_string();
        letter.body = format!("Improved per feedback: {}", feedback);
        Ok(letter)
    }

    fn generate_pdf_with_address(
        &mut self,
        _letter: &LetterContent,
        _address: &MailingAddress,
    ) -> Result<Vec<u8>> {
        Ok(b"%PDF-1.4 mock".to_vec())
    }

    fn send_approval_prompt(
        &mut self,
        _letter: &LetterContent,
        _contact: &ZohoContact,
        _approval_id: &str,
        _pdf: Vec<u8>,
    ) -> Result<()> {
        self.prompts_sent += 1;
        Ok(())
    }

    fn send_improved_approval_to_telegram(&mut self, _approval_data: &ApprovalData) -> Result<()> {
        self.prompts_sent += 1;
        Ok(())
    }

    fn request_approval_update(&mut self, _approval_id: &str, _iteration_count: usize) -> Result<()> {
        Ok(())
    }

    fn send_pdf_binary(&mut self, _pdf: Vec<u8>, _address: &MailingAddress) -> Result<String> {
        if self.fail_dispatch {
            return Err(LennardError::ServiceUnavailable("Mail service is down".to_string()));
        }
        self.dispatched += 1;
        Ok("mock-tracking-123".to_string())
    }

    fn send_error_notification(
        &mut self,
        _task_id: &str,
        _contact_name: &str,
        _company_name: &str,
        _error_message: &str,
    ) -> Result<()> {
        self.errors_notified += 1;
        Ok(())
    }

    fn update_task_error_status(&mut self, _task_id: &str, _error_message: &str) -> Result<()> {
        Ok(())
    }

    fn update_task_completed_status(&mut self, _task_id: &str, _success_message: &str) -> Result<()> {
        Ok(())
    }

    fn attach_file_to_task(&mut self, _task_id: &str, _file_data: Vec<u8>, _filename: &str) -> Result<()> {
        Ok(())
    }

    fn create_follow_up_task(&mut self, _contact_id: &str, _task_id: &str) -> Result<String> {
        Ok("follow-up-1".to_string())
    }
}

fn trigger(max_tasks: u32) -> WorkflowTrigger {
    WorkflowTrigger {
        trigger_id: "test-123".to_string(),
        requested_by: UserId::new(12345),
        requested_at: 0,
        max_tasks,
        dry_run: false,
        processed: false,
        processed_at: None,
        result: None,
    }
}

fn fresh_queue() -> ApprovalQueue {
    ApprovalQueue::new("/data/workflows".to_string()).unwrap()
}

#[test]
fn test_workflow_no_tasks() {
    let mut orchestrator = WorkflowOrchestrator::new(MockSteps::new(vec![]));
    let mut queue = fresh_queue();

    let result = orchestrator.process_workflow(&mut queue, trigger(1)).unwrap();

    assert!(result.processed);
    assert!(result.result.as_ref().unwrap().contains("No tasks available"));
}

#[test]
fn test_single_task_suspends_awaiting_response() {
    let mut orchestrator = WorkflowOrchestrator::new(MockSteps::new(vec![mock_task("task-1")]));
    let mut queue = fresh_queue();

    let result = orchestrator.process_workflow(&mut queue, trigger(1)).unwrap();

    assert!(result.processed);
    let msg = result.result.unwrap();
    assert!(msg.contains("Processed 1 tasks"));
    assert!(msg.contains("Awaiting user response via Telegram"));

    // The pipeline suspended: one record sits in AwaitingUserResponse, and
    // it carries the rendered document and the mailing address.
    let awaiting = queue.list_approvals_by_state(ApprovalState::AwaitingUserResponse).unwrap();
    assert_eq!(awaiting.len(), 1);
    assert!(awaiting[0].pdf_base64.is_some());
    assert!(awaiting[0].mailing_address.is_some());
    assert_eq!(awaiting[0].recipient_email.as_deref(), Some("mock@example.com"));
    assert_eq!(awaiting[0].industry.as_deref(), Some("Software"));
}

// Scenario: a batch with two loadable tasks, one failing at the contact-load
// step, reports exactly one success line and one failure line, and the
// trigger is marked processed regardless.
#[test]
fn test_batch_isolates_task_failure() {
    let mut steps = MockSteps::new(vec![mock_task("task-1"), mock_task("task-2")]);
    steps.fail_contact_for = Some("task-2".to_string());
    let mut orchestrator = WorkflowOrchestrator::new(steps);
    let mut queue = fresh_queue();

    let result = orchestrator.process_workflow(&mut queue, trigger(2)).unwrap();

    assert!(result.processed, "the trigger is marked processed regardless");
    let msg = result.result.unwrap();
    let success_lines = msg.lines().filter(|l| l.starts_with("✅")).count();
    let failure_lines = msg.lines().filter(|l| l.starts_with("❌")).count();
    assert_eq!(success_lines, 1, "exactly one success line: {}", msg);
    assert_eq!(failure_lines, 1, "exactly one failure line: {}", msg);
    assert!(msg.contains("task-1"));
    assert!(msg.contains("task-2"));
    assert!(msg.contains("Step 1 (load contact) failed"));
}

// Scenario: continuing after approval on a record missing its mailing
// address fails with a workflow error and performs no mail dispatch.
#[test]
fn test_continue_without_address_dispatches_nothing() {
    let mut orchestrator = WorkflowOrchestrator::new(MockSteps::new(vec![]));
    let approval = ApprovalData::new(
        TaskId::new("task-1".to_string()),
        ContactId::new("contact-1".to_string()),
        "Jane Smith".to_string(),
        "Acme".to_string(),
        mock_letter(),
        UserId::new(1),
    );
    assert!(approval.mailing_address.is_none());

    let result = orchestrator.continue_after_approval(&approval);
    match result {
        Err(LennardError::Workflow(m)) => assert!(m.contains("mailing address")),
        other => panic!("expected a workflow error, got {:?}", other.map(|_| ())),
    }
}

#[test]
fn test_continue_after_approval_dispatches_exact_document() {
    let mut orchestrator = WorkflowOrchestrator::new(MockSteps::new(vec![]));
    let mut approval = ApprovalData::new(
        TaskId::new("task-1".to_string()),
        ContactId::new("contact-1".to_string()),
        "Jane Smith".to_string(),
        "Acme".to_string(),
        mock_letter(),
        UserId::new(1),
    );
    approval.mailing_address = Some(mock_address());
    approval.pdf_base64 =
        Some(base64::engine::general_purpose::STANDARD.encode(b"%PDF-1.4 approved"));

    let msg = orchestrator.continue_after_approval(&approval).unwrap();
    assert!(msg.contains("mock-tracking-123"));
}

#[test]
fn test_approval_watcher_archives_processed_record() {
    let mut orchestrator = WorkflowOrchestrator::new(MockSteps::new(vec![mock_task("task-1")]));
    let mut queue = fresh_queue();

    orchestrator.process_workflow(&mut queue, trigger(1)).unwrap();
    let id_str = queue.list_approvals_by_state(ApprovalState::AwaitingUserResponse).unwrap()[0]
        .approval_id
        .as_str()
        .to_string();
    let id = ApprovalId::from_string(&id_str).unwrap();

    // The approver approves.
    queue.handle_user_approval(&id).unwrap().unwrap();

    // The watcher completes the workflow and hands the record back for the
    // processed archive.
    let watcher = ApprovalWatcher::new();
    let done = watcher.process_approval(&mut orchestrator, &mut queue, &id).unwrap();
    assert!(done.outcome.unwrap().contains("mock-tracking-123"));
    assert_eq!(done.record.approval_id, id);
    assert!(queue.get_approval_request(&id, None).unwrap().is_none());
}

#[test]
fn test_improvement_watcher_produces_next_iteration() {
    let mut orchestrator = WorkflowOrchestrator::new(MockSteps::new(vec![mock_task("task-1")]));
    let mut queue = fresh_queue();

    orchestrator.process_workflow(&mut queue, trigger(1)).unwrap();
    let id_str = queue.list_approvals_by_state(ApprovalState::AwaitingUserResponse).unwrap()[0]
        .approval_id
        .as_str()
        .to_string();
    let id = ApprovalId::from_string(&id_str).unwrap();

    // The approver requests changes.
    queue.handle_user_feedback(&id, "too formal".to_string(), UserId::new(7)).unwrap().unwrap();

    // The watcher produces the next iteration and moves the record straight
    // back to AwaitingUserResponse.
    let watcher = NeedsImprovementWatcher::new();
    watcher.process_improvement(&mut orchestrator, &mut queue, &id).unwrap();

    let rec = queue.get_approval_request(&id, None).unwrap().unwrap();
    assert_eq!(rec.state, ApprovalState::AwaitingUserResponse);
    assert_eq!(rec.letter_history.len(), 2);
    assert_eq!(rec.current_letter.subject, "Improved Subject");
    assert!(rec.current_letter.body.contains("too formal"));
    assert!(rec.telegram_message_id.is_none());
}

#[test]
fn test_watcher_cannot_claim_wrong_partition() {
    let mut orchestrator = WorkflowOrchestrator::new(MockSteps::new(vec![mock_task("task-1")]));
    let mut queue = fresh_queue();

    orchestrator.process_workflow(&mut queue, trigger(1)).unwrap();
    let id_str = queue.list_approvals_by_state(ApprovalState::AwaitingUserResponse).unwrap()[0]
        .approval_id
        .as_str()
        .to_string();
    let id = ApprovalId::from_string(&id_str).unwrap();

    // Still awaiting the approver: neither watcher may claim it.
    let watcher = ApprovalWatcher::new();
    assert!(watcher.process_approval(&mut orchestrator, &mut queue, &id).is_err());
    let improvement = NeedsImprovementWatcher::new();
    assert!(improvement.process_improvement(&mut orchestrator, &mut queue, &id).is_err());

    let rec = queue.get_approval_request(&id, None).unwrap().unwrap();
    assert_eq!(rec.state, ApprovalState::AwaitingUserResponse);
}

#[test]
fn test_startup_recovery_drains_partitions() {
    let mut orchestrator = WorkflowOrchestrator::new(MockSteps::new(vec![
        mock_task("task-1"),
        mock_task("task-2"),
        mock_task("task-3"),
    ]));
    let mut queue = fresh_queue();
    orchestrator.process_workflow(&mut queue, trigger(3)).unwrap();

    // Leave one record approved and one needing improvement, as a crashed
    // process might.
    let awaiting = queue.list_approvals_by_state(ApprovalState::AwaitingUserResponse).unwrap();
    assert_eq!(awaiting.len(), 3);
    queue.handle_user_approval(&awaiting[0].approval_id).unwrap().unwrap();
    queue
        .handle_user_feedback(&awaiting[1].approval_id, "rework".to_string(), UserId::new(3))
        .unwrap()
        .unwrap();

    let approval_watcher = ApprovalWatcher::new();
    let drained = approval_watcher
        .process_existing_approvals(&mut orchestrator, &mut queue)
        .unwrap();
    assert_eq!(drained.len(), 1);
    assert!(drained[0].outcome.is_ok());
    assert!(queue.list_approvals_by_state(ApprovalState::Approved).unwrap().is_empty());

    let improvement_watcher = NeedsImprovementWatcher::new();
    let drained = improvement_watcher
        .process_existing_improvements(&mut orchestrator, &mut queue)
        .unwrap();
    assert_eq!(drained, 1);
    assert!(queue.list_approvals_by_state(ApprovalState::NeedsImprovement).unwrap().is_empty());

    // The improved record went straight back to awaiting a response,
    // joining the untouched one; the dispatched record is archived away.
    assert_eq!(
        queue.list_approvals_by_state(ApprovalState::AwaitingUserResponse).unwrap().len(),
        2
    );
}

#[test]
fn test_failed_dispatch_hands_record_to_failure_archive() {
    let mut steps = MockSteps::new(vec![mock_task("task-1")]);
    steps.fail_dispatch = true;
    let mut orchestrator = WorkflowOrchestrator::new(steps);
    let mut queue = fresh_queue();

    orchestrator.process_workflow(&mut queue, trigger(1)).unwrap();
    let id_str = queue.list_approvals_by_state(ApprovalState::AwaitingUserResponse).unwrap()[0]
        .approval_id
        .as_str()
        .to_string();
    let id = ApprovalId::from_string(&id_str).unwrap();
    queue.handle_user_approval(&id).unwrap().unwrap();

    // The dispatch fails: the record still leaves the active partitions, and
    // it comes back with the failure so the caller can file it in the
    // failure archive.
    let watcher = ApprovalWatcher::new();
    let done = watcher.process_approval(&mut orchestrator, &mut queue, &id).unwrap();
    assert!(done.outcome.is_err());
    assert_eq!(done.record.approval_id, id);
    assert!(queue.get_approval_request(&id, None).unwrap().is_none());
}

#[test]
fn test_failed_improvement_routes_to_failed_partition() {
    let mut steps = MockSteps::new(vec![mock_task("task-1")]);
    steps.fail_improve = true;
    let mut orchestrator = WorkflowOrchestrator::new(steps);
    let mut queue = fresh_queue();

    orchestrator.process_workflow(&mut queue, trigger(1)).unwrap();
    let id_str = queue.list_approvals_by_state(ApprovalState::AwaitingUserResponse).unwrap()[0]
        .approval_id
        .as_str()
        .to_string();
    let id = ApprovalId::from_string(&id_str).unwrap();
    queue.handle_user_feedback(&id, "rework".to_string(), UserId::new(3)).unwrap().unwrap();

    // The letter service fails: the record routes to the Failed partition,
    // where it stands as its own diagnostic.
    let watcher = NeedsImprovementWatcher::new();
    assert!(watcher.process_improvement(&mut orchestrator, &mut queue, &id).is_err());
    let rec = queue.get_approval_request(&id, None).unwrap().unwrap();
    assert_eq!(rec.state, ApprovalState::Failed);
    assert_eq!(queue.list_approvals_by_state(ApprovalState::NeedsImprovement).unwrap().len(), 0);
    assert_eq!(queue.list_approvals_by_state(ApprovalState::Failed).unwrap().len(), 1);
}

#[test]
fn test_feedbackless_record_routes_to_failed_partition() {
    let mut orchestrator = WorkflowOrchestrator::new(MockSteps::new(vec![]));
    let mut queue = fresh_queue();

    // A replayed record sitting in NeedsImprovement without any feedback.
    let mut record = ApprovalData::new(
        TaskId::new("task-1".to_string()),
        ContactId::new("contact-1".to_string()),
        "Jane Smith".to_string(),
        "Acme".to_string(),
        mock_letter(),
        UserId::new(1),
    );
    record.state = ApprovalState::NeedsImprovement;
    let id = ApprovalId::from_string(record.approval_id.as_str()).unwrap();
    assert!(queue.restore_approval(record).unwrap());

    let watcher = NeedsImprovementWatcher::new();
    assert!(watcher.process_improvement(&mut orchestrator, &mut queue, &id).is_err());
    let rec = queue.get_approval_request(&id, None).unwrap().unwrap();
    assert_eq!(rec.state, ApprovalState::Failed);
}
