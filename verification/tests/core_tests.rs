use lennard_workflow::approval::{ApprovalData, ApprovalState, HealthStatus, StateCountMap};
use lennard_workflow::errors::LennardError;
use lennard_workflow::ids::{ApprovalId, ContactId, TaskId, UserId};
use lennard_workflow::shared::{WorkflowStatus, WorkflowTrigger};
use lennard_workflow::types::LetterContent;

fn sample_letter() -> LetterContent {
    LetterContent {
        subject: "Test Subject".to_string(),
        greeting: "Dear Test".to_string(),
        body: "Test body content".to_string(),
        sender_name: "Test Sender".to_string(),
        recipient_name: "John Doe".to_string(),
        company_name: "Test Company".to_string(),
    }
}

#[test]
fn it_works() {
    // Basic smoke test
    assert_eq!(2 + 2, 4);
}

#[test]
fn test_workflow_status_equality() {
    assert_eq!(WorkflowStatus::Pending, WorkflowStatus::Pending);
    assert_ne!(WorkflowStatus::Running, WorkflowStatus::Completed);
}

#[test]
fn test_workflow_trigger_creation() {
    let trigger = WorkflowTrigger::new(12345, 5);
    assert_eq!(trigger.requested_by, 12345);
    assert_eq!(trigger.max_tasks, 5);
    assert!(!trigger.dry_run);
    assert!(!trigger.trigger_id.is_empty());
}

#[test]
fn test_approval_data_creation() {
    let task_id = TaskId::new("task-123".to_string());
    let contact_id = ContactId::new("contact-456".to_string());
    let letter = sample_letter();
    let user_id = UserId::new(12345);

    let approval = ApprovalData::new(
        task_id,
        contact_id,
        "John Doe".to_string(),
        "Test Company".to_string(),
        letter,
        user_id,
    );

    assert_eq!(approval.state, ApprovalState::PendingApproval);
    assert_eq!(approval.recipient_name, "John Doe");
    assert_eq!(approval.company_name, "Test Company");
    assert_eq!(approval.current_iteration(), 1);
    assert_eq!(approval.letter_history.len(), 1);
    assert!(approval.telegram_message_id.is_none());
}

#[test]
fn test_approval_id_is_uuid() {
    let id = ApprovalId::new();
    assert_eq!(id.as_str().len(), 36);
    assert!(uuid::Uuid::parse_str(id.as_str()).is_ok());
    assert!(ApprovalId::from_string(id.as_str()).is_ok());
    assert!(ApprovalId::from_string("not a uuid").is_err());
}

// The current letter always equals the content of the last history entry,
// after every mutating operation.
#[test]
fn test_current_letter_tracks_history() {
    let mut approval = ApprovalData::new(
        TaskId::new("t".to_string()),
        ContactId::new("c".to_string()),
        "Jane".to_string(),
        "Acme".to_string(),
        sample_letter(),
        UserId::new(1),
    );
    assert!(approval.check_wf());
    assert_eq!(approval.current_letter.subject, approval.letter_history.last().unwrap().content.subject);

    approval.add_feedback("shorter please".to_string(), UserId::new(7));
    assert!(approval.check_wf());
    assert_eq!(approval.current_letter.body, approval.letter_history.last().unwrap().content.body);

    let mut improved = sample_letter();
    improved.body = "Shorter body".to_string();
    approval.add_improved_letter(improved);
    assert!(approval.check_wf());
    assert_eq!(approval.current_letter.body, "Shorter body");
    assert_eq!(approval.letter_history.last().unwrap().content.body, "Shorter body");
    assert_eq!(approval.letter_history.len(), 2);
    assert_eq!(approval.letter_history[0].iteration, 1);
    assert_eq!(approval.letter_history[1].iteration, 2);

    approval.mark_approved();
    assert!(approval.check_wf());
    assert_eq!(approval.state, ApprovalState::Approved);
    assert_eq!(approval.current_letter.body, approval.letter_history.last().unwrap().content.body);
}

#[test]
fn test_state_count_map() {
    let mut counts = StateCountMap::new();
    assert_eq!(counts.get(ApprovalState::PendingApproval), 0);
    counts.increment(ApprovalState::PendingApproval);
    counts.increment(ApprovalState::PendingApproval);
    counts.increment(ApprovalState::Failed);
    assert_eq!(counts.get(ApprovalState::PendingApproval), 2);
    assert_eq!(counts.get(ApprovalState::Failed), 1);
    assert_eq!(counts.get(ApprovalState::Approved), 0);
    assert_eq!(counts.total(), 3);
}

#[test]
fn test_health_status_values() {
    assert_eq!(HealthStatus::Healthy, HealthStatus::Healthy);
    assert_ne!(HealthStatus::Degraded, HealthStatus::Unhealthy);
}

#[test]
fn test_error_messages() {
    let e = LennardError::Workflow("illegal transition".to_string());
    assert_eq!(e.message(), "Workflow error: illegal transition");
    let e = LennardError::Config("missing key".to_string());
    assert_eq!(e.message(), "Configuration error: missing key");
    let e = LennardError::NotFound("no such approval".to_string());
    assert_eq!(e.message(), "Not found: no such approval");
}

#[test]
fn test_directory_name_per_state() {
    assert_eq!(ApprovalState::PendingApproval.directory_name(), "pending_approval");
    assert_eq!(ApprovalState::AwaitingUserResponse.directory_name(), "awaiting_response");
    assert_eq!(ApprovalState::Approved.directory_name(), "approved");
    assert_eq!(ApprovalState::NeedsImprovement.directory_name(), "needs_improvement");
    assert_eq!(ApprovalState::Failed.directory_name(), "failed");
}
