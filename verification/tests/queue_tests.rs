use lennard_workflow::approval::{ApprovalState, HealthStatus};
use lennard_workflow::codec::{approval_from_str, approval_to_string};
use lennard_workflow::ids::{ApprovalId, ContactId, TaskId, TelegramChatId, TelegramMessageId,
    UserId};
use lennard_workflow::queue::ApprovalQueue;
use lennard_workflow::types::LetterContent;

fn letter(subject: &str, recipient: &str, company: &str) -> LetterContent {
    LetterContent {
        subject: subject.to_string(),
        greeting: format!("Dear {}", recipient),
        body: "Test body content".to_string(),
        sender_name: "Test Sender".to_string(),
        recipient_name: recipient.to_string(),
        company_name: company.to_string(),
    }
}

fn fresh_queue() -> ApprovalQueue {
    ApprovalQueue::new("/data/workflows".to_string()).unwrap()
}

fn create(queue: &mut ApprovalQueue, recipient: &str, company: &str) -> ApprovalId {
    queue
        .create_approval(
            TaskId::new("task-123".to_string()),
            ContactId::new("contact-456".to_string()),
            recipient.to_string(),
            None,
            None,
            company.to_string(),
            letter("Test Subject", recipient, company),
            UserId::new(12345),
            None,
            None,
            None,
            None,
            None,
            None,
        )
        .unwrap()
}

#[test]
fn test_create_approval() {
    let mut queue = fresh_queue();

    let task_id = TaskId::new("task-123".to_string());
    let contact_id = ContactId::new("contact-456".to_string());
    let the_letter = letter("Test Subject", "John Doe", "Test Company");
    let user_id = UserId::new(12345);

    let approval_id = queue
        .create_approval(
            task_id,
            contact_id,
            "John Doe".to_string(),
            None,
            None,
            "Test Company".to_string(),
            the_letter,
            user_id,
            None,
            None,
            None,
            None,
            None,
            None,
        )
        .unwrap();

    let parsed = queue.get_approval_request(&approval_id, None).unwrap().unwrap();

    assert_eq!(parsed.approval_id, approval_id);
    assert_eq!(parsed.state, ApprovalState::PendingApproval);
    assert_eq!(parsed.recipient_name, "John Doe");
    assert_eq!(parsed.company_name, "Test Company");
    assert_eq!(parsed.requested_by, user_id);
    assert_eq!(parsed.current_iteration(), 1);
}

// Scenario: create an approval for a contact with a one-entry history, then
// fetch it back.
#[test]
fn test_get_approval() {
    let mut queue = fresh_queue();
    let approval_id = queue
        .create_approval(
            TaskId::new("task-789".to_string()),
            ContactId::new("contact-101".to_string()),
            "Jane Smith".to_string(),
            None,
            None,
            "Acme".to_string(),
            letter("Get Test Subject", "Jane Smith", "Acme"),
            UserId::new(99999),
            None,
            None,
            None,
            None,
            None,
            None,
        )
        .unwrap();

    let retrieved_approval = queue.get_approval_request(&approval_id, None).unwrap().unwrap();

    assert_eq!(retrieved_approval.approval_id, approval_id);
    assert_eq!(retrieved_approval.recipient_name, "Jane Smith");
    assert_eq!(retrieved_approval.company_name, "Acme");
    assert_eq!(retrieved_approval.current_letter.subject, "Get Test Subject");
    assert_eq!(retrieved_approval.current_iteration(), 1);
    assert_eq!(retrieved_approval.state, ApprovalState::PendingApproval);
}

#[test]
fn test_get_nonexistent_approval() {
    let mut queue = fresh_queue();
    let _ = create(&mut queue, "Someone", "Somewhere");
    let nonexistent_id = ApprovalId::new();
    let result = queue.get_approval_request(&nonexistent_id, None).unwrap();

    assert!(result.is_none());
}

#[test]
fn test_health_check() {
    let mut queue = fresh_queue();

    let _pending_id = create(&mut queue, "Pending Person", "Pending Company");

    let health_result = queue.health_check().unwrap();

    assert_eq!(health_result.status, HealthStatus::Healthy);
    assert_eq!(health_result.total_workflows, 1);
    assert_eq!(health_result.counts.get(ApprovalState::PendingApproval), 1);
    assert_eq!(health_result.counts.get(ApprovalState::Approved), 0);
    assert!(health_result.file_locking_enabled);
    assert_eq!(health_result.root_path, "/data/workflows");
}

// Scenario: the prompt goes out, then the approver approves; the record ends
// in the Approved partition and nowhere else.
#[test]
fn test_awaiting_then_approval() {
    let mut queue = fresh_queue();
    let id = create(&mut queue, "Jane Smith", "Acme");

    queue.mark_as_awaiting_response(&id).unwrap();
    let awaiting = queue.get_approval_request(&id, None).unwrap().unwrap();
    assert_eq!(awaiting.state, ApprovalState::AwaitingUserResponse);

    let approved = queue.handle_user_approval(&id).unwrap().unwrap();
    assert_eq!(approved.state, ApprovalState::Approved);

    // Scanning every partition finds the record exactly once, in Approved.
    let mut found = 0;
    for state in [
        ApprovalState::PendingApproval,
        ApprovalState::AwaitingUserResponse,
        ApprovalState::Approved,
        ApprovalState::NeedsImprovement,
        ApprovalState::Failed,
    ] {
        for rec in queue.list_approvals_by_state(state).unwrap() {
            if rec.approval_id == id {
                found += 1;
                assert_eq!(state, ApprovalState::Approved);
            }
        }
    }
    assert_eq!(found, 1);
}

// Scenario: the prompt goes out, then the approver asks for changes; the
// feedback lands on the last history entry.
#[test]
fn test_awaiting_then_feedback() {
    let mut queue = fresh_queue();
    let id = create(&mut queue, "Jane Smith", "Acme");

    queue.mark_as_awaiting_response(&id).unwrap();
    let updated = queue
        .handle_user_feedback(&id, "too formal".to_string(), UserId::new(7))
        .unwrap()
        .unwrap();

    assert_eq!(updated.state, ApprovalState::NeedsImprovement);
    let last = updated.letter_history.last().unwrap();
    assert_eq!(last.feedback.as_ref().unwrap().text, "too formal");
    assert_eq!(last.feedback.as_ref().unwrap().provided_by, UserId::new(7));

    let stored = queue.get_approval_request(&id, None).unwrap().unwrap();
    assert_eq!(stored.state, ApprovalState::NeedsImprovement);
}

// Illegal transition attempts report not-found-or-wrong-state, mutate
// nothing, and move nothing.
#[test]
fn test_illegal_transitions_do_not_mutate() {
    let mut queue = fresh_queue();
    let id = create(&mut queue, "Jane Smith", "Acme");

    // Approving a record still in PendingApproval must not succeed.
    assert!(queue.handle_user_approval(&id).unwrap().is_none());
    // Feedback on a record still in PendingApproval must not succeed.
    assert!(queue.handle_user_feedback(&id, "x".to_string(), UserId::new(1)).unwrap().is_none());
    // Requeueing a record that needs no improvement must not succeed.
    assert!(!queue.requeue_after_improvement(&id, letter("s", "r", "c")).unwrap());

    let rec = queue.get_approval_request(&id, None).unwrap().unwrap();
    assert_eq!(rec.state, ApprovalState::PendingApproval);
    assert_eq!(rec.current_iteration(), 1);
    assert!(rec.letter_history.last().unwrap().feedback.is_none());
    assert_eq!(queue.list_approvals_by_state(ApprovalState::PendingApproval).unwrap().len(), 1);
    assert_eq!(queue.list_approvals_by_state(ApprovalState::Approved).unwrap().len(), 0);
    assert_eq!(queue.list_approvals_by_state(ApprovalState::NeedsImprovement).unwrap().len(), 0);
}

// Requeueing after improvement increments the iteration count by exactly one
// and clears the stale messaging-channel references.
#[test]
fn test_requeue_after_improvement() {
    let mut queue = fresh_queue();
    let id = create(&mut queue, "Jane Smith", "Acme");

    assert!(queue
        .send_to_telegram(&id, TelegramMessageId::new(555), TelegramChatId::new("chat-1".to_string()))
        .unwrap());
    let sent = queue.get_approval_request(&id, None).unwrap().unwrap();
    assert_eq!(sent.state, ApprovalState::AwaitingUserResponse);
    assert_eq!(sent.telegram_message_id, Some(TelegramMessageId::new(555)));

    queue.handle_user_feedback(&id, "too formal".to_string(), UserId::new(7)).unwrap().unwrap();

    let improved = letter("Better Subject", "Jane Smith", "Acme");
    assert!(queue.requeue_after_improvement(&id, improved).unwrap());

    let rec = queue.get_approval_request(&id, None).unwrap().unwrap();
    assert_eq!(rec.state, ApprovalState::PendingApproval);
    assert_eq!(rec.current_iteration(), 2);
    assert_eq!(rec.letter_history.len(), 2);
    assert_eq!(rec.current_letter.subject, "Better Subject");
    assert!(rec.telegram_message_id.is_none());
    assert!(rec.telegram_chat_id.is_none());
}

#[test]
fn test_mark_failed_only_from_non_terminal() {
    let mut queue = fresh_queue();
    let id = create(&mut queue, "Jane Smith", "Acme");

    assert!(queue.mark_failed(&id).unwrap());
    let rec = queue.get_approval_request(&id, None).unwrap().unwrap();
    assert_eq!(rec.state, ApprovalState::Failed);

    // Failed is terminal: a second attempt reports false.
    assert!(!queue.mark_failed(&id).unwrap());
}

// An id exists in exactly one state partition at any observation point,
// through an interleaving of creates and transitions.
#[test]
fn test_id_in_exactly_one_partition() {
    let mut queue = fresh_queue();
    let a = create(&mut queue, "A Person", "A Co");
    let b = create(&mut queue, "B Person", "B Co");
    let c = create(&mut queue, "C Person", "C Co");

    queue.mark_as_awaiting_response(&a).unwrap();
    queue.mark_as_awaiting_response(&b).unwrap();
    queue.handle_user_approval(&a).unwrap().unwrap();
    queue.handle_user_feedback(&b, "rework".to_string(), UserId::new(3)).unwrap().unwrap();
    queue.mark_failed(&c).unwrap();
    queue.requeue_after_improvement(&b, letter("v2", "B Person", "B Co")).unwrap();

    for id in [&a, &b, &c] {
        let mut occurrences = 0;
        for state in [
            ApprovalState::PendingApproval,
            ApprovalState::AwaitingUserResponse,
            ApprovalState::Approved,
            ApprovalState::NeedsImprovement,
            ApprovalState::Failed,
        ] {
            for rec in queue.list_approvals_by_state(state).unwrap() {
                if &rec.approval_id == id {
                    occurrences += 1;
                }
            }
        }
        assert_eq!(occurrences, 1, "an id must live in exactly one partition");
    }
}

#[test]
fn test_create_workflow_trigger() {
    let mut queue = fresh_queue();

    let user_id = UserId::new(12345);
    let trigger_id = queue.create_workflow_trigger(user_id, 1, false).unwrap();

    let pending = queue.get_pending_triggers().unwrap();
    assert_eq!(pending.len(), 1);
    let parsed = &pending[0];

    assert_eq!(parsed.requested_by, user_id);
    assert_eq!(parsed.max_tasks, 1);
    assert!(!parsed.dry_run);
    assert!(!parsed.processed);
    assert_eq!(parsed.trigger_id, trigger_id);

    // Verify UUID format for trigger_id
    assert!(uuid::Uuid::parse_str(&parsed.trigger_id).is_ok());
}

#[test]
fn test_create_workflow_trigger_dry_run() {
    let mut queue = fresh_queue();

    let user_id = UserId::new(67890);
    let trigger_id = queue.create_workflow_trigger(user_id, 5, true).unwrap();

    let pending = queue.get_pending_triggers().unwrap();
    let parsed = pending.iter().find(|t| t.trigger_id == trigger_id).unwrap();

    assert_eq!(parsed.requested_by, user_id);
    assert_eq!(parsed.max_tasks, 5);
    assert!(parsed.dry_run); // Should be true
    assert!(!parsed.processed);
}

#[test]
fn test_mark_trigger_processed() {
    let mut queue = fresh_queue();

    let user_id = UserId::new(33333);
    let trigger_id = queue.create_workflow_trigger(user_id, 1, false).unwrap();

    let result = queue
        .mark_trigger_processed(&trigger_id, "Test processing completed".to_string())
        .unwrap();

    assert!(result);

    // The trigger left the pending partition.
    assert!(queue.get_pending_triggers().unwrap().iter().all(|t| t.trigger_id != trigger_id));

    // Marking an unknown trigger reports false.
    assert!(!queue.mark_trigger_processed("missing", "x".to_string()).unwrap());
}

// A record survives being written out and replayed into a fresh store, as
// across a process restart.
#[test]
fn test_approval_persists_across_restart() {
    let mut queue = fresh_queue();
    let approval_id = queue
        .create_approval(
            TaskId::new("test-task-123".to_string()),
            ContactId::new("test-contact-456".to_string()),
            "Test Person".to_string(),
            None,
            None,
            "Test Company".to_string(),
            letter("Test Subject", "Test Person", "Test Company"),
            UserId::new(789),
            None,
            None,
            None,
            None,
            None,
            None,
        )
        .unwrap();

    let pending = queue.get_pending_approvals().unwrap();
    assert_eq!(pending.len(), 1, "Should have one approval in first instance");

    // Write every record out, as the surrounding process would on disk.
    let stored: Vec<String> =
        pending.iter().map(|rec| approval_to_string(rec)).collect();

    // Second instance: replay the persisted records.
    let mut queue2 = fresh_queue();
    for text in &stored {
        let rec = approval_from_str(text).expect("persisted record must parse");
        assert!(queue2.restore_approval(rec).unwrap());
    }

    let pending_approvals = queue2.get_pending_approvals().unwrap();
    assert_eq!(pending_approvals.len(), 1, "Approval should persist and be loadable after restart");
    assert_eq!(pending_approvals[0].recipient_name, "Test Person");

    let retrieved = queue2.get_approval_request(&approval_id, None).unwrap();
    assert!(retrieved.is_some(), "Should be able to retrieve approval by ID after restart");
    assert_eq!(retrieved.unwrap().recipient_name, "Test Person");
}

#[test]
fn test_health_degraded_and_unhealthy_thresholds() {
    let mut queue = fresh_queue();
    // 51 pending records: more than the pending threshold.
    for i in 0..51 {
        let name = format!("Person {}", i);
        create(&mut queue, &name, "Co");
    }
    let health = queue.health_check().unwrap();
    assert_eq!(health.status, HealthStatus::Degraded);
    assert_eq!(health.total_workflows, 51);

    // 11 failures outweigh the pending count: Unhealthy.
    let pending = queue.list_approvals_by_state(ApprovalState::PendingApproval).unwrap();
    for rec in pending.iter().take(11) {
        assert!(queue.mark_failed(&rec.approval_id).unwrap());
    }
    let health = queue.health_check().unwrap();
    assert_eq!(health.status, HealthStatus::Unhealthy);

    // An empty store is always healthy.
    let empty = fresh_queue();
    assert_eq!(empty.health_check().unwrap().status, HealthStatus::Healthy);
    assert_eq!(empty.health_check().unwrap().total_workflows, 0);
}
