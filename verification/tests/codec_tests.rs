use lennard_workflow::approval::{ApprovalData, ApprovalState, Feedback, LetterHistoryEntry};
use lennard_workflow::codec::{approval_from_str, approval_to_string};
use lennard_workflow::ids::{ApprovalId, ContactId, TaskId, TelegramChatId, TelegramMessageId,
    UserId};
use lennard_workflow::types::{LetterContent, MailingAddress};

fn rich_approval() -> ApprovalData {
    let letter1 = LetterContent {
        subject: "First subject".to_string(),
        greeting: "Sehr geehrte Frau Smith,".to_string(),
        body: "Body one\nwith a second line; and punctuation".to_string(),
        sender_name: "Sender".to_string(),
        recipient_name: "Jane Smith".to_string(),
        company_name: "Acme".to_string(),
    };
    let letter2 = LetterContent {
        subject: "Second subject".to_string(),
        greeting: "Sehr geehrte Frau Smith,".to_string(),
        body: "Shorter body".to_string(),
        sender_name: "Sender".to_string(),
        recipient_name: "Jane Smith".to_string(),
        company_name: "Acme".to_string(),
    };
    let mut approval = ApprovalData::new(
        TaskId::new("task-1".to_string()),
        ContactId::new("contact-1".to_string()),
        "Jane Smith".to_string(),
        "Acme".to_string(),
        letter1,
        UserId::new(42),
    );
    approval.recipient_email = Some("jane@example.com".to_string());
    approval.recipient_title = Some("CTO".to_string());
    approval.mailing_address = Some(MailingAddress {
        street: "Main St 1".to_string(),
        city: "Berlin".to_string(),
        state: Some("BE".to_string()),
        postal_code: "10115".to_string(),
        country: "Germany".to_string(),
    });
    approval.pdf_base64 = Some("JVBERi0xLjQ=".to_string());
    approval.person_dossier = Some("**Email**: jane@example.com\nmore".to_string());
    approval.company_dossier = Some("- **Industry**: Software".to_string());
    approval.industry = Some("Software".to_string());
    approval.website = Some("https://acme.example".to_string());
    approval.add_feedback("too formal".to_string(), UserId::new(7));
    approval.add_improved_letter(letter2);
    approval.mark_sent_to_telegram(
        TelegramMessageId::new(-33),
        TelegramChatId::new("chat-99".to_string()),
    );
    approval
}

// Round trip: serializing then deserializing yields a record equal in all
// fields, including nested history and optional fields.
#[test]
fn test_round_trip_preserves_all_fields() {
    let original = rich_approval();
    let text = approval_to_string(&original);
    let parsed = approval_from_str(&text).expect("round trip must parse");

    assert_eq!(parsed.approval_id, original.approval_id);
    assert_eq!(parsed.task_id, original.task_id);
    assert_eq!(parsed.contact_id, original.contact_id);
    assert_eq!(parsed.state, original.state);
    assert_eq!(parsed.recipient_name, original.recipient_name);
    assert_eq!(parsed.recipient_email, original.recipient_email);
    assert_eq!(parsed.recipient_title, original.recipient_title);
    assert_eq!(parsed.company_name, original.company_name);
    assert_eq!(parsed.current_letter.subject, original.current_letter.subject);
    assert_eq!(parsed.current_letter.body, original.current_letter.body);
    assert_eq!(parsed.requested_at, original.requested_at);
    assert_eq!(parsed.requested_by, original.requested_by);
    assert_eq!(parsed.telegram_message_id, original.telegram_message_id);
    assert_eq!(parsed.telegram_chat_id, original.telegram_chat_id);
    assert_eq!(parsed.updated_at, original.updated_at);
    assert_eq!(parsed.pdf_base64, original.pdf_base64);
    assert_eq!(parsed.person_dossier, original.person_dossier);
    assert_eq!(parsed.company_dossier, original.company_dossier);
    assert_eq!(parsed.industry, original.industry);
    assert_eq!(parsed.website, original.website);

    let orig_addr = original.mailing_address.as_ref().unwrap();
    let new_addr = parsed.mailing_address.as_ref().unwrap();
    assert_eq!(new_addr.street, orig_addr.street);
    assert_eq!(new_addr.city, orig_addr.city);
    assert_eq!(new_addr.state, orig_addr.state);
    assert_eq!(new_addr.postal_code, orig_addr.postal_code);
    assert_eq!(new_addr.country, orig_addr.country);

    assert_eq!(parsed.letter_history.len(), original.letter_history.len());
    for (p, o) in parsed.letter_history.iter().zip(original.letter_history.iter()) {
        assert_eq!(p.iteration, o.iteration);
        assert_eq!(p.created_at, o.created_at);
        assert_eq!(p.content.subject, o.content.subject);
        assert_eq!(p.content.body, o.content.body);
        match (&p.feedback, &o.feedback) {
            (None, None) => {},
            (Some(pf), Some(of)) => {
                assert_eq!(pf.text, of.text);
                assert_eq!(pf.provided_by, of.provided_by);
                assert_eq!(pf.provided_at, of.provided_at);
            },
            _ => panic!("feedback presence must survive the round trip"),
        }
    }
}

#[test]
fn test_minimal_round_trip() {
    let letter = LetterContent {
        subject: "".to_string(),
        greeting: "".to_string(),
        body: "".to_string(),
        sender_name: "".to_string(),
        recipient_name: "".to_string(),
        company_name: "".to_string(),
    };
    let original = ApprovalData::new(
        TaskId::new("".to_string()),
        ContactId::new("".to_string()),
        "".to_string(),
        "".to_string(),
        letter,
        UserId::new(i64::MIN),
    );
    let text = approval_to_string(&original);
    let parsed = approval_from_str(&text).expect("minimal record must parse");
    assert_eq!(parsed.requested_by, UserId::new(i64::MIN));
    assert_eq!(parsed.state, ApprovalState::PendingApproval);
    assert_eq!(parsed.letter_history.len(), 1);
    assert!(parsed.mailing_address.is_none());
}

#[test]
fn test_corrupt_record_is_rejected() {
    assert!(approval_from_str("").is_none());
    assert!(approval_from_str("garbage").is_none());
    let good = approval_to_string(&rich_approval());
    // Truncation breaks the parse.
    let truncated: String = good.chars().take(good.chars().count() - 3).collect();
    assert!(approval_from_str(&truncated).is_none());
    // Trailing junk breaks the parse too.
    let padded = format!("{}xyz", good);
    assert!(approval_from_str(&padded).is_none());
}

#[test]
fn test_parsed_record_passes_the_invariant_check() {
    let original = rich_approval();
    let parsed = approval_from_str(&approval_to_string(&original)).unwrap();
    assert!(parsed.check_wf());

    // A hand-built record with a broken history fails the check.
    let broken = ApprovalData {
        letter_history: vec![LetterHistoryEntry {
            iteration: 5,
            content: original.current_letter.duplicate(),
            feedback: Some(Feedback {
                text: "x".to_string(),
                provided_by: UserId::new(1),
                provided_at: 0,
            }),
            created_at: 0,
        }],
        ..original
    };
    assert!(!broken.check_wf());
}
