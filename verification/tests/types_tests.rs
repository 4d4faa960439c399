use lennard_workflow::types::{LetterContent, MailingAddress, PDFBookmarks, PDFTemplateData};

#[test]
fn test_pdf_bookmarks_constants() {
    // Verify all bookmark names have the correct German names
    assert_eq!(PDFBookmarks::betreff(), "Betreff");
    assert_eq!(PDFBookmarks::anrede(), "Anrede");
    assert_eq!(PDFBookmarks::brieftext(), "Brieftext");
    assert_eq!(PDFBookmarks::sender_name(), "Sender-Name");
    assert_eq!(PDFBookmarks::recipient(), "Reciepient"); // Note: typo is in template
    assert_eq!(PDFBookmarks::street_1(), "Street-1");
    assert_eq!(PDFBookmarks::street_2(), "Street-2");
    assert_eq!(PDFBookmarks::city(), "City");
    assert_eq!(PDFBookmarks::plz(), "PLZ");
    assert_eq!(PDFBookmarks::country(), "Country");
}

#[test]
fn test_pdf_template_data_from_letter_and_address() {
    let letter = LetterContent {
        subject: "Test Subject".to_string(),
        greeting: "Dear Test".to_string(),
        body: "Test body content".to_string(),
        sender_name: "Sender Name".to_string(),
        recipient_name: "Recipient Name".to_string(),
        company_name: "Test Company".to_string(),
    };

    let address = MailingAddress {
        street: "Test Street 123".to_string(),
        city: "Test City".to_string(),
        state: Some("Test State".to_string()),
        postal_code: "12345".to_string(),
        country: "Test Country".to_string(),
    };

    let pdf_data = PDFTemplateData::from_letter_and_address(&letter, &address);

    assert_eq!(pdf_data.betreff, "Test Subject");
    assert_eq!(pdf_data.anrede, "Dear Test");
    assert_eq!(pdf_data.brieftext, "Test body content");
    assert_eq!(pdf_data.sender_name, "Sender Name");
    assert_eq!(pdf_data.recipient, "Recipient Name");
    assert_eq!(pdf_data.street_1, "Test Street 123");
    assert_eq!(pdf_data.street_2, Some("Test State".to_string()));
    assert_eq!(pdf_data.city, "Test City");
    assert_eq!(pdf_data.plz, "12345");
    assert_eq!(pdf_data.country, "Test Country");
}

#[test]
fn test_pdf_template_data_with_empty_state() {
    let letter = LetterContent {
        subject: "Subject".to_string(),
        greeting: "Greeting".to_string(),
        body: "Body".to_string(),
        sender_name: "Sender".to_string(),
        recipient_name: "Recipient".to_string(),
        company_name: "Company".to_string(),
    };

    let address = MailingAddress {
        street: "Street".to_string(),
        city: "City".to_string(),
        state: None, // No state
        postal_code: "12345".to_string(),
        country: "Country".to_string(),
    };

    let pdf_data = PDFTemplateData::from_letter_and_address(&letter, &address);

    // Street-2 should be None when state is None
    assert_eq!(pdf_data.street_2, None);
}

#[test]
fn test_mailing_address_validity() {
    let full = MailingAddress {
        street: "Street 1".to_string(),
        city: "Berlin".to_string(),
        state: None,
        postal_code: "10115".to_string(),
        country: "Germany".to_string(),
    };
    assert!(full.is_valid());

    let missing_city = MailingAddress {
        street: "Street 1".to_string(),
        city: "".to_string(),
        state: Some("BE".to_string()),
        postal_code: "10115".to_string(),
        country: "Germany".to_string(),
    };
    assert!(!missing_city.is_valid());
}
