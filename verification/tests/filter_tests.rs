use lennard_workflow::orchestrator::{TASK_OWNER_ID, TASK_STATUS_FILTER, TASK_SUBJECT_FILTER};

#[test]
fn test_zoho_filter_constants() {
    // Verify that the filter constants have the correct values
    assert_eq!(TASK_SUBJECT_FILTER, "Connect on LinkedIn",
        "Subject filter must be 'Connect on LinkedIn' with capital I");

    assert_eq!(TASK_STATUS_FILTER, "Nicht gestartet",
        "Status filter must be in German: 'Nicht gestartet'");

    assert_eq!(TASK_OWNER_ID, "1294764000001730350",
        "Owner ID must be Lennard's Zoho user ID");
}

#[test]
fn test_filter_values_match_expected() {
    // Create the filters array as used when loading available tasks
    let filters = &[
        ("Subject", TASK_SUBJECT_FILTER),
        ("Status", TASK_STATUS_FILTER),
        ("Owner", TASK_OWNER_ID),
    ];

    // Verify the filter structure and values
    assert_eq!(filters.len(), 3, "Must have exactly 3 filters");

    assert_eq!(filters[0], ("Subject", "Connect on LinkedIn"),
        "First filter must be Subject='Connect on LinkedIn'");

    assert_eq!(filters[1], ("Status", "Nicht gestartet"),
        "Second filter must be Status='Nicht gestartet' (German)");

    assert_eq!(filters[2], ("Owner", "1294764000001730350"),
        "Third filter must be Owner with Lennard's ID");
}

#[test]
fn test_no_english_status_in_filters() {
    // Ensure we're not using English status
    assert_ne!(TASK_STATUS_FILTER, "Not Started", "Status filter must NOT be in English");

    assert_ne!(TASK_STATUS_FILTER, "Not started", "Status filter must NOT be in English (lowercase)");
}

#[test]
fn test_linkedin_capitalization() {
    // Ensure LinkedIn has correct capitalization
    assert!(TASK_SUBJECT_FILTER.contains("LinkedIn"), "Subject must contain 'LinkedIn' with capital I");

    assert!(!TASK_SUBJECT_FILTER.contains("Linkedin"), "Subject must NOT contain 'Linkedin' with lowercase i");
}
