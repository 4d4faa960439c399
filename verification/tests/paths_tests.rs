use std::collections::HashSet;
use lennard_workflow::paths::{workflow_data_root_str, workflow_data_root, triggers_dir,
    triggers_processed_dir, triggers_failed_dir, data_dir, dossiers_dir, letters_dir,
    attachments_dir, approval_state_dir, pending_approval_dir, awaiting_response_dir, approved_dir,
    needs_improvement_dir, failed_state_dir, app_root, config_dir, credentials_path, templates_dir,
    all_workflow_directories, APP_ROOT, TRIGGERS_DIR_NAME, PROCESSED_DIR_NAME};

#[test]
fn test_root_constants() {
    assert_eq!(workflow_data_root_str(), "/data/workflows");
    assert_eq!(APP_ROOT, "/app");
}

#[test]
fn test_path_building_from_root() {
    // Test that all paths are built from the root constants
    assert_eq!(triggers_dir(), "/data/workflows/triggers");
    assert_eq!(triggers_processed_dir(), "/data/workflows/triggers/processed");
    assert_eq!(triggers_failed_dir(), "/data/workflows/triggers/failed");

    assert_eq!(data_dir(), "/data/workflows/data");
    assert_eq!(dossiers_dir(), "/data/workflows/data/dossiers");
    assert_eq!(letters_dir(), "/data/workflows/data/letters");
    assert_eq!(attachments_dir(), "/data/workflows/data/attachments");
}

#[test]
fn test_approval_state_directories() {
    assert_eq!(pending_approval_dir(), "/data/workflows/pending_approval");
    assert_eq!(awaiting_response_dir(), "/data/workflows/awaiting_response");
    assert_eq!(approved_dir(), "/data/workflows/approved");
    assert_eq!(needs_improvement_dir(), "/data/workflows/needs_improvement");
    assert_eq!(failed_state_dir(), "/data/workflows/failed");
}

#[test]
fn test_app_paths() {
    assert_eq!(config_dir(), "/app/config");
    assert_eq!(credentials_path(), "/app/config/credentials.json");
    // Templates dir uses its own root
    assert_eq!(templates_dir(), "/app/templates");
}

#[test]
fn test_all_paths_start_with_roots() {
    // Verify that all workflow paths start with the workflow root
    let workflow_paths = vec![
        triggers_dir(),
        triggers_processed_dir(),
        triggers_failed_dir(),
        data_dir(),
        dossiers_dir(),
        letters_dir(),
        attachments_dir(),
        pending_approval_dir(),
        awaiting_response_dir(),
        approved_dir(),
        needs_improvement_dir(),
        failed_state_dir(),
    ];

    for path in workflow_paths {
        assert!(
            path.starts_with(workflow_data_root_str()),
            "Path {:?} should start with WORKFLOW_DATA_ROOT",
            path
        );
    }

    // Verify app paths start with app root (except templates which has its own root)
    let app_paths = vec![config_dir(), credentials_path()];

    for path in app_paths {
        assert!(path.starts_with(APP_ROOT), "Path {:?} should start with APP_ROOT", path);
    }

    // Templates dir uses its own root
    assert!(templates_dir().starts_with("/app/templates"), "Templates dir should start with templates root");
}

#[test]
fn test_all_directories_unique() {
    let all_dirs = all_workflow_directories();
    let unique_dirs: HashSet<_> = all_dirs.iter().collect();

    assert_eq!(all_dirs.len(), unique_dirs.len(), "All directories should be unique");
}

#[test]
fn test_no_hardcoded_paths_in_functions() {
    // This test verifies that functions build paths dynamically
    let triggers_path = triggers_dir();
    assert!(triggers_path.contains(workflow_data_root_str()));
    assert!(triggers_path.contains(TRIGGERS_DIR_NAME));

    let processed_path = triggers_processed_dir();
    assert!(processed_path.contains(workflow_data_root_str()));
    assert!(processed_path.contains(TRIGGERS_DIR_NAME));
    assert!(processed_path.contains(PROCESSED_DIR_NAME));
}

#[test]
fn test_directory_hierarchy() {
    // Test that subdirectories are properly nested
    assert!(triggers_processed_dir().starts_with(&triggers_dir()));
    assert!(triggers_failed_dir().starts_with(&triggers_dir()));

    assert!(dossiers_dir().starts_with(&data_dir()));
    assert!(letters_dir().starts_with(&data_dir()));
    assert!(attachments_dir().starts_with(&data_dir()));

    assert!(credentials_path().starts_with(&config_dir()));
}

#[test]
fn test_all_workflow_directories_coverage() {
    let all_dirs = all_workflow_directories();

    // Verify all expected directories are included
    assert!(all_dirs.contains(&workflow_data_root()));
    assert!(all_dirs.contains(&triggers_dir()));
    assert!(all_dirs.contains(&triggers_processed_dir()));
    assert!(all_dirs.contains(&triggers_failed_dir()));
    assert!(all_dirs.contains(&data_dir()));
    assert!(all_dirs.contains(&dossiers_dir()));
    assert!(all_dirs.contains(&letters_dir()));
    assert!(all_dirs.contains(&attachments_dir()));
    assert!(all_dirs.contains(&pending_approval_dir()));
    assert!(all_dirs.contains(&awaiting_response_dir()));
    assert!(all_dirs.contains(&approved_dir()));
    assert!(all_dirs.contains(&needs_improvement_dir()));
    assert!(all_dirs.contains(&failed_state_dir()));

    // Should have exactly 13 directories
    assert_eq!(all_dirs.len(), 13);
}

#[test]
fn test_path_consistency_with_approval_states() {
    // Test that approval state names match what ApprovalState would use
    let expected_state_dirs =
        vec!["pending_approval", "awaiting_response", "approved", "needs_improvement", "failed"];

    for state_name in expected_state_dirs {
        let state_dir = approval_state_dir(state_name);
        assert_eq!(state_dir, format!("{}/{}", workflow_data_root_str(), state_name));
    }
}

#[test]
fn test_app_root_path() {
    assert_eq!(app_root(), "/app");
}
