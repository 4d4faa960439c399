//! Path layout of the workflow store: the state partitions, the trigger
//! partitions and the data directories, all built from fixed roots.
//!
//! The surrounding process may relocate the roots; these builders describe
//! the default layout, and every path is derived from a root plus the
//! partition names below, never written out free-hand.

use vstd::prelude::*;

verus! {

pub const APP_ROOT: &'static str = "/app";

pub const TRIGGERS_DIR_NAME: &'static str = "triggers";

pub const PROCESSED_DIR_NAME: &'static str = "processed";

pub const FAILED_DIR_NAME: &'static str = "failed";

pub const DATA_DIR_NAME: &'static str = "data";

pub const PENDING_APPROVAL_DIR_NAME: &'static str = "pending_approval";

pub const AWAITING_RESPONSE_DIR_NAME: &'static str = "awaiting_response";

pub const APPROVED_DIR_NAME: &'static str = "approved";

pub const NEEDS_IMPROVEMENT_DIR_NAME: &'static str = "needs_improvement";

pub const FAILED_STATE_DIR_NAME: &'static str = "failed";

pub const DOSSIERS_DIR_NAME: &'static str = "dossiers";

pub const LETTERS_DIR_NAME: &'static str = "letters";

pub const ATTACHMENTS_DIR_NAME: &'static str = "attachments";

pub const CONFIG_DIR_NAME: &'static str = "config";

pub const TEMPLATES_DIR_NAME: &'static str = "templates";

/// The default workflow data root.
pub open spec fn data_root_spec() -> Seq<char> {
    "/data/workflows"@
}

/// The default logs root.
pub open spec fn logs_root_spec() -> Seq<char> {
    "/logs"@
}

/// The default templates root.
pub open spec fn templates_root_spec() -> Seq<char> {
    "/app/templates"@
}

/// The workflow data root as text.
pub fn workflow_data_root_str() -> (r: &'static str)
    ensures
        r@ == data_root_spec(),
{
    "/data/workflows"
}

/// The workflow data root.
pub fn workflow_data_root() -> (r: String)
    ensures
        r@ == data_root_spec(),
{
    String::from_str("/data/workflows")
}

/// Join one name under a base path.
fn join(base: String, name: &str) -> (r: String)
    ensures
        r@ == base@ + "/"@ + name@,
{
    base.concat("/").concat(name)
}

/// The pending-trigger partition.
pub fn triggers_dir() -> (r: String)
    ensures
        r@ == data_root_spec() + "/"@ + TRIGGERS_DIR_NAME@,
{
    join(workflow_data_root(), TRIGGERS_DIR_NAME)
}

/// The processed-trigger partition.
pub fn triggers_processed_dir() -> (r: String)
    ensures
        r@ == data_root_spec() + "/"@ + TRIGGERS_DIR_NAME@ + "/"@ + PROCESSED_DIR_NAME@,
{
    join(triggers_dir(), PROCESSED_DIR_NAME)
}

/// The failed-trigger partition.
pub fn triggers_failed_dir() -> (r: String)
    ensures
        r@ == data_root_spec() + "/"@ + TRIGGERS_DIR_NAME@ + "/"@ + FAILED_DIR_NAME@,
{
    join(triggers_dir(), FAILED_DIR_NAME)
}

/// The data directory for generated artifacts.
pub fn data_dir() -> (r: String)
    ensures
        r@ == data_root_spec() + "/"@ + DATA_DIR_NAME@,
{
    join(workflow_data_root(), DATA_DIR_NAME)
}

/// Where generated dossiers are kept.
pub fn dossiers_dir() -> (r: String)
    ensures
        r@ == data_root_spec() + "/"@ + DATA_DIR_NAME@ + "/"@ + DOSSIERS_DIR_NAME@,
{
    join(data_dir(), DOSSIERS_DIR_NAME)
}

/// Where generated letters are kept.
pub fn letters_dir() -> (r: String)
    ensures
        r@ == data_root_spec() + "/"@ + DATA_DIR_NAME@ + "/"@ + LETTERS_DIR_NAME@,
{
    join(data_dir(), LETTERS_DIR_NAME)
}

/// Where attachments are kept.
pub fn attachments_dir() -> (r: String)
    ensures
        r@ == data_root_spec() + "/"@ + DATA_DIR_NAME@ + "/"@ + ATTACHMENTS_DIR_NAME@,
{
    join(data_dir(), ATTACHMENTS_DIR_NAME)
}

/// The partition holding approvals in the named state.
pub fn approval_state_dir(state_name: &str) -> (r: String)
    ensures
        r@ == data_root_spec() + "/"@ + state_name@,
{
    join(workflow_data_root(), state_name)
}

/// The `PendingApproval` partition.
pub fn pending_approval_dir() -> (r: String)
    ensures
        r@ == data_root_spec() + "/"@ + PENDING_APPROVAL_DIR_NAME@,
{
    approval_state_dir(PENDING_APPROVAL_DIR_NAME)
}

/// The `AwaitingUserResponse` partition.
pub fn awaiting_response_dir() -> (r: String)
    ensures
        r@ == data_root_spec() + "/"@ + AWAITING_RESPONSE_DIR_NAME@,
{
    approval_state_dir(AWAITING_RESPONSE_DIR_NAME)
}

/// The `Approved` partition.
pub fn approved_dir() -> (r: String)
    ensures
        r@ == data_root_spec() + "/"@ + APPROVED_DIR_NAME@,
{
    approval_state_dir(APPROVED_DIR_NAME)
}

/// The `NeedsImprovement` partition.
pub fn needs_improvement_dir() -> (r: String)
    ensures
        r@ == data_root_spec() + "/"@ + NEEDS_IMPROVEMENT_DIR_NAME@,
{
    approval_state_dir(NEEDS_IMPROVEMENT_DIR_NAME)
}

/// The `Failed` partition.
pub fn failed_state_dir() -> (r: String)
    ensures
        r@ == data_root_spec() + "/"@ + FAILED_STATE_DIR_NAME@,
{
    approval_state_dir(FAILED_STATE_DIR_NAME)
}

/// The application root.
pub fn app_root() -> (r: String)
    ensures
        r@ == APP_ROOT@,
{
    String::from_str(APP_ROOT)
}

/// Where the application's configuration lives.
pub fn config_dir() -> (r: String)
    ensures
        r@ == APP_ROOT@ + "/"@ + CONFIG_DIR_NAME@,
{
    join(app_root(), CONFIG_DIR_NAME)
}

/// The credentials file.
pub fn credentials_path() -> (r: String)
    ensures
        r@ == APP_ROOT@ + "/"@ + CONFIG_DIR_NAME@ + "/"@ + "credentials.json"@,
{
    join(config_dir(), "credentials.json")
}

/// Where document templates live.
pub fn templates_dir() -> (r: String)
    ensures
        r@ == templates_root_spec(),
{
    String::from_str("/app/templates")
}

/// The logs root.
pub fn logs_root() -> (r: String)
    ensures
        r@ == logs_root_spec(),
{
    String::from_str("/logs")
}

/// Where RPC exchanges are logged.
pub fn grpc_logs_dir() -> (r: String)
    ensures
        r@ == logs_root_spec() + "/"@ + "grpc"@,
{
    join(logs_root(), "grpc")
}

/// Where dossier-service exchanges are logged.
pub fn dossier_logs_dir() -> (r: String)
    ensures
        r@ == logs_root_spec() + "/"@ + "grpc"@ + "/"@ + "dossier"@,
{
    join(grpc_logs_dir(), "dossier")
}

/// Every directory the workflow store needs, in creation order.
pub fn all_workflow_directories() -> (r: Vec<String>)
    ensures
        r.deep_view() == seq![
            data_root_spec(),
            data_root_spec() + "/"@ + TRIGGERS_DIR_NAME@,
            data_root_spec() + "/"@ + TRIGGERS_DIR_NAME@ + "/"@ + PROCESSED_DIR_NAME@,
            data_root_spec() + "/"@ + TRIGGERS_DIR_NAME@ + "/"@ + FAILED_DIR_NAME@,
            data_root_spec() + "/"@ + DATA_DIR_NAME@,
            data_root_spec() + "/"@ + DATA_DIR_NAME@ + "/"@ + DOSSIERS_DIR_NAME@,
            data_root_spec() + "/"@ + DATA_DIR_NAME@ + "/"@ + LETTERS_DIR_NAME@,
            data_root_spec() + "/"@ + DATA_DIR_NAME@ + "/"@ + ATTACHMENTS_DIR_NAME@,
            data_root_spec() + "/"@ + PENDING_APPROVAL_DIR_NAME@,
            data_root_spec() + "/"@ + AWAITING_RESPONSE_DIR_NAME@,
            data_root_spec() + "/"@ + APPROVED_DIR_NAME@,
            data_root_spec() + "/"@ + NEEDS_IMPROVEMENT_DIR_NAME@,
            data_root_spec() + "/"@ + FAILED_STATE_DIR_NAME@,
        ],
{
    let mut dirs: Vec<String> = Vec::new();
    dirs.push(workflow_data_root());
    dirs.push(triggers_dir());
    dirs.push(triggers_processed_dir());
    dirs.push(triggers_failed_dir());
    dirs.push(data_dir());
    dirs.push(dossiers_dir());
    dirs.push(letters_dir());
    dirs.push(attachments_dir());
    dirs.push(pending_approval_dir());
    dirs.push(awaiting_response_dir());
    dirs.push(approved_dir());
    dirs.push(needs_improvement_dir());
    dirs.push(failed_state_dir());
    proof {
        assert(dirs.deep_view() =~= seq![
            data_root_spec(),
            data_root_spec() + "/"@ + TRIGGERS_DIR_NAME@,
            data_root_spec() + "/"@ + TRIGGERS_DIR_NAME@ + "/"@ + PROCESSED_DIR_NAME@,
            data_root_spec() + "/"@ + TRIGGERS_DIR_NAME@ + "/"@ + FAILED_DIR_NAME@,
            data_root_spec() + "/"@ + DATA_DIR_NAME@,
            data_root_spec() + "/"@ + DATA_DIR_NAME@ + "/"@ + DOSSIERS_DIR_NAME@,
            data_root_spec() + "/"@ + DATA_DIR_NAME@ + "/"@ + LETTERS_DIR_NAME@,
            data_root_spec() + "/"@ + DATA_DIR_NAME@ + "/"@ + ATTACHMENTS_DIR_NAME@,
            data_root_spec() + "/"@ + PENDING_APPROVAL_DIR_NAME@,
            data_root_spec() + "/"@ + AWAITING_RESPONSE_DIR_NAME@,
            data_root_spec() + "/"@ + APPROVED_DIR_NAME@,
            data_root_spec() + "/"@ + NEEDS_IMPROVEMENT_DIR_NAME@,
            data_root_spec() + "/"@ + FAILED_STATE_DIR_NAME@,
        ]);
    }
    dirs
}

} // verus!
