//! Callback data for the human approval channel, in the exact format the
//! approval bot expects.

use vstd::prelude::*;

verus! {

/// Generate approval callback data: `approve_workflow_` plus the approval
/// id.
pub fn generate_approve_callback(approval_id: &str) -> (r: String)
    ensures
        r@ == "approve_workflow_"@ + approval_id@,
{
    String::from_str("approve_workflow_").concat(approval_id)
}

/// Generate rejection callback data: `reject_workflow_` plus the approval
/// id.
pub fn generate_reject_callback(approval_id: &str) -> (r: String)
    ensures
        r@ == "reject_workflow_"@ + approval_id@,
{
    String::from_str("reject_workflow_").concat(approval_id)
}

} // verus!
