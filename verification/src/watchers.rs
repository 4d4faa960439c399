//! Watcher logic: the bridge from "a human decision moved a record into an
//! actionable partition" to "the orchestrator continuation runs".
//!
//! The surrounding process polls the partitions on a timer and calls in with
//! each record it claimed; on startup it drains whatever is already resident
//! (crash recovery).  The decisions — what to do with an approved record,
//! how to route a revision, where failures go — live here, verified.

use vstd::prelude::*;
use crate::approval::ApprovalState;
use crate::errors::{LennardError, Result};
use crate::ids::ApprovalId;
use crate::orchestrator::WorkflowOrchestrator;
use crate::queue::ApprovalQueue;
use crate::steps::WorkflowSteps;

verus! {

/// How often the watchers poll their partition, in seconds.
pub const WATCH_INTERVAL_SECS: u64 = 5;

/// What became of one approved record: the record itself, taken out of the
/// active partitions for the surrounding process to file, and the
/// continuation's outcome, which decides whether it is filed under the
/// processed or the failure archive.
pub struct ApprovalOutcome {
    /// The claimed record, removed from the active partitions.
    pub record: crate::approval::ApprovalData,
    /// The dispatch message on success; the failure to file with the
    /// archived record otherwise.
    pub outcome: Result<String>,
}

/// Watches the `Approved` partition and completes approved workflows.
pub struct ApprovalWatcher {
    pub approved_dir: String,
    pub processing_interval_secs: u64,
}

impl ApprovalWatcher {
    pub fn new() -> (r: Self)
        ensures
            r.approved_dir@ == crate::paths::data_root_spec() + "/"@ + "approved"@,
            r.processing_interval_secs == WATCH_INTERVAL_SECS,
    {
        ApprovalWatcher {
            approved_dir: crate::paths::approved_dir(),
            processing_interval_secs: WATCH_INTERVAL_SECS,
        }
    }

    /// Process one approved record: run the orchestrator's continuation with
    /// the exact previously-approved document.  The claimed record leaves
    /// the active partitions and comes back to the caller, who files it in
    /// the processed archive on success and in the failure archive — with
    /// the failure as diagnostic — otherwise.  A record that is not (or no
    /// longer) in `Approved` cannot be claimed: nothing changes and an error
    /// reports it.
    pub fn process_approval<T: WorkflowSteps>(
        &self,
        orchestrator: &mut WorkflowOrchestrator<T>,
        queue: &mut ApprovalQueue,
        approval_id: &ApprovalId,
    ) -> (r: Result<ApprovalOutcome>)
        requires
            old(queue).wf(),
        ensures
            final(queue).wf(),
            !old(queue).in_state(approval_id@, ApprovalState::Approved) ==> *final(queue) == *old(
                queue,
            ) && r is Err,
            old(queue).in_state(approval_id@, ApprovalState::Approved) ==> r is Ok,
            r matches Ok(o) ==> {
                &&& old(queue).in_state(approval_id@, ApprovalState::Approved)
                &&& o.record@ == old(queue).lookup(approval_id@).unwrap()
                &&& final(queue).lookup(approval_id@) is None
                &&& ApprovalQueue::others_unchanged(*old(queue), *final(queue), approval_id@)
                &&& final(queue).recs().len() == old(queue).recs().len() - 1
                &&& (forall|st: ApprovalState| #[trigger] final(queue).count_in_state(st) == old(
                    queue,
                ).count_in_state(st) - (if st == ApprovalState::Approved {
                    1int
                } else {
                    0int
                }))
            },
    {
        let approval_data = match queue.get_approval_request(
            approval_id,
            Some(ApprovalState::Approved),
        ) {
            Ok(Some(d)) => d,
            Ok(None) => {
                return Err(
                    LennardError::Workflow(
                        String::from_str("Approval is not in the approved partition"),
                    ),
                );
            },
            Err(e) => {
                return Err(e);
            },
        };
        let outcome = orchestrator.continue_after_approval(&approval_data);
        // The record is consumed either way; the caller files it under the
        // processed or the failure archive according to the outcome.
        match queue.remove_approval(approval_id) {
            Some(record) => Ok(ApprovalOutcome { record, outcome }),
            None => {
                // The claim holds the record in the store, so it cannot have
                // vanished between the claim and the removal.
                proof {
                    assert(false);
                }
                Err(LennardError::Workflow(String::from_str("Approval vanished while claimed")))
            },
        }
    }

    /// Startup recovery: process every record already resident in the
    /// `Approved` partition — when it returns, that partition is empty —
    /// and hand every archived record back for filing.
    pub fn process_existing_approvals<T: WorkflowSteps>(
        &self,
        orchestrator: &mut WorkflowOrchestrator<T>,
        queue: &mut ApprovalQueue,
    ) -> (r: Result<Vec<ApprovalOutcome>>)
        requires
            old(queue).wf(),
        ensures
            final(queue).wf(),
            final(queue).count_in_state(ApprovalState::Approved) == 0,
    {
        let mut outcomes: Vec<ApprovalOutcome> = Vec::new();
        let mut current = queue.find_first_in_state(ApprovalState::Approved);
        while current.is_some()
            invariant
                queue.wf(),
                current matches Some(id) ==> queue.in_state(id@, ApprovalState::Approved),
                current is None ==> queue.count_in_state(ApprovalState::Approved) == 0,
            decreases queue.recs().len() + 1,
        {
            let id = current.unwrap();
            match self.process_approval(orchestrator, queue, &id) {
                Ok(o) => {
                    outcomes.push(o);
                },
                Err(_) => {
                    // A claimed record is always processed: the claim check
                    // above guarantees it is in `Approved`.
                    proof {
                        assert(false);
                    }
                },
            }
            current = queue.find_first_in_state(ApprovalState::Approved);
        }
        Ok(outcomes)
    }
}

/// Watches the `NeedsImprovement` partition and produces revised letters.
pub struct NeedsImprovementWatcher {
    pub needs_improvement_dir: String,
    pub processing_interval_secs: u64,
}

impl NeedsImprovementWatcher {
    pub fn new() -> (r: Self)
        ensures
            r.needs_improvement_dir@ == crate::paths::data_root_spec() + "/"@
                + "needs_improvement"@,
            r.processing_interval_secs == WATCH_INTERVAL_SECS,
    {
        NeedsImprovementWatcher {
            needs_improvement_dir: crate::paths::needs_improvement_dir(),
            processing_interval_secs: WATCH_INTERVAL_SECS,
        }
    }

    /// Process one record needing improvement: take the latest feedback from
    /// the last history entry, have the orchestrator produce the next letter
    /// iteration, and write the result straight into `AwaitingUserResponse`
    /// (the new prompt has already been sent).  A record without feedback,
    /// and any downstream failure, routes to the `Failed` partition, where
    /// the record itself stands as the diagnostic.  A record that is not (or
    /// no longer) in `NeedsImprovement` cannot be claimed: nothing changes
    /// and an error reports it.
    pub fn process_improvement<T: WorkflowSteps>(
        &self,
        orchestrator: &mut WorkflowOrchestrator<T>,
        queue: &mut ApprovalQueue,
        approval_id: &ApprovalId,
    ) -> (r: Result<()>)
        requires
            old(queue).wf(),
        ensures
            final(queue).wf(),
            !old(queue).in_state(approval_id@, ApprovalState::NeedsImprovement) ==> *final(queue)
                == *old(queue) && r is Err,
            r is Ok ==> {
                &&& old(queue).in_state(approval_id@, ApprovalState::NeedsImprovement)
                &&& final(queue).lookup(approval_id@) matches Some(v)
                &&& v.state == ApprovalState::AwaitingUserResponse
                &&& v.letter_history.len() == old(queue).lookup(
                    approval_id@,
                ).unwrap().letter_history.len() + 1
            },
            old(queue).in_state(approval_id@, ApprovalState::NeedsImprovement) ==> {
                &&& (r is Err ==> final(queue).in_state(approval_id@, ApprovalState::Failed)
                    && ApprovalQueue::counts_moved(
                    *old(queue),
                    *final(queue),
                    ApprovalState::NeedsImprovement,
                    ApprovalState::Failed,
                ))
                &&& (r is Ok ==> ApprovalQueue::counts_moved(
                    *old(queue),
                    *final(queue),
                    ApprovalState::NeedsImprovement,
                    ApprovalState::AwaitingUserResponse,
                ))
                &&& ApprovalQueue::others_unchanged(*old(queue), *final(queue), approval_id@)
                &&& final(queue).recs().len() == old(queue).recs().len()
            },
    {
        let approval_data = match queue.get_approval_request(
            approval_id,
            Some(ApprovalState::NeedsImprovement),
        ) {
            Ok(Some(d)) => d,
            Ok(None) => {
                return Err(
                    LennardError::Workflow(
                        String::from_str("Approval is not in the needs-improvement partition"),
                    ),
                );
            },
            Err(e) => {
                return Err(e);
            },
        };
        proof {
            queue.lemma_lookup_id(approval_id@);
        }
        let feedback_text = match &approval_data.letter_history[approval_data.letter_history.len()
            - 1].feedback {
            Some(f) => String::from_str(f.text.as_str()),
            None => {
                // No feedback to work from: route the record to the failed
                // partition.
                self.route_to_failed(queue, approval_id);
                return Err(
                    LennardError::Workflow(
                        String::from_str("No feedback found in approval data for improvement"),
                    ),
                );
            },
        };
        if approval_data.letter_history.len() >= u32::MAX as usize {
            self.route_to_failed(queue, approval_id);
            return Err(
                LennardError::Workflow(String::from_str("letter history is at its maximum length")),
            );
        }
        match orchestrator.process_improvement_request(&approval_data, feedback_text.as_str()) {
            Ok(improved) => {
                match queue.store_approval_update(approval_id, improved) {
                    Ok(true) => Ok(()),
                    Ok(false) => {
                        // The claim holds the record in the store, so it
                        // cannot have vanished while being improved.
                        proof {
                            assert(false);
                        }
                        Err(
                            LennardError::Workflow(
                                String::from_str("Approval vanished while being improved"),
                            ),
                        )
                    },
                    Err(e) => Err(e),
                }
            },
            Err(e) => {
                // Downstream failure: route the record to the failed
                // partition.
                self.route_to_failed(queue, approval_id);
                Err(e)
            },
        }
    }

    /// Route a claimed record to the `Failed` partition.
    fn route_to_failed(&self, queue: &mut ApprovalQueue, approval_id: &ApprovalId)
        requires
            old(queue).wf(),
            old(queue).in_state(approval_id@, ApprovalState::NeedsImprovement),
        ensures
            final(queue).wf(),
            final(queue).in_state(approval_id@, ApprovalState::Failed),
            ApprovalQueue::counts_moved(
                *old(queue),
                *final(queue),
                ApprovalState::NeedsImprovement,
                ApprovalState::Failed,
            ),
            ApprovalQueue::others_unchanged(*old(queue), *final(queue), approval_id@),
            final(queue).recs().len() == old(queue).recs().len(),
        {
        match queue.mark_failed(approval_id) {
            Ok(true) => {},
            _ => {
                // `NeedsImprovement` is not terminal, so marking it failed
                // cannot be refused.
                proof {
                    assert(false);
                }
            },
        }
    }

    /// Startup recovery: process every record already resident in the
    /// `NeedsImprovement` partition — when it returns, that partition is
    /// empty — and report how many were found.
    pub fn process_existing_improvements<T: WorkflowSteps>(
        &self,
        orchestrator: &mut WorkflowOrchestrator<T>,
        queue: &mut ApprovalQueue,
    ) -> (r: Result<usize>)
        requires
            old(queue).wf(),
        ensures
            final(queue).wf(),
            final(queue).count_in_state(ApprovalState::NeedsImprovement) == 0,
    {
        let mut processed: usize = 0;
        let ghost initial_count = queue.count_in_state(ApprovalState::NeedsImprovement);
        let total = queue.record_count();
        proof {
            queue.recs().lemma_filter_len(
                |r: crate::approval::ApprovalDataView| r.state == ApprovalState::NeedsImprovement,
            );
            assert(initial_count <= total as int);
        }
        let mut current = queue.find_first_in_state(ApprovalState::NeedsImprovement);
        while current.is_some()
            invariant
                queue.wf(),
                current matches Some(id) ==> queue.in_state(id@, ApprovalState::NeedsImprovement),
                current is None ==> queue.count_in_state(ApprovalState::NeedsImprovement) == 0,
                processed as int + queue.count_in_state(ApprovalState::NeedsImprovement)
                    <= initial_count,
                initial_count <= usize::MAX as int,
                queue.count_in_state(ApprovalState::NeedsImprovement) >= 0,
            decreases queue.count_in_state(ApprovalState::NeedsImprovement) + 1,
        {
            let id = current.unwrap();
            proof {
                let j = choose|j: int|
                    0 <= j < queue.recs().len() && (#[trigger] queue.recs()[j]).approval_id == id@;
                queue.recs().lemma_filter_contains(
                    |r: crate::approval::ApprovalDataView| r.state
                        == ApprovalState::NeedsImprovement,
                    j,
                );
            }
            let _ = self.process_improvement(orchestrator, queue, &id);
            processed = processed + 1;
            current = queue.find_first_in_state(ApprovalState::NeedsImprovement);
        }
        Ok(processed)
    }
}

} // verus!
