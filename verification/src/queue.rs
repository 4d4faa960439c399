//! The approval queue: a durable keyed store of approval records, partitioned
//! by state, that enforces the legal transitions of the approval state machine.
//!
//! The queue holds at most one record per approval id.  Every transition
//! checks the record's current state first: an illegal attempt reports
//! "not found or wrong state", mutates nothing, and moves nothing.  The
//! in-memory store is the verified state machine; the surrounding process
//! persists each record (one partition per state) and replays it on startup.

use vstd::prelude::*;
use crate::approval::{ApprovalData, ApprovalDataView, ApprovalState, HealthCheckResult,
    HealthStatus, StateCountMap, WorkflowTrigger, WorkflowTriggerView};
use crate::clock::now_millis;
use crate::errors::{LennardError, Result};
use crate::ids::{ApprovalId, ContactId, TaskId, UserId, TelegramChatId, TelegramMessageId};
use crate::types::{LetterContent, MailingAddress};

verus! {

/// More pending records than this and the store reports `Degraded`.
pub const PENDING_DEGRADED_THRESHOLD: usize = 50;

/// More failed records than this and the store reports `Unhealthy`.
pub const FAILED_UNHEALTHY_THRESHOLD: usize = 10;

/// The record stored for `id`, if any.
pub open spec fn seq_lookup(s: Seq<ApprovalDataView>, id: Seq<char>) -> Option<ApprovalDataView> {
    if exists|i: int| 0 <= i < s.len() && (#[trigger] s[i]).approval_id == id {
        Some(s[choose|i: int| 0 <= i < s.len() && (#[trigger] s[i]).approval_id == id])
    } else {
        None
    }
}

/// No two positions hold the same approval id.
pub open spec fn seq_unique_ids(s: Seq<ApprovalDataView>) -> bool {
    forall|i: int, j: int|
        0 <= i < s.len() && 0 <= j < s.len() && i != j ==> (#[trigger] s[i]).approval_id != (
        #[trigger] s[j]).approval_id
}

proof fn lemma_seq_lookup_at(s: Seq<ApprovalDataView>, i: int)
    requires
        seq_unique_ids(s),
        0 <= i < s.len(),
    ensures
        seq_lookup(s, s[i].approval_id) == Some(s[i]),
{
    let id = s[i].approval_id;
    assert(exists|k: int| 0 <= k < s.len() && (#[trigger] s[k]).approval_id == id);
    let k = choose|k: int| 0 <= k < s.len() && (#[trigger] s[k]).approval_id == id;
    assert(k == i);
}

proof fn lemma_seq_lookup_none(s: Seq<ApprovalDataView>, id: Seq<char>)
    requires
        forall|i: int| 0 <= i < s.len() ==> (#[trigger] s[i]).approval_id != id,
    ensures
        seq_lookup(s, id) is None,
{
}

proof fn lemma_lookup_update(s: Seq<ApprovalDataView>, i: int, v: ApprovalDataView)
    requires
        seq_unique_ids(s),
        0 <= i < s.len(),
        v.approval_id == s[i].approval_id,
    ensures
        seq_unique_ids(s.update(i, v)),
        seq_lookup(s.update(i, v), v.approval_id) == Some(v),
        forall|id2: Seq<char>|
            id2 != v.approval_id ==> #[trigger] seq_lookup(s.update(i, v), id2) == seq_lookup(
                s,
                id2,
            ),
{
    let t = s.update(i, v);
    lemma_seq_lookup_at(t, i);
    assert forall|id2: Seq<char>| id2 != v.approval_id implies #[trigger] seq_lookup(t, id2)
        == seq_lookup(s, id2) by {
        if exists|k: int| 0 <= k < s.len() && (#[trigger] s[k]).approval_id == id2 {
            let k = choose|k: int| 0 <= k < s.len() && (#[trigger] s[k]).approval_id == id2;
            assert(k != i);
            assert(t[k] == s[k]);
            lemma_seq_lookup_at(s, k);
            lemma_seq_lookup_at(t, k);
        } else {
            assert(forall|k: int| 0 <= k < t.len() ==> (#[trigger] t[k]).approval_id != id2);
            lemma_seq_lookup_none(s, id2);
            lemma_seq_lookup_none(t, id2);
        }
    }
}

proof fn lemma_lookup_push(s: Seq<ApprovalDataView>, v: ApprovalDataView)
    requires
        seq_unique_ids(s),
        seq_lookup(s, v.approval_id) is None,
    ensures
        seq_unique_ids(s.push(v)),
        seq_lookup(s.push(v), v.approval_id) == Some(v),
        forall|id2: Seq<char>|
            id2 != v.approval_id ==> #[trigger] seq_lookup(s.push(v), id2) == seq_lookup(s, id2),
{
    let t = s.push(v);
    assert forall|i: int| 0 <= i < s.len() implies (#[trigger] s[i]).approval_id != v.approval_id
        by {
        if s[i].approval_id == v.approval_id {
            lemma_seq_lookup_at(s, i);
        }
    }
    assert(seq_unique_ids(t));
    lemma_seq_lookup_at(t, s.len() as int);
    assert forall|id2: Seq<char>| id2 != v.approval_id implies #[trigger] seq_lookup(t, id2)
        == seq_lookup(s, id2) by {
        if exists|k: int| 0 <= k < s.len() && (#[trigger] s[k]).approval_id == id2 {
            let k = choose|k: int| 0 <= k < s.len() && (#[trigger] s[k]).approval_id == id2;
            assert(t[k] == s[k]);
            lemma_seq_lookup_at(s, k);
            lemma_seq_lookup_at(t, k);
        } else {
            assert(forall|k: int| 0 <= k < t.len() ==> (#[trigger] t[k]).approval_id != id2);
            lemma_seq_lookup_none(s, id2);
            lemma_seq_lookup_none(t, id2);
        }
    }
}

proof fn lemma_lookup_remove(s: Seq<ApprovalDataView>, i: int)
    requires
        seq_unique_ids(s),
        0 <= i < s.len(),
    ensures
        seq_unique_ids(s.remove(i)),
        seq_lookup(s.remove(i), s[i].approval_id) is None,
        forall|id2: Seq<char>|
            id2 != s[i].approval_id ==> #[trigger] seq_lookup(s.remove(i), id2) == seq_lookup(
                s,
                id2,
            ),
{
    let t = s.remove(i);
    let id = s[i].approval_id;
    assert forall|k: int| 0 <= k < t.len() implies (#[trigger] t[k]).approval_id != id by {
        if k < i {
            assert(t[k] == s[k]);
        } else {
            assert(t[k] == s[k + 1]);
        }
    }
    lemma_seq_lookup_none(t, id);
    assert forall|id2: Seq<char>| id2 != id implies #[trigger] seq_lookup(t, id2) == seq_lookup(
        s,
        id2,
    ) by {
        if exists|k: int| 0 <= k < s.len() && (#[trigger] s[k]).approval_id == id2 {
            let k = choose|k: int| 0 <= k < s.len() && (#[trigger] s[k]).approval_id == id2;
            lemma_seq_lookup_at(s, k);
            if k < i {
                assert(t[k] == s[k]);
                lemma_seq_lookup_at(t, k);
            } else {
                assert(k != i);
                assert(t[k - 1] == s[k]);
                lemma_seq_lookup_at(t, k - 1);
            }
        } else {
            assert forall|k: int| 0 <= k < t.len() implies (#[trigger] t[k]).approval_id != id2
                by {
                if k < i {
                    assert(t[k] == s[k]);
                } else {
                    assert(t[k] == s[k + 1]);
                }
            }
            lemma_seq_lookup_none(s, id2);
            lemma_seq_lookup_none(t, id2);
        }
    }
}

/// The pending trigger stored for `id`, if any.
pub open spec fn trig_seq_lookup(s: Seq<WorkflowTriggerView>, id: Seq<char>) -> Option<
    WorkflowTriggerView,
> {
    if exists|i: int| 0 <= i < s.len() && (#[trigger] s[i]).trigger_id == id {
        Some(s[choose|i: int| 0 <= i < s.len() && (#[trigger] s[i]).trigger_id == id])
    } else {
        None
    }
}

/// No two positions hold the same trigger id.
pub open spec fn trig_unique_ids(s: Seq<WorkflowTriggerView>) -> bool {
    forall|i: int, j: int|
        0 <= i < s.len() && 0 <= j < s.len() && i != j ==> (#[trigger] s[i]).trigger_id != (
        #[trigger] s[j]).trigger_id
}

proof fn lemma_trig_lookup_at(s: Seq<WorkflowTriggerView>, i: int)
    requires
        trig_unique_ids(s),
        0 <= i < s.len(),
    ensures
        trig_seq_lookup(s, s[i].trigger_id) == Some(s[i]),
{
    let id = s[i].trigger_id;
    assert(exists|k: int| 0 <= k < s.len() && (#[trigger] s[k]).trigger_id == id);
    let k = choose|k: int| 0 <= k < s.len() && (#[trigger] s[k]).trigger_id == id;
    assert(k == i);
}

proof fn lemma_trig_none(s: Seq<WorkflowTriggerView>, id: Seq<char>)
    requires
        forall|i: int| 0 <= i < s.len() ==> (#[trigger] s[i]).trigger_id != id,
    ensures
        trig_seq_lookup(s, id) is None,
{
}

proof fn lemma_trig_remove(s: Seq<WorkflowTriggerView>, i: int)
    requires
        trig_unique_ids(s),
        0 <= i < s.len(),
    ensures
        trig_unique_ids(s.remove(i)),
        trig_seq_lookup(s.remove(i), s[i].trigger_id) is None,
        forall|id2: Seq<char>|
            id2 != s[i].trigger_id ==> #[trigger] trig_seq_lookup(s.remove(i), id2)
                == trig_seq_lookup(s, id2),
{
    let t = s.remove(i);
    let id = s[i].trigger_id;
    assert forall|k: int| 0 <= k < t.len() implies (#[trigger] t[k]).trigger_id != id by {
        if k < i {
            assert(t[k] == s[k]);
        } else {
            assert(t[k] == s[k + 1]);
        }
    }
    lemma_trig_none(t, id);
    assert forall|id2: Seq<char>| id2 != id implies #[trigger] trig_seq_lookup(t, id2)
        == trig_seq_lookup(s, id2) by {
        if exists|k: int| 0 <= k < s.len() && (#[trigger] s[k]).trigger_id == id2 {
            let k = choose|k: int| 0 <= k < s.len() && (#[trigger] s[k]).trigger_id == id2;
            lemma_trig_lookup_at(s, k);
            if k < i {
                assert(t[k] == s[k]);
                lemma_trig_lookup_at(t, k);
            } else {
                assert(k != i);
                assert(t[k - 1] == s[k]);
                lemma_trig_lookup_at(t, k - 1);
            }
        } else {
            assert forall|k: int| 0 <= k < t.len() implies (#[trigger] t[k]).trigger_id != id2 by {
                if k < i {
                    assert(t[k] == s[k]);
                } else {
                    assert(t[k] == s[k + 1]);
                }
            }
            lemma_trig_none(s, id2);
            lemma_trig_none(t, id2);
        }
    }
}

proof fn lemma_filter_push<A>(s: Seq<A>, x: A, pred: spec_fn(A) -> bool)
    ensures
        s.push(x).filter(pred) == if pred(x) {
            s.filter(pred).push(x)
        } else {
            s.filter(pred)
        },
{
    reveal(Seq::filter);
    assert(s.push(x).drop_last() =~= s);
}

/// How many of the records sit in state `st`.
pub open spec fn count_of(s: Seq<ApprovalDataView>, st: ApprovalState) -> int {
    s.filter(|r: ApprovalDataView| r.state == st).len() as int
}

proof fn lemma_count_push(s: Seq<ApprovalDataView>, x: ApprovalDataView, st: ApprovalState)
    ensures
        count_of(s.push(x), st) == count_of(s, st) + if x.state == st {
            1int
        } else {
            0int
        },
{
    lemma_filter_push(s, x, |r: ApprovalDataView| r.state == st);
}

/// Every record's state names exactly one partition, so the five per-state
/// counts always add up to the number of stored records.
pub proof fn lemma_partition_counts_sum(s: Seq<ApprovalDataView>)
    ensures
        count_of(s, ApprovalState::PendingApproval) + count_of(
            s,
            ApprovalState::AwaitingUserResponse,
        ) + count_of(s, ApprovalState::Approved) + count_of(s, ApprovalState::NeedsImprovement)
            + count_of(s, ApprovalState::Failed) == s.len(),
    decreases s.len(),
{
    reveal(Seq::filter);
    if s.len() > 0 {
        lemma_partition_counts_sum(s.drop_last());
        lemma_count_push(s.drop_last(), s.last(), ApprovalState::PendingApproval);
        lemma_count_push(s.drop_last(), s.last(), ApprovalState::AwaitingUserResponse);
        lemma_count_push(s.drop_last(), s.last(), ApprovalState::Approved);
        lemma_count_push(s.drop_last(), s.last(), ApprovalState::NeedsImprovement);
        lemma_count_push(s.drop_last(), s.last(), ApprovalState::Failed);
        assert(s =~= s.drop_last().push(s.last()));
    }
}

proof fn lemma_count_remove(s: Seq<ApprovalDataView>, i: int, st: ApprovalState)
    requires
        0 <= i < s.len(),
    ensures
        count_of(s.remove(i), st) == count_of(s, st) - if s[i].state == st {
            1int
        } else {
            0int
        },
    decreases s.len(),
{
    reveal(Seq::filter);
    if i == s.len() - 1 {
        assert(s.remove(i) =~= s.drop_last());
    } else {
        assert(s.remove(i).drop_last() =~= s.drop_last().remove(i));
        assert(s.remove(i).last() == s.last());
        lemma_count_remove(s.drop_last(), i, st);
    }
}

proof fn lemma_count_update(s: Seq<ApprovalDataView>, i: int, v: ApprovalDataView, st: ApprovalState)
    requires
        0 <= i < s.len(),
    ensures
        count_of(s.update(i, v), st) == count_of(s, st) - (if s[i].state == st {
            1int
        } else {
            0int
        }) + (if v.state == st {
            1int
        } else {
            0int
        }),
    decreases s.len(),
{
    reveal(Seq::filter);
    if i == s.len() - 1 {
        assert(s.update(i, v).drop_last() =~= s.drop_last());
        assert(s.update(i, v).last() == v);
    } else {
        assert(s.update(i, v).drop_last() =~= s.drop_last().update(i, v));
        assert(s.update(i, v).last() == s.last());
        lemma_count_update(s.drop_last(), i, v, st);
    }
}

/// A state nothing sits in counts zero records.
pub proof fn lemma_count_zero(s: Seq<ApprovalDataView>, st: ApprovalState)
    requires
        forall|i: int| 0 <= i < s.len() ==> (#[trigger] s[i]).state != st,
    ensures
        count_of(s, st) == 0,
    decreases s.len(),
{
    reveal(Seq::filter);
    if s.len() > 0 {
        assert(forall|i: int|
            0 <= i < s.drop_last().len() ==> (#[trigger] s.drop_last()[i]).state != st);
        lemma_count_zero(s.drop_last(), st);
    }
}

/// An approval id is never duplicated and never lost across the state
/// partitions: at most one stored record holds a given id, and when one
/// does, that record's state names the single partition the id resides in.
pub proof fn lemma_approval_in_one_partition(q: ApprovalQueue, id: Seq<char>)
    requires
        q.wf(),
    ensures
        forall|i: int, j: int|
            0 <= i < q.recs().len() && 0 <= j < q.recs().len() && (#[trigger] q.recs()[
                i
            ]).approval_id == id && (#[trigger] q.recs()[j]).approval_id == id ==> i == j,
        q.contains_id(id) ==> q.in_state(id, q.lookup(id).unwrap().state),
        forall|s1: ApprovalState, s2: ApprovalState|
            q.in_state(id, s1) && q.in_state(id, s2) ==> s1 == s2,
{
}

/// Thread-safe approval queue for managing letter approval requests.
pub struct ApprovalQueue {
    root_path: String,
    enable_file_locking: bool,
    records: Vec<ApprovalData>,
    triggers: Vec<WorkflowTrigger>,
    processed_triggers: Vec<WorkflowTrigger>,
}

impl ApprovalQueue {
    /// All stored approval records.
    pub closed spec fn recs(self) -> Seq<ApprovalDataView> {
        self.records.deep_view()
    }

    /// All pending (unprocessed) batch triggers.
    pub closed spec fn pending_trigs(self) -> Seq<WorkflowTriggerView> {
        self.triggers.deep_view()
    }

    /// All processed batch triggers.
    pub closed spec fn processed_trigs(self) -> Seq<WorkflowTriggerView> {
        self.processed_triggers.deep_view()
    }

    /// The storage root this queue was opened at.
    pub closed spec fn root(self) -> Seq<char> {
        self.root_path@
    }

    /// Store invariant: every record is well formed and ids are unique, so an
    /// approval id names at most one record and sits in exactly one state
    /// partition; pending triggers are exactly the unprocessed ones.
    pub open spec fn wf(self) -> bool {
        &&& (forall|i: int| 0 <= i < self.recs().len() ==> (#[trigger] self.recs()[i]).wf())
        &&& seq_unique_ids(self.recs())
        &&& (forall|i: int|
            0 <= i < self.pending_trigs().len() ==> !(#[trigger] self.pending_trigs()[i]).processed)
        &&& (forall|i: int|
            0 <= i < self.processed_trigs().len() ==> (
            #[trigger] self.processed_trigs()[i]).processed)
        &&& trig_unique_ids(self.pending_trigs())
        &&& trig_unique_ids(self.processed_trigs())
        &&& (forall|i: int, j: int|
            0 <= i < self.pending_trigs().len() && 0 <= j < self.processed_trigs().len() ==> (
            #[trigger] self.pending_trigs()[i]).trigger_id != (
            #[trigger] self.processed_trigs()[j]).trigger_id)
    }

    /// The record stored under `id`, if any.
    pub open spec fn lookup(self, id: Seq<char>) -> Option<ApprovalDataView> {
        seq_lookup(self.recs(), id)
    }

    /// Whether some record holds `id`.
    pub open spec fn contains_id(self, id: Seq<char>) -> bool {
        self.lookup(id) is Some
    }

    /// Whether the record under `id` currently sits in state `s`.
    pub open spec fn in_state(self, id: Seq<char>, s: ApprovalState) -> bool {
        self.lookup(id) matches Some(v) && v.state == s
    }

    /// Every id other than `id` maps to the same record in both queues.
    pub open spec fn others_unchanged(pre: Self, post: Self, id: Seq<char>) -> bool {
        forall|id2: Seq<char>| id2 != id ==> pre.lookup(id2) == #[trigger] post.lookup(id2)
    }

    /// Both trigger partitions are untouched.
    pub open spec fn triggers_unchanged(pre: Self, post: Self) -> bool {
        pre.pending_trigs() == post.pending_trigs() && pre.processed_trigs()
            == post.processed_trigs()
    }

    /// The per-state counts changed exactly as one record moving from state
    /// `from` to state `to` changes them.
    pub open spec fn counts_moved(
        pre: Self,
        post: Self,
        from: ApprovalState,
        to: ApprovalState,
    ) -> bool {
        forall|st: ApprovalState| #[trigger] post.count_in_state(st) == pre.count_in_state(st) - (
        if from == st {
            1int
        } else {
            0int
        }) + (if to == st {
            1int
        } else {
            0int
        })
    }

    /// How many records sit in state `s`.
    pub open spec fn count_in_state(self, s: ApprovalState) -> int {
        count_of(self.recs(), s)
    }

    /// Open an empty queue rooted at the given storage path, with file
    /// locking on.
    pub fn new(root_path: String) -> (r: Result<Self>)
        ensures
            r matches Ok(q) && q.wf() && q.root() == root_path@ && q.recs().len() == 0
                && q.pending_trigs().len() == 0 && q.processed_trigs().len() == 0
                && q.locking_enabled(),
    {
        Ok(
            ApprovalQueue {
                root_path,
                enable_file_locking: true,
                records: Vec::new(),
                triggers: Vec::new(),
                processed_triggers: Vec::new(),
            },
        )
    }

    /// How many records the store holds, over all partitions.
    pub fn record_count(&self) -> (r: usize)
        ensures
            r as int == self.recs().len(),
    {
        self.records.len()
    }

    /// Find the position of the record holding `approval_id`.
    fn find_index(&self, approval_id: &ApprovalId) -> (r: Option<usize>)
        requires
            self.wf(),
        ensures
            r matches Some(i) ==> i < self.recs().len() && self.recs()[i as int].approval_id
                == approval_id@ && self.lookup(approval_id@) == Some(self.recs()[i as int]),
            r is None ==> self.lookup(approval_id@) is None,
    {
        let n = self.records.len();
        let mut i: usize = 0;
        while i < n
            invariant
                self.wf(),
                n == self.recs().len(),
                0 <= i <= n,
                forall|j: int| 0 <= j < i as int ==> (#[trigger] self.recs()[j]).approval_id
                    != approval_id@,
            decreases n - i,
        {
            if self.records[i].approval_id.same_as(approval_id) {
                proof {
                    lemma_seq_lookup_at(self.recs(), i as int);
                }
                return Some(i);
            }
            i = i + 1;
        }
        proof {
            lemma_seq_lookup_none(self.recs(), approval_id@);
        }
        None
    }

    /// Create a new approval request.  The record always starts in the
    /// `PendingApproval` partition; the freshly drawn id is returned.
    pub fn create_approval(
        &mut self,
        task_id: TaskId,
        contact_id: ContactId,
        recipient_name: String,
        recipient_email: Option<String>,
        recipient_title: Option<String>,
        company_name: String,
        letter: LetterContent,
        requested_by: UserId,
        mailing_address: Option<MailingAddress>,
        pdf_base64: Option<String>,
        person_dossier: Option<String>,
        company_dossier: Option<String>,
        industry: Option<String>,
        website: Option<String>,
    ) -> (r: Result<ApprovalId>)
        requires
            old(self).wf(),
        ensures
            final(self).wf(),
            Self::triggers_unchanged(*old(self), *final(self)),
            r matches Ok(id) ==> {
                &&& final(self).lookup(id@) matches Some(v)
                &&& v.wf()
                &&& v.state == ApprovalState::PendingApproval
                &&& v.task_id == task_id@
                &&& v.contact_id == contact_id@
                &&& v.recipient_name == recipient_name@
                &&& v.recipient_email == recipient_email.deep_view()
                &&& v.recipient_title == recipient_title.deep_view()
                &&& v.company_name == company_name@
                &&& v.current_letter == letter@
                &&& v.letter_history.len() == 1
                &&& v.letter_history[0].content == letter@
                &&& v.requested_by == requested_by.spec_value()
                &&& v.telegram_message_id is None
                &&& v.telegram_chat_id is None
                &&& v.mailing_address == crate::approval::addr_opt_view(mailing_address)
                &&& v.pdf_base64 == pdf_base64.deep_view()
                &&& v.person_dossier == person_dossier.deep_view()
                &&& v.company_dossier == company_dossier.deep_view()
                &&& v.industry == industry.deep_view()
                &&& v.website == website.deep_view()
                &&& Self::others_unchanged(*old(self), *final(self), id@)
                &&& final(self).recs().len() == old(self).recs().len() + 1
            },
            r matches Err(e) ==> *final(self) == *old(self) && e matches LennardError::IoError(_),
            old(self).recs().len() == 0 ==> r is Ok,
    {
        let mut approval = ApprovalData::new(
            task_id,
            contact_id,
            recipient_name,
            company_name,
            letter,
            requested_by,
        );
        approval.recipient_email = recipient_email;
        approval.recipient_title = recipient_title;
        approval.mailing_address = mailing_address;
        approval.pdf_base64 = pdf_base64;
        approval.person_dossier = person_dossier;
        approval.company_dossier = company_dossier;
        approval.industry = industry;
        approval.website = website;

        if self.find_index(&approval.approval_id).is_some() {
            // A random v4 UUID collided with a stored one: report it as a
            // storage fault rather than overwrite the other record.
            return Err(
                LennardError::IoError(String::from_str("approval id collision in store")),
            );
        }
        let approval_id = ApprovalId::from_raw(String::from_str(approval.approval_id.as_str()));
        proof {
            lemma_lookup_push(self.recs(), approval@);
        }
        self.records.push(approval);
        proof {
            assert(self.recs() =~= old(self).recs().push(self.recs().last()));
        }
        Ok(approval_id)
    }

    /// Get an approval by id.  With a state hint the record is returned only
    /// when it sits in that partition; without one, whatever partition holds
    /// it.
    pub fn get_approval_request(
        &self,
        approval_id: &ApprovalId,
        state: Option<ApprovalState>,
    ) -> (r: Result<Option<ApprovalData>>)
        requires
            self.wf(),
        ensures
            match r {
                Ok(Some(d)) => {
                    &&& self.lookup(approval_id@) == Some(d@)
                    &&& (state matches Some(s) ==> d@.state == s)
                },
                Ok(None) => match state {
                    Some(s) => !self.in_state(approval_id@, s),
                    None => !self.contains_id(approval_id@),
                },
                Err(_) => false,
            },
    {
        match self.find_index(approval_id) {
            Some(i) => {
                match state {
                    Some(s) => {
                        if self.records[i].state == s {
                            Ok(Some(self.records[i].duplicate()))
                        } else {
                            Ok(None)
                        }
                    },
                    None => Ok(Some(self.records[i].duplicate())),
                }
            },
            None => Ok(None),
        }
    }

    /// Put the transitioned record back at the position its old version held.
    fn replace_at(&mut self, i: usize, rec: ApprovalData)
        requires
            old(self).wf(),
            i < old(self).recs().len(),
            rec@.wf(),
            rec@.approval_id == old(self).recs()[i as int].approval_id,
        ensures
            final(self).wf(),
            final(self).recs() == old(self).recs().update(i as int, rec@),
            final(self).recs().len() == old(self).recs().len(),
            final(self).lookup(rec@.approval_id) == Some(rec@),
            Self::others_unchanged(*old(self), *final(self), rec@.approval_id),
            Self::triggers_unchanged(*old(self), *final(self)),
            final(self).root() == old(self).root(),
            forall|st: ApprovalState| #[trigger] final(self).count_in_state(st) == old(
                self,
            ).count_in_state(st) - (if old(self).recs()[i as int].state == st {
                1int
            } else {
                0int
            }) + (if rec@.state == st {
                1int
            } else {
                0int
            }),
    {
        proof {
            lemma_lookup_update(self.recs(), i as int, rec@);
            assert forall|st: ApprovalState| #[trigger] count_of(
                self.recs().update(i as int, rec@),
                st,
            ) == count_of(self.recs(), st) - (if self.recs()[i as int].state == st {
                1int
            } else {
                0int
            }) + (if rec@.state == st {
                1int
            } else {
                0int
            }) by {
                lemma_count_update(self.recs(), i as int, rec@, st);
            }
        }
        self.records.set(i, rec);
        proof {
            assert(self.recs() =~= old(self).recs().update(i as int, self.recs()[i as int]));
        }
    }

    /// Record that the approval prompt went out: legal only from
    /// `PendingApproval`, which moves the record to `AwaitingUserResponse`
    /// and stores the message and chat reference.  In any other case nothing
    /// is mutated and `false` comes back.
    pub fn send_to_telegram(
        &mut self,
        approval_id: &ApprovalId,
        message_id: TelegramMessageId,
        chat_id: TelegramChatId,
    ) -> (r: Result<bool>)
        requires
            old(self).wf(),
        ensures
            final(self).wf(),
            Self::triggers_unchanged(*old(self), *final(self)),
            final(self).root() == old(self).root(),
            match r {
                Ok(true) => {
                    &&& old(self).in_state(approval_id@, ApprovalState::PendingApproval)
                    &&& final(self).lookup(approval_id@) matches Some(v)
                    &&& v.same_meta(old(self).lookup(approval_id@).unwrap())
                    &&& v.state == ApprovalState::AwaitingUserResponse
                    &&& v.telegram_message_id == Some(message_id.spec_value())
                    &&& v.telegram_chat_id == Some(chat_id@)
                    &&& v.current_letter == old(self).lookup(approval_id@).unwrap().current_letter
                    &&& v.letter_history == old(self).lookup(approval_id@).unwrap().letter_history
                    &&& Self::others_unchanged(*old(self), *final(self), approval_id@)
                    &&& final(self).recs().len() == old(self).recs().len()
                    &&& Self::counts_moved(
                        *old(self),
                        *final(self),
                        ApprovalState::PendingApproval,
                        ApprovalState::AwaitingUserResponse,
                    )
                },
                Ok(false) => !old(self).in_state(approval_id@, ApprovalState::PendingApproval)
                    && *final(self) == *old(self),
                Err(_) => false,
            },
    {
        match self.find_index(approval_id) {
            Some(i) => {
                if self.records[i].state == ApprovalState::PendingApproval {
                    let mut rec = self.records[i].duplicate();
                    rec.mark_sent_to_telegram(message_id, chat_id);
                    self.replace_at(i, rec);
                    Ok(true)
                } else {
                    Ok(false)
                }
            },
            None => Ok(false),
        }
    }

    /// Mark an approval as awaiting the human response.  Legal only from
    /// `PendingApproval`; any other case is a distinguishable workflow error
    /// and mutates nothing.
    pub fn mark_as_awaiting_response(&mut self, approval_id: &ApprovalId) -> (r: Result<()>)
        requires
            old(self).wf(),
        ensures
            final(self).wf(),
            Self::triggers_unchanged(*old(self), *final(self)),
            final(self).root() == old(self).root(),
            match r {
                Ok(_) => {
                    &&& old(self).in_state(approval_id@, ApprovalState::PendingApproval)
                    &&& final(self).lookup(approval_id@) matches Some(v)
                    &&& v.same_but_state(old(self).lookup(approval_id@).unwrap())
                    &&& v.state == ApprovalState::AwaitingUserResponse
                    &&& Self::others_unchanged(*old(self), *final(self), approval_id@)
                    &&& final(self).recs().len() == old(self).recs().len()
                    &&& Self::counts_moved(
                        *old(self),
                        *final(self),
                        ApprovalState::PendingApproval,
                        ApprovalState::AwaitingUserResponse,
                    )
                },
                Err(e) => !old(self).in_state(approval_id@, ApprovalState::PendingApproval)
                    && *final(self) == *old(self) && e matches LennardError::Workflow(_),
            },
    {
        match self.find_index(approval_id) {
            Some(i) => {
                if self.records[i].state == ApprovalState::PendingApproval {
                    let mut rec = self.records[i].duplicate();
                    rec.set_awaiting_response();
                    self.replace_at(i, rec);
                    Ok(())
                } else {
                    Err(
                        LennardError::Workflow(
                            String::from_str(
                                "Cannot transition approval to AwaitingUserResponse: not in PendingApproval",
                            ),
                        ),
                    )
                }
            },
            None => Err(LennardError::Workflow(String::from_str("Approval not found"))),
        }
    }

    /// Handle the human decision to approve.  Legal only from
    /// `AwaitingUserResponse`, which moves the record to `Approved` (the
    /// updated record comes back).  Any other case returns `None`, never
    /// mutates the record, and never moves it.
    pub fn handle_user_approval(&mut self, approval_id: &ApprovalId) -> (r: Result<
        Option<ApprovalData>,
    >)
        requires
            old(self).wf(),
        ensures
            final(self).wf(),
            Self::triggers_unchanged(*old(self), *final(self)),
            final(self).root() == old(self).root(),
            match r {
                Ok(Some(d)) => {
                    &&& old(self).in_state(approval_id@, ApprovalState::AwaitingUserResponse)
                    &&& d@.same_but_state(old(self).lookup(approval_id@).unwrap())
                    &&& d@.state == ApprovalState::Approved
                    &&& final(self).lookup(approval_id@) == Some(d@)
                    &&& Self::others_unchanged(*old(self), *final(self), approval_id@)
                    &&& final(self).recs().len() == old(self).recs().len()
                    &&& Self::counts_moved(
                        *old(self),
                        *final(self),
                        ApprovalState::AwaitingUserResponse,
                        ApprovalState::Approved,
                    )
                },
                Ok(None) => !old(self).in_state(approval_id@, ApprovalState::AwaitingUserResponse)
                    && *final(self) == *old(self),
                Err(_) => false,
            },
    {
        match self.find_index(approval_id) {
            Some(i) => {
                if self.records[i].state == ApprovalState::AwaitingUserResponse {
                    let mut rec = self.records[i].duplicate();
                    rec.mark_approved();
                    let copy = rec.duplicate();
                    self.replace_at(i, rec);
                    Ok(Some(copy))
                } else {
                    Ok(None)
                }
            },
            None => Ok(None),
        }
    }

    /// Handle human feedback.  Legal only from `AwaitingUserResponse`,
    /// which attaches the feedback to the last history entry and moves the
    /// record to `NeedsImprovement`.  Any other case returns `None`, never
    /// mutates the record, and never moves it.
    pub fn handle_user_feedback(
        &mut self,
        approval_id: &ApprovalId,
        feedback_text: String,
        user_id: UserId,
    ) -> (r: Result<Option<ApprovalData>>)
        requires
            old(self).wf(),
        ensures
            final(self).wf(),
            Self::triggers_unchanged(*old(self), *final(self)),
            final(self).root() == old(self).root(),
            match r {
                Ok(Some(d)) => {
                    &&& old(self).in_state(approval_id@, ApprovalState::AwaitingUserResponse)
                    &&& d@.same_meta(old(self).lookup(approval_id@).unwrap())
                    &&& d@.state == ApprovalState::NeedsImprovement
                    &&& d@.current_letter == old(self).lookup(approval_id@).unwrap().current_letter
                    &&& d@.letter_history.len() == old(self).lookup(
                        approval_id@,
                    ).unwrap().letter_history.len()
                    &&& (d@.letter_history.last().feedback matches Some(f) && f.text
                        == feedback_text@ && f.provided_by == user_id.spec_value())
                    &&& final(self).lookup(approval_id@) == Some(d@)
                    &&& Self::others_unchanged(*old(self), *final(self), approval_id@)
                    &&& final(self).recs().len() == old(self).recs().len()
                    &&& Self::counts_moved(
                        *old(self),
                        *final(self),
                        ApprovalState::AwaitingUserResponse,
                        ApprovalState::NeedsImprovement,
                    )
                },
                Ok(None) => !old(self).in_state(approval_id@, ApprovalState::AwaitingUserResponse)
                    && *final(self) == *old(self),
                Err(_) => false,
            },
    {
        match self.find_index(approval_id) {
            Some(i) => {
                if self.records[i].state == ApprovalState::AwaitingUserResponse {
                    let mut rec = self.records[i].duplicate();
                    rec.add_feedback(feedback_text, user_id);
                    let copy = rec.duplicate();
                    self.replace_at(i, rec);
                    Ok(Some(copy))
                } else {
                    Ok(None)
                }
            },
            None => Ok(None),
        }
    }

    /// Requeue an improved letter.  Legal only from `NeedsImprovement`,
    /// which appends a new history iteration (the iteration count grows by
    /// exactly one), replaces the current letter, clears the stale
    /// messaging-channel references, and moves the record back to
    /// `PendingApproval`.  Any other case returns `false` and mutates
    /// nothing.
    pub fn requeue_after_improvement(
        &mut self,
        approval_id: &ApprovalId,
        improved_letter: LetterContent,
    ) -> (r: Result<bool>)
        requires
            old(self).wf(),
        ensures
            final(self).wf(),
            Self::triggers_unchanged(*old(self), *final(self)),
            final(self).root() == old(self).root(),
            match r {
                Ok(true) => {
                    &&& old(self).in_state(approval_id@, ApprovalState::NeedsImprovement)
                    &&& final(self).lookup(approval_id@) matches Some(v)
                    &&& v.same_meta(old(self).lookup(approval_id@).unwrap())
                    &&& v.state == ApprovalState::PendingApproval
                    &&& v.current_letter == improved_letter@
                    &&& v.letter_history.len() == old(self).lookup(
                        approval_id@,
                    ).unwrap().letter_history.len() + 1
                    &&& v.letter_history.last().content == improved_letter@
                    &&& v.letter_history.last().feedback is None
                    &&& v.telegram_message_id is None
                    &&& v.telegram_chat_id is None
                    &&& Self::others_unchanged(*old(self), *final(self), approval_id@)
                    &&& final(self).recs().len() == old(self).recs().len()
                    &&& Self::counts_moved(
                        *old(self),
                        *final(self),
                        ApprovalState::NeedsImprovement,
                        ApprovalState::PendingApproval,
                    )
                },
                Ok(false) => !old(self).in_state(approval_id@, ApprovalState::NeedsImprovement)
                    && *final(self) == *old(self),
                Err(e) => old(self).in_state(approval_id@, ApprovalState::NeedsImprovement)
                    && old(self).lookup(approval_id@).unwrap().letter_history.len()
                    >= u32::MAX as int && *final(self) == *old(self) && e matches
                    LennardError::Workflow(_),
            },
    {
        match self.find_index(approval_id) {
            Some(i) => {
                if self.records[i].state == ApprovalState::NeedsImprovement {
                    if self.records[i].letter_history.len() >= u32::MAX as usize {
                        // The revision cycle is bounded by external policy; a
                        // history this long cannot take one more iteration.
                        return Err(
                            LennardError::Workflow(
                                String::from_str("letter history is at its maximum length"),
                            ),
                        );
                    }
                    let mut rec = self.records[i].duplicate();
                    rec.add_improved_letter(improved_letter);
                    self.replace_at(i, rec);
                    Ok(true)
                } else {
                    Ok(false)
                }
            },
            None => Ok(false),
        }
    }

    /// Mark an approval as failed.  Legal from any non-terminal state;
    /// `Approved` and `Failed` are terminal, so there the record is left
    /// untouched and `false` comes back.
    pub fn mark_failed(&mut self, approval_id: &ApprovalId) -> (r: Result<bool>)
        requires
            old(self).wf(),
        ensures
            final(self).wf(),
            Self::triggers_unchanged(*old(self), *final(self)),
            final(self).root() == old(self).root(),
            match r {
                Ok(true) => {
                    &&& old(self).lookup(approval_id@) matches Some(w) && !w.state.is_terminal()
                    &&& final(self).lookup(approval_id@) matches Some(v)
                    &&& v.same_but_state(old(self).lookup(approval_id@).unwrap())
                    &&& v.state == ApprovalState::Failed
                    &&& Self::others_unchanged(*old(self), *final(self), approval_id@)
                    &&& final(self).recs().len() == old(self).recs().len()
                    &&& Self::counts_moved(
                        *old(self),
                        *final(self),
                        old(self).lookup(approval_id@).unwrap().state,
                        ApprovalState::Failed,
                    )
                },
                Ok(false) => !(old(self).lookup(approval_id@) matches Some(w)
                    && !w.state.is_terminal()) && *final(self) == *old(self),
                Err(_) => false,
            },
    {
        match self.find_index(approval_id) {
            Some(i) => {
                if self.records[i].state == ApprovalState::Approved || self.records[i].state
                    == ApprovalState::Failed {
                    Ok(false)
                } else {
                    let mut rec = self.records[i].duplicate();
                    rec.mark_failed();
                    self.replace_at(i, rec);
                    Ok(true)
                }
            },
            None => Ok(false),
        }
    }

    /// List all approvals currently sitting in one state partition.
    pub fn list_approvals_by_state(&self, state: ApprovalState) -> (r: Result<Vec<ApprovalData>>)
        requires
            self.wf(),
        ensures
            r matches Ok(v) && v.deep_view() == self.recs().filter(
                |rec: ApprovalDataView| rec.state == state,
            ),
    {
        let ghost pred = |rec: ApprovalDataView| rec.state == state;
        let mut approvals: Vec<ApprovalData> = Vec::new();
        let n = self.records.len();
        let mut i: usize = 0;
        while i < n
            invariant
                self.wf(),
                n == self.recs().len(),
                0 <= i <= n,
                approvals.deep_view() == self.recs().take(i as int).filter(pred),
                pred == (|rec: ApprovalDataView| rec.state == state),
            decreases n - i,
        {
            proof {
                assert(self.recs().take(i as int + 1) =~= self.recs().take(i as int).push(
                    self.recs()[i as int],
                ));
                lemma_filter_push(self.recs().take(i as int), self.recs()[i as int], pred);
            }
            if self.records[i].state == state {
                approvals.push(self.records[i].duplicate());
                proof {
                    assert(approvals.deep_view() =~= self.recs().take(i as int + 1).filter(pred));
                }
            }
            i = i + 1;
        }
        proof {
            assert(self.recs().take(n as int) =~= self.recs());
        }
        Ok(approvals)
    }

    /// All approvals still waiting in `PendingApproval`.
    pub fn get_pending_approvals(&self) -> (r: Result<Vec<ApprovalData>>)
        requires
            self.wf(),
        ensures
            r matches Ok(v) && v.deep_view() == self.recs().filter(
                |rec: ApprovalDataView| rec.state == ApprovalState::PendingApproval,
            ),
    {
        self.list_approvals_by_state(ApprovalState::PendingApproval)
    }

    /// Count the approvals in every state partition.
    pub fn get_approval_counts(&self) -> (r: Result<StateCountMap>)
        requires
            self.wf(),
        ensures
            r matches Ok(m) && (forall|s: ApprovalState| #[trigger] m.spec_get(s)
                == self.count_in_state(s)) && m.spec_total() == self.recs().len(),
    {
        let mut counts = StateCountMap::new();
        let n = self.records.len();
        let mut i: usize = 0;
        while i < n
            invariant
                self.wf(),
                n == self.recs().len(),
                0 <= i <= n,
                forall|s: ApprovalState| #[trigger] counts.spec_get(s) == count_of(
                    self.recs().take(i as int),
                    s,
                ),
                forall|s: ApprovalState| #[trigger] counts.spec_get(s) <= i as int,
            decreases n - i,
        {
            proof {
                assert(self.recs().take(i as int + 1) =~= self.recs().take(i as int).push(
                    self.recs()[i as int],
                ));
                assert forall|s: ApprovalState| #[trigger] count_of(
                    self.recs().take(i as int + 1),
                    s,
                ) == count_of(self.recs().take(i as int), s) + if self.recs()[i as int].state
                    == s {
                    1int
                } else {
                    0int
                } by {
                    lemma_count_push(self.recs().take(i as int), self.recs()[i as int], s);
                }
            }
            counts.increment(self.records[i].state);
            i = i + 1;
        }
        proof {
            assert(self.recs().take(n as int) =~= self.recs());
            lemma_partition_counts_sum(self.recs());
        }
        Ok(counts)
    }

    /// Whether file locking was enabled when the store was opened.
    pub closed spec fn locking_enabled(self) -> bool {
        self.enable_file_locking
    }

    /// Perform a health check: `Unhealthy` when more than
    /// `FAILED_UNHEALTHY_THRESHOLD` records have failed, `Degraded` when more
    /// than `PENDING_DEGRADED_THRESHOLD` sit undecided, else `Healthy` (an
    /// empty store is always healthy).
    pub fn health_check(&self) -> (r: Result<HealthCheckResult>)
        requires
            self.wf(),
        ensures
            r matches Ok(h) && {
                &&& (forall|s: ApprovalState| #[trigger] h.counts.spec_get(s)
                    == self.count_in_state(s))
                &&& h.total_workflows == self.recs().len()
                &&& h.root_path@ == self.root()
                &&& h.file_locking_enabled == self.locking_enabled()
                &&& h.status == if self.recs().len() == 0 {
                    HealthStatus::Healthy
                } else if self.count_in_state(ApprovalState::Failed)
                    > FAILED_UNHEALTHY_THRESHOLD as int {
                    HealthStatus::Unhealthy
                } else if self.count_in_state(ApprovalState::PendingApproval)
                    > PENDING_DEGRADED_THRESHOLD as int {
                    HealthStatus::Degraded
                } else {
                    HealthStatus::Healthy
                }
            },
    {
        let counts = match self.get_approval_counts() {
            Ok(c) => c,
            Err(e) => {
                return Err(e);
            },
        };
        let stored = self.records.len();
        proof {
            assert(counts.spec_total() == stored as int);
        }
        let total_workflows = counts.total();
        let status = if total_workflows == 0 {
            HealthStatus::Healthy
        } else if counts.get(ApprovalState::Failed) > FAILED_UNHEALTHY_THRESHOLD {
            HealthStatus::Unhealthy
        } else if counts.get(ApprovalState::PendingApproval) > PENDING_DEGRADED_THRESHOLD {
            HealthStatus::Degraded
        } else {
            HealthStatus::Healthy
        };
        Ok(
            HealthCheckResult {
                status,
                counts,
                total_workflows,
                root_path: self.root_path.clone(),
                file_locking_enabled: self.enable_file_locking,
                last_check: now_millis(),
            },
        )
    }

    /// Find the position of a pending trigger by id.
    fn find_trigger_index(&self, trigger_id: &String) -> (r: Option<usize>)
        requires
            self.wf(),
        ensures
            r matches Some(i) ==> i < self.pending_trigs().len()
                && self.pending_trigs()[i as int].trigger_id == trigger_id@,
            r is None ==> forall|j: int|
                0 <= j < self.pending_trigs().len() ==> (
                #[trigger] self.pending_trigs()[j]).trigger_id != trigger_id@,
    {
        let n = self.triggers.len();
        let mut i: usize = 0;
        while i < n
            invariant
                self.wf(),
                n == self.pending_trigs().len(),
                0 <= i <= n,
                forall|j: int| 0 <= j < i as int ==> (#[trigger] self.pending_trigs()[j]).trigger_id
                    != trigger_id@,
            decreases n - i,
        {
            if self.triggers[i].trigger_id == *trigger_id {
                return Some(i);
            }
            i = i + 1;
        }
        None
    }

    /// Find the position of a processed trigger by id.
    fn find_processed_trigger_index(&self, trigger_id: &String) -> (r: Option<usize>)
        requires
            self.wf(),
        ensures
            r matches Some(i) ==> i < self.processed_trigs().len()
                && self.processed_trigs()[i as int].trigger_id == trigger_id@,
            r is None ==> forall|j: int|
                0 <= j < self.processed_trigs().len() ==> (
                #[trigger] self.processed_trigs()[j]).trigger_id != trigger_id@,
    {
        let n = self.processed_triggers.len();
        let mut i: usize = 0;
        while i < n
            invariant
                self.wf(),
                n == self.processed_trigs().len(),
                0 <= i <= n,
                forall|j: int| 0 <= j < i as int ==> (
                #[trigger] self.processed_trigs()[j]).trigger_id != trigger_id@,
            decreases n - i,
        {
            if self.processed_triggers[i].trigger_id == *trigger_id {
                return Some(i);
            }
            i = i + 1;
        }
        None
    }

    /// Create a batch trigger: a generic request to process up to
    /// `max_tasks` tasks, with no task ids bound at creation time.
    pub fn create_workflow_trigger(&mut self, requested_by: UserId, max_tasks: u32, dry_run: bool)
        -> (r: Result<String>)
        requires
            old(self).wf(),
        ensures
            final(self).wf(),
            final(self).recs() == old(self).recs(),
            final(self).root() == old(self).root(),
            match r {
                Ok(id) => {
                    &&& id@.len() == 36
                    &&& final(self).pending_trigs().len() == old(self).pending_trigs().len() + 1
                    &&& final(self).pending_trigs().last() == (WorkflowTriggerView {
                        trigger_id: id@,
                        requested_by: requested_by.spec_value(),
                        requested_at: final(self).pending_trigs().last().requested_at,
                        max_tasks: max_tasks,
                        dry_run: dry_run,
                        processed: false,
                        processed_at: None::<i64>,
                        result: None::<Seq<char>>,
                    })
                    &&& (forall|i: int|
                        0 <= i < old(self).pending_trigs().len()
                            ==> #[trigger] final(self).pending_trigs()[i] == old(
                            self,
                        ).pending_trigs()[i])
                    &&& final(self).processed_trigs() == old(self).processed_trigs()
                },
                Err(e) => *final(self) == *old(self) && e matches LennardError::IoError(_),
            },
            old(self).pending_trigs().len() == 0 && old(self).processed_trigs().len() == 0 ==> r
                is Ok,
    {
        let trigger_id = crate::ids::fresh_uuid_string();
        if self.find_trigger_index(&trigger_id).is_some()
            || self.find_processed_trigger_index(&trigger_id).is_some() {
            // A random v4 UUID collided with a stored trigger.
            return Err(LennardError::IoError(String::from_str("trigger id collision in store")));
        }
        let trigger = WorkflowTrigger {
            trigger_id: trigger_id.clone(),
            requested_by,
            requested_at: now_millis(),
            max_tasks,
            dry_run,
            processed: false,
            processed_at: None,
            result: None,
        };
        self.triggers.push(trigger);
        proof {
            assert(self.pending_trigs() =~= old(self).pending_trigs().push(
                self.pending_trigs().last(),
            ));
        }
        Ok(trigger_id)
    }

    /// All triggers not yet processed.
    pub fn get_pending_triggers(&self) -> (r: Result<Vec<WorkflowTrigger>>)
        requires
            self.wf(),
        ensures
            r matches Ok(v) && v.deep_view() == self.pending_trigs(),
    {
        let mut triggers: Vec<WorkflowTrigger> = Vec::new();
        let n = self.triggers.len();
        let mut i: usize = 0;
        while i < n
            invariant
                self.wf(),
                n == self.pending_trigs().len(),
                0 <= i <= n,
                triggers@.len() == i as int,
                forall|j: int| 0 <= j < i as int ==> #[trigger] triggers@[j]@
                    == self.pending_trigs()[j],
            decreases n - i,
        {
            triggers.push(self.triggers[i].duplicate());
            i = i + 1;
        }
        proof {
            assert(triggers.deep_view() =~= self.pending_trigs());
        }
        Ok(triggers)
    }

    /// Mark a trigger as processed: it leaves the pending partition, records
    /// the aggregated result text and the processing time, and moves to the
    /// processed partition.  An id with no pending trigger yields `false`.
    pub fn mark_trigger_processed(&mut self, trigger_id: &str, result: String) -> (r: Result<bool>)
        requires
            old(self).wf(),
        ensures
            final(self).wf(),
            final(self).recs() == old(self).recs(),
            final(self).root() == old(self).root(),
            match r {
                Ok(true) => {
                    &&& trig_seq_lookup(old(self).pending_trigs(), trigger_id@) matches Some(t)
                    &&& trig_seq_lookup(final(self).pending_trigs(), trigger_id@) is None
                    &&& final(self).processed_trigs().len() == old(self).processed_trigs().len() + 1
                    &&& final(self).processed_trigs().last() == (WorkflowTriggerView {
                        processed: true,
                        processed_at: final(self).processed_trigs().last().processed_at,
                        result: Some(result@),
                        ..t
                    })
                    &&& final(self).processed_trigs().last().processed_at is Some
                    &&& final(self).pending_trigs().len() == old(self).pending_trigs().len() - 1
                    &&& (forall|id2: Seq<char>|
                        id2 != trigger_id@ ==> #[trigger] trig_seq_lookup(
                            final(self).pending_trigs(),
                            id2,
                        ) == trig_seq_lookup(old(self).pending_trigs(), id2))
                },
                Ok(false) => trig_seq_lookup(old(self).pending_trigs(), trigger_id@) is None
                    && *final(self) == *old(self),
                Err(_) => false,
            },
    {
        let tid = String::from_str(trigger_id);
        match self.find_trigger_index(&tid) {
            Some(i) => {
                proof {
                    lemma_trig_lookup_at(self.pending_trigs(), i as int);
                }
                let mut trigger = self.triggers.remove(i);
                proof {
                    assert(self.pending_trigs() =~= old(self).pending_trigs().remove(i as int));
                    lemma_trig_remove(old(self).pending_trigs(), i as int);
                }
                trigger.processed = true;
                trigger.processed_at = Some(now_millis());
                trigger.result = Some(result);
                self.processed_triggers.push(trigger);
                proof {
                    assert(self.processed_trigs() =~= old(self).processed_trigs().push(
                        self.processed_trigs().last(),
                    ));
                }
                Ok(true)
            },
            None => {
                proof {
                    lemma_trig_none(self.pending_trigs(), trigger_id@);
                }
                Ok(false)
            },
        }
    }

    /// Put a replayed record back into the store, as startup recovery does
    /// after a crash.  A corrupt record (one that breaks the record
    /// invariant) is refused; an id already present is left as it is, so a
    /// crash that duplicated a record across partitions on disk cannot
    /// duplicate it here.
    pub fn restore_approval(&mut self, rec: ApprovalData) -> (r: Result<bool>)
        requires
            old(self).wf(),
        ensures
            final(self).wf(),
            Self::triggers_unchanged(*old(self), *final(self)),
            final(self).root() == old(self).root(),
            match r {
                Ok(true) => {
                    &&& rec@.wf()
                    &&& !old(self).contains_id(rec@.approval_id)
                    &&& final(self).lookup(rec@.approval_id) == Some(rec@)
                    &&& Self::others_unchanged(*old(self), *final(self), rec@.approval_id)
                    &&& final(self).recs().len() == old(self).recs().len() + 1
                },
                Ok(false) => old(self).contains_id(rec@.approval_id) && *final(self) == *old(self),
                Err(e) => !rec@.wf() && *final(self) == *old(self) && e matches
                    LennardError::Deserialization(_),
            },
    {
        if !rec.check_wf() {
            return Err(
                LennardError::Deserialization(String::from_str("corrupt approval record")),
            );
        }
        if self.find_index(&rec.approval_id).is_some() {
            return Ok(false);
        }
        proof {
            lemma_lookup_push(self.recs(), rec@);
        }
        self.records.push(rec);
        proof {
            assert(self.recs() =~= old(self).recs().push(self.recs().last()));
        }
        Ok(true)
    }

    /// A stored record always carries the id it is stored under.
    pub proof fn lemma_lookup_id(self, id: Seq<char>)
        ensures
            self.lookup(id) matches Some(v) ==> v.approval_id == id,
    {
    }

    /// Every stored record is found, in its own state, under its own id.
    pub proof fn lemma_record_in_state(self, i: int)
        requires
            self.wf(),
            0 <= i < self.recs().len(),
        ensures
            self.in_state(self.recs()[i].approval_id, self.recs()[i].state),
    {
        lemma_seq_lookup_at(self.recs(), i);
    }

    /// Write an updated record over the stored one with the same id, as the
    /// improvement watcher does when it moves a revised letter straight into
    /// `AwaitingUserResponse`.  An id with no stored record yields `false`.
    pub fn store_approval_update(&mut self, approval_id: &ApprovalId, updated: ApprovalData) -> (r:
        Result<bool>)
        requires
            old(self).wf(),
            updated@.wf(),
            updated@.approval_id == approval_id@,
        ensures
            final(self).wf(),
            Self::triggers_unchanged(*old(self), *final(self)),
            final(self).root() == old(self).root(),
            match r {
                Ok(true) => {
                    &&& old(self).contains_id(approval_id@)
                    &&& final(self).lookup(approval_id@) == Some(updated@)
                    &&& Self::others_unchanged(*old(self), *final(self), approval_id@)
                    &&& final(self).recs().len() == old(self).recs().len()
                    &&& (forall|st: ApprovalState| #[trigger] final(self).count_in_state(st) == old(
                        self,
                    ).count_in_state(st) - (if old(self).lookup(approval_id@).unwrap().state
                        == st {
                        1int
                    } else {
                        0int
                    }) + (if updated@.state == st {
                        1int
                    } else {
                        0int
                    }))
                },
                Ok(false) => !old(self).contains_id(approval_id@) && *final(self) == *old(self),
                Err(_) => false,
            },
    {
        match self.find_index(approval_id) {
            Some(i) => {
                self.replace_at(i, updated);
                Ok(true)
            },
            None => Ok(false),
        }
    }

    /// Take a record out of the store entirely, as when a watcher archives a
    /// processed approval.
    pub fn remove_approval(&mut self, approval_id: &ApprovalId) -> (r: Option<ApprovalData>)
        requires
            old(self).wf(),
        ensures
            final(self).wf(),
            Self::triggers_unchanged(*old(self), *final(self)),
            final(self).root() == old(self).root(),
            match r {
                Some(d) => {
                    &&& old(self).lookup(approval_id@) == Some(d@)
                    &&& final(self).lookup(approval_id@) is None
                    &&& Self::others_unchanged(*old(self), *final(self), approval_id@)
                    &&& final(self).recs().len() == old(self).recs().len() - 1
                    &&& (forall|st: ApprovalState| #[trigger] final(self).count_in_state(st) == old(
                        self,
                    ).count_in_state(st) - (if d@.state == st {
                        1int
                    } else {
                        0int
                    }))
                },
                None => !old(self).contains_id(approval_id@) && *final(self) == *old(self),
            },
    {
        match self.find_index(approval_id) {
            Some(i) => {
                proof {
                    lemma_lookup_remove(self.recs(), i as int);
                    assert forall|st: ApprovalState| #[trigger] count_of(
                        self.recs().remove(i as int),
                        st,
                    ) == count_of(self.recs(), st) - (if self.recs()[i as int].state == st {
                        1int
                    } else {
                        0int
                    }) by {
                        lemma_count_remove(self.recs(), i as int, st);
                    }
                }
                let rec = self.records.remove(i);
                proof {
                    assert(self.recs() =~= old(self).recs().remove(i as int));
                }
                Some(rec)
            },
            None => None,
        }
    }

    /// Some record currently sitting in `state`, by id, when the partition
    /// is not empty.
    pub fn find_first_in_state(&self, state: ApprovalState) -> (r: Option<ApprovalId>)
        requires
            self.wf(),
        ensures
            match r {
                Some(id) => self.in_state(id@, state),
                None => self.count_in_state(state) == 0,
            },
    {
        let n = self.records.len();
        let mut i: usize = 0;
        while i < n
            invariant
                self.wf(),
                n == self.recs().len(),
                0 <= i <= n,
                forall|j: int| 0 <= j < i as int ==> (#[trigger] self.recs()[j]).state != state,
            decreases n - i,
        {
            if self.records[i].state == state {
                proof {
                    lemma_seq_lookup_at(self.recs(), i as int);
                }
                return Some(
                    ApprovalId::from_raw(String::from_str(self.records[i].approval_id.as_str())),
                );
            }
            i = i + 1;
        }
        proof {
            lemma_count_zero(self.recs(), state);
        }
        None
    }
}

} // verus!
