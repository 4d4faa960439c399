//! The approval record and its state machine.
//!
//! An `ApprovalData` tracks one drafted letter through the human approval loop:
//! it is created in `PendingApproval`, becomes `AwaitingUserResponse` once the
//! prompt is sent, and from there is either `Approved` (terminal success),
//! sent to `NeedsImprovement` (transient; cycles back to `PendingApproval`
//! with a new letter iteration), or `Failed` (terminal).
//!
//! Record invariant: the letter history is append-only, its iteration numbers
//! are contiguous starting at 1, and `current_letter` always equals the
//! content of the last history entry.

use vstd::prelude::*;
use crate::clock::now_millis;
use crate::ids::{ApprovalId, TaskId, ContactId, UserId, TelegramMessageId, TelegramChatId};
use crate::types::{LetterContent, LetterContentView, MailingAddress, MailingAddressView,
    clone_opt_string};

verus! {

/// The approval state of one approval record.
#[derive(Debug, Clone, Copy, PartialEq, Eq, Hash, Structural)]
pub enum ApprovalState {
    PendingApproval,
    AwaitingUserResponse,
    Approved,
    NeedsImprovement,
    Failed,
}

impl ApprovalState {
    /// The storage partition name that holds records in this state.
    pub fn directory_name(&self) -> (r: &'static str)
        ensures
            *self == ApprovalState::PendingApproval ==> r@ == "pending_approval"@,
            *self == ApprovalState::AwaitingUserResponse ==> r@ == "awaiting_response"@,
            *self == ApprovalState::Approved ==> r@ == "approved"@,
            *self == ApprovalState::NeedsImprovement ==> r@ == "needs_improvement"@,
            *self == ApprovalState::Failed ==> r@ == "failed"@,
    {
        match self {
            ApprovalState::PendingApproval => "pending_approval",
            ApprovalState::AwaitingUserResponse => "awaiting_response",
            ApprovalState::Approved => "approved",
            ApprovalState::NeedsImprovement => "needs_improvement",
            ApprovalState::Failed => "failed",
        }
    }

    /// `Approved` and `Failed` end the approval cycle; nothing transitions out of
    /// them.
    pub open spec fn is_terminal(self) -> bool {
        self == ApprovalState::Approved || self == ApprovalState::Failed
    }
}

/// Free-text feedback a human decider attached when requesting changes.
#[derive(Debug, Clone)]
pub struct Feedback {
    pub text: String,
    pub provided_by: UserId,
    pub provided_at: i64,
}

/// Mathematical image of a `Feedback`.
pub ghost struct FeedbackView {
    pub text: Seq<char>,
    pub provided_by: i64,
    pub provided_at: i64,
}

impl View for Feedback {
    type V = FeedbackView;

    open spec fn view(&self) -> FeedbackView {
        FeedbackView {
            text: self.text@,
            provided_by: self.provided_by.spec_value(),
            provided_at: self.provided_at,
        }
    }
}

impl Feedback {
    /// Copy the feedback, keeping its contents.
    pub fn duplicate(&self) -> (r: Self)
        ensures
            r@ == self@,
    {
        Feedback { text: self.text.clone(), provided_by: self.provided_by, provided_at: self.provided_at }
    }
}

/// The image of an optional feedback.
pub open spec fn feedback_opt_view(o: Option<Feedback>) -> Option<FeedbackView> {
    match o {
        Some(f) => Some(f@),
        None => None,
    }
}

/// One iteration of the letter: its content, the 1-based iteration number,
/// and the feedback (if any) that this iteration later received.
#[derive(Debug, Clone)]
pub struct LetterHistoryEntry {
    pub iteration: u32,
    pub content: LetterContent,
    pub feedback: Option<Feedback>,
    pub created_at: i64,
}

/// Mathematical image of a `LetterHistoryEntry`.
pub ghost struct LetterHistoryEntryView {
    pub iteration: u32,
    pub content: LetterContentView,
    pub feedback: Option<FeedbackView>,
    pub created_at: i64,
}

impl View for LetterHistoryEntry {
    type V = LetterHistoryEntryView;

    open spec fn view(&self) -> LetterHistoryEntryView {
        LetterHistoryEntryView {
            iteration: self.iteration,
            content: self.content@,
            feedback: feedback_opt_view(self.feedback),
            created_at: self.created_at,
        }
    }
}

impl DeepView for LetterHistoryEntry {
    type V = LetterHistoryEntryView;

    open spec fn deep_view(&self) -> LetterHistoryEntryView {
        self.view()
    }
}

impl LetterHistoryEntry {
    /// Copy the entry, keeping its contents.
    pub fn duplicate(&self) -> (r: Self)
        ensures
            r@ == self@,
    {
        let feedback = match &self.feedback {
            Some(f) => Some(f.duplicate()),
            None => None,
        };
        LetterHistoryEntry {
            iteration: self.iteration,
            content: self.content.duplicate(),
            feedback,
            created_at: self.created_at,
        }
    }
}

/// The image of an optional message id.
pub open spec fn msg_opt_view(o: Option<TelegramMessageId>) -> Option<i64> {
    match o {
        Some(m) => Some(m.spec_value()),
        None => None,
    }
}

/// The image of an optional chat id.
pub open spec fn chat_opt_view(o: Option<TelegramChatId>) -> Option<Seq<char>> {
    match o {
        Some(c) => Some(c@),
        None => None,
    }
}

/// The image of an optional mailing address.
pub open spec fn addr_opt_view(o: Option<MailingAddress>) -> Option<MailingAddressView> {
    match o {
        Some(a) => Some(a@),
        None => None,
    }
}

/// The central entity: one letter under approval, with its full revision
/// history and everything the later pipeline steps need (mailing address,
/// the rendered document, dossier texts).
#[derive(Debug, Clone)]
pub struct ApprovalData {
    pub approval_id: ApprovalId,
    pub task_id: TaskId,
    pub contact_id: ContactId,
    pub state: ApprovalState,
    pub recipient_name: String,
    pub recipient_email: Option<String>,
    pub recipient_title: Option<String>,
    pub company_name: String,
    pub current_letter: LetterContent,
    pub letter_history: Vec<LetterHistoryEntry>,
    pub requested_at: i64,
    pub requested_by: UserId,
    pub telegram_message_id: Option<TelegramMessageId>,
    pub telegram_chat_id: Option<TelegramChatId>,
    pub updated_at: i64,
    /// Mailing address for the recipient (needed for document rendering).
    pub mailing_address: Option<MailingAddress>,
    /// Base64-encoded rendered document (generated before the approval
    /// prompt is sent, so the human decider sees the exact artifact to be mailed).
    pub pdf_base64: Option<String>,
    /// Personal dossier content.
    pub person_dossier: Option<String>,
    /// Company dossier content.
    pub company_dossier: Option<String>,
    /// Industry information.
    pub industry: Option<String>,
    /// Company website.
    pub website: Option<String>,
}

/// Mathematical image of an `ApprovalData`.
pub ghost struct ApprovalDataView {
    pub approval_id: Seq<char>,
    pub task_id: Seq<char>,
    pub contact_id: Seq<char>,
    pub state: ApprovalState,
    pub recipient_name: Seq<char>,
    pub recipient_email: Option<Seq<char>>,
    pub recipient_title: Option<Seq<char>>,
    pub company_name: Seq<char>,
    pub current_letter: LetterContentView,
    pub letter_history: Seq<LetterHistoryEntryView>,
    pub requested_at: i64,
    pub requested_by: i64,
    pub telegram_message_id: Option<i64>,
    pub telegram_chat_id: Option<Seq<char>>,
    pub updated_at: i64,
    pub mailing_address: Option<MailingAddressView>,
    pub pdf_base64: Option<Seq<char>>,
    pub person_dossier: Option<Seq<char>>,
    pub company_dossier: Option<Seq<char>>,
    pub industry: Option<Seq<char>>,
    pub website: Option<Seq<char>>,
}

impl View for ApprovalData {
    type V = ApprovalDataView;

    open spec fn view(&self) -> ApprovalDataView {
        ApprovalDataView {
            approval_id: self.approval_id@,
            task_id: self.task_id@,
            contact_id: self.contact_id@,
            state: self.state,
            recipient_name: self.recipient_name@,
            recipient_email: self.recipient_email.deep_view(),
            recipient_title: self.recipient_title.deep_view(),
            company_name: self.company_name@,
            current_letter: self.current_letter@,
            letter_history: self.letter_history.deep_view(),
            requested_at: self.requested_at,
            requested_by: self.requested_by.spec_value(),
            telegram_message_id: msg_opt_view(self.telegram_message_id),
            telegram_chat_id: chat_opt_view(self.telegram_chat_id),
            updated_at: self.updated_at,
            mailing_address: addr_opt_view(self.mailing_address),
            pdf_base64: self.pdf_base64.deep_view(),
            person_dossier: self.person_dossier.deep_view(),
            company_dossier: self.company_dossier.deep_view(),
            industry: self.industry.deep_view(),
            website: self.website.deep_view(),
        }
    }
}

impl DeepView for ApprovalData {
    type V = ApprovalDataView;

    open spec fn deep_view(&self) -> ApprovalDataView {
        self.view()
    }
}

impl ApprovalDataView {
    /// The record invariant: at least one history entry, iteration numbers
    /// contiguous from 1, and the current letter is the last entry's content.
    pub open spec fn wf(self) -> bool {
        &&& 1 <= self.letter_history.len() <= u32::MAX as int
        &&& (forall|i: int|
            0 <= i < self.letter_history.len() ==> (#[trigger] self.letter_history[i].iteration)
                as int == i + 1)
        &&& self.current_letter == self.letter_history.last().content
    }

    /// The parts of a record that no state transition may touch.
    pub open spec fn same_identity(self, other: ApprovalDataView) -> bool {
        &&& self.approval_id == other.approval_id
        &&& self.task_id == other.task_id
        &&& self.contact_id == other.contact_id
        &&& self.recipient_name == other.recipient_name
        &&& self.company_name == other.company_name
        &&& self.requested_at == other.requested_at
        &&& self.requested_by == other.requested_by
    }

    /// Identity plus the optional metadata: everything that neither a state
    /// change, a feedback, a new letter iteration nor a prompt send may
    /// touch.
    pub open spec fn same_meta(self, other: ApprovalDataView) -> bool {
        &&& self.same_identity(other)
        &&& self.recipient_email == other.recipient_email
        &&& self.recipient_title == other.recipient_title
        &&& self.mailing_address == other.mailing_address
        &&& self.pdf_base64 == other.pdf_base64
        &&& self.person_dossier == other.person_dossier
        &&& self.company_dossier == other.company_dossier
        &&& self.industry == other.industry
        &&& self.website == other.website
    }

    /// Every field equal but `state` and `updated_at`: what a bare state
    /// change leaves behind.
    pub open spec fn same_but_state(self, other: ApprovalDataView) -> bool {
        &&& self.same_meta(other)
        &&& self.current_letter == other.current_letter
        &&& self.letter_history == other.letter_history
        &&& self.telegram_message_id == other.telegram_message_id
        &&& self.telegram_chat_id == other.telegram_chat_id
    }
}

impl ApprovalData {
    /// Create a new approval request: fresh random id, state
    /// `PendingApproval`, a one-entry history holding the letter.
    pub fn new(
        task_id: TaskId,
        contact_id: ContactId,
        recipient_name: String,
        company_name: String,
        letter: LetterContent,
        requested_by: UserId,
    ) -> (r: Self)
        ensures
            r@.wf(),
            r@.approval_id.len() == 36,
            r@.task_id == task_id@,
            r@.contact_id == contact_id@,
            r@.state == ApprovalState::PendingApproval,
            r@.recipient_name == recipient_name@,
            r@.company_name == company_name@,
            r@.current_letter == letter@,
            r@.letter_history.len() == 1,
            r@.letter_history[0].content == letter@,
            r@.letter_history[0].feedback is None,
            r@.requested_by == requested_by.spec_value(),
            r@.requested_at == r@.updated_at,
            r@.recipient_email is None,
            r@.recipient_title is None,
            r@.telegram_message_id is None,
            r@.telegram_chat_id is None,
            r@.mailing_address is None,
            r@.pdf_base64 is None,
            r@.person_dossier is None,
            r@.company_dossier is None,
            r@.industry is None,
            r@.website is None,
    {
        let now = now_millis();
        let approval_id = ApprovalId::new();
        let first_entry = LetterHistoryEntry {
            iteration: 1,
            content: letter.duplicate(),
            feedback: None,
            created_at: now,
        };
        let mut letter_history: Vec<LetterHistoryEntry> = Vec::new();
        letter_history.push(first_entry);
        let r = ApprovalData {
            approval_id,
            task_id,
            contact_id,
            state: ApprovalState::PendingApproval,
            recipient_name,
            recipient_email: None,
            recipient_title: None,
            company_name,
            current_letter: letter,
            letter_history,
            requested_at: now,
            requested_by,
            telegram_message_id: None,
            telegram_chat_id: None,
            updated_at: now,
            mailing_address: None,
            pdf_base64: None,
            person_dossier: None,
            company_dossier: None,
            industry: None,
            website: None,
        };
        assert(r@.letter_history =~= seq![r.letter_history@[0]@]);
        r
    }

    /// The current iteration number, which equals the history length.
    pub fn current_iteration(&self) -> (r: u32)
        requires
            self@.wf(),
        ensures
            r as int == self@.letter_history.len(),
    {
        self.letter_history.len() as u32
    }

    /// Attach feedback to the most recent history entry and move the record
    /// to `NeedsImprovement`.  Only the last entry's feedback and the state
    /// change; the letter itself and all earlier history are untouched.
    pub fn add_feedback(&mut self, feedback_text: String, user_id: UserId)
        requires
            old(self)@.wf(),
        ensures
            final(self)@.wf(),
            final(self)@.same_meta(old(self)@),
            final(self)@.state == ApprovalState::NeedsImprovement,
            final(self)@.current_letter == old(self)@.current_letter,
            final(self)@.letter_history.len() == old(self)@.letter_history.len(),
            final(self)@.letter_history.last().content == old(self)@.letter_history.last().content,
            final(self)@.letter_history.last().feedback matches Some(f)
                && f.text == feedback_text@ && f.provided_by == user_id.spec_value(),
            forall|i: int| 0 <= i < old(self)@.letter_history.len() - 1
                ==> #[trigger] final(self)@.letter_history[i] == old(self)@.letter_history[i],
            final(self)@.telegram_message_id == old(self)@.telegram_message_id,
            final(self)@.telegram_chat_id == old(self)@.telegram_chat_id,
    {
        let now = now_millis();
        let feedback = Feedback { text: feedback_text, provided_by: user_id, provided_at: now };
        let mut entry = self.letter_history.pop().unwrap();
        entry.feedback = Some(feedback);
        self.letter_history.push(entry);
        self.state = ApprovalState::NeedsImprovement;
        self.updated_at = now;
        proof {
            let n = old(self).letter_history@.len() as int;
            assert(self.letter_history@.len() == n);
            assert(forall|i: int|
                0 <= i < n - 1 ==> self.letter_history@[i] == old(self).letter_history@[i]);
            assert(forall|i: int|
                0 <= i < n - 1 ==> #[trigger] self.letter_history.deep_view()[i] == old(
                    self,
                ).letter_history.deep_view()[i]);
            assert(self.letter_history.deep_view()[n - 1] == entry@);
            assert(1 <= self.letter_history.deep_view().len() <= u32::MAX as int);
            assert forall|i: int| 0 <= i < n implies (#[trigger] self.letter_history.deep_view()[i].iteration)
                as int == i + 1 by {
                if i < n - 1 {
                    assert(self.letter_history.deep_view()[i] == old(self).letter_history.deep_view()[i]);
                    assert(old(self)@.letter_history[i].iteration as int == i + 1);
                } else {
                    assert(old(self)@.letter_history[n - 1].iteration as int == n);
                }
            }
            assert(self.current_letter@ == self.letter_history.deep_view().last().content);
        }
    }

    /// Append an improved letter as a new history iteration: the iteration
    /// count grows by exactly one, the record returns to `PendingApproval`,
    /// and the stale messaging-channel references are cleared.
    pub fn add_improved_letter(&mut self, improved_letter: LetterContent)
        requires
            old(self)@.wf(),
            old(self)@.letter_history.len() < u32::MAX as int,
        ensures
            final(self)@.wf(),
            final(self)@.same_meta(old(self)@),
            final(self)@.state == ApprovalState::PendingApproval,
            final(self)@.current_letter == improved_letter@,
            final(self)@.letter_history.len() == old(self)@.letter_history.len() + 1,
            final(self)@.letter_history.last().content == improved_letter@,
            final(self)@.letter_history.last().feedback is None,
            forall|i: int| 0 <= i < old(self)@.letter_history.len()
                ==> #[trigger] final(self)@.letter_history[i] == old(self)@.letter_history[i],
            final(self)@.telegram_message_id is None,
            final(self)@.telegram_chat_id is None,
    {
        let now = now_millis();
        let iteration = self.current_iteration();
        let new_entry = LetterHistoryEntry {
            iteration: iteration + 1,
            content: improved_letter.duplicate(),
            feedback: None,
            created_at: now,
        };
        self.letter_history.push(new_entry);
        self.current_letter = improved_letter;
        self.state = ApprovalState::PendingApproval;
        self.updated_at = now;
        self.telegram_message_id = None;
        self.telegram_chat_id = None;
        assert(final(self)@.letter_history =~= old(self)@.letter_history.push(
            final(self)@.letter_history.last(),
        ));
    }

    /// Record that the approval prompt went out: store the message and chat
    /// reference and move to `AwaitingUserResponse`.
    pub fn mark_sent_to_telegram(&mut self, message_id: TelegramMessageId, chat_id: TelegramChatId)
        requires
            old(self)@.wf(),
        ensures
            final(self)@.wf(),
            final(self)@.same_meta(old(self)@),
            final(self)@.state == ApprovalState::AwaitingUserResponse,
            final(self)@.telegram_message_id == Some(message_id.spec_value()),
            final(self)@.telegram_chat_id == Some(chat_id@),
            final(self)@.current_letter == old(self)@.current_letter,
            final(self)@.letter_history == old(self)@.letter_history,
    {
        self.telegram_message_id = Some(message_id);
        self.telegram_chat_id = Some(chat_id);
        self.state = ApprovalState::AwaitingUserResponse;
        self.updated_at = now_millis();
    }

    /// Move to `AwaitingUserResponse` without storing a message reference,
    /// for channels that do not report one.
    pub fn set_awaiting_response(&mut self)
        requires
            old(self)@.wf(),
        ensures
            final(self)@.wf(),
            final(self)@.same_but_state(old(self)@),
            final(self)@.state == ApprovalState::AwaitingUserResponse,
    {
        self.state = ApprovalState::AwaitingUserResponse;
        self.updated_at = now_millis();
    }

    /// The human decider approved the letter.
    pub fn mark_approved(&mut self)
        requires
            old(self)@.wf(),
        ensures
            final(self)@.wf(),
            final(self)@.same_but_state(old(self)@),
            final(self)@.state == ApprovalState::Approved,
    {
        self.state = ApprovalState::Approved;
        self.updated_at = now_millis();
    }

    /// The record failed; `Failed` is terminal.
    pub fn mark_failed(&mut self)
        requires
            old(self)@.wf(),
        ensures
            final(self)@.wf(),
            final(self)@.same_but_state(old(self)@),
            final(self)@.state == ApprovalState::Failed,
    {
        self.state = ApprovalState::Failed;
        self.updated_at = now_millis();
    }

    /// Decide the record invariant at runtime, as when a replayed record of
    /// unknown provenance is offered to the store.
    pub fn check_wf(&self) -> (r: bool)
        ensures
            r == self@.wf(),
    {
        let n = self.letter_history.len();
        proof {
            assert(self@.letter_history.len() == self.letter_history@.len());
        }
        if n == 0 || n > u32::MAX as usize {
            return false;
        }
        let mut i: usize = 0;
        while i < n
            invariant
                n == self.letter_history@.len(),
                n <= u32::MAX as usize,
                0 <= i <= n,
                forall|k: int|
                    0 <= k < i as int ==> (#[trigger] self@.letter_history[k].iteration) as int == k
                        + 1,
            decreases n - i,
        {
            proof {
                assert(self@.letter_history[i as int] == self.letter_history@[i as int]@);
            }
            if self.letter_history[i].iteration as usize != i + 1 {
                proof {
                    assert(self@.letter_history[i as int].iteration as int != i as int + 1);
                    assert(!self@.wf());
                }
                return false;
            }
            i = i + 1;
        }
        proof {
            assert(self@.letter_history.last() == self.letter_history@[n - 1]@);
        }
        self.current_letter.same_content(&self.letter_history[n - 1].content)
    }

    /// Copy the record, keeping its contents.
    pub fn duplicate(&self) -> (r: Self)
        ensures
            r@ == self@,
    {
        let mut letter_history: Vec<LetterHistoryEntry> = Vec::new();
        let mut i: usize = 0;
        while i < self.letter_history.len()
            invariant
                0 <= i <= self.letter_history.len(),
                letter_history@.len() == i as int,
                forall|j: int|
                    0 <= j < i as int ==> #[trigger] letter_history@[j]@
                        == self.letter_history@[j]@,
            decreases self.letter_history.len() - i,
        {
            letter_history.push(self.letter_history[i].duplicate());
            i = i + 1;
        }
        assert(letter_history.deep_view() =~= self.letter_history.deep_view());
        let telegram_chat_id = match &self.telegram_chat_id {
            Some(c) => Some(TelegramChatId::new(String::from_str(c.as_str()))),
            None => None,
        };
        let r = ApprovalData {
            approval_id: ApprovalId::from_raw(String::from_str(self.approval_id.as_str())),
            task_id: TaskId::new(String::from_str(self.task_id.as_str())),
            contact_id: ContactId::new(String::from_str(self.contact_id.as_str())),
            state: self.state,
            recipient_name: self.recipient_name.clone(),
            recipient_email: clone_opt_string(&self.recipient_email),
            recipient_title: clone_opt_string(&self.recipient_title),
            company_name: self.company_name.clone(),
            current_letter: self.current_letter.duplicate(),
            letter_history,
            requested_at: self.requested_at,
            requested_by: self.requested_by,
            telegram_message_id: self.telegram_message_id,
            telegram_chat_id,
            updated_at: self.updated_at,
            mailing_address: MailingAddress::clone_opt(&self.mailing_address),
            pdf_base64: clone_opt_string(&self.pdf_base64),
            person_dossier: clone_opt_string(&self.person_dossier),
            company_dossier: clone_opt_string(&self.company_dossier),
            industry: clone_opt_string(&self.industry),
            website: clone_opt_string(&self.website),
        };
        r
    }
}

/// The current letter always equals the content of the last history entry:
/// this holds of every well-formed record, and every mutating operation above
/// both requires and re-establishes well-formedness.
pub proof fn lemma_current_letter_is_last_history_content(d: ApprovalDataView)
    requires
        d.wf(),
    ensures
        d.letter_history.len() >= 1,
        d.current_letter == d.letter_history.last().content,
{
}

/// Health check status.
#[derive(Debug, Clone, Copy, PartialEq, Eq, Structural)]
pub enum HealthStatus {
    Healthy,
    Degraded,
    Unhealthy,
}

/// Counts of approval records per state.
#[derive(Debug, Clone)]
pub struct StateCountMap {
    pending: usize,
    awaiting: usize,
    approved: usize,
    needs_improvement: usize,
    failed: usize,
}

impl StateCountMap {
    /// The count recorded for one state.
    pub closed spec fn spec_get(self, state: ApprovalState) -> int {
        match state {
            ApprovalState::PendingApproval => self.pending as int,
            ApprovalState::AwaitingUserResponse => self.awaiting as int,
            ApprovalState::Approved => self.approved as int,
            ApprovalState::NeedsImprovement => self.needs_improvement as int,
            ApprovalState::Failed => self.failed as int,
        }
    }

    /// The sum of all five counts.
    pub open spec fn spec_total(self) -> int {
        self.spec_get(ApprovalState::PendingApproval) + self.spec_get(
            ApprovalState::AwaitingUserResponse,
        ) + self.spec_get(ApprovalState::Approved) + self.spec_get(
            ApprovalState::NeedsImprovement,
        ) + self.spec_get(ApprovalState::Failed)
    }

    pub fn new() -> (r: Self)
        ensures
            forall|s: ApprovalState| r.spec_get(s) == 0,
    {
        StateCountMap { pending: 0, awaiting: 0, approved: 0, needs_improvement: 0, failed: 0 }
    }

    /// Add one to a state's count.
    pub fn increment(&mut self, state: ApprovalState)
        requires
            old(self).spec_get(state) < usize::MAX,
        ensures
            final(self).spec_get(state) == old(self).spec_get(state) + 1,
            forall|s: ApprovalState| s != state ==> final(self).spec_get(s) == old(self).spec_get(s),
    {
        match state {
            ApprovalState::PendingApproval => {
                self.pending = self.pending + 1;
            },
            ApprovalState::AwaitingUserResponse => {
                self.awaiting = self.awaiting + 1;
            },
            ApprovalState::Approved => {
                self.approved = self.approved + 1;
            },
            ApprovalState::NeedsImprovement => {
                self.needs_improvement = self.needs_improvement + 1;
            },
            ApprovalState::Failed => {
                self.failed = self.failed + 1;
            },
        }
    }

    pub fn get(&self, state: ApprovalState) -> (r: usize)
        ensures
            r as int == self.spec_get(state),
    {
        match state {
            ApprovalState::PendingApproval => self.pending,
            ApprovalState::AwaitingUserResponse => self.awaiting,
            ApprovalState::Approved => self.approved,
            ApprovalState::NeedsImprovement => self.needs_improvement,
            ApprovalState::Failed => self.failed,
        }
    }

    pub fn total(&self) -> (r: usize)
        requires
            self.spec_total() <= usize::MAX,
        ensures
            r as int == self.spec_total(),
    {
        self.pending + self.awaiting + self.approved + self.needs_improvement + self.failed
    }
}

/// Health check result: the per-state counts and the status derived from
/// them.
#[derive(Debug, Clone)]
pub struct HealthCheckResult {
    pub status: HealthStatus,
    pub counts: StateCountMap,
    pub total_workflows: usize,
    pub root_path: String,
    pub file_locking_enabled: bool,
    pub last_check: i64,
}

/// One batch invocation request.  Task selection is deferred to execution
/// time: the trigger carries only a task limit, not task ids.
#[derive(Debug, Clone)]
pub struct WorkflowTrigger {
    pub trigger_id: String,
    pub requested_by: UserId,
    pub requested_at: i64,
    pub max_tasks: u32,
    pub dry_run: bool,
    pub processed: bool,
    pub processed_at: Option<i64>,
    pub result: Option<String>,
}

/// Mathematical image of a `WorkflowTrigger`.
pub ghost struct WorkflowTriggerView {
    pub trigger_id: Seq<char>,
    pub requested_by: i64,
    pub requested_at: i64,
    pub max_tasks: u32,
    pub dry_run: bool,
    pub processed: bool,
    pub processed_at: Option<i64>,
    pub result: Option<Seq<char>>,
}

impl View for WorkflowTrigger {
    type V = WorkflowTriggerView;

    open spec fn view(&self) -> WorkflowTriggerView {
        WorkflowTriggerView {
            trigger_id: self.trigger_id@,
            requested_by: self.requested_by.spec_value(),
            requested_at: self.requested_at,
            max_tasks: self.max_tasks,
            dry_run: self.dry_run,
            processed: self.processed,
            processed_at: self.processed_at,
            result: self.result.deep_view(),
        }
    }
}

impl DeepView for WorkflowTrigger {
    type V = WorkflowTriggerView;

    open spec fn deep_view(&self) -> WorkflowTriggerView {
        self.view()
    }
}

impl WorkflowTrigger {
    /// Copy the trigger, keeping its contents.
    pub fn duplicate(&self) -> (r: Self)
        ensures
            r@ == self@,
    {
        WorkflowTrigger {
            trigger_id: self.trigger_id.clone(),
            requested_by: self.requested_by,
            requested_at: self.requested_at,
            max_tasks: self.max_tasks,
            dry_run: self.dry_run,
            processed: self.processed,
            processed_at: self.processed_at,
            result: clone_opt_string(&self.result),
        }
    }
}

} // verus!
