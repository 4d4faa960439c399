//! Strongly typed identifiers.
//!
//! Each domain id gets its own type so a CRM task id, a contact id, a
//! messaging user id and an approval id can never be mixed up.

use vstd::prelude::*;

verus! {

/// What `uuid::Uuid::parse_str` accepts: the UUID text forms that the uuid
/// crate parses (hyphenated, simple, braced or URN).
pub uninterp spec fn uuid_accepted(s: Seq<char>) -> bool;

/// Relies on `uuid::Uuid::new_v4` and the crate's `Display` impl: a freshly
/// drawn random v4 UUID, rendered in the hyphenated lowercase form, which is
/// always 36 characters long.  The value is random, so nothing more is
/// promised of it.
#[verifier::external_body]
pub(crate) fn fresh_uuid_string() -> (r: String)
    ensures
        r@.len() == 36,
{
    uuid::Uuid::new_v4().to_string()
}

/// Relies on `uuid::Uuid::parse_str`: returns whether the input is a UUID
/// text form that the uuid crate accepts.
#[verifier::external_body]
fn uuid_parse_ok(s: &str) -> (r: bool)
    ensures
        r == uuid_accepted(s@),
{
    uuid::Uuid::parse_str(s).is_ok()
}

/// Strongly typed approval id: a UUID in text form.
#[derive(Debug, Clone, PartialEq, Eq, Hash)]
pub struct ApprovalId(String);

impl View for ApprovalId {
    type V = Seq<char>;

    closed spec fn view(&self) -> Seq<char> {
        self.0@
    }
}

impl ApprovalId {
    /// Draw a fresh random approval id.
    pub fn new() -> (r: Self)
        ensures
            r@.len() == 36,
    {
        ApprovalId(fresh_uuid_string())
    }

    /// Accept an externally supplied id only when it is in UUID form.
    pub fn from_string(s: &str) -> (r: core::result::Result<Self, String>)
        ensures
            r matches Ok(id) ==> id@ == s@ && uuid_accepted(s@),
            r matches Err(m) ==> !uuid_accepted(s@) && m@ == "Invalid ApprovalId format"@,
    {
        if uuid_parse_ok(s) {
            Ok(ApprovalId(String::from_str(s)))
        } else {
            Err(String::from_str("Invalid ApprovalId format"))
        }
    }

    /// Wrap an id that is already trusted to be well formed, as when it comes
    /// back from the messaging channel's callback data.
    pub fn from_raw(s: String) -> (r: Self)
        ensures
            r@ == s@,
    {
        ApprovalId(s)
    }

    pub fn as_str(&self) -> (r: &str)
        ensures
            r@ == self@,
    {
        self.0.as_str()
    }

    /// Whether two approval ids name the same record.
    pub fn same_as(&self, other: &ApprovalId) -> (r: bool)
        ensures
            r == (self@ == other@),
    {
        self.0 == other.0
    }
}

/// Strongly typed CRM task id.
#[derive(Debug, Clone, PartialEq, Eq)]
pub struct TaskId(String);

impl View for TaskId {
    type V = Seq<char>;

    closed spec fn view(&self) -> Seq<char> {
        self.0@
    }
}

impl TaskId {
    pub fn new(id: String) -> (r: Self)
        ensures
            r@ == id@,
    {
        TaskId(id)
    }

    pub fn as_str(&self) -> (r: &str)
        ensures
            r@ == self@,
    {
        self.0.as_str()
    }
}

/// Strongly typed CRM contact id.
#[derive(Debug, Clone, PartialEq, Eq)]
pub struct ContactId(String);

impl View for ContactId {
    type V = Seq<char>;

    closed spec fn view(&self) -> Seq<char> {
        self.0@
    }
}

impl ContactId {
    pub fn new(id: String) -> (r: Self)
        ensures
            r@ == id@,
    {
        ContactId(id)
    }

    pub fn as_str(&self) -> (r: &str)
        ensures
            r@ == self@,
    {
        self.0.as_str()
    }
}

/// Strongly typed messaging-channel user id.
#[derive(Debug, Clone, Copy, PartialEq, Eq, Structural)]
pub struct UserId(i64);

impl UserId {
    pub fn new(id: i64) -> (r: Self)
        ensures
            r.spec_value() == id,
    {
        UserId(id)
    }

    pub fn value(&self) -> (r: i64)
        ensures
            r == self.spec_value(),
    {
        self.0
    }

    /// The underlying number, for contracts.
    pub closed spec fn spec_value(self) -> i64 {
        self.0
    }
}

/// Strongly typed messaging-channel message id.
#[derive(Debug, Clone, Copy, PartialEq, Eq, Structural)]
pub struct TelegramMessageId(i64);

impl TelegramMessageId {
    pub fn new(id: i64) -> (r: Self)
        ensures
            r.spec_value() == id,
    {
        TelegramMessageId(id)
    }

    pub fn value(&self) -> (r: i64)
        ensures
            r == self.spec_value(),
    {
        self.0
    }

    /// The underlying number, for contracts.
    pub closed spec fn spec_value(self) -> i64 {
        self.0
    }
}

/// Strongly typed messaging-channel chat id.
#[derive(Debug, Clone, PartialEq, Eq)]
pub struct TelegramChatId(String);

impl View for TelegramChatId {
    type V = Seq<char>;

    closed spec fn view(&self) -> Seq<char> {
        self.0@
    }
}

impl TelegramChatId {
    pub fn new(id: String) -> (r: Self)
        ensures
            r@ == id@,
    {
        TelegramChatId(id)
    }

    pub fn as_str(&self) -> (r: &str)
        ensures
            r@ == self@,
    {
        self.0.as_str()
    }
}

} // verus!
