//! The persisted form of an approval record, and its proved round trip.
//!
//! A record is written as a flat, length-prefixed text: numbers in decimal
//! closed by `;`, strings as their length followed by their characters,
//! options as an `N`/`S` tag, the state as one letter.  Parsing an emitted
//! record returns the record, field for field — the round trip is proved
//! below — so the store can crash and replay without ever corrupting a
//! record silently.

use vstd::prelude::*;
use crate::approval::{ApprovalData, ApprovalDataView, ApprovalState, Feedback, FeedbackView,
    LetterHistoryEntry, LetterHistoryEntryView, feedback_opt_view};
use crate::ids::{ApprovalId, ContactId, TaskId, TelegramChatId, TelegramMessageId, UserId};
use crate::text::{dec_digit, dec_of, u64_to_string};
use crate::types::{LetterContent, LetterContentView, MailingAddress, MailingAddressView};

verus! {

pub open spec fn is_digit(c: char) -> bool {
    c == '0' || c == '1' || c == '2' || c == '3' || c == '4' || c == '5' || c == '6' || c == '7'
        || c == '8' || c == '9'
}

pub open spec fn digit_val(c: char) -> int {
    if c == '0' {
        0
    } else if c == '1' {
        1
    } else if c == '2' {
        2
    } else if c == '3' {
        3
    } else if c == '4' {
        4
    } else if c == '5' {
        5
    } else if c == '6' {
        6
    } else if c == '7' {
        7
    } else if c == '8' {
        8
    } else if c == '9' {
        9
    } else {
        10
    }
}

/// The number a digit string denotes.
pub open spec fn dec_val(d: Seq<char>) -> int
    decreases d.len(),
{
    if d.len() == 0 {
        0
    } else {
        dec_val(d.drop_last()) * 10 + digit_val(d.last())
    }
}

proof fn lemma_dec_of_digits(n: nat)
    ensures
        forall|k: int| 0 <= k < dec_of(n).len() ==> is_digit(#[trigger] dec_of(n)[k]),
        dec_of(n).len() >= 1,
    decreases n,
{
    if n < 10 {
        assert(is_digit(dec_digit(n as int)));
    } else {
        lemma_dec_of_digits(n / 10);
        assert(is_digit(dec_digit((n % 10) as int)));
        assert forall|k: int| 0 <= k < dec_of(n).len() implies is_digit(#[trigger] dec_of(n)[k])
            by {
            if k < dec_of(n).len() - 1 {
                assert(dec_of(n)[k] == dec_of(n / 10)[k]);
            } else {
                assert(dec_of(n)[k] == dec_digit((n % 10) as int));
            }
        }
    }
}

proof fn lemma_digit_val_of_digit(m: int)
    requires
        0 <= m < 10,
    ensures
        digit_val(dec_digit(m)) == m,
{
    if m == 0 {
        assert(dec_digit(m) == '0');
    } else if m == 1 {
        assert(dec_digit(m) == '1');
    } else if m == 2 {
        assert(dec_digit(m) == '2');
    } else if m == 3 {
        assert(dec_digit(m) == '3');
    } else if m == 4 {
        assert(dec_digit(m) == '4');
    } else if m == 5 {
        assert(dec_digit(m) == '5');
    } else if m == 6 {
        assert(dec_digit(m) == '6');
    } else if m == 7 {
        assert(dec_digit(m) == '7');
    } else if m == 8 {
        assert(dec_digit(m) == '8');
    } else {
        assert(dec_digit(m) == '9');
    }
}

proof fn lemma_dec_val_of(n: nat)
    ensures
        dec_val(dec_of(n)) == n,
    decreases n,
{
    if n < 10 {
        assert(dec_of(n).drop_last() =~= Seq::<char>::empty());
        lemma_digit_val_of_digit(n as int);
        assert(dec_of(n).last() == dec_digit(n as int));
        assert(dec_val(Seq::<char>::empty()) == 0);
        assert(dec_val(dec_of(n)) == dec_val(dec_of(n).drop_last()) * 10 + digit_val(
            dec_of(n).last(),
        ));
    } else {
        lemma_dec_val_of(n / 10);
        assert(dec_of(n).drop_last() =~= dec_of(n / 10));
        lemma_digit_val_of_digit((n % 10) as int);
        assert(dec_of(n).last() == dec_digit((n % 10) as int));
    }
}

proof fn lemma_dec_val_nonneg(d: Seq<char>)
    ensures
        dec_val(d) >= 0,
    decreases d.len(),
{
    if d.len() > 0 {
        lemma_dec_val_nonneg(d.drop_last());
    }
}

/// More digits never denote a smaller number.
pub(crate) proof fn lemma_dec_val_take(d: Seq<char>, k: int)
    requires
        0 <= k <= d.len(),
    ensures
        dec_val(d.take(k)) <= dec_val(d),
    decreases d.len() - k,
{
    if k == d.len() {
        assert(d.take(k) =~= d);
    } else {
        lemma_dec_val_take(d, k + 1);
        assert(d.take(k + 1).drop_last() =~= d.take(k));
        assert(dec_val(d.take(k + 1)) == dec_val(d.take(k)) * 10 + digit_val(d.take(k + 1).last()));
        lemma_dec_val_nonneg(d.take(k));
    }
}

/// The position of the first non-digit in `s` at or after `i`, or the
/// length.
pub open spec fn digits_end(s: Seq<char>, i: int) -> int
    decreases s.len() - i,
{
    if i < 0 || i >= s.len() {
        s.len() as int
    } else if is_digit(s[i]) {
        digits_end(s, i + 1)
    } else {
        i
    }
}

proof fn lemma_digits_end_at(s: Seq<char>, i: int, j: int)
    requires
        0 <= i <= j <= s.len(),
        forall|k: int| i <= k < j ==> is_digit(#[trigger] s[k]),
        j < s.len() ==> !is_digit(s[j]),
    ensures
        digits_end(s, i) == if j < s.len() {
            j
        } else {
            s.len() as int
        },
    decreases j - i,
{
    if i < j {
        lemma_digits_end_at(s, i + 1, j);
    }
}

/// A number, emitted: its decimal digits closed by `;`.
pub open spec fn ser_nat(n: nat) -> Seq<char> {
    dec_of(n) + seq![';']
}

/// Parse a number at `i`: a non-empty digit run, closed by `;`, whose value
/// fits a machine word.
pub open spec fn p_nat(s: Seq<char>, i: int) -> Option<(nat, int)> {
    let j = digits_end(s, i);
    if 0 <= i < j && j < s.len() && s[j] == ';' && dec_val(s.subrange(i, j)) <= u64::MAX as int {
        Some(((dec_val(s.subrange(i, j)) as nat), j + 1))
    } else {
        None
    }
}

proof fn lemma_rt_nat(s: Seq<char>, i: int, n: nat)
    requires
        n <= u64::MAX,
        0 <= i,
        i + ser_nat(n).len() <= s.len(),
        s.subrange(i, i + ser_nat(n).len() as int) == ser_nat(n),
    ensures
        p_nat(s, i) == Some((n, i + ser_nat(n).len() as int)),
{
    let d = dec_of(n);
    let k = d.len() as int;
    lemma_dec_of_digits(n);
    assert forall|m: int| i <= m < i + k implies is_digit(#[trigger] s[m]) by {
        assert(s[m] == s.subrange(i, i + k + 1)[m - i]);
        assert(ser_nat(n)[m - i] == d[m - i]);
    }
    assert(s[i + k] == s.subrange(i, i + k + 1)[k]);
    assert(s[i + k] == ';');
    lemma_digits_end_at(s, i, i + k);
    assert(digits_end(s, i) == i + k);
    assert(s.subrange(i, i + k) =~= d) by {
        assert forall|m: int| 0 <= m < k implies s.subrange(i, i + k)[m] == d[m] by {
            assert(s.subrange(i, i + k)[m] == s[i + m]);
            assert(s[i + m] == s.subrange(i, i + k + 1)[m]);
        }
    }
    lemma_dec_val_of(n);
}

/// A signed number, emitted: a sign letter and the magnitude.
pub open spec fn ser_i64(v: i64) -> Seq<char> {
    if v < 0 {
        seq!['n'] + ser_nat((-(v as int)) as nat)
    } else {
        seq!['p'] + ser_nat(v as nat)
    }
}

pub open spec fn p_i64(s: Seq<char>, i: int) -> Option<(i64, int)> {
    if 0 <= i < s.len() {
        if s[i] == 'p' {
            match p_nat(s, i + 1) {
                Some((n, j)) => if n <= i64::MAX as nat {
                    Some((n as i64, j))
                } else {
                    None
                },
                None => None,
            }
        } else if s[i] == 'n' {
            match p_nat(s, i + 1) {
                Some((n, j)) => if n <= 0x8000_0000_0000_0000 as nat && n > 0 {
                    Some(((-(n as int)) as i64, j))
                } else {
                    None
                },
                None => None,
            }
        } else {
            None
        }
    } else {
        None
    }
}

proof fn lemma_rt_i64(s: Seq<char>, i: int, v: i64)
    requires
        0 <= i,
        i + ser_i64(v).len() <= s.len(),
        s.subrange(i, i + ser_i64(v).len() as int) == ser_i64(v),
    ensures
        p_i64(s, i) == Some((v, i + ser_i64(v).len() as int)),
{
    let e = ser_i64(v);
    let k = e.len() as int;
    assert(s[i] == s.subrange(i, i + k)[0]);
    if v < 0 {
        let n = (-(v as int)) as nat;
        assert(s.subrange(i + 1, i + 1 + ser_nat(n).len() as int) =~= ser_nat(n)) by {
            assert forall|m: int| 0 <= m < ser_nat(n).len() implies s.subrange(
                i + 1,
                i + 1 + ser_nat(n).len() as int,
            )[m] == ser_nat(n)[m] by {
                assert(s.subrange(i + 1, i + 1 + ser_nat(n).len() as int)[m] == s[i + 1 + m]);
                assert(s[i + 1 + m] == s.subrange(i, i + k)[1 + m]);
            }
        }
        lemma_rt_nat(s, i + 1, n);
    } else {
        let n = v as nat;
        assert(s.subrange(i + 1, i + 1 + ser_nat(n).len() as int) =~= ser_nat(n)) by {
            assert forall|m: int| 0 <= m < ser_nat(n).len() implies s.subrange(
                i + 1,
                i + 1 + ser_nat(n).len() as int,
            )[m] == ser_nat(n)[m] by {
                assert(s.subrange(i + 1, i + 1 + ser_nat(n).len() as int)[m] == s[i + 1 + m]);
                assert(s[i + 1 + m] == s.subrange(i, i + k)[1 + m]);
            }
        }
        lemma_rt_nat(s, i + 1, n);
    }
}

/// A string, emitted: its length, then its characters.
pub open spec fn ser_str(t: Seq<char>) -> Seq<char> {
    ser_nat(t.len()) + t
}

pub open spec fn p_str(s: Seq<char>, i: int) -> Option<(Seq<char>, int)> {
    match p_nat(s, i) {
        Some((n, j)) => if j + n <= s.len() {
            Some((s.subrange(j, j + n), j + n))
        } else {
            None
        },
        None => None,
    }
}

proof fn lemma_rt_str(s: Seq<char>, i: int, t: Seq<char>)
    requires
        t.len() <= u64::MAX,
        0 <= i,
        i + ser_str(t).len() <= s.len(),
        s.subrange(i, i + ser_str(t).len() as int) == ser_str(t),
    ensures
        p_str(s, i) == Some((t, i + ser_str(t).len() as int)),
{
    let h = ser_nat(t.len());
    let hk = h.len() as int;
    let k = ser_str(t).len() as int;
    assert(s.subrange(i, i + hk) =~= h) by {
        assert forall|m: int| 0 <= m < hk implies s.subrange(i, i + hk)[m] == h[m] by {
            assert(s.subrange(i, i + hk)[m] == s[i + m]);
            assert(s[i + m] == s.subrange(i, i + k)[m]);
        }
    }
    lemma_rt_nat(s, i, t.len());
    assert(s.subrange(i + hk, i + hk + t.len() as int) =~= t) by {
        assert forall|m: int| 0 <= m < t.len() implies s.subrange(
            i + hk,
            i + hk + t.len() as int,
        )[m] == t[m] by {
            assert(s.subrange(i + hk, i + hk + t.len() as int)[m] == s[i + hk + m]);
            assert(s[i + hk + m] == s.subrange(i, i + k)[hk + m]);
            assert(ser_str(t)[hk + m] == t[m]);
        }
    }
}

/// Splitting an emitted pair off a position: each half sits at its offset.
proof fn lemma_split(s: Seq<char>, i: int, x: Seq<char>, y: Seq<char>)
    requires
        0 <= i,
        i + x.len() + y.len() <= s.len(),
        s.subrange(i, i + x.len() + y.len()) == x + y,
    ensures
        s.subrange(i, i + x.len() as int) == x,
        s.subrange(i + x.len(), i + x.len() + y.len()) == y,
{
    assert(s.subrange(i, i + x.len() as int) =~= x) by {
        assert forall|m: int| 0 <= m < x.len() implies s.subrange(i, i + x.len() as int)[m]
            == x[m] by {
            assert(s.subrange(i, i + x.len() as int)[m] == s[i + m]);
            assert(s[i + m] == s.subrange(i, i + x.len() + y.len())[m]);
            assert((x + y)[m] == x[m]);
        }
    }
    assert(s.subrange(i + x.len(), i + x.len() + y.len()) =~= y) by {
        assert forall|m: int| 0 <= m < y.len() implies s.subrange(
            i + x.len(),
            i + x.len() + y.len(),
        )[m] == y[m] by {
            assert(s.subrange(i + x.len(), i + x.len() + y.len())[m] == s[i + x.len() + m]);
            assert(s[i + x.len() + m] == s.subrange(i, i + x.len() + y.len())[x.len() + m]);
            assert((x + y)[x.len() + m] == y[m]);
        }
    }
}

/// An optional string, emitted: `N`, or `S` and the string.
pub open spec fn ser_opt_str(o: Option<Seq<char>>) -> Seq<char> {
    match o {
        None => seq!['N'],
        Some(t) => seq!['S'] + ser_str(t),
    }
}

pub open spec fn p_opt_str(s: Seq<char>, i: int) -> Option<(Option<Seq<char>>, int)> {
    if 0 <= i < s.len() {
        if s[i] == 'N' {
            Some((None, i + 1))
        } else if s[i] == 'S' {
            match p_str(s, i + 1) {
                Some((t, j)) => Some((Some(t), j)),
                None => None,
            }
        } else {
            None
        }
    } else {
        None
    }
}

proof fn lemma_rt_opt_str(s: Seq<char>, i: int, o: Option<Seq<char>>)
    requires
        o matches Some(t) ==> t.len() <= u64::MAX,
        0 <= i,
        i + ser_opt_str(o).len() <= s.len(),
        s.subrange(i, i + ser_opt_str(o).len() as int) == ser_opt_str(o),
    ensures
        p_opt_str(s, i) == Some((o, i + ser_opt_str(o).len() as int)),
{
    match o {
        None => {
            assert(s[i] == s.subrange(i, i + 1)[0]);
        },
        Some(t) => {
            lemma_split(s, i, seq!['S'], ser_str(t));
            assert(s[i] == s.subrange(i, i + 1)[0]);
            lemma_rt_str(s, i + 1, t);
        },
    }
}

/// An optional number, emitted: `N`, or `S` and the number.
pub open spec fn ser_opt_i64(o: Option<i64>) -> Seq<char> {
    match o {
        None => seq!['N'],
        Some(v) => seq!['S'] + ser_i64(v),
    }
}

pub open spec fn p_opt_i64(s: Seq<char>, i: int) -> Option<(Option<i64>, int)> {
    if 0 <= i < s.len() {
        if s[i] == 'N' {
            Some((None, i + 1))
        } else if s[i] == 'S' {
            match p_i64(s, i + 1) {
                Some((v, j)) => Some((Some(v), j)),
                None => None,
            }
        } else {
            None
        }
    } else {
        None
    }
}

proof fn lemma_rt_opt_i64(s: Seq<char>, i: int, o: Option<i64>)
    requires
        0 <= i,
        i + ser_opt_i64(o).len() <= s.len(),
        s.subrange(i, i + ser_opt_i64(o).len() as int) == ser_opt_i64(o),
    ensures
        p_opt_i64(s, i) == Some((o, i + ser_opt_i64(o).len() as int)),
{
    match o {
        None => {
            assert(s[i] == s.subrange(i, i + 1)[0]);
        },
        Some(v) => {
            lemma_split(s, i, seq!['S'], ser_i64(v));
            assert(s[i] == s.subrange(i, i + 1)[0]);
            lemma_rt_i64(s, i + 1, v);
        },
    }
}

/// The state, emitted as one letter.
pub open spec fn state_char(st: ApprovalState) -> char {
    match st {
        ApprovalState::PendingApproval => 'P',
        ApprovalState::AwaitingUserResponse => 'W',
        ApprovalState::Approved => 'A',
        ApprovalState::NeedsImprovement => 'I',
        ApprovalState::Failed => 'F',
    }
}

pub open spec fn ser_state(st: ApprovalState) -> Seq<char> {
    seq![state_char(st)]
}

pub open spec fn p_state(s: Seq<char>, i: int) -> Option<(ApprovalState, int)> {
    if 0 <= i < s.len() {
        if s[i] == 'P' {
            Some((ApprovalState::PendingApproval, i + 1))
        } else if s[i] == 'W' {
            Some((ApprovalState::AwaitingUserResponse, i + 1))
        } else if s[i] == 'A' {
            Some((ApprovalState::Approved, i + 1))
        } else if s[i] == 'I' {
            Some((ApprovalState::NeedsImprovement, i + 1))
        } else if s[i] == 'F' {
            Some((ApprovalState::Failed, i + 1))
        } else {
            None
        }
    } else {
        None
    }
}

proof fn lemma_rt_state(s: Seq<char>, i: int, st: ApprovalState)
    requires
        0 <= i,
        i + 1 <= s.len(),
        s.subrange(i, i + 1) == ser_state(st),
    ensures
        p_state(s, i) == Some((st, i + 1)),
{
    assert(s[i] == s.subrange(i, i + 1)[0]);
}

/// A letter, emitted: its six fields in order.
pub open spec fn ser_letter(l: LetterContentView) -> Seq<char> {
    ser_str(l.subject) + ser_str(l.greeting) + ser_str(l.body) + ser_str(l.sender_name) + ser_str(
        l.recipient_name,
    ) + ser_str(l.company_name)
}

pub open spec fn letter_bounded(l: LetterContentView) -> bool {
    &&& l.subject.len() <= u64::MAX
    &&& l.greeting.len() <= u64::MAX
    &&& l.body.len() <= u64::MAX
    &&& l.sender_name.len() <= u64::MAX
    &&& l.recipient_name.len() <= u64::MAX
    &&& l.company_name.len() <= u64::MAX
}

pub open spec fn p_letter(s: Seq<char>, i: int) -> Option<(LetterContentView, int)> {
    match p_str(s, i) {
        Some((subject, i1)) => match p_str(s, i1) {
            Some((greeting, i2)) => match p_str(s, i2) {
                Some((body, i3)) => match p_str(s, i3) {
                    Some((sender_name, i4)) => match p_str(s, i4) {
                        Some((recipient_name, i5)) => match p_str(s, i5) {
                            Some((company_name, i6)) => Some(
                                (
                                    LetterContentView {
                                        subject,
                                        greeting,
                                        body,
                                        sender_name,
                                        recipient_name,
                                        company_name,
                                    },
                                    i6,
                                ),
                            ),
                            None => None,
                        },
                        None => None,
                    },
                    None => None,
                },
                None => None,
            },
            None => None,
        },
        None => None,
    }
}

proof fn lemma_rt_letter(s: Seq<char>, i: int, l: LetterContentView)
    requires
        letter_bounded(l),
        0 <= i,
        i + ser_letter(l).len() <= s.len(),
        s.subrange(i, i + ser_letter(l).len() as int) == ser_letter(l),
    ensures
        p_letter(s, i) == Some((l, i + ser_letter(l).len() as int)),
{
    let e1 = ser_str(l.subject);
    let e2 = ser_str(l.greeting);
    let e3 = ser_str(l.body);
    let e4 = ser_str(l.sender_name);
    let e5 = ser_str(l.recipient_name);
    let e6 = ser_str(l.company_name);
    assert(ser_letter(l) =~= e1 + (e2 + (e3 + (e4 + (e5 + e6)))));
    lemma_split(s, i, e1, e2 + (e3 + (e4 + (e5 + e6))));
    let i1 = i + e1.len();
    lemma_split(s, i1, e2, e3 + (e4 + (e5 + e6)));
    let i2 = i1 + e2.len();
    lemma_split(s, i2, e3, e4 + (e5 + e6));
    let i3 = i2 + e3.len();
    lemma_split(s, i3, e4, e5 + e6);
    let i4 = i3 + e4.len();
    lemma_split(s, i4, e5, e6);
    let i5 = i4 + e5.len();
    lemma_rt_str(s, i, l.subject);
    lemma_rt_str(s, i1, l.greeting);
    lemma_rt_str(s, i2, l.body);
    lemma_rt_str(s, i3, l.sender_name);
    lemma_rt_str(s, i4, l.recipient_name);
    lemma_rt_str(s, i5, l.company_name);
}

/// A feedback, emitted: text, author, time.
pub open spec fn ser_feedback(f: FeedbackView) -> Seq<char> {
    ser_str(f.text) + ser_i64(f.provided_by) + ser_i64(f.provided_at)
}

pub open spec fn p_feedback(s: Seq<char>, i: int) -> Option<(FeedbackView, int)> {
    match p_str(s, i) {
        Some((text, i1)) => match p_i64(s, i1) {
            Some((provided_by, i2)) => match p_i64(s, i2) {
                Some((provided_at, i3)) => Some(
                    (FeedbackView { text, provided_by, provided_at }, i3),
                ),
                None => None,
            },
            None => None,
        },
        None => None,
    }
}

proof fn lemma_rt_feedback(s: Seq<char>, i: int, f: FeedbackView)
    requires
        f.text.len() <= u64::MAX,
        0 <= i,
        i + ser_feedback(f).len() <= s.len(),
        s.subrange(i, i + ser_feedback(f).len() as int) == ser_feedback(f),
    ensures
        p_feedback(s, i) == Some((f, i + ser_feedback(f).len() as int)),
{
    let e1 = ser_str(f.text);
    let e2 = ser_i64(f.provided_by);
    let e3 = ser_i64(f.provided_at);
    assert(ser_feedback(f) =~= e1 + (e2 + e3));
    lemma_split(s, i, e1, e2 + e3);
    let i1 = i + e1.len();
    lemma_split(s, i1, e2, e3);
    let i2 = i1 + e2.len();
    lemma_rt_str(s, i, f.text);
    lemma_rt_i64(s, i1, f.provided_by);
    lemma_rt_i64(s, i2, f.provided_at);
}

/// An optional feedback, emitted with the option tag.
pub open spec fn ser_opt_feedback(o: Option<FeedbackView>) -> Seq<char> {
    match o {
        None => seq!['N'],
        Some(f) => seq!['S'] + ser_feedback(f),
    }
}

pub open spec fn p_opt_feedback(s: Seq<char>, i: int) -> Option<(Option<FeedbackView>, int)> {
    if 0 <= i < s.len() {
        if s[i] == 'N' {
            Some((None, i + 1))
        } else if s[i] == 'S' {
            match p_feedback(s, i + 1) {
                Some((f, j)) => Some((Some(f), j)),
                None => None,
            }
        } else {
            None
        }
    } else {
        None
    }
}

proof fn lemma_rt_opt_feedback(s: Seq<char>, i: int, o: Option<FeedbackView>)
    requires
        o matches Some(f) ==> f.text.len() <= u64::MAX,
        0 <= i,
        i + ser_opt_feedback(o).len() <= s.len(),
        s.subrange(i, i + ser_opt_feedback(o).len() as int) == ser_opt_feedback(o),
    ensures
        p_opt_feedback(s, i) == Some((o, i + ser_opt_feedback(o).len() as int)),
{
    match o {
        None => {
            assert(s[i] == s.subrange(i, i + 1)[0]);
        },
        Some(f) => {
            lemma_split(s, i, seq!['S'], ser_feedback(f));
            assert(s[i] == s.subrange(i, i + 1)[0]);
            lemma_rt_feedback(s, i + 1, f);
        },
    }
}

/// A history entry, emitted: iteration, content, feedback, time.
pub open spec fn ser_entry(e: LetterHistoryEntryView) -> Seq<char> {
    ser_nat(e.iteration as nat) + ser_letter(e.content) + ser_opt_feedback(e.feedback) + ser_i64(
        e.created_at,
    )
}

pub open spec fn entry_bounded(e: LetterHistoryEntryView) -> bool {
    &&& letter_bounded(e.content)
    &&& (e.feedback matches Some(f) ==> f.text.len() <= u64::MAX)
}

pub open spec fn p_entry(s: Seq<char>, i: int) -> Option<(LetterHistoryEntryView, int)> {
    match p_nat(s, i) {
        Some((iteration, i1)) => if iteration <= u32::MAX as nat {
            match p_letter(s, i1) {
                Some((content, i2)) => match p_opt_feedback(s, i2) {
                    Some((feedback, i3)) => match p_i64(s, i3) {
                        Some((created_at, i4)) => Some(
                            (
                                LetterHistoryEntryView {
                                    iteration: iteration as u32,
                                    content,
                                    feedback,
                                    created_at,
                                },
                                i4,
                            ),
                        ),
                        None => None,
                    },
                    None => None,
                },
                None => None,
            }
        } else {
            None
        },
        None => None,
    }
}

proof fn lemma_rt_entry(s: Seq<char>, i: int, e: LetterHistoryEntryView)
    requires
        entry_bounded(e),
        0 <= i,
        i + ser_entry(e).len() <= s.len(),
        s.subrange(i, i + ser_entry(e).len() as int) == ser_entry(e),
    ensures
        p_entry(s, i) == Some((e, i + ser_entry(e).len() as int)),
{
    let e1 = ser_nat(e.iteration as nat);
    let e2 = ser_letter(e.content);
    let e3 = ser_opt_feedback(e.feedback);
    let e4 = ser_i64(e.created_at);
    assert(ser_entry(e) =~= e1 + (e2 + (e3 + e4)));
    lemma_split(s, i, e1, e2 + (e3 + e4));
    let i1 = i + e1.len();
    lemma_split(s, i1, e2, e3 + e4);
    let i2 = i1 + e2.len();
    lemma_split(s, i2, e3, e4);
    let i3 = i2 + e3.len();
    lemma_rt_nat(s, i, e.iteration as nat);
    lemma_rt_letter(s, i1, e.content);
    lemma_rt_opt_feedback(s, i2, e.feedback);
    lemma_rt_i64(s, i3, e.created_at);
}

/// A run of history entries, front first.
pub open spec fn ser_entries(es: Seq<LetterHistoryEntryView>) -> Seq<char>
    decreases es.len(),
{
    if es.len() == 0 {
        Seq::<char>::empty()
    } else {
        ser_entry(es.first()) + ser_entries(es.drop_first())
    }
}

pub open spec fn p_entries(s: Seq<char>, i: int, n: nat) -> Option<
    (Seq<LetterHistoryEntryView>, int),
>
    decreases n,
{
    if n == 0 {
        Some((Seq::<LetterHistoryEntryView>::empty(), i))
    } else {
        match p_entry(s, i) {
            Some((e, j)) => match p_entries(s, j, (n - 1) as nat) {
                Some((rest, k)) => Some((seq![e] + rest, k)),
                None => None,
            },
            None => None,
        }
    }
}

pub open spec fn entries_bounded(es: Seq<LetterHistoryEntryView>) -> bool {
    forall|k: int| 0 <= k < es.len() ==> entry_bounded(#[trigger] es[k])
}

proof fn lemma_rt_entries(s: Seq<char>, i: int, es: Seq<LetterHistoryEntryView>)
    requires
        entries_bounded(es),
        0 <= i,
        i + ser_entries(es).len() <= s.len(),
        s.subrange(i, i + ser_entries(es).len() as int) == ser_entries(es),
    ensures
        p_entries(s, i, es.len()) == Some((es, i + ser_entries(es).len() as int)),
    decreases es.len(),
{
    if es.len() == 0 {
        assert(es =~= Seq::<LetterHistoryEntryView>::empty());
    } else {
        let e1 = ser_entry(es.first());
        let rest = ser_entries(es.drop_first());
        lemma_split(s, i, e1, rest);
        lemma_rt_entry(s, i, es.first());
        assert(entries_bounded(es.drop_first())) by {
            assert forall|k: int| 0 <= k < es.drop_first().len() implies entry_bounded(
                #[trigger] es.drop_first()[k],
            ) by {
                assert(es.drop_first()[k] == es[k + 1]);
            }
        }
        lemma_rt_entries(s, i + e1.len(), es.drop_first());
        assert(es =~= seq![es.first()] + es.drop_first());
    }
}

/// A mailing address, emitted: its five fields.
pub open spec fn ser_addr(a: MailingAddressView) -> Seq<char> {
    ser_str(a.street) + ser_str(a.city) + ser_opt_str(a.state) + ser_str(a.postal_code) + ser_str(
        a.country,
    )
}

pub open spec fn addr_bounded(a: MailingAddressView) -> bool {
    &&& a.street.len() <= u64::MAX
    &&& a.city.len() <= u64::MAX
    &&& (a.state matches Some(t) ==> t.len() <= u64::MAX)
    &&& a.postal_code.len() <= u64::MAX
    &&& a.country.len() <= u64::MAX
}

pub open spec fn p_addr(s: Seq<char>, i: int) -> Option<(MailingAddressView, int)> {
    match p_str(s, i) {
        Some((street, i1)) => match p_str(s, i1) {
            Some((city, i2)) => match p_opt_str(s, i2) {
                Some((state, i3)) => match p_str(s, i3) {
                    Some((postal_code, i4)) => match p_str(s, i4) {
                        Some((country, i5)) => Some(
                            (MailingAddressView { street, city, state, postal_code, country }, i5),
                        ),
                        None => None,
                    },
                    None => None,
                },
                None => None,
            },
            None => None,
        },
        None => None,
    }
}

proof fn lemma_rt_addr(s: Seq<char>, i: int, a: MailingAddressView)
    requires
        addr_bounded(a),
        0 <= i,
        i + ser_addr(a).len() <= s.len(),
        s.subrange(i, i + ser_addr(a).len() as int) == ser_addr(a),
    ensures
        p_addr(s, i) == Some((a, i + ser_addr(a).len() as int)),
{
    let e1 = ser_str(a.street);
    let e2 = ser_str(a.city);
    let e3 = ser_opt_str(a.state);
    let e4 = ser_str(a.postal_code);
    let e5 = ser_str(a.country);
    assert(ser_addr(a) =~= e1 + (e2 + (e3 + (e4 + e5))));
    lemma_split(s, i, e1, e2 + (e3 + (e4 + e5)));
    let i1 = i + e1.len();
    lemma_split(s, i1, e2, e3 + (e4 + e5));
    let i2 = i1 + e2.len();
    lemma_split(s, i2, e3, e4 + e5);
    let i3 = i2 + e3.len();
    lemma_split(s, i3, e4, e5);
    let i4 = i3 + e4.len();
    lemma_rt_str(s, i, a.street);
    lemma_rt_str(s, i1, a.city);
    lemma_rt_opt_str(s, i2, a.state);
    lemma_rt_str(s, i3, a.postal_code);
    lemma_rt_str(s, i4, a.country);
}

/// An optional address, emitted with the option tag.
pub open spec fn ser_opt_addr(o: Option<MailingAddressView>) -> Seq<char> {
    match o {
        None => seq!['N'],
        Some(a) => seq!['S'] + ser_addr(a),
    }
}

pub open spec fn p_opt_addr(s: Seq<char>, i: int) -> Option<(Option<MailingAddressView>, int)> {
    if 0 <= i < s.len() {
        if s[i] == 'N' {
            Some((None, i + 1))
        } else if s[i] == 'S' {
            match p_addr(s, i + 1) {
                Some((a, j)) => Some((Some(a), j)),
                None => None,
            }
        } else {
            None
        }
    } else {
        None
    }
}

proof fn lemma_rt_opt_addr(s: Seq<char>, i: int, o: Option<MailingAddressView>)
    requires
        o matches Some(a) ==> addr_bounded(a),
        0 <= i,
        i + ser_opt_addr(o).len() <= s.len(),
        s.subrange(i, i + ser_opt_addr(o).len() as int) == ser_opt_addr(o),
    ensures
        p_opt_addr(s, i) == Some((o, i + ser_opt_addr(o).len() as int)),
{
    match o {
        None => {
            assert(s[i] == s.subrange(i, i + 1)[0]);
        },
        Some(a) => {
            lemma_split(s, i, seq!['S'], ser_addr(a));
            assert(s[i] == s.subrange(i, i + 1)[0]);
            lemma_rt_addr(s, i + 1, a);
        },
    }
}

/// The letter history, emitted: its length, then its entries.
pub open spec fn ser_history(es: Seq<LetterHistoryEntryView>) -> Seq<char> {
    ser_nat(es.len()) + ser_entries(es)
}

pub open spec fn p_history(s: Seq<char>, i: int) -> Option<(Seq<LetterHistoryEntryView>, int)> {
    match p_nat(s, i) {
        Some((n, j)) => p_entries(s, j, n),
        None => None,
    }
}

proof fn lemma_rt_history(s: Seq<char>, i: int, es: Seq<LetterHistoryEntryView>)
    requires
        es.len() <= u64::MAX,
        entries_bounded(es),
        0 <= i,
        i + ser_history(es).len() <= s.len(),
        s.subrange(i, i + ser_history(es).len() as int) == ser_history(es),
    ensures
        p_history(s, i) == Some((es, i + ser_history(es).len() as int)),
{
    lemma_split(s, i, ser_nat(es.len()), ser_entries(es));
    lemma_rt_nat(s, i, es.len());
    lemma_rt_entries(s, i + ser_nat(es.len()).len(), es);
}

/// What a record must fit into to be written out: every piece of text, and
/// the history length, fits a machine word.  Every record the library
/// actually builds satisfies this by construction.
pub open spec fn approval_bounded(v: ApprovalDataView) -> bool {
    &&& v.approval_id.len() <= u64::MAX
    &&& v.task_id.len() <= u64::MAX
    &&& v.contact_id.len() <= u64::MAX
    &&& v.recipient_name.len() <= u64::MAX
    &&& (v.recipient_email matches Some(t) ==> t.len() <= u64::MAX)
    &&& (v.recipient_title matches Some(t) ==> t.len() <= u64::MAX)
    &&& v.company_name.len() <= u64::MAX
    &&& letter_bounded(v.current_letter)
    &&& v.letter_history.len() <= u64::MAX
    &&& entries_bounded(v.letter_history)
    &&& (v.telegram_chat_id matches Some(t) ==> t.len() <= u64::MAX)
    &&& (v.mailing_address matches Some(a) ==> addr_bounded(a))
    &&& (v.pdf_base64 matches Some(t) ==> t.len() <= u64::MAX)
    &&& (v.person_dossier matches Some(t) ==> t.len() <= u64::MAX)
    &&& (v.company_dossier matches Some(t) ==> t.len() <= u64::MAX)
    &&& (v.industry matches Some(t) ==> t.len() <= u64::MAX)
    &&& (v.website matches Some(t) ==> t.len() <= u64::MAX)
}

/// A whole approval record, emitted field by field in a fixed order.
pub open spec fn ser_approval(v: ApprovalDataView) -> Seq<char> {
    ser_str(v.approval_id) + (ser_str(v.task_id) + (ser_str(v.contact_id) + (ser_state(v.state) + (
    ser_str(v.recipient_name) + (ser_opt_str(v.recipient_email) + (ser_opt_str(v.recipient_title)
        + (ser_str(v.company_name) + (ser_letter(v.current_letter) + (ser_history(
        v.letter_history,
    ) + (ser_i64(v.requested_at) + (ser_i64(v.requested_by) + (ser_opt_i64(v.telegram_message_id)
        + (ser_opt_str(v.telegram_chat_id) + (ser_i64(v.updated_at) + (ser_opt_addr(
        v.mailing_address,
    ) + (ser_opt_str(v.pdf_base64) + (ser_opt_str(v.person_dossier) + (ser_opt_str(
        v.company_dossier,
    ) + (ser_opt_str(v.industry) + ser_opt_str(v.website))))))))))))))))))))
}

pub open spec fn p_approval(s: Seq<char>, i: int) -> Option<(ApprovalDataView, int)> {
    match p_str(s, i) {
        Some((approval_id, i1)) => match p_str(s, i1) {
            Some((task_id, i2)) => match p_str(s, i2) {
                Some((contact_id, i3)) => match p_state(s, i3) {
                    Some((state, i4)) => match p_str(s, i4) {
                        Some((recipient_name, i5)) => match p_opt_str(s, i5) {
                            Some((recipient_email, i6)) => match p_opt_str(s, i6) {
                                Some((recipient_title, i7)) => match p_str(s, i7) {
                                    Some((company_name, i8)) => match p_letter(s, i8) {
                                        Some((current_letter, i9)) => match p_history(s, i9) {
                                            Some((letter_history, i10)) => match p_i64(s, i10) {
                                                Some((requested_at, i11)) => match p_i64(s, i11) {
                                                    Some((requested_by, i12)) => match p_opt_i64(
                                                        s,
                                                        i12,
                                                    ) {
                                                        Some((telegram_message_id, i13)) => match
                                                            p_opt_str(s, i13) {
                                                            Some((telegram_chat_id, i14)) => match
                                                                p_i64(s, i14) {
                                                                Some((updated_at, i15)) => match
                                                                    p_opt_addr(s, i15) {
                                                                    Some(
                                                                        (mailing_address, i16),
                                                                    ) => match p_opt_str(s, i16) {
                                                                        Some(
                                                                            (pdf_base64, i17),
                                                                        ) => match p_opt_str(
                                                                            s,
                                                                            i17,
                                                                        ) {
                                                                            Some(
                                                                                (
                                                                                    person_dossier,
                                                                                    i18,
                                                                                ),
                                                                            ) => match p_opt_str(
                                                                                s,
                                                                                i18,
                                                                            ) {
                                                                                Some(
                                                                                    (
                                                                                        company_dossier,
                                                                                        i19,
                                                                                    ),
                                                                                ) => match
                                                                                    p_opt_str(
                                                                                    s,
                                                                                    i19,
                                                                                ) {
                                                                                    Some(
                                                                                        (
                                                                                            industry,
                                                                                            i20,
                                                                                        ),
                                                                                    ) => match
                                                                                        p_opt_str(
                                                                                        s,
                                                                                        i20,
                                                                                    ) {
                                                                                        Some(
                                                                                            (
                                                                                                website,
                                                                                                i21,
                                                                                            ),
                                                                                        ) => Some(
                                                                                            (
                                                                                                ApprovalDataView {
                                                                                                    approval_id,
                                                                                                    task_id,
                                                                                                    contact_id,
                                                                                                    state,
                                                                                                    recipient_name,
                                                                                                    recipient_email,
                                                                                                    recipient_title,
                                                                                                    company_name,
                                                                                                    current_letter,
                                                                                                    letter_history,
                                                                                                    requested_at,
                                                                                                    requested_by,
                                                                                                    telegram_message_id,
                                                                                                    telegram_chat_id,
                                                                                                    updated_at,
                                                                                                    mailing_address,
                                                                                                    pdf_base64,
                                                                                                    person_dossier,
                                                                                                    company_dossier,
                                                                                                    industry,
                                                                                                    website,
                                                                                                },
                                                                                                i21,
                                                                                            ),
                                                                                        ),
                                                                                        None
                                                                                            => None,
                                                                                    },
                                                                                    None => None,
                                                                                },
                                                                                None => None,
                                                                            },
                                                                            None => None,
                                                                        },
                                                                        None => None,
                                                                    },
                                                                    None => None,
                                                                },
                                                                None => None,
                                                            },
                                                            None => None,
                                                        },
                                                        None => None,
                                                    },
                                                    None => None,
                                                },
                                                None => None,
                                            },
                                            None => None,
                                        },
                                        None => None,
                                    },
                                    None => None,
                                },
                                None => None,
                            },
                            None => None,
                        },
                        None => None,
                    },
                    None => None,
                },
                None => None,
            },
            None => None,
        },
        None => None,
    }
}

#[verifier::rlimit(100)]
#[verifier::spinoff_prover]
proof fn lemma_rt_approval(s: Seq<char>, i: int, v: ApprovalDataView)
    requires
        approval_bounded(v),
        0 <= i,
        i + ser_approval(v).len() <= s.len(),
        s.subrange(i, i + ser_approval(v).len() as int) == ser_approval(v),
    ensures
        p_approval(s, i) == Some((v, i + ser_approval(v).len() as int)),
{
    let e1 = ser_str(v.approval_id);
    let e2 = ser_str(v.task_id);
    let e3 = ser_str(v.contact_id);
    let e4 = ser_state(v.state);
    let e5 = ser_str(v.recipient_name);
    let e6 = ser_opt_str(v.recipient_email);
    let e7 = ser_opt_str(v.recipient_title);
    let e8 = ser_str(v.company_name);
    let e9 = ser_letter(v.current_letter);
    let e10 = ser_history(v.letter_history);
    let e11 = ser_i64(v.requested_at);
    let e12 = ser_i64(v.requested_by);
    let e13 = ser_opt_i64(v.telegram_message_id);
    let e14 = ser_opt_str(v.telegram_chat_id);
    let e15 = ser_i64(v.updated_at);
    let e16 = ser_opt_addr(v.mailing_address);
    let e17 = ser_opt_str(v.pdf_base64);
    let e18 = ser_opt_str(v.person_dossier);
    let e19 = ser_opt_str(v.company_dossier);
    let e20 = ser_opt_str(v.industry);
    let e21 = ser_opt_str(v.website);
    lemma_split(
        s,
        i,
        e1,
        e2 + (e3 + (e4 + (e5 + (e6 + (e7 + (e8 + (e9 + (e10 + (e11 + (e12 + (e13 + (e14 + (e15 + (
        e16 + (e17 + (e18 + (e19 + (e20 + e21)))))))))))))))))),
    );
    let i1 = i + e1.len();
    lemma_split(
        s,
        i1,
        e2,
        e3 + (e4 + (e5 + (e6 + (e7 + (e8 + (e9 + (e10 + (e11 + (e12 + (e13 + (e14 + (e15 + (e16 + (
        e17 + (e18 + (e19 + (e20 + e21))))))))))))))))),
    );
    let i2 = i1 + e2.len();
    lemma_split(
        s,
        i2,
        e3,
        e4 + (e5 + (e6 + (e7 + (e8 + (e9 + (e10 + (e11 + (e12 + (e13 + (e14 + (e15 + (e16 + (e17 + (
        e18 + (e19 + (e20 + e21)))))))))))))))),
    );
    let i3 = i2 + e3.len();
    lemma_split(
        s,
        i3,
        e4,
        e5 + (e6 + (e7 + (e8 + (e9 + (e10 + (e11 + (e12 + (e13 + (e14 + (e15 + (e16 + (e17 + (e18 + (
        e19 + (e20 + e21))))))))))))))),
    );
    let i4 = i3 + e4.len();
    lemma_split(
        s,
        i4,
        e5,
        e6 + (e7 + (e8 + (e9 + (e10 + (e11 + (e12 + (e13 + (e14 + (e15 + (e16 + (e17 + (e18 + (e19 + (
        e20 + e21)))))))))))))),
    );
    let i5 = i4 + e5.len();
    lemma_split(
        s,
        i5,
        e6,
        e7 + (e8 + (e9 + (e10 + (e11 + (e12 + (e13 + (e14 + (e15 + (e16 + (e17 + (e18 + (e19 + (e20
            + e21))))))))))))),
    );
    let i6 = i5 + e6.len();
    lemma_split(
        s,
        i6,
        e7,
        e8 + (e9 + (e10 + (e11 + (e12 + (e13 + (e14 + (e15 + (e16 + (e17 + (e18 + (e19 + (e20 + e21
        )))))))))))),
    );
    let i7 = i6 + e7.len();
    lemma_split(
        s,
        i7,
        e8,
        e9 + (e10 + (e11 + (e12 + (e13 + (e14 + (e15 + (e16 + (e17 + (e18 + (e19 + (e20 + e21
        ))))))))))),
    );
    let i8 = i7 + e8.len();
    lemma_split(
        s,
        i8,
        e9,
        e10 + (e11 + (e12 + (e13 + (e14 + (e15 + (e16 + (e17 + (e18 + (e19 + (e20 + e21)))))))))),
    );
    let i9 = i8 + e9.len();
    lemma_split(
        s,
        i9,
        e10,
        e11 + (e12 + (e13 + (e14 + (e15 + (e16 + (e17 + (e18 + (e19 + (e20 + e21))))))))),
    );
    let i10 = i9 + e10.len();
    lemma_split(
        s,
        i10,
        e11,
        e12 + (e13 + (e14 + (e15 + (e16 + (e17 + (e18 + (e19 + (e20 + e21)))))))),
    );
    let i11 = i10 + e11.len();
    lemma_split(s, i11, e12, e13 + (e14 + (e15 + (e16 + (e17 + (e18 + (e19 + (e20 + e21))))))));
    let i12 = i11 + e12.len();
    lemma_split(s, i12, e13, e14 + (e15 + (e16 + (e17 + (e18 + (e19 + (e20 + e21)))))));
    let i13 = i12 + e13.len();
    lemma_split(s, i13, e14, e15 + (e16 + (e17 + (e18 + (e19 + (e20 + e21))))));
    let i14 = i13 + e14.len();
    lemma_split(s, i14, e15, e16 + (e17 + (e18 + (e19 + (e20 + e21)))));
    let i15 = i14 + e15.len();
    lemma_split(s, i15, e16, e17 + (e18 + (e19 + (e20 + e21))));
    let i16 = i15 + e16.len();
    lemma_split(s, i16, e17, e18 + (e19 + (e20 + e21)));
    let i17 = i16 + e17.len();
    lemma_split(s, i17, e18, e19 + (e20 + e21));
    let i18 = i17 + e18.len();
    lemma_split(s, i18, e19, e20 + e21);
    let i19 = i18 + e19.len();
    lemma_split(s, i19, e20, e21);
    let i20 = i19 + e20.len();
    lemma_rt_str(s, i, v.approval_id);
    lemma_rt_str(s, i1, v.task_id);
    lemma_rt_str(s, i2, v.contact_id);
    lemma_rt_state(s, i3, v.state);
    lemma_rt_str(s, i4, v.recipient_name);
    lemma_rt_opt_str(s, i5, v.recipient_email);
    lemma_rt_opt_str(s, i6, v.recipient_title);
    lemma_rt_str(s, i7, v.company_name);
    lemma_rt_letter(s, i8, v.current_letter);
    lemma_rt_history(s, i9, v.letter_history);
    lemma_rt_i64(s, i10, v.requested_at);
    lemma_rt_i64(s, i11, v.requested_by);
    lemma_rt_opt_i64(s, i12, v.telegram_message_id);
    lemma_rt_opt_str(s, i13, v.telegram_chat_id);
    lemma_rt_i64(s, i14, v.updated_at);
    lemma_rt_opt_addr(s, i15, v.mailing_address);
    lemma_rt_opt_str(s, i16, v.pdf_base64);
    lemma_rt_opt_str(s, i17, v.person_dossier);
    lemma_rt_opt_str(s, i18, v.company_dossier);
    lemma_rt_opt_str(s, i19, v.industry);
    lemma_rt_opt_str(s, i20, v.website);
}

/// A whole persisted record, parsed: the parse must consume the text to its
/// end.
pub open spec fn parse_approval_full(s: Seq<char>) -> Option<ApprovalDataView> {
    match p_approval(s, 0) {
        Some((v, p)) => if p == s.len() {
            Some(v)
        } else {
            None
        },
        None => None,
    }
}

/// Serializing a record and parsing the result yields the record again,
/// equal in every field, nested history and optional fields included.
pub proof fn lemma_approval_round_trip(v: ApprovalDataView)
    requires
        approval_bounded(v),
    ensures
        parse_approval_full(ser_approval(v)) == Some(v),
{
    let s = ser_approval(v);
    assert(s.subrange(0, s.len() as int) =~= s);
    lemma_rt_approval(s, 0, v);
}

fn emit_nat(n: u64) -> (r: String)
    ensures
        r@ == ser_nat(n as nat),
{
    let r = u64_to_string(n).concat(";");
    proof {
        reveal_strlit(";");
        assert(r@ =~= ser_nat(n as nat));
    }
    r
}

fn emit_str(t: &str) -> (r: String)
    ensures
        r@ == ser_str(t@),
{
    let r = emit_nat(t.unicode_len() as u64).concat(t);
    proof {
        assert(r@ =~= ser_str(t@));
    }
    r
}

fn emit_i64(v: i64) -> (r: String)
    ensures
        r@ == ser_i64(v),
{
    if v >= 0 {
        let r = String::from_str("p").concat(emit_nat(v as u64).as_str());
        proof {
            reveal_strlit("p");
            assert(r@ =~= ser_i64(v));
        }
        r
    } else {
        let m: u64 = if v == i64::MIN {
            9223372036854775808u64
        } else {
            (-v) as u64
        };
        let r = String::from_str("n").concat(emit_nat(m).as_str());
        proof {
            reveal_strlit("n");
            assert(m as int == -(v as int));
            assert(r@ =~= ser_i64(v));
        }
        r
    }
}

fn emit_opt_str(o: Option<&str>) -> (r: String)
    ensures
        r@ == ser_opt_str(
            match o {
                Some(t) => Some(t@),
                None => None,
            },
        ),
{
    match o {
        None => {
            let r = String::from_str("N");
            proof {
                reveal_strlit("N");
                assert(r@ =~= seq!['N']);
            }
            r
        },
        Some(t) => {
            let r = String::from_str("S").concat(emit_str(t).as_str());
            proof {
                reveal_strlit("S");
                assert(r@ =~= seq!['S'] + ser_str(t@));
            }
            r
        },
    }
}

fn emit_opt_i64(o: Option<i64>) -> (r: String)
    ensures
        r@ == ser_opt_i64(o),
{
    match o {
        None => {
            let r = String::from_str("N");
            proof {
                reveal_strlit("N");
                assert(r@ =~= seq!['N']);
            }
            r
        },
        Some(v) => {
            let r = String::from_str("S").concat(emit_i64(v).as_str());
            proof {
                reveal_strlit("S");
                assert(r@ =~= seq!['S'] + ser_i64(v));
            }
            r
        },
    }
}

fn emit_state(st: &ApprovalState) -> (r: &'static str)
    ensures
        r@ == ser_state(*st),
{
    let r = match st {
        ApprovalState::PendingApproval => "P",
        ApprovalState::AwaitingUserResponse => "W",
        ApprovalState::Approved => "A",
        ApprovalState::NeedsImprovement => "I",
        ApprovalState::Failed => "F",
    };
    proof {
        reveal_strlit("P");
        reveal_strlit("W");
        reveal_strlit("A");
        reveal_strlit("I");
        reveal_strlit("F");
        assert(r@ =~= ser_state(*st));
    }
    r
}

fn emit_letter(l: &LetterContent) -> (r: String)
    ensures
        r@ == ser_letter(l@),
{
    let r = emit_str(l.subject.as_str()).concat(emit_str(l.greeting.as_str()).as_str()).concat(
        emit_str(l.body.as_str()).as_str(),
    ).concat(emit_str(l.sender_name.as_str()).as_str()).concat(
        emit_str(l.recipient_name.as_str()).as_str(),
    ).concat(emit_str(l.company_name.as_str()).as_str());
    proof {
        assert(r@ =~= ser_letter(l@));
    }
    r
}

fn emit_feedback(f: &Feedback) -> (r: String)
    ensures
        r@ == ser_feedback(f@),
{
    let r = emit_str(f.text.as_str()).concat(emit_i64(f.provided_by.value()).as_str()).concat(
        emit_i64(f.provided_at).as_str(),
    );
    proof {
        assert(r@ =~= ser_feedback(f@));
    }
    r
}

fn emit_opt_feedback(o: &Option<Feedback>) -> (r: String)
    ensures
        r@ == ser_opt_feedback(feedback_opt_view(*o)),
{
    match o {
        None => {
            let r = String::from_str("N");
            proof {
                reveal_strlit("N");
                assert(r@ =~= seq!['N']);
            }
            r
        },
        Some(f) => {
            let r = String::from_str("S").concat(emit_feedback(f).as_str());
            proof {
                reveal_strlit("S");
                assert(r@ =~= seq!['S'] + ser_feedback(f@));
            }
            r
        },
    }
}

fn emit_entry(e: &LetterHistoryEntry) -> (r: String)
    ensures
        r@ == ser_entry(e@),
{
    let r = emit_nat(e.iteration as u64).concat(emit_letter(&e.content).as_str()).concat(
        emit_opt_feedback(&e.feedback).as_str(),
    ).concat(emit_i64(e.created_at).as_str());
    proof {
        assert(r@ =~= ser_entry(e@));
    }
    r
}

proof fn lemma_ser_entries_concat(a: Seq<LetterHistoryEntryView>, b: Seq<LetterHistoryEntryView>)
    ensures
        ser_entries(a + b) == ser_entries(a) + ser_entries(b),
    decreases a.len(),
{
    if a.len() == 0 {
        assert(a + b =~= b);
        assert(ser_entries(a) + ser_entries(b) =~= ser_entries(b));
    } else {
        assert((a + b).first() == a.first());
        assert((a + b).drop_first() =~= a.drop_first() + b);
        lemma_ser_entries_concat(a.drop_first(), b);
        assert(ser_entries(a + b) =~= ser_entries(a) + ser_entries(b));
    }
}

fn emit_history(v: &Vec<LetterHistoryEntry>) -> (r: String)
    ensures
        r@ == ser_history(v.deep_view()),
{
    let mut acc = emit_nat(v.len() as u64);
    let n = v.len();
    let mut i: usize = 0;
    while i < n
        invariant
            n == v@.len(),
            0 <= i <= n,
            acc@ == ser_nat(v.deep_view().len()) + ser_entries(v.deep_view().take(i as int)),
        decreases n - i,
    {
        let piece = emit_entry(&v[i]);
        acc.append(piece.as_str());
        proof {
            assert(v.deep_view().take(i as int + 1) =~= v.deep_view().take(i as int) + seq![
                v.deep_view()[i as int],
            ]);
            lemma_ser_entries_concat(v.deep_view().take(i as int), seq![v.deep_view()[i as int]]);
            assert(ser_entries(seq![v.deep_view()[i as int]]) =~= ser_entry(
                v.deep_view()[i as int],
            )) by {
                assert(seq![v.deep_view()[i as int]].first() == v.deep_view()[i as int]);
                assert(seq![v.deep_view()[i as int]].drop_first()
                    =~= Seq::<LetterHistoryEntryView>::empty());
                assert(ser_entries(Seq::<LetterHistoryEntryView>::empty())
                    =~= Seq::<char>::empty());
            }
            assert(acc@ =~= ser_nat(v.deep_view().len()) + ser_entries(
                v.deep_view().take(i as int + 1),
            ));
        }
        i = i + 1;
    }
    proof {
        assert(v.deep_view().take(n as int) =~= v.deep_view());
    }
    acc
}

fn emit_addr(a: &MailingAddress) -> (r: String)
    ensures
        r@ == ser_addr(a@),
{
    let state_ref = match &a.state {
        Some(t) => Some(t.as_str()),
        None => None,
    };
    let r = emit_str(a.street.as_str()).concat(emit_str(a.city.as_str()).as_str()).concat(
        emit_opt_str(state_ref).as_str(),
    ).concat(emit_str(a.postal_code.as_str()).as_str()).concat(emit_str(a.country.as_str()).as_str());
    proof {
        assert(r@ =~= ser_addr(a@));
    }
    r
}

fn emit_opt_addr(o: &Option<MailingAddress>) -> (r: String)
    ensures
        r@ == ser_opt_addr(crate::approval::addr_opt_view(*o)),
{
    match o {
        None => {
            let r = String::from_str("N");
            proof {
                reveal_strlit("N");
                assert(r@ =~= seq!['N']);
            }
            r
        },
        Some(a) => {
            let r = String::from_str("S").concat(emit_addr(a).as_str());
            proof {
                reveal_strlit("S");
                assert(r@ =~= seq!['S'] + ser_addr(a@));
            }
            r
        },
    }
}

fn opt_string_ref(o: &Option<String>) -> (r: Option<&str>)
    ensures
        match r {
            Some(t) => o.deep_view() == Some(t@),
            None => o.deep_view() is None,
        },
{
    match o {
        Some(t) => Some(t.as_str()),
        None => None,
    }
}

/// Write a record out in its persisted form.
pub fn approval_to_string(d: &ApprovalData) -> (r: String)
    ensures
        r@ == ser_approval(d@),
{
    let msg_id = match &d.telegram_message_id {
        Some(m) => Some(m.value()),
        None => None,
    };
    let chat_ref = match &d.telegram_chat_id {
        Some(c) => Some(c.as_str()),
        None => None,
    };
    let t21 = emit_opt_str(opt_string_ref(&d.website));
    let t20 = emit_opt_str(opt_string_ref(&d.industry)).concat(t21.as_str());
    let t19 = emit_opt_str(opt_string_ref(&d.company_dossier)).concat(t20.as_str());
    let t18 = emit_opt_str(opt_string_ref(&d.person_dossier)).concat(t19.as_str());
    let t17 = emit_opt_str(opt_string_ref(&d.pdf_base64)).concat(t18.as_str());
    let t16 = emit_opt_addr(&d.mailing_address).concat(t17.as_str());
    let t15 = emit_i64(d.updated_at).concat(t16.as_str());
    let t14 = emit_opt_str(chat_ref).concat(t15.as_str());
    let t13 = emit_opt_i64(msg_id).concat(t14.as_str());
    let t12 = emit_i64(d.requested_by.value()).concat(t13.as_str());
    let t11 = emit_i64(d.requested_at).concat(t12.as_str());
    let t10 = emit_history(&d.letter_history).concat(t11.as_str());
    let t9 = emit_letter(&d.current_letter).concat(t10.as_str());
    let t8 = emit_str(d.company_name.as_str()).concat(t9.as_str());
    let t7 = emit_opt_str(opt_string_ref(&d.recipient_title)).concat(t8.as_str());
    let t6 = emit_opt_str(opt_string_ref(&d.recipient_email)).concat(t7.as_str());
    let t5 = emit_str(d.recipient_name.as_str()).concat(t6.as_str());
    let t4 = String::from_str(emit_state(&d.state)).concat(t5.as_str());
    let t3 = emit_str(d.contact_id.as_str()).concat(t4.as_str());
    let t2 = emit_str(d.task_id.as_str()).concat(t3.as_str());
    let out = emit_str(d.approval_id.as_str()).concat(t2.as_str());
    out
}

pub(crate) fn is_digit_exec(c: char) -> (r: bool)
    ensures
        r == is_digit(c),
{
    c == '0' || c == '1' || c == '2' || c == '3' || c == '4' || c == '5' || c == '6' || c == '7'
        || c == '8' || c == '9'
}

pub(crate) fn digit_val_exec(c: char) -> (r: u64)
    requires
        is_digit(c),
    ensures
        r as int == digit_val(c),
        r < 10,
{
    if c == '0' {
        0
    } else if c == '1' {
        1
    } else if c == '2' {
        2
    } else if c == '3' {
        3
    } else if c == '4' {
        4
    } else if c == '5' {
        5
    } else if c == '6' {
        6
    } else if c == '7' {
        7
    } else if c == '8' {
        8
    } else {
        9
    }
}

pub(crate) fn digits_scan(s: &str, from: usize) -> (r: usize)
    requires
        from <= s@.len(),
    ensures
        r as int == digits_end(s@, from as int),
        from <= r <= s@.len(),
    decreases s@.len() - from,
{
    let n = s.unicode_len();
    if from >= n {
        n
    } else if is_digit_exec(s.get_char(from)) {
        digits_scan(s, from + 1)
    } else {
        from
    }
}

fn p_nat_exec(s: &str, pos: usize) -> (r: Option<(u64, usize)>)
    requires
        pos <= s@.len(),
    ensures
        match r {
            Some((v, j)) => p_nat(s@, pos as int) == Some((v as nat, j as int)) && pos < j <= s@.len(),
            None => p_nat(s@, pos as int) is None,
        },
{
    let n = s.unicode_len();
    let j = digits_scan(s, pos);
    if j == pos || j >= n {
        return None;
    }
    if s.get_char(j) != ';' {
        return None;
    }
    proof {
        assert forall|m: int| pos as int <= m < j as int implies is_digit(#[trigger] s@[m]) by {
            lemma_digits_end_at_mid(s@, pos as int, m);
        }
    }
    let ghost digits = s@.subrange(pos as int, j as int);
    let mut acc: u64 = 0;
    let mut k = pos;
    while k < j
        invariant
            pos <= k <= j,
            j < n,
            n == s@.len(),
            j as int == digits_end(s@, pos as int),
            forall|m: int| pos as int <= m < j as int ==> is_digit(#[trigger] s@[m]),
            digits == s@.subrange(pos as int, j as int),
            acc as int == dec_val(s@.subrange(pos as int, k as int)),
        decreases j - k,
    {
        let c = s.get_char(k);
        let d = digit_val_exec(c);
        proof {
            assert(s@.subrange(pos as int, k as int + 1).drop_last() =~= s@.subrange(
                pos as int,
                k as int,
            ));
            assert(s@.subrange(pos as int, k as int + 1).last() == s@[k as int]);
        }
        if acc > (u64::MAX - d) / 10 {
            proof {
                assert(acc as int * 10 + d as int > u64::MAX as int);
                assert(dec_val(s@.subrange(pos as int, k as int + 1)) > u64::MAX as int);
                assert(digits.take(k as int + 1 - pos as int) =~= s@.subrange(
                    pos as int,
                    k as int + 1,
                ));
                lemma_dec_val_take(digits, k as int + 1 - pos as int);
                assert(dec_val(digits) > u64::MAX as int);
            }
            return None;
        }
        acc = acc * 10 + d;
        k = k + 1;
    }
    proof {
        assert(s@.subrange(pos as int, j as int) == digits);
    }
    Some((acc, j + 1))
}

pub(crate) proof fn lemma_digits_end_at_mid(s: Seq<char>, i: int, m: int)
    requires
        0 <= i <= s.len(),
        i <= m < digits_end(s, i),
    ensures
        is_digit(s[m]),
    decreases m - i,
{
    if i < m {
        lemma_digits_end_at_mid(s, i + 1, m);
    }
}

fn p_str_exec(s: &str, pos: usize) -> (r: Option<(String, usize)>)
    requires
        pos <= s@.len(),
    ensures
        match r {
            Some((t, j)) => p_str(s@, pos as int) == Some((t@, j as int)) && pos <= j <= s@.len(),
            None => p_str(s@, pos as int) is None,
        },
{
    let n = s.unicode_len();
    match p_nat_exec(s, pos) {
        Some((m, j)) => {
            if m <= (n - j) as u64 {
                let end = j + (m as usize);
                Some((String::from_str(s.substring_char(j, end)), end))
            } else {
                None
            }
        },
        None => None,
    }
}

fn p_i64_exec(s: &str, pos: usize) -> (r: Option<(i64, usize)>)
    requires
        pos <= s@.len(),
    ensures
        match r {
            Some((v, j)) => p_i64(s@, pos as int) == Some((v, j as int)) && pos <= j <= s@.len(),
            None => p_i64(s@, pos as int) is None,
        },
{
    let n = s.unicode_len();
    if pos >= n {
        return None;
    }
    let c = s.get_char(pos);
    if c == 'p' {
        match p_nat_exec(s, pos + 1) {
            Some((m, j)) => {
                if m <= i64::MAX as u64 {
                    Some((m as i64, j))
                } else {
                    None
                }
            },
            None => None,
        }
    } else if c == 'n' {
        match p_nat_exec(s, pos + 1) {
            Some((m, j)) => {
                if m > 0 && m <= 9223372036854775808u64 {
                    let v: i64 = if m == 9223372036854775808u64 {
                        i64::MIN
                    } else {
                        -(m as i64)
                    };
                    Some((v, j))
                } else {
                    None
                }
            },
            None => None,
        }
    } else {
        None
    }
}

fn p_opt_str_exec(s: &str, pos: usize) -> (r: Option<(Option<String>, usize)>)
    requires
        pos <= s@.len(),
    ensures
        match r {
            Some((o, j)) => p_opt_str(s@, pos as int) == Some((o.deep_view(), j as int)) && pos <= j
                <= s@.len(),
            None => p_opt_str(s@, pos as int) is None,
        },
{
    let n = s.unicode_len();
    if pos >= n {
        return None;
    }
    let c = s.get_char(pos);
    if c == 'N' {
        Some((None, pos + 1))
    } else if c == 'S' {
        match p_str_exec(s, pos + 1) {
            Some((t, j)) => Some((Some(t), j)),
            None => None,
        }
    } else {
        None
    }
}

fn p_opt_i64_exec(s: &str, pos: usize) -> (r: Option<(Option<i64>, usize)>)
    requires
        pos <= s@.len(),
    ensures
        match r {
            Some((o, j)) => p_opt_i64(s@, pos as int) == Some((o, j as int)) && pos <= j
                <= s@.len(),
            None => p_opt_i64(s@, pos as int) is None,
        },
{
    let n = s.unicode_len();
    if pos >= n {
        return None;
    }
    let c = s.get_char(pos);
    if c == 'N' {
        Some((None, pos + 1))
    } else if c == 'S' {
        match p_i64_exec(s, pos + 1) {
            Some((v, j)) => Some((Some(v), j)),
            None => None,
        }
    } else {
        None
    }
}

fn p_state_exec(s: &str, pos: usize) -> (r: Option<(ApprovalState, usize)>)
    requires
        pos <= s@.len(),
    ensures
        match r {
            Some((st, j)) => p_state(s@, pos as int) == Some((st, j as int)) && pos <= j
                <= s@.len(),
            None => p_state(s@, pos as int) is None,
        },
{
    let n = s.unicode_len();
    if pos >= n {
        return None;
    }
    let c = s.get_char(pos);
    if c == 'P' {
        Some((ApprovalState::PendingApproval, pos + 1))
    } else if c == 'W' {
        Some((ApprovalState::AwaitingUserResponse, pos + 1))
    } else if c == 'A' {
        Some((ApprovalState::Approved, pos + 1))
    } else if c == 'I' {
        Some((ApprovalState::NeedsImprovement, pos + 1))
    } else if c == 'F' {
        Some((ApprovalState::Failed, pos + 1))
    } else {
        None
    }
}

fn p_letter_exec(s: &str, pos: usize) -> (r: Option<(LetterContent, usize)>)
    requires
        pos <= s@.len(),
    ensures
        match r {
            Some((l, j)) => p_letter(s@, pos as int) == Some((l@, j as int)) && pos <= j
                <= s@.len(),
            None => p_letter(s@, pos as int) is None,
        },
{
    let (subject, i1) = match p_str_exec(s, pos) {
        Some(x) => x,
        None => {
            return None;
        },
    };
    let (greeting, i2) = match p_str_exec(s, i1) {
        Some(x) => x,
        None => {
            return None;
        },
    };
    let (body, i3) = match p_str_exec(s, i2) {
        Some(x) => x,
        None => {
            return None;
        },
    };
    let (sender_name, i4) = match p_str_exec(s, i3) {
        Some(x) => x,
        None => {
            return None;
        },
    };
    let (recipient_name, i5) = match p_str_exec(s, i4) {
        Some(x) => x,
        None => {
            return None;
        },
    };
    let (company_name, i6) = match p_str_exec(s, i5) {
        Some(x) => x,
        None => {
            return None;
        },
    };
    Some(
        (
            LetterContent { subject, greeting, body, sender_name, recipient_name, company_name },
            i6,
        ),
    )
}

fn p_feedback_exec(s: &str, pos: usize) -> (r: Option<(Feedback, usize)>)
    requires
        pos <= s@.len(),
    ensures
        match r {
            Some((f, j)) => p_feedback(s@, pos as int) == Some((f@, j as int)) && pos <= j
                <= s@.len(),
            None => p_feedback(s@, pos as int) is None,
        },
{
    let (text, i1) = match p_str_exec(s, pos) {
        Some(x) => x,
        None => {
            return None;
        },
    };
    let (provided_by, i2) = match p_i64_exec(s, i1) {
        Some(x) => x,
        None => {
            return None;
        },
    };
    let (provided_at, i3) = match p_i64_exec(s, i2) {
        Some(x) => x,
        None => {
            return None;
        },
    };
    Some((Feedback { text, provided_by: UserId::new(provided_by), provided_at }, i3))
}

fn p_opt_feedback_exec(s: &str, pos: usize) -> (r: Option<(Option<Feedback>, usize)>)
    requires
        pos <= s@.len(),
    ensures
        match r {
            Some((o, j)) => p_opt_feedback(s@, pos as int) == Some(
                (feedback_opt_view(o), j as int),
            ) && pos <= j <= s@.len(),
            None => p_opt_feedback(s@, pos as int) is None,
        },
{
    let n = s.unicode_len();
    if pos >= n {
        return None;
    }
    let c = s.get_char(pos);
    if c == 'N' {
        Some((None, pos + 1))
    } else if c == 'S' {
        match p_feedback_exec(s, pos + 1) {
            Some((f, j)) => Some((Some(f), j)),
            None => None,
        }
    } else {
        None
    }
}

fn p_entry_exec(s: &str, pos: usize) -> (r: Option<(LetterHistoryEntry, usize)>)
    requires
        pos <= s@.len(),
    ensures
        match r {
            Some((e, j)) => p_entry(s@, pos as int) == Some((e@, j as int)) && pos <= j
                <= s@.len(),
            None => p_entry(s@, pos as int) is None,
        },
{
    let (iteration, i1) = match p_nat_exec(s, pos) {
        Some(x) => x,
        None => {
            return None;
        },
    };
    if iteration > u32::MAX as u64 {
        return None;
    }
    let (content, i2) = match p_letter_exec(s, i1) {
        Some(x) => x,
        None => {
            return None;
        },
    };
    let (feedback, i3) = match p_opt_feedback_exec(s, i2) {
        Some(x) => x,
        None => {
            return None;
        },
    };
    let (created_at, i4) = match p_i64_exec(s, i3) {
        Some(x) => x,
        None => {
            return None;
        },
    };
    Some((LetterHistoryEntry { iteration: iteration as u32, content, feedback, created_at }, i4))
}

fn p_entries_exec(s: &str, pos: usize, count: u64) -> (r: Option<(Vec<LetterHistoryEntry>, usize)>)
    requires
        pos <= s@.len(),
    ensures
        match r {
            Some((v, j)) => p_entries(s@, pos as int, count as nat) == Some(
                (v.deep_view(), j as int),
            ) && pos <= j <= s@.len(),
            None => p_entries(s@, pos as int, count as nat) is None,
        },
{
    let mut acc: Vec<LetterHistoryEntry> = Vec::new();
    let mut cur = pos;
    let mut i: u64 = 0;
    while i < count
        invariant
            pos <= cur <= s@.len(),
            0 <= i <= count,
            forall|rest: Seq<LetterHistoryEntryView>, k: int|
                p_entries(s@, cur as int, (count - i) as nat) == Some((rest, k)) ==> p_entries(
                    s@,
                    pos as int,
                    count as nat,
                ) == Some((acc.deep_view() + rest, k)),
            p_entries(s@, cur as int, (count - i) as nat) is None ==> p_entries(
                s@,
                pos as int,
                count as nat,
            ) is None,
        decreases count - i,
    {
        let ghost pre_views = acc.deep_view();
        let ghost pre_cur = cur as int;
        match p_entry_exec(s, cur) {
            Some((e, j)) => {
                acc.push(e);
                cur = j;
                proof {
                    assert(acc.deep_view() =~= pre_views + seq![e@]);
                    assert forall|rest: Seq<LetterHistoryEntryView>, k: int|
                        p_entries(s@, cur as int, (count - i - 1) as nat) == Some((rest, k))
                            implies p_entries(s@, pos as int, count as nat) == Some(
                        (acc.deep_view() + rest, k),
                    ) by {
                        assert(p_entries(s@, pre_cur, (count - i) as nat) == Some(
                            (seq![e@] + rest, k),
                        ));
                        assert(pre_views + (seq![e@] + rest) =~= (pre_views + seq![e@]) + rest);
                    }
                    assert(p_entries(s@, cur as int, (count - i - 1) as nat) is None ==> p_entries(
                        s@,
                        pos as int,
                        count as nat,
                    ) is None);
                }
                i = i + 1;
            },
            None => {
                proof {
                    assert(p_entries(s@, pre_cur, (count - i) as nat) is None);
                }
                return None;
            },
        }
    }
    proof {
        assert(p_entries(s@, cur as int, 0) == Some(
            (Seq::<LetterHistoryEntryView>::empty(), cur as int),
        ));
        assert(acc.deep_view() + Seq::<LetterHistoryEntryView>::empty() =~= acc.deep_view());
    }
    Some((acc, cur))
}

fn p_history_exec(s: &str, pos: usize) -> (r: Option<(Vec<LetterHistoryEntry>, usize)>)
    requires
        pos <= s@.len(),
    ensures
        match r {
            Some((v, j)) => p_history(s@, pos as int) == Some((v.deep_view(), j as int)) && pos <= j
                <= s@.len(),
            None => p_history(s@, pos as int) is None,
        },
{
    match p_nat_exec(s, pos) {
        Some((n, j)) => p_entries_exec(s, j, n),
        None => None,
    }
}

fn p_addr_exec(s: &str, pos: usize) -> (r: Option<(MailingAddress, usize)>)
    requires
        pos <= s@.len(),
    ensures
        match r {
            Some((a, j)) => p_addr(s@, pos as int) == Some((a@, j as int)) && pos <= j <= s@.len(),
            None => p_addr(s@, pos as int) is None,
        },
{
    let (street, i1) = match p_str_exec(s, pos) {
        Some(x) => x,
        None => {
            return None;
        },
    };
    let (city, i2) = match p_str_exec(s, i1) {
        Some(x) => x,
        None => {
            return None;
        },
    };
    let (state, i3) = match p_opt_str_exec(s, i2) {
        Some(x) => x,
        None => {
            return None;
        },
    };
    let (postal_code, i4) = match p_str_exec(s, i3) {
        Some(x) => x,
        None => {
            return None;
        },
    };
    let (country, i5) = match p_str_exec(s, i4) {
        Some(x) => x,
        None => {
            return None;
        },
    };
    Some((MailingAddress { street, city, state, postal_code, country }, i5))
}

fn p_opt_addr_exec(s: &str, pos: usize) -> (r: Option<(Option<MailingAddress>, usize)>)
    requires
        pos <= s@.len(),
    ensures
        match r {
            Some((o, j)) => p_opt_addr(s@, pos as int) == Some(
                (crate::approval::addr_opt_view(o), j as int),
            ) && pos <= j <= s@.len(),
            None => p_opt_addr(s@, pos as int) is None,
        },
{
    let n = s.unicode_len();
    if pos >= n {
        return None;
    }
    let c = s.get_char(pos);
    if c == 'N' {
        Some((None, pos + 1))
    } else if c == 'S' {
        match p_addr_exec(s, pos + 1) {
            Some((a, j)) => Some((Some(a), j)),
            None => None,
        }
    } else {
        None
    }
}

/// Parse a persisted record; the whole text must be consumed.
#[verifier::rlimit(100)]
#[verifier::spinoff_prover]
pub fn approval_from_str(s: &str) -> (r: Option<ApprovalData>)
    ensures
        match r {
            Some(d) => parse_approval_full(s@) == Some(d@),
            None => parse_approval_full(s@) is None,
        },
{
    let n = s.unicode_len();
    let (approval_id, i1) = match p_str_exec(s, 0) {
        Some(x) => x,
        None => {
            return None;
        },
    };
    let (task_id, i2) = match p_str_exec(s, i1) {
        Some(x) => x,
        None => {
            return None;
        },
    };
    let (contact_id, i3) = match p_str_exec(s, i2) {
        Some(x) => x,
        None => {
            return None;
        },
    };
    let (state, i4) = match p_state_exec(s, i3) {
        Some(x) => x,
        None => {
            return None;
        },
    };
    let (recipient_name, i5) = match p_str_exec(s, i4) {
        Some(x) => x,
        None => {
            return None;
        },
    };
    let (recipient_email, i6) = match p_opt_str_exec(s, i5) {
        Some(x) => x,
        None => {
            return None;
        },
    };
    let (recipient_title, i7) = match p_opt_str_exec(s, i6) {
        Some(x) => x,
        None => {
            return None;
        },
    };
    let (company_name, i8) = match p_str_exec(s, i7) {
        Some(x) => x,
        None => {
            return None;
        },
    };
    let (current_letter, i9) = match p_letter_exec(s, i8) {
        Some(x) => x,
        None => {
            return None;
        },
    };
    let (letter_history, i10) = match p_history_exec(s, i9) {
        Some(x) => x,
        None => {
            return None;
        },
    };
    let (requested_at, i11) = match p_i64_exec(s, i10) {
        Some(x) => x,
        None => {
            return None;
        },
    };
    let (requested_by, i12) = match p_i64_exec(s, i11) {
        Some(x) => x,
        None => {
            return None;
        },
    };
    let (telegram_message_id, i13) = match p_opt_i64_exec(s, i12) {
        Some(x) => x,
        None => {
            return None;
        },
    };
    let (telegram_chat_id, i14) = match p_opt_str_exec(s, i13) {
        Some(x) => x,
        None => {
            return None;
        },
    };
    let (updated_at, i15) = match p_i64_exec(s, i14) {
        Some(x) => x,
        None => {
            return None;
        },
    };
    let (mailing_address, i16) = match p_opt_addr_exec(s, i15) {
        Some(x) => x,
        None => {
            return None;
        },
    };
    let (pdf_base64, i17) = match p_opt_str_exec(s, i16) {
        Some(x) => x,
        None => {
            return None;
        },
    };
    let (person_dossier, i18) = match p_opt_str_exec(s, i17) {
        Some(x) => x,
        None => {
            return None;
        },
    };
    let (company_dossier, i19) = match p_opt_str_exec(s, i18) {
        Some(x) => x,
        None => {
            return None;
        },
    };
    let (industry, i20) = match p_opt_str_exec(s, i19) {
        Some(x) => x,
        None => {
            return None;
        },
    };
    let (website, i21) = match p_opt_str_exec(s, i20) {
        Some(x) => x,
        None => {
            return None;
        },
    };
    if i21 != n {
        return None;
    }
    let msg_id = match telegram_message_id {
        Some(m) => Some(TelegramMessageId::new(m)),
        None => None,
    };
    let chat_id = match telegram_chat_id {
        Some(c) => Some(TelegramChatId::new(c)),
        None => None,
    };
    Some(
        ApprovalData {
            approval_id: ApprovalId::from_raw(approval_id),
            task_id: TaskId::new(task_id),
            contact_id: ContactId::new(contact_id),
            state,
            recipient_name,
            recipient_email,
            recipient_title,
            company_name,
            current_letter,
            letter_history,
            requested_at,
            requested_by: UserId::new(requested_by),
            telegram_message_id: msg_id,
            telegram_chat_id: chat_id,
            updated_at,
            mailing_address,
            pdf_base64,
            person_dossier,
            company_dossier,
            industry,
            website,
        },
    )
}

} // verus!
