//! Document-renderer support: the client handle and the checks the core
//! performs on rendered documents and on the renderer's error reports.

use vstd::prelude::*;
use crate::codec::{dec_val, digits_end, digits_scan, lemma_dec_val_take, lemma_digits_end_at_mid};
use crate::config::PDFServiceConfig;
use crate::errors::{LennardError, Result};
use crate::text::{eq_at, matches_at};

verus! {

/// Whether `p` occurs anywhere in `s` at or after `i`.
pub open spec fn has_sub(s: Seq<char>, p: Seq<char>, i: int) -> bool
    decreases s.len() - i,
{
    if i < 0 || i > s.len() {
        false
    } else if matches_at(s, p, i) {
        true
    } else if i >= s.len() {
        false
    } else {
        has_sub(s, p, i + 1)
    }
}

/// The position of the first occurrence of `p` in `s` at or after `i`, or
/// one past the end.
pub open spec fn find_sub_from(s: Seq<char>, p: Seq<char>, i: int) -> int
    decreases s.len() - i,
{
    if i < 0 || i > s.len() {
        s.len() as int + 1
    } else if matches_at(s, p, i) {
        i
    } else if i >= s.len() {
        s.len() as int + 1
    } else {
        find_sub_from(s, p, i + 1)
    }
}

fn contains_sub(s: &str, p: &str) -> (r: bool)
    ensures
        r == has_sub(s@, p@, 0),
{
    find_sub(s, p, 0).is_some()
}

fn find_sub(s: &str, p: &str, from: usize) -> (r: Option<usize>)
    requires
        from <= s@.len(),
    ensures
        match r {
            Some(j) => j as int == find_sub_from(s@, p@, from as int) && from <= j <= s@.len()
                && matches_at(s@, p@, j as int) && has_sub(s@, p@, from as int),
            None => !has_sub(s@, p@, from as int) && find_sub_from(s@, p@, from as int) == s@.len()
                + 1,
        },
    decreases s@.len() - from,
{
    let n = s.unicode_len();
    if eq_at(s, p, from) {
        Some(from)
    } else if from >= n {
        None
    } else {
        find_sub(s, p, from + 1)
    }
}

/// Whether a byte string starts with the document magic `%PDF`.
pub open spec fn is_pdf_header(b: Seq<u8>) -> bool {
    b.len() >= 4 && b[0] == 0x25u8 && b[1] == 0x50u8 && b[2] == 0x44u8 && b[3] == 0x46u8
}

/// Client handle for the document-rendering service.
pub struct PDFService {
    pub config: PDFServiceConfig,
}

impl PDFService {
    pub fn new(config: PDFServiceConfig) -> (r: Self)
        ensures
            r.config.base_url@ == config.base_url@,
    {
        PDFService { config }
    }

    /// Whether the data is a plausible rendered document: it starts with
    /// the `%PDF` magic bytes.
    pub fn validate_pdf(&self, pdf_data: &[u8]) -> (r: Result<bool>)
        ensures
            r matches Ok(v) && v == is_pdf_header(pdf_data@),
    {
        if pdf_data.len() < 4 {
            return Ok(false);
        }
        Ok(
            pdf_data[0] == 0x25 && pdf_data[1] == 0x50 && pdf_data[2] == 0x44 && pdf_data[3]
                == 0x46,
        )
    }

    /// Classify a renderer error reply: a bad-request whose detail text
    /// reports a page-limit violation becomes `PageLimitExceeded`, with the
    /// reported page count when the text names one (two pages assumed
    /// otherwise).  Everything else is left to the generic service error.
    pub fn classify_render_error(&self, bad_request: bool, detail: &str) -> (r: Option<
        LennardError,
    >)
        ensures
            match r {
                Some(e) => bad_request && page_limit_detail(detail@) && (e matches
                    LennardError::PageLimitExceeded { page_count, limit, message } && limit == 1
                    && message@ == detail@ && page_count as int == (
                match reported_page_count(detail@) {
                    Some(c) => c as int,
                    None => 2,
                })),
                None => !(bad_request && page_limit_detail(detail@)),
            },
    {
        if !bad_request {
            return None;
        }
        let is_page_limit = contains_sub(detail, "exceeds one page limit") || (contains_sub(
            detail,
            "exceeds",
        ) && contains_sub(detail, "page"));
        if !is_page_limit {
            return None;
        }
        let page_count = match self.parse_reported_pages(detail) {
            Some(c) => c,
            None => 2,
        };
        Some(
            LennardError::PageLimitExceeded {
                page_count,
                limit: 1,
                message: String::from_str(detail),
            },
        )
    }

    /// Pull the reported page count out of the renderer's detail text.
    #[verifier::loop_isolation(false)]
    fn parse_reported_pages(&self, detail: &str) -> (r: Option<u32>)
        ensures
            match r {
                Some(c) => reported_page_count(detail@) == Some(c),
                None => reported_page_count(detail@) is None,
            },
    {
        let n = detail.unicode_len();
        let j = match find_sub(detail, "generated ", 0) {
            Some(j) => j,
            None => {
                return None;
            },
        };
        let d_start = j + "generated ".unicode_len();
        proof {
            assert(d_start as int <= detail@.len());
        }
        let d_end = digits_scan(detail, d_start);
        if d_end <= d_start {
            return None;
        }
        if !eq_at(detail, " pages", d_end) {
            return None;
        }
        proof {
            assert forall|m: int| d_start as int <= m < d_end as int implies crate::codec::is_digit(
                #[trigger] detail@[m],
            ) by {
                lemma_digits_end_at_mid(detail@, d_start as int, m);
            }
        }
        let ghost digits = detail@.subrange(d_start as int, d_end as int);
        let mut acc: u64 = 0;
        let mut k = d_start;
        while k < d_end
            invariant
                d_start <= k <= d_end,
                d_end <= n,
                n == detail@.len(),
                d_end as int == digits_end(detail@, d_start as int),
                forall|m: int| d_start as int <= m < d_end as int ==> crate::codec::is_digit(
                    #[trigger] detail@[m],
                ),
                digits == detail@.subrange(d_start as int, d_end as int),
                acc as int == dec_val(detail@.subrange(d_start as int, k as int)),
                acc <= u32::MAX as u64,
            decreases d_end - k,
        {
            let d = crate::codec::digit_val_exec(detail.get_char(k));
            proof {
                assert(detail@.subrange(d_start as int, k as int + 1).drop_last()
                    =~= detail@.subrange(d_start as int, k as int));
                assert(detail@.subrange(d_start as int, k as int + 1).last() == detail@[k as int]);
            }
            if acc > (u32::MAX as u64 - d) / 10 {
                proof {
                    assert(acc as int * 10 + d as int > u32::MAX as int);
                    assert(dec_val(detail@.subrange(d_start as int, k as int + 1))
                        > u32::MAX as int);
                    assert(digits.take(k as int + 1 - d_start as int) =~= detail@.subrange(
                        d_start as int,
                        k as int + 1,
                    ));
                    lemma_dec_val_take(digits, k as int + 1 - d_start as int);
                    assert(dec_val(digits) > u32::MAX as int);
                }
                return None;
            }
            acc = acc * 10 + d;
            k = k + 1;
        }
        proof {
            assert(detail@.subrange(d_start as int, d_end as int) == digits);
        }
        Some(acc as u32)
    }
}

/// Whether the renderer's error text reports a page-limit violation.
pub open spec fn page_limit_detail(detail: Seq<char>) -> bool {
    has_sub(detail, "exceeds one page limit"@, 0) || (has_sub(detail, "exceeds"@, 0) && has_sub(
        detail,
        "page"@,
        0,
    ))
}

/// The page count the renderer reported: the digit run after the first
/// `generated ` that is followed by ` pages`, when its value fits.
pub open spec fn reported_page_count(detail: Seq<char>) -> Option<u32> {
    let j = find_sub_from(detail, "generated "@, 0);
    if j <= detail.len() {
        let d_start = j + "generated "@.len();
        let d_end = digits_end(detail, d_start);
        if d_start <= detail.len() && d_start < d_end && matches_at(detail, " pages"@, d_end)
            && dec_val(detail.subrange(d_start, d_end)) <= u32::MAX as int {
            Some(dec_val(detail.subrange(d_start, d_end)) as u32)
        } else {
            None
        }
    } else {
        None
    }
}

} // verus!
