//! Address extraction from free text: a simple heuristic around a postal
//! code pattern.

use vstd::prelude::*;
use crate::config::OpenAIConfig;
use crate::errors::Result;
use crate::text::{count_char, find_char_from, num_lines};
use crate::types::MailingAddress;

verus! {

/// The first word-bounded five-digit run that the postal-code pattern
/// `\b\d{5}\b` finds in the text, if any.  The result depends on the text
/// alone.
pub uninterp spec fn postal_run_of(s: Seq<char>) -> Option<Seq<char>>;

/// Relies on `regex::Regex::find` with the pattern `\b\d{5}\b`: the leftmost
/// word-bounded five-digit run, a match of exactly five characters.  The
/// pattern is fixed and valid, so compiling it cannot fail.
#[verifier::external_body]
fn find_postal_code_run(text: &str) -> (r: Option<String>)
    ensures
        r matches Some(m) ==> postal_run_of(text@) == Some(m@) && m@.len() == 5,
        r is None ==> postal_run_of(text@) is None,
{
    let re = regex::Regex::new(r"\b\d{5}\b").expect("postal code pattern is valid");
    re.find(text).map(|m| m.as_str().to_string())
}

/// Extracts mailing addresses from dossier text.
pub struct AddressExtractor {
    pub config: OpenAIConfig,
}

impl AddressExtractor {
    pub fn new(config: OpenAIConfig) -> (r: Self)
        ensures
            r.config == config,
    {
        AddressExtractor { config }
    }

    /// Extract an address from text, heuristically: with at least three
    /// lines and a postal code in sight, the first line is taken as the
    /// street and the postal code as found; the rest is filled with the
    /// defaults of the reference region.
    pub fn extract_address(&self, text: &str) -> (r: Result<Option<MailingAddress>>)
        ensures
            num_lines(text@) < 3 ==> (r matches Ok(a) && a is None),
            num_lines(text@) >= 3 && postal_run_of(text@) is None ==> (r matches Ok(a) && a
                is None),
            (num_lines(text@) >= 3 && postal_run_of(text@) is Some) ==> (r matches Ok(a)
                && a matches Some(addr) && addr@.postal_code == postal_run_of(text@).unwrap()
                && addr@.street == text@.subrange(0, find_char_from(text@, '\n', 0))
                && addr@.city == "Unknown"@ && addr@.state is None && addr@.country
                == "Germany"@),
    {
        let n = text.unicode_len();
        let lines = count_lines(text);
        if lines < 3 {
            return Ok(None);
        }
        match find_postal_code_run(text) {
            Some(code) => {
                let street_end = crate::text::find_char(text, '\n', 0);
                Ok(
                    Some(
                        MailingAddress {
                            street: String::from_str(text.substring_char(0, street_end)),
                            city: String::from_str("Unknown"),
                            state: None,
                            postal_code: code,
                            country: String::from_str("Germany"),
                        },
                    ),
                )
            },
            None => Ok(None),
        }
    }

    /// Whether the text holds a word-bounded five-digit run, as a German
    /// postal code is.
    pub fn validate_german_postal_code(&self, code: &str) -> (r: bool)
        ensures
            r == (postal_run_of(code@) is Some),
    {
        find_postal_code_run(code).is_some()
    }
}

impl Default for AddressExtractor {
    /// An extractor with an empty credential and the default model, enough
    /// for the offline heuristics.
    fn default() -> (r: Self)
        ensures
            r.config.api_key@ == Seq::<char>::empty(),
            r.config.model@ == "gpt-3.5-turbo"@,
            r.config.base_url is None,
    {
        AddressExtractor::new(
            OpenAIConfig {
                api_key: String::new(),
                model: String::from_str("gpt-3.5-turbo"),
                base_url: None,
            },
        )
    }
}

/// Count the lines of text, as the line iterator would: a trailing newline
/// opens no further line.
pub fn count_lines(s: &str) -> (r: usize)
    ensures
        r as int == num_lines(s@),
{
    let n = s.unicode_len();
    if n == 0 {
        return 0;
    }
    let newlines = crate::text::count_char_exec(s, '\n');
    if s.get_char(n - 1) == '\n' {
        newlines
    } else {
        proof {
            crate::text::lemma_count_char_le(s@.drop_last(), '\n');
            assert(count_char(s@, '\n') == count_char(s@.drop_last(), '\n'));
        }
        newlines + 1
    }
}

} // verus!
