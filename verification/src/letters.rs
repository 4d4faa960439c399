//! Letter generation support: the prompt handed to the AI collaborator and
//! the parsing of its reply into structured letter content.  The HTTP call
//! itself lives with the surrounding process.

use vstd::prelude::*;
use crate::config::OpenAIConfig;
use crate::errors::Result;
use crate::types::{LetterContent, LinkedInProfile, ZohoContact};

verus! {

/// The generation prompt for a contact: name, company, profile headline and
/// whatever extra company information is at hand, with the standing
/// instructions around them.
pub open spec fn prompt_spec(
    name: Seq<char>,
    company: Seq<char>,
    headline: Seq<char>,
    company_info: Seq<char>,
) -> Seq<char> {
    "Generate a personalized business letter for:\nName: "@ + name + "\nCompany: "@ + company
        + "\nLinkedIn Profile: "@ + headline + "\n"@ + company_info
        + "\n\nThe letter should be professional, engaging, and personalized based on the provided information."@
}

/// Generates personalized letters through the AI collaborator.
pub struct LetterGenerator {
    pub config: OpenAIConfig,
}

impl LetterGenerator {
    pub fn new(config: OpenAIConfig) -> Self {
        LetterGenerator { config }
    }

    /// Build the generation prompt from contact, profile and the optional
    /// company information; absent fields fall back to neutral words.
    pub fn build_prompt(
        &self,
        contact: &ZohoContact,
        profile: &LinkedInProfile,
        company_info: Option<&str>,
    ) -> (r: String)
        ensures
            r@ == prompt_spec(
                contact.full_name@,
                match contact.company.deep_view() {
                    Some(c) => c,
                    None => "Unknown"@,
                },
                match profile.headline.deep_view() {
                    Some(h) => h,
                    None => "Professional"@,
                },
                match company_info {
                    Some(i) => i@,
                    None => ""@,
                },
            ),
    {
        let company = match &contact.company {
            Some(c) => c.as_str(),
            None => "Unknown",
        };
        let headline = match &profile.headline {
            Some(h) => h.as_str(),
            None => "Professional",
        };
        let info = match company_info {
            Some(i) => i,
            None => "",
        };
        String::from_str("Generate a personalized business letter for:\nName: ").concat(
            contact.full_name.as_str(),
        ).concat("\nCompany: ").concat(company).concat("\nLinkedIn Profile: ").concat(
            headline,
        ).concat("\n").concat(info).concat(
            "\n\nThe letter should be professional, engaging, and personalized based on the provided information.",
        )
    }

    /// Parse the collaborator's reply into structured letter content: the
    /// reply becomes the body, the standing subject, greeting and sender
    /// lines frame it, and the recipient comes from the contact.
    pub fn parse_letter_content(&self, content: &str, contact: &ZohoContact) -> (r: Result<
        LetterContent,
    >)
        ensures
            r matches Ok(l) && {
                &&& l@.subject == "Geschäftliche Anfrage"@
                &&& l@.greeting == "Sehr geehrte Damen und Herren,"@
                &&& l@.body == content@
                &&& l@.sender_name == "Ihr Lennard Team"@
                &&& l@.recipient_name == contact.full_name@
                &&& l@.company_name == (match contact.company.deep_view() {
                    Some(c) => c,
                    None => "Unbekannt"@,
                })
            },
    {
        let company_name = match &contact.company {
            Some(c) => String::from_str(c.as_str()),
            None => String::from_str("Unbekannt"),
        };
        Ok(
            LetterContent {
                subject: String::from_str("Geschäftliche Anfrage"),
                greeting: String::from_str("Sehr geehrte Damen und Herren,"),
                body: String::from_str(content),
                sender_name: String::from_str("Ihr Lennard Team"),
                recipient_name: String::from_str(contact.full_name.as_str()),
                company_name,
            },
        )
    }
}

} // verus!
