//! Common data types: contacts, mailing addresses, letter content, and the
//! structured data handed to the document renderer.

use vstd::prelude::*;

verus! {

/// Copy an optional string, keeping its contents.
pub fn clone_opt_string(o: &Option<String>) -> (r: Option<String>)
    ensures
        r.deep_view() == o.deep_view(),
{
    match o {
        Some(s) => Some(s.clone()),
        None => None,
    }
}

/// Mailing address structure.
#[derive(Debug, Clone)]
pub struct MailingAddress {
    pub street: String,
    pub city: String,
    pub state: Option<String>,
    pub postal_code: String,
    pub country: String,
}

/// Mathematical image of a `MailingAddress`.
pub ghost struct MailingAddressView {
    pub street: Seq<char>,
    pub city: Seq<char>,
    pub state: Option<Seq<char>>,
    pub postal_code: Seq<char>,
    pub country: Seq<char>,
}

impl View for MailingAddress {
    type V = MailingAddressView;

    open spec fn view(&self) -> MailingAddressView {
        MailingAddressView {
            street: self.street@,
            city: self.city@,
            state: self.state.deep_view(),
            postal_code: self.postal_code@,
            country: self.country@,
        }
    }
}

impl MailingAddressView {
    /// A postal destination is usable when every required field is non-empty;
    /// only the state line is optional.
    pub open spec fn valid(self) -> bool {
        self.street.len() > 0 && self.city.len() > 0 && self.postal_code.len() > 0
            && self.country.len() > 0
    }
}

impl MailingAddress {
    /// All required fields non-empty (the state line is optional).
    pub fn is_valid(&self) -> (r: bool)
        ensures
            r == self@.valid(),
    {
        self.street.as_str().unicode_len() > 0 && self.city.as_str().unicode_len() > 0
            && self.postal_code.as_str().unicode_len() > 0
            && self.country.as_str().unicode_len() > 0
    }

    /// Copy the address, keeping its contents.
    pub fn duplicate(&self) -> (r: Self)
        ensures
            r@ == self@,
    {
        MailingAddress {
            street: self.street.clone(),
            city: self.city.clone(),
            state: clone_opt_string(&self.state),
            postal_code: self.postal_code.clone(),
            country: self.country.clone(),
        }
    }

    /// Copy an optional address, keeping its contents.
    pub fn clone_opt(o: &Option<MailingAddress>) -> (r: Option<MailingAddress>)
        ensures
            r matches Some(a) ==> o matches Some(b) && a@ == b@,
            r is None <==> o is None,
    {
        match o {
            Some(a) => Some(a.duplicate()),
            None => None,
        }
    }
}

/// Contact information from the CRM.
#[derive(Debug, Clone)]
pub struct ZohoContact {
    pub id: String,
    pub full_name: String,
    pub email: Option<String>,
    pub phone: Option<String>,
    pub company: Option<String>,
    pub linkedin_id: Option<String>,
    pub mailing_address: Option<MailingAddress>,
}

/// Profile data from the profile store.  The raw row payload of the store is
/// a wire-format concern and stays outside the core.
#[derive(Debug, Clone)]
pub struct LinkedInProfile {
    pub profile_id: String,
    pub profile_url: String,
    pub full_name: String,
    pub headline: Option<String>,
    pub location: Option<String>,
    pub company: Option<String>,
}

/// Generated letter content: an immutable snapshot of one drafted letter.
#[derive(Debug, Clone)]
pub struct LetterContent {
    pub subject: String,
    pub greeting: String,
    pub body: String,
    pub sender_name: String,
    pub recipient_name: String,
    pub company_name: String,
}

/// Mathematical image of a `LetterContent`.
pub ghost struct LetterContentView {
    pub subject: Seq<char>,
    pub greeting: Seq<char>,
    pub body: Seq<char>,
    pub sender_name: Seq<char>,
    pub recipient_name: Seq<char>,
    pub company_name: Seq<char>,
}

impl View for LetterContent {
    type V = LetterContentView;

    open spec fn view(&self) -> LetterContentView {
        LetterContentView {
            subject: self.subject@,
            greeting: self.greeting@,
            body: self.body@,
            sender_name: self.sender_name@,
            recipient_name: self.recipient_name@,
            company_name: self.company_name@,
        }
    }
}

impl LetterContent {
    /// Whether two letters hold the same text in every field.
    pub fn same_content(&self, other: &LetterContent) -> (r: bool)
        ensures
            r == (self@ == other@),
    {
        self.subject == other.subject && self.greeting == other.greeting && self.body == other.body
            && self.sender_name == other.sender_name && self.recipient_name
            == other.recipient_name && self.company_name == other.company_name
    }

    /// Copy the letter, keeping its contents.
    pub fn duplicate(&self) -> (r: Self)
        ensures
            r@ == self@,
    {
        LetterContent {
            subject: self.subject.clone(),
            greeting: self.greeting.clone(),
            body: self.body.clone(),
            sender_name: self.sender_name.clone(),
            recipient_name: self.recipient_name.clone(),
            company_name: self.company_name.clone(),
        }
    }
}

/// Bookmark names of the ODT letter template, as the renderer knows them.
pub struct PDFBookmarks;

impl PDFBookmarks {
    pub fn betreff() -> (r: &'static str)
        ensures
            r@ == "Betreff"@,
    {
        "Betreff"
    }

    pub fn anrede() -> (r: &'static str)
        ensures
            r@ == "Anrede"@,
    {
        "Anrede"
    }

    pub fn brieftext() -> (r: &'static str)
        ensures
            r@ == "Brieftext"@,
    {
        "Brieftext"
    }

    pub fn sender_name() -> (r: &'static str)
        ensures
            r@ == "Sender-Name"@,
    {
        "Sender-Name"
    }

    pub fn recipient() -> (r: &'static str)
        ensures
            r@ == "Reciepient"@,
    {
        "Reciepient"
    }

    pub fn street_1() -> (r: &'static str)
        ensures
            r@ == "Street-1"@,
    {
        "Street-1"
    }

    pub fn street_2() -> (r: &'static str)
        ensures
            r@ == "Street-2"@,
    {
        "Street-2"
    }

    pub fn city() -> (r: &'static str)
        ensures
            r@ == "City"@,
    {
        "City"
    }

    pub fn plz() -> (r: &'static str)
        ensures
            r@ == "PLZ"@,
    {
        "PLZ"
    }

    pub fn country() -> (r: &'static str)
        ensures
            r@ == "Country"@,
    {
        "Country"
    }
}

/// Strongly typed data for the document renderer, one field per template
/// bookmark.
#[derive(Debug, Clone)]
pub struct PDFTemplateData {
    pub betreff: String,
    pub anrede: String,
    pub brieftext: String,
    pub sender_name: String,
    pub company: String,
    pub recipient: String,
    pub street_1: String,
    pub street_2: Option<String>,
    pub city: String,
    pub plz: String,
    pub country: String,
}

impl PDFTemplateData {
    /// Fill the template data from a letter and the recipient's mailing
    /// address: letter text into the text bookmarks, address lines into the
    /// address bookmarks (the optional state line becomes the second street
    /// line).
    pub fn from_letter_and_address(letter: &LetterContent, address: &MailingAddress) -> (r: Self)
        ensures
            r.betreff@ == letter@.subject,
            r.anrede@ == letter@.greeting,
            r.brieftext@ == letter@.body,
            r.sender_name@ == letter@.sender_name,
            r.company@ == letter@.company_name,
            r.recipient@ == letter@.recipient_name,
            r.street_1@ == address@.street,
            r.street_2.deep_view() == address@.state,
            r.city@ == address@.city,
            r.plz@ == address@.postal_code,
            r.country@ == address@.country,
    {
        PDFTemplateData {
            betreff: letter.subject.clone(),
            anrede: letter.greeting.clone(),
            brieftext: letter.body.clone(),
            sender_name: letter.sender_name.clone(),
            company: letter.company_name.clone(),
            recipient: letter.recipient_name.clone(),
            street_1: address.street.clone(),
            street_2: clone_opt_string(&address.state),
            city: address.city.clone(),
            plz: address.postal_code.clone(),
            country: address.country.clone(),
        }
    }
}

/// Print color options for the physical-mail dispatcher.
#[derive(Debug, Clone, Copy, PartialEq, Eq, Structural)]
pub enum PrintColor {
    BlackWhite,
    Color,
}

/// Print mode options.
#[derive(Debug, Clone, Copy, PartialEq, Eq, Structural)]
pub enum PrintMode {
    Simplex,
    Duplex,
}

/// Shipping type options.
#[derive(Debug, Clone, Copy, PartialEq, Eq, Structural)]
pub enum ShippingType {
    Standard,
    Express,
    Registered,
}

/// Letter dispatch request for the physical-mail service.
#[derive(Debug, Clone)]
pub struct LetterExpressRequest {
    pub pdf_data: Vec<u8>,
    pub recipient_address: MailingAddress,
    pub sender_address: MailingAddress,
    pub color: PrintColor,
    pub mode: PrintMode,
    pub shipping: ShippingType,
}

} // verus!
