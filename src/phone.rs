use crate::error::ParseError;
use vstd::prelude::*;

verus! {

#[verifier::external_type_specification]
#[verifier::external_body]
pub struct ExPhoneNumber(phonenumber::PhoneNumber);

/// `s` in upper case, as `str::to_uppercase` gives it.
pub uninterp spec fn upper_of(s: Seq<char>) -> Seq<char>;

/// Whether `code` names a region that the numbering database knows.
pub uninterp spec fn is_region_code(code: Seq<char>) -> bool;

/// Whether `text` reads as a phone number under the region `hint`.
pub uninterp spec fn reads_as_number(hint: Option<Seq<char>>, text: Seq<char>) -> bool;

/// Whether the number read from `text` under `hint` passes the numbering-plan check.
pub uninterp spec fn is_valid_number(hint: Option<Seq<char>>, text: Seq<char>) -> bool;

/// The E.164 text of the number read from `text` under `hint`.
pub uninterp spec fn e164_form(hint: Option<Seq<char>>, text: Seq<char>) -> Seq<char>;

/// The region code of the number read from `text` under `hint`, where it has one.
pub uninterp spec fn region_of(hint: Option<Seq<char>>, text: Seq<char>) -> Option<Seq<char>>;

/// `+`, then ASCII digits of which the first is not zero.
pub open spec fn is_e164_shaped(s: Seq<char>) -> bool {
    &&& s.len() >= 2
    &&& s[0] == '+'
    &&& s[1] != '0'
    &&& forall|i: int| 1 <= i < s.len() ==> '0' <= #[trigger] s[i] <= '9'
}

pub open spec fn str_opt_view(s: Option<&str>) -> Option<Seq<char>> {
    match s {
        Some(c) => Some(c@),
        None => None,
    }
}

pub open spec fn string_opt_view(s: Option<String>) -> Option<Seq<char>> {
    match s {
        Some(c) => Some(c@),
        None => None,
    }
}

/// A number that the database read from `text` under the region `hint`.
struct ParsedNumber {
    number: phonenumber::PhoneNumber,
    hint: Ghost<Option<Seq<char>>>,
    text: Ghost<Seq<char>>,
}

/// What the database made of a piece of text.
enum Reading {
    UnknownRegion,
    NoNumber,
    Parsed(ParsedNumber),
}

/// Relies on `str::to_uppercase`: the result depends on the characters alone.
#[verifier::external_body]
fn uppercase(s: &str) -> (r: String)
    ensures
        r@ == upper_of(s@),
{
    s.to_uppercase()
}

/// Relies on phonenumber's `country::Id::from_str` (region lookup) and `parse`
/// (reading the text). Empty text never reads as a number.
#[verifier::external_body]
fn read_number(hint: Option<&str>, text: &str) -> (r: Reading)
    ensures
        match hint {
            Some(code) => (r is UnknownRegion) == !is_region_code(code@),
            None => !(r is UnknownRegion),
        },
        !(r is UnknownRegion) ==> ((r is NoNumber) == !reads_as_number(str_opt_view(hint), text@)),
        match r {
            Reading::Parsed(p) => p.hint@ == str_opt_view(hint) && p.text@ == text@,
            _ => true,
        },
        text@.len() == 0 ==> !(r is Parsed),
{
    let region = match hint.map(str::parse::<phonenumber::country::Id>) {
        Some(Err(_)) => return Reading::UnknownRegion,
        Some(Ok(id)) => Some(id),
        None => None,
    };
    match phonenumber::parse(region, text) {
        Ok(number) => Reading::Parsed(
            ParsedNumber { number, hint: Ghost(str_opt_view(hint)), text: Ghost(text@) },
        ),
        Err(_) => Reading::NoNumber,
    }
}

/// Relies on `phonenumber::is_valid`: the numbering-plan check.
#[verifier::external_body]
fn number_is_valid(p: &ParsedNumber) -> (r: bool)
    ensures
        r == is_valid_number(p.hint@, p.text@),
{
    phonenumber::is_valid(&p.number)
}

/// Relies on phonenumber's E.164 formatter, which writes `+`, the calling code
/// as an integer, then the national digits; it fails only for a calling code
/// that the database lacks, which a valid number never has.
#[verifier::external_body]
fn e164_text(p: &ParsedNumber) -> (r: String)
    requires
        is_valid_number(p.hint@, p.text@),
    ensures
        r@ == e164_form(p.hint@, p.text@),
        is_e164_shaped(r@),
{
    p.number.format().mode(phonenumber::Mode::E164).to_string()
}

/// Relies on phonenumber's `Country::id` and the id's text.
#[verifier::external_body]
fn region_code(p: &ParsedNumber) -> (r: Option<String>)
    ensures
        string_opt_view(r) == region_of(p.hint@, p.text@),
{
    p.number.country().id().map(|id| id.as_ref().to_string())
}

pub open spec fn unknown_region_message(code: Seq<char>) -> Seq<char> {
    code + " is not a valid or known phone country code"@
}

pub open spec fn unreadable_message(text: Seq<char>, hinted: bool) -> Seq<char> {
    if hinted {
        "error while parsing phone number "@ + text
    } else {
        "error while parsing phone number "@ + text + "."@
    }
}

pub open spec fn invalid_message(text: Seq<char>) -> Seq<char> {
    text + " is not a valid phone number."@
}

/// The outcome owed for `text` under the region `hint`: an unknown region, text
/// that does not read as a number, and a number that fails the numbering-plan
/// check are each rejected with their message; otherwise the phone holds the
/// number's E.164 text and region.
pub open spec fn parse_outcome(
    r: Result<Phone, ParseError>,
    hint: Option<Seq<char>>,
    text: Seq<char>,
) -> bool {
    if hint is Some && !is_region_code(hint->Some_0) {
        r is Err && r->Err_0.0@ == unknown_region_message(hint->Some_0)
    } else if !reads_as_number(hint, text) {
        r is Err && r->Err_0.0@ == unreadable_message(text, hint is Some)
    } else if !is_valid_number(hint, text) {
        r is Err && r->Err_0.0@ == invalid_message(text)
    } else {
        r is Ok && r->Ok_0.e164_view() == e164_form(hint, text) && r->Ok_0.country_view()
            == region_of(hint, text)
    }
}

/// A phone number in the form that a user typed it, with its region code.
#[derive(Clone, Debug)]
pub struct RawPhone {
    pub number: String,
    pub country_code: String,
}

/// A phone number that passed validation, kept in its E.164 form.
#[derive(Debug)]
pub struct Phone {
    e164: String,
    country: Option<String>,
}

impl Phone {
    #[verifier::type_invariant]
    spec fn inv(&self) -> bool {
        is_e164_shaped(self.e164@)
    }

    /// The E.164 text of this number.
    pub closed spec fn e164_view(&self) -> Seq<char> {
        self.e164@
    }

    /// The region code of this number, where it belongs to one.
    pub closed spec fn country_view(&self) -> Option<Seq<char>> {
        string_opt_view(self.country)
    }

    fn read(number: &str, hint: Option<&str>) -> (r: Result<Phone, ParseError>)
        ensures
            parse_outcome(r, str_opt_view(hint), number@),
            number@.len() == 0 ==> r is Err,
    {
        match read_number(hint, number) {
            Reading::UnknownRegion => {
                let mut m = match hint {
                    Some(c) => String::from_str(c),
                    None => String::new(),
                };
                m.append(" is not a valid or known phone country code");
                Err(ParseError(m))
            },
            Reading::NoNumber => {
                let mut m = String::from_str("error while parsing phone number ");
                m.append(number);
                if hint.is_none() {
                    m.append(".");
                }
                Err(ParseError(m))
            },
            Reading::Parsed(p) => {
                if !number_is_valid(&p) {
                    let mut m = String::from_str(number);
                    m.append(" is not a valid phone number.");
                    Err(ParseError(m))
                } else {
                    let e164 = e164_text(&p);
                    let country = region_code(&p);
                    Ok(Phone { e164, country })
                }
            },
        }
    }

    /// Validates `number` under the region `country_iso`, in either case.
    pub fn parse(number: &str, country_iso: &str) -> (r: Result<Phone, ParseError>)
        ensures
            parse_outcome(r, Some(upper_of(country_iso@)), number@),
            number@.len() == 0 ==> r is Err,
    {
        let region = uppercase(country_iso);
        Phone::read(number, Some(region.as_str()))
    }

    /// Validates `number`, which must carry its international prefix.
    pub fn parse_with_no_country(number: &str) -> (r: Result<Phone, ParseError>)
        ensures
            parse_outcome(r, None, number@),
            number@.len() == 0 ==> r is Err,
    {
        Phone::read(number, None)
    }

    /// The E.164 text: `+`, the calling code and the national number.
    pub fn e164_number(&self) -> (r: String)
        ensures
            r@ == self.e164_view(),
            is_e164_shaped(r@),
    {
        proof {
            use_type_invariant(self);
        }
        self.e164.clone()
    }

    /// The two-letter region code, or an empty text for a number of no region.
    pub fn country_iso(&self) -> (r: String)
        ensures
            r@ == match self.country_view() {
                Some(c) => c,
                None => Seq::empty(),
            },
    {
        match &self.country {
            Some(c) => c.clone(),
            None => String::new(),
        }
    }
}

impl Clone for Phone {
    fn clone(&self) -> (r: Phone)
        ensures
            r.e164_view() == self.e164_view(),
            r.country_view() == self.country_view(),
    {
        proof {
            use_type_invariant(self);
        }
        let country = match &self.country {
            Some(c) => Some(c.clone()),
            None => None,
        };
        Phone { e164: self.e164.clone(), country }
    }
}

impl PartialEq for Phone {
    fn eq(&self, other: &Phone) -> (r: bool)
        ensures
            r == (self.e164_view() == other.e164_view()),
    {
        self.e164 == other.e164
    }
}

impl vstd::std_specs::cmp::PartialEqSpecImpl for Phone {
    open spec fn obeys_eq_spec() -> bool {
        true
    }

    open spec fn eq_spec(&self, other: &Phone) -> bool {
        self.e164_view() == other.e164_view()
    }
}

} // verus!
