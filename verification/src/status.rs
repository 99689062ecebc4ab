//! HTTP response statuses as the health probe reads them.

use vstd::prelude::*;

verus! {

/// The text that `Display` of `reqwest::StatusCode` prints for the status with
/// this numeric code: the code in decimal, a space, and the standard reason
/// phrase of the code (or a fixed placeholder where the code has none).
pub uninterp spec fn status_display(code: u16) -> Seq<char>;

/// The decimal digit `d` as a character.
pub open spec fn digit_char(d: int) -> char
    recommends
        0 <= d <= 9,
{
    (('0' as u8) + d) as u8 as char
}

/// The three decimal digits of a status code, most significant first.
pub open spec fn code_digits(code: u16) -> Seq<char>
    recommends
        100 <= code < 1000,
{
    seq![
        digit_char(code as int / 100),
        digit_char((code as int / 10) % 10),
        digit_char(code as int % 10),
    ]
}

/// `reqwest::StatusCode::is_success`, on the status that
/// `reqwest::StatusCode::from_u16` makes of `code`: true exactly for the
/// codes 200 to 299. A code that is no status at all counts as no success.
#[verifier::external_body]
fn status_code_is_success(code: u16) -> (success: bool)
    ensures
        success == (200 <= code < 300),
{
    match reqwest::StatusCode::from_u16(code) {
        Ok(status) => status.is_success(),
        Err(_) => false,
    }
}

/// `Display` of `reqwest::StatusCode` (through `to_string`), on the status
/// that `reqwest::StatusCode::from_u16` makes of `code`. The contract names
/// the printed text and claims of it only that it opens with the three
/// decimal digits of the code and a space; the reason phrase behind them is
/// left to the outside crate.
#[verifier::external_body]
fn status_code_text(code: u16) -> (text: String)
    requires
        100 <= code < 1000,
    ensures
        text@ == status_display(code),
        text@.len() >= 4,
        text@.subrange(0, 4) == code_digits(code).push(' '),
{
    match reqwest::StatusCode::from_u16(code) {
        Ok(status) => status.to_string(),
        Err(invalid) => invalid.to_string(),
    }
}

/// The status of an HTTP response: a numeric code from 100 to 999.
#[derive(Clone, Copy, Debug, PartialEq, Eq)]
pub struct HttpStatus {
    code: u16,
}

impl View for HttpStatus {
    type V = u16;

    closed spec fn view(&self) -> u16 {
        self.code
    }
}

impl HttpStatus {
    #[verifier::type_invariant]
    spec fn in_range(self) -> bool {
        100 <= self.code < 1000
    }

    /// The status with the given code, if the code is one: `Some` exactly for
    /// 100 to 999.
    pub fn new(code: u16) -> (status: Option<HttpStatus>)
        ensures
            status is Some <==> 100 <= code < 1000,
            status matches Some(s) ==> s@ == code,
    {
        if 100 <= code && code < 1000 {
            Some(HttpStatus { code })
        } else {
            None
        }
    }

    /// The numeric code.
    pub fn code(&self) -> (code: u16)
        ensures
            code == self@,
            100 <= code < 1000,
    {
        proof {
            use_type_invariant(self);
        }
        self.code
    }

    /// Whether the status reports success: the codes 200 to 299.
    pub fn is_success(&self) -> (success: bool)
        ensures
            success == (200 <= self@ < 300),
    {
        status_code_is_success(self.code)
    }

    /// The status as text: its code and reason phrase.
    pub fn text(&self) -> (text: String)
        ensures
            text@ == status_display(self@),
            100 <= self@ < 1000,
            text@.len() >= 4,
            text@.subrange(0, 4) == code_digits(self@).push(' '),
    {
        proof {
            use_type_invariant(self);
        }
        status_code_text(self.code)
    }
}

} // verus!
