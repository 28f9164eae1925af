//! HTTP status codes: the three-digit number of a reply, whether it stands
//! for success, and the text under which it appears in reports.

use vstd::prelude::*;

verus! {

/// The reason text that the `Display` of `reqwest::StatusCode` writes
/// behind the number of the status `code`: the canonical reason of the
/// code, or a fixed placeholder where it has none. Nothing is stated of
/// which text belongs to which code.
pub uninterp spec fn reason_text(code: u16) -> Seq<char>;

/// The decimal digit `d` as a character; `'0'` outside `0..=9`.
pub open spec fn digit_char(d: int) -> char {
    if d == 1 {
        '1'
    } else if d == 2 {
        '2'
    } else if d == 3 {
        '3'
    } else if d == 4 {
        '4'
    } else if d == 5 {
        '5'
    } else if d == 6 {
        '6'
    } else if d == 7 {
        '7'
    } else if d == 8 {
        '8'
    } else if d == 9 {
        '9'
    } else {
        '0'
    }
}

/// The three decimal digits of a status code.
pub open spec fn code_digits(code: u16) -> Seq<char>
    recommends
        100 <= code <= 999,
{
    seq![
        digit_char(code as int / 100),
        digit_char((code as int / 10) % 10),
        digit_char(code as int % 10),
    ]
}

/// The digits of a status code spell its number in decimal.
pub proof fn law_digits_spell_the_code(code: u16)
    requires
        100 <= code <= 999,
    ensures
        code_digits(code).len() == 3,
        forall|i: int| 0 <= i < 3 ==> '0' <= #[trigger] code_digits(code)[i] <= '9',
        (code_digits(code)[0] as int - '0' as int) * 100 + (code_digits(code)[1] as int - '0'
            as int) * 10 + (code_digits(code)[2] as int - '0' as int) == code,
{
}

/// A status as it appears in reports: the number, a space, the reason.
pub open spec fn status_line(code: u16) -> Seq<char> {
    code_digits(code) + seq![' '] + reason_text(code)
}

/// Whether `code` lies in the success class, 200 to 299.
pub open spec fn is_success_code(code: u16) -> bool {
    200 <= code < 300
}

/// The status code of an HTTP reply, always between 100 and 999.
#[derive(Clone, Copy, Debug, PartialEq, Eq)]
pub struct Status {
    code: u16,
}

impl View for Status {
    type V = u16;

    closed spec fn view(&self) -> u16 {
        self.code
    }
}

/// Formats a status through `reqwest::StatusCode`. Taken on trust:
/// `from_u16` accepts every code from 100 to 999, and the `Display` of
/// what it returns writes the number in decimal, one space, and the reason
/// text.
#[verifier::external_body]
fn display_status(code: u16) -> (text: String)
    requires
        100 <= code <= 999,
    ensures
        text@ == code_digits(code) + seq![' '] + reason_text(code),
{
    match reqwest::StatusCode::from_u16(code) {
        Ok(status) => status.to_string(),
        Err(_) => String::new(),
    }
}

impl Status {
    #[verifier::type_invariant]
    spec fn in_range(self) -> bool {
        100 <= self.code <= 999
    }

    /// The status with the number `code`, if `code` has three digits.
    pub fn from_code(code: u16) -> (status: Option<Status>)
        ensures
            status is Some <==> 100 <= code <= 999,
            status matches Some(s) ==> s@ == code,
    {
        if 100 <= code && code <= 999 {
            Some(Status { code })
        } else {
            None
        }
    }

    /// The number of the status.
    pub fn code(&self) -> (code: u16)
        ensures
            code == self@,
            100 <= code <= 999,
    {
        proof {
            use_type_invariant(self);
        }
        self.code
    }

    /// Whether the status reports success.
    pub fn is_success(&self) -> (success: bool)
        ensures
            success == is_success_code(self@),
    {
        200 <= self.code && self.code < 300
    }

    /// The status as it appears in reports, such as `404 Not Found`.
    pub fn describe(&self) -> (text: String)
        ensures
            text@ == status_line(self@),
    {
        proof {
            use_type_invariant(self);
        }
        display_status(self.code)
    }
}

} // verus!
