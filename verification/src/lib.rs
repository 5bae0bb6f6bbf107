//! Download-and-descramble pipeline for a comic service: request signing and
//! response decryption, the block-count function and band reassembly, the
//! decisions of the session manager and of the download orchestrator.

use vstd::prelude::*;
use vstd::string::StringExecFns;

use crate::text::all_digits;
use crate::text::chars_of;
use crate::text::is_digit;

pub mod config;
pub mod crypto;
pub mod global_client;
pub mod handlers;
pub mod image_processor;
pub mod jm_client;
pub mod models;
pub mod pages;
pub mod text;

verus! {

/// The uniform response body: `code`, `success`, `data`, `message`, `time`.
#[derive(Debug)]
pub struct R<T> {
    /// `"0"` on success, the error's code otherwise.
    pub code: String,
    pub success: bool,
    pub data: Option<T>,
    pub message: Option<String>,
    /// The moment the body was made, in the time of Shanghai: as
    /// `YYYY-MM-DDTHH:MM:SS.sss+08:00` for every moment from the autumn of
    /// 1991 to the end of the year 9999.
    pub time: String,
}

/// The year of a time: four digits, or `+` and five digits or more for a
/// year after 9999.
pub open spec fn year_form(y: Seq<char>) -> bool {
    ||| y.len() == 4 && all_digits(y)
    ||| y.len() >= 6 && y[0] == '+' && all_digits(y.subrange(1, y.len() as int))
}

/// What follows the year of a time: `-MM-DDTHH:MM:SS.sss`, and the offset
/// of Shanghai from UTC, which is `+08:00`, and `+09:00` in summer time.
pub open spec fn time_tail_form(t: Seq<char>) -> bool {
    &&& t.len() == 25
    &&& t[0] == '-'
    &&& is_digit(t[1])
    &&& is_digit(t[2])
    &&& t[3] == '-'
    &&& is_digit(t[4])
    &&& is_digit(t[5])
    &&& t[6] == 'T'
    &&& is_digit(t[7])
    &&& is_digit(t[8])
    &&& t[9] == ':'
    &&& is_digit(t[10])
    &&& is_digit(t[11])
    &&& t[12] == ':'
    &&& is_digit(t[13])
    &&& is_digit(t[14])
    &&& t[15] == '.'
    &&& is_digit(t[16])
    &&& is_digit(t[17])
    &&& is_digit(t[18])
    &&& t[19] == '+'
    &&& t[20] == '0'
    &&& (t[21] == '8' || t[21] == '9')
    &&& t[22] == ':'
    &&& t[23] == '0'
    &&& t[24] == '0'
}

/// The form that the time of a body has whatever the clock says: a year,
/// and what follows the year.
pub open spec fn envelope_time_form(s: Seq<char>) -> bool {
    &&& s.len() >= 29
    &&& year_form(s.subrange(0, s.len() - 25))
    &&& time_tail_form(s.subrange(s.len() - 25, s.len() as int))
}

/// The form `YYYY-MM-DDTHH:MM:SS.sss+08:00`: 29 characters, the digits and
/// the separators in their places, and the offset of eight hours.
pub open spec fn standard_time_form(s: Seq<char>) -> bool {
    &&& s.len() == 29
    &&& envelope_time_form(s)
    &&& s[25] == '8'
}

/// Whether `time` has the form `YYYY-MM-DDTHH:MM:SS.sss+08:00`.
pub fn is_standard_time(time: &str) -> (b: bool)
    ensures
        b == standard_time_form(time@),
{
    let v = chars_of(time);
    if v.len() != 29 {
        return false;
    }
    let ghost s = v@;
    let ghost year = s.subrange(0, 4);
    let ghost tail = s.subrange(4, 29);
    proof {
        assert(forall|i: int| 0 <= i < 25 ==> tail[i] == s[i + 4]);
        assert(forall|i: int| 0 <= i < 4 ==> year[i] == s[i]);
    }
    let digits = is_digit_char(v[0]) && is_digit_char(v[1]) && is_digit_char(v[2])
        && is_digit_char(v[3]) && is_digit_char(v[5]) && is_digit_char(v[6]) && is_digit_char(
        v[8],
    ) && is_digit_char(v[9]) && is_digit_char(v[11]) && is_digit_char(v[12]) && is_digit_char(
        v[14],
    ) && is_digit_char(v[15]) && is_digit_char(v[17]) && is_digit_char(v[18]) && is_digit_char(
        v[20],
    ) && is_digit_char(v[21]) && is_digit_char(v[22]);
    let separators = v[4] == '-' && v[7] == '-' && v[10] == 'T' && v[13] == ':' && v[16] == ':'
        && v[19] == '.';
    let offset = v[23] == '+' && v[24] == '0' && v[25] == '8' && v[26] == ':' && v[27] == '0'
        && v[28] == '0';
    proof {
        if digits {
            assert(all_digits(year));
        }
        if all_digits(year) {
            assert(is_digit(year[0]) && is_digit(year[1]) && is_digit(year[2]) && is_digit(year[3]));
        }
    }
    digits && separators && offset
}

fn is_digit_char(c: char) -> (b: bool)
    ensures
        b == is_digit(c),
{
    let u: u32 = c as u32;
    48 <= u && u <= 57
}

impl<T> R<T> {
    /// The body of a success that carries `data`.
    pub fn success(data: T) -> (r: Self)
        ensures
            r.code@ == "0"@,
            r.success,
            r.data == Some(data),
            r.message is None,
            envelope_time_form(r.time@),
    {
        R {
            code: String::from_str("0"),
            success: true,
            data: Some(data),
            message: None,
            time: beijing_now(),
        }
    }

    /// The body of a failure with the given code and message.
    pub fn fail(code: &str, msg: &str) -> (r: Self)
        ensures
            r.code@ == code@,
            !r.success,
            r.data is None,
            r.message matches Some(m) && m@ == msg@,
            envelope_time_form(r.time@),
    {
        R {
            code: String::from_str(code),
            success: false,
            data: None,
            message: Some(String::from_str(msg)),
            time: beijing_now(),
        }
    }
}

/// `chrono::Utc::now`, moved to the zone `chrono_tz::Asia::Shanghai` and
/// formatted by `%Y-%m-%dT%H:%M:%S%.3f%:z`. The result depends on the clock,
/// so the contract claims what holds of every clock from 1970 on, the first
/// that `Utc::now` takes. By chrono's formatting the year has four digits
/// up to 9999 and a sign and more digits after, and the month, the day, the
/// hour, the minute and the second have two digits each and the fraction
/// three. By chrono-tz's table the offset of Shanghai is eight hours, but
/// nine in the summers of 1986 to 1991, and eight ever since.
#[verifier::external_body]
fn beijing_now() -> (r: String)
    ensures
        envelope_time_form(r@),
{
    chrono::Utc::now().with_timezone(&chrono_tz::Asia::Shanghai).format(
        "%Y-%m-%dT%H:%M:%S%.3f%:z",
    ).to_string()
}

/// The kinds of error.
#[derive(Debug, Clone, Copy, PartialEq, Eq, Structural)]
pub enum ErrorKind {
    BadRequest,
    NotFound,
    Unauthorized,
    Forbidden,
    Internal,
}

/// What can go wrong, by kind, each with a message for the caller.
#[derive(Debug, Clone, PartialEq, Eq)]
pub enum AppError {
    BadRequest(String),
    NotFound(String),
    Unauthorized(String),
    Forbidden(String),
    /// Any failure that is none of the others.
    Internal(String),
}

impl View for AppError {
    type V = (ErrorKind, Seq<char>);

    open spec fn view(&self) -> (ErrorKind, Seq<char>) {
        (self.kind(), self.text())
    }
}

/// `r` is the error of the given kind with the given message.
pub open spec fn failed_with<T>(r: Result<T, AppError>, kind: ErrorKind, text: Seq<char>) -> bool {
    r matches Err(e) && e@ == (kind, text)
}

/// `r` with its error, if it is one, by kind and message.
pub open spec fn outcome<T>(r: Result<T, AppError>) -> Result<T, (ErrorKind, Seq<char>)> {
    match r {
        Ok(v) => Ok(v),
        Err(e) => Err(e@),
    }
}

impl AppError {
    /// The kind of the error.
    pub open spec fn kind(&self) -> ErrorKind {
        match self {
            AppError::BadRequest(_) => ErrorKind::BadRequest,
            AppError::NotFound(_) => ErrorKind::NotFound,
            AppError::Unauthorized(_) => ErrorKind::Unauthorized,
            AppError::Forbidden(_) => ErrorKind::Forbidden,
            AppError::Internal(_) => ErrorKind::Internal,
        }
    }

    /// The message that the error carries.
    pub open spec fn text(&self) -> Seq<char> {
        match self {
            AppError::BadRequest(m) => m@,
            AppError::NotFound(m) => m@,
            AppError::Unauthorized(m) => m@,
            AppError::Forbidden(m) => m@,
            AppError::Internal(m) => m@,
        }
    }

    /// The code of the error's kind.
    pub open spec fn code_text(&self) -> Seq<char> {
        match self {
            AppError::BadRequest(_) => "10001"@,
            AppError::Unauthorized(_) => "10002"@,
            AppError::Forbidden(_) => "10003"@,
            AppError::NotFound(_) => "10004"@,
            AppError::Internal(_) => "20000"@,
        }
    }

    /// The code that a failure body carries for this error.
    pub fn code(&self) -> (r: &'static str)
        ensures
            r@ == self.code_text(),
    {
        match self {
            AppError::BadRequest(_) => "10001",
            AppError::Unauthorized(_) => "10002",
            AppError::Forbidden(_) => "10003",
            AppError::NotFound(_) => "10004",
            AppError::Internal(_) => "20000",
        }
    }

    /// The message that the error carries.
    pub fn message(&self) -> (r: String)
        ensures
            r@ == self.text(),
    {
        match self {
            AppError::BadRequest(m) => m.clone(),
            AppError::NotFound(m) => m.clone(),
            AppError::Unauthorized(m) => m.clone(),
            AppError::Forbidden(m) => m.clone(),
            AppError::Internal(m) => m.clone(),
        }
    }

    /// The failure body for this error: its code and its message.
    pub fn body<T>(&self) -> (r: R<T>)
        ensures
            r.code@ == self.code_text(),
            !r.success,
            r.data is None,
            r.message matches Some(m) && m@ == self.text(),
            envelope_time_form(r.time@),
    {
        let message = self.message();
        R::fail(self.code(), message.as_str())
    }
}

pub type ApiResult<T> = Result<T, AppError>;

} // verus!
