//! Errors of the Kaneo client, and what an HTTP failure message tells.
use vstd::prelude::*;

use crate::text::{chars_of, is_whitespace, is_ws, push_str, string_of, trim_start_ws};

verus! {

/// A failure talking to Kaneo.
#[derive(Clone, Debug)]
pub enum KaneoError {
    /// The API call failed; the text is the client's error message, which
    /// for HTTP failures starts with the status code.
    Api(String),
    /// A project has no column with this name.
    ColumnNotFound(String),
}

/// A failure of a task-tracker integration.
#[derive(Clone, Debug)]
pub enum IntegrationError {
    Kaneo(KaneoError),
    Other(String),
}

/// `c` is an ASCII decimal digit.
pub open spec fn is_digit(c: char) -> bool {
    '0' <= c <= '9'
}

/// The value of the ASCII decimal digit `c`.
pub open spec fn digit_value(c: char) -> int {
    c as int - '0' as int
}

/// The HTTP error status a message starts with: its first three characters
/// read as a decimal number, when that number is an error status (400 to
/// 599).
pub open spec fn status_prefix(m: Seq<char>) -> Option<u16> {
    if m.len() >= 3 && is_digit(m[0]) && is_digit(m[1]) && is_digit(m[2]) {
        let v = 100 * digit_value(m[0]) + 10 * digit_value(m[1]) + digit_value(m[2]);
        if 400 <= v <= 599 {
            Some(v as u16)
        } else {
            None
        }
    } else {
        None
    }
}

/// The first position at or after `k` where `": "` starts in `s`.
pub open spec fn separator_from(s: Seq<char>, k: int) -> Option<int>
    decreases s.len() - k,
{
    if k < 0 || k + 1 >= s.len() {
        None
    } else if s[k] == ':' && s[k + 1] == ' ' {
        Some(k)
    } else {
        separator_from(s, k + 1)
    }
}

/// The text after the status of an HTTP failure message: the status code,
/// then optional white space, then some text, `": "`, and the part returned.
pub open spec fn public_part(m: Seq<char>) -> Option<Seq<char>> {
    match status_prefix(m) {
        None => None,
        Some(_) => {
            let rest = trim_start_ws(m.skip(3));
            match separator_from(rest, 0) {
                Some(k) => Some(rest.skip(k + 2)),
                None => None,
            }
        },
    }
}

/// The text of an error, as displayed.
pub open spec fn kaneo_error_text(e: KaneoError) -> Seq<char> {
    match e {
        KaneoError::Api(m) => "kaneo API error: "@ + m@,
        KaneoError::ColumnNotFound(m) => "column not found in project: "@ + m@,
    }
}

/// The text of a provider error, as displayed.
pub open spec fn integration_error_text(e: IntegrationError) -> Seq<char> {
    match e {
        IntegrationError::Kaneo(k) => "kaneo error: "@ + kaneo_error_text(k),
        IntegrationError::Other(m) => "integration error: "@ + m@,
    }
}

fn digit_of(c: char) -> (r: u16)
    requires
        is_digit(c),
    ensures
        r == digit_value(c),
{
    (c as u32 - '0' as u32) as u16
}

/// Reads the HTTP error status at the start of a client error message.
pub fn parse_http_status_code(message: &str) -> (r: Option<u16>)
    ensures
        r == status_prefix(message@),
{
    let m = chars_of(message);
    if m.len() < 3 {
        return None;
    }
    let (a, b, c) = (m[0], m[1], m[2]);
    if !('0' <= a && a <= '9' && '0' <= b && b <= '9' && '0' <= c && c <= '9') {
        return None;
    }
    let v: u16 = 100 * digit_of(a) + 10 * digit_of(b) + digit_of(c);
    if 400 <= v && v <= 599 {
        Some(v)
    } else {
        None
    }
}

/// The part of an HTTP failure message meant for users: what follows the
/// first `": "` after the status code.
pub fn strip_http_status_prefix(message: &str) -> (r: Option<&str>)
    ensures
        match r {
            Some(s) => public_part(message@) == Some(s@),
            None => public_part(message@) is None,
        },
{
    let status = parse_http_status_code(message);
    if status.is_none() {
        return None;
    }
    let m = chars_of(message);
    let n = m.len();
    let mut start: usize = 3;
    assert(m@.skip(3) =~= m@.skip(start as int));
    while start < n && is_whitespace(m[start])
        invariant
            3 <= start <= n == m@.len(),
            trim_start_ws(m@.skip(3)) == trim_start_ws(m@.skip(start as int)),
        decreases n - start,
    {
        assert(m@.skip(start as int).drop_first() =~= m@.skip(start + 1));
        start += 1;
    }
    let ghost rest = m@.skip(start as int);
    assert(trim_start_ws(rest) == rest) by {
        if rest.len() > 0 {
            assert(rest[0] == m@[start as int]);
        }
    }
    let mut k: usize = start;
    while k < n - 1 && !(m[k] == ':' && m[k + 1] == ' ')
        invariant
            start <= k <= n,
            n >= 3,
            n == m@.len(),
            rest == m@.skip(start as int),
            separator_from(rest, 0) == separator_from(rest, k - start),
        decreases n - k,
    {
        k += 1;
    }
    if k < n - 1 {
        assert(separator_from(rest, k - start) == Some((k - start) as int));
        assert(rest.skip(k - start + 2) =~= m@.subrange(k + 2, n as int));
        Some(message.substring_char(k + 2, n))
    } else {
        None
    }
}

impl From<KaneoError> for IntegrationError {
    /// A Kaneo failure, as a provider failure.
    fn from(e: KaneoError) -> (r: Self) {
        IntegrationError::Kaneo(e)
    }
}

impl vstd::std_specs::convert::FromSpecImpl<KaneoError> for IntegrationError {
    open spec fn obeys_from_spec() -> bool {
        true
    }

    open spec fn from_spec(e: KaneoError) -> Self {
        IntegrationError::Kaneo(e)
    }
}

impl IntegrationError {
    /// The text of the error, as displayed.
    pub fn message(&self) -> (r: String)
        ensures
            r@ == integration_error_text(*self),
    {
        let mut out: Vec<char> = Vec::new();
        match self {
            IntegrationError::Kaneo(k) => {
                push_str(&mut out, "kaneo error: ");
                let inner = k.message();
                push_str(&mut out, inner.as_str());
            },
            IntegrationError::Other(m) => {
                push_str(&mut out, "integration error: ");
                push_str(&mut out, m.as_str());
            },
        }
        string_of(&out)
    }
}

impl KaneoError {
    /// The text of the error, as displayed.
    pub fn message(&self) -> (r: String)
        ensures
            r@ == kaneo_error_text(*self),
    {
        let mut out: Vec<char> = Vec::new();
        match self {
            KaneoError::Api(m) => {
                push_str(&mut out, "kaneo API error: ");
                push_str(&mut out, m.as_str());
            },
            KaneoError::ColumnNotFound(m) => {
                push_str(&mut out, "column not found in project: ");
                push_str(&mut out, m.as_str());
            },
        }
        string_of(&out)
    }

    /// The HTTP error status of a failed API call, when the message starts
    /// with one.
    pub fn http_status_code(&self) -> (r: Option<u16>)
        ensures
            r == match *self {
                KaneoError::Api(m) => status_prefix(m@),
                KaneoError::ColumnNotFound(_) => None,
            },
    {
        match self {
            KaneoError::Api(message) => parse_http_status_code(message.as_str()),
            KaneoError::ColumnNotFound(_) => None,
        }
    }

    /// The part of the error that may be shown to users.
    pub fn public_message(&self) -> (r: Option<&str>)
        ensures
            match *self {
                KaneoError::Api(m) => match r {
                    Some(s) => public_part(m@) == Some(s@),
                    None => public_part(m@) is None,
                },
                KaneoError::ColumnNotFound(m) => r is Some && r->0@ == m@,
            },
    {
        match self {
            KaneoError::Api(message) => strip_http_status_prefix(message.as_str()),
            KaneoError::ColumnNotFound(message) => Some(message.as_str()),
        }
    }
}

} // verus!
