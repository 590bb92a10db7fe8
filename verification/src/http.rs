//! The HTTP request model of a small web server.
//!
//! A request holds the parsed request line, a chain of header fields,
//! and the body; the body length is taken from the `Content-Length`
//! header, whose value is a decimal integer.  Only the data model and
//! the parsing of values are here; reading lines from a connection is
//! the caller's business.

use vstd::prelude::*;
use vstd::string::{StrSliceExecFns, StringExecFns};

verus! {

/// A malformed request.
#[derive(Debug, Clone, PartialEq, Eq)]
pub enum CustomError {
    /// The request line or a header could not be parsed.
    ParseError(String),
    /// The announced request body exceeds the accepted maximum.
    TooLongRequestBodyError,
    /// A host name resolved to no address.
    NoAddressError(String),
}

/// The descriptive line printed for a malformed request.
pub open spec fn spec_custom_error_message(e: CustomError) -> Seq<char> {
    match e {
        CustomError::ParseError(s) => "parse error on request line: "@ + s@,
        CustomError::TooLongRequestBodyError => "too long request body"@,
        CustomError::NoAddressError(s) => "no address: "@ + s@ + " does not exist"@,
    }
}

impl CustomError {
    /// Renders the descriptive line for this error.
    pub fn message(&self) -> (s: String)
        ensures
            s@ =~= spec_custom_error_message(*self),
    {
        match self {
            CustomError::ParseError(detail) => {
                let mut s: String = "parse error on request line: ".to_owned();
                s.append(detail.as_str());
                s
            },
            CustomError::TooLongRequestBodyError => "too long request body".to_owned(),
            CustomError::NoAddressError(host) => {
                let mut s: String = "no address: ".to_owned();
                s.append(host.as_str());
                s.append(" does not exist");
                s
            },
        }
    }
}

/// One header field, chained to the fields parsed before it.
#[derive(Debug)]
pub struct HTTPHeaderField {
    pub name: String,
    pub value: String,
    pub next: Option<Box<HTTPHeaderField>>,
}

impl HTTPHeaderField {
    /// An empty header field, not chained to any other.
    pub fn new() -> (h: HTTPHeaderField)
        ensures
            h.name@.len() == 0,
            h.value@.len() == 0,
            h.next is None,
    {
        HTTPHeaderField { name: String::new(), value: String::new(), next: None }
    }
}

/// One parsed request.
#[derive(Debug)]
pub struct HTTPRequest {
    pub protocol_minor_version: i32,
    pub method: String,
    pub path: String,
    pub header: Option<Box<HTTPHeaderField>>,
    pub body: String,
    pub length: i64,
}

impl HTTPRequest {
    /// An empty request: protocol minor version and length zero, no
    /// header fields, empty method, path, and body.
    pub fn new() -> (r: HTTPRequest)
        ensures
            r.protocol_minor_version == 0,
            r.method@.len() == 0,
            r.path@.len() == 0,
            r.header is None,
            r.body@.len() == 0,
            r.length == 0,
    {
        HTTPRequest {
            protocol_minor_version: 0,
            method: String::new(),
            path: String::new(),
            header: None,
            body: String::new(),
            length: 0,
        }
    }
}

/// The value of the first header field in the chain with the given
/// name.
pub open spec fn spec_header_lookup(h: Option<Box<HTTPHeaderField>>, name: Seq<char>) -> Option<
    Seq<char>,
>
    decreases h,
{
    match h {
        Some(f) => if f.name@ == name {
            Some(f.value@)
        } else {
            spec_header_lookup(f.next, name)
        },
        None => None,
    }
}

/// A decimal digit.
pub open spec fn spec_is_digit(c: char) -> bool {
    48 <= c as int <= 57
}

/// The value of a decimal digit.
pub open spec fn spec_digit_val(c: char) -> int {
    c as int - 48
}

/// Whether every character is a decimal digit.
pub open spec fn spec_all_digits(s: Seq<char>) -> bool {
    forall|i: int| 0 <= i < s.len() ==> spec_is_digit(#[trigger] s[i])
}

/// The number a digit string denotes, most significant digit first.
pub open spec fn spec_digits_val(s: Seq<char>) -> int
    decreases s.len(),
{
    if s.len() == 0 {
        0
    } else {
        spec_digits_val(s.drop_last()) * 10 + spec_digit_val(s.last())
    }
}

/// How a string parses as a signed 64-bit decimal integer: an
/// optional single sign, then at least one digit, and a value in
/// range; anything else is rejected.
pub open spec fn spec_parse_i64(s: Seq<char>) -> Option<i64> {
    let has_sign = s.len() > 0 && (s[0] == '+' || s[0] == '-');
    let negative = s.len() > 0 && s[0] == '-';
    let digits = if has_sign {
        s.skip(1)
    } else {
        s
    };
    if digits.len() >= 1 && spec_all_digits(digits) {
        let v = if negative {
            -spec_digits_val(digits)
        } else {
            spec_digits_val(digits)
        };
        if i64::MIN <= v <= i64::MAX {
            Some(v as i64)
        } else {
            None
        }
    } else {
        None
    }
}

proof fn lemma_digits_val_nonneg(s: Seq<char>)
    requires
        spec_all_digits(s),
    ensures
        spec_digits_val(s) >= 0,
    decreases s.len(),
{
    if s.len() > 0 {
        assert(spec_all_digits(s.drop_last()));
        lemma_digits_val_nonneg(s.drop_last());
    }
}

proof fn lemma_digits_val_prefix_le(s: Seq<char>, k: int)
    requires
        spec_all_digits(s),
        0 <= k <= s.len(),
    ensures
        spec_digits_val(s.take(k)) <= spec_digits_val(s),
    decreases s.len() - k,
{
    if k < s.len() {
        assert(s.take(k + 1).drop_last() =~= s.take(k));
        assert(s.take(k + 1).last() == s[k]);
        assert(spec_all_digits(s.take(k)));
        lemma_digits_val_nonneg(s.take(k));
        assert(spec_digits_val(s.take(k + 1)) == spec_digits_val(s.take(k)) * 10
            + spec_digit_val(s[k]));
        assert(spec_digits_val(s.take(k)) * 10 >= spec_digits_val(s.take(k))) by (nonlinear_arith)
            requires
                spec_digits_val(s.take(k)) >= 0,
        ;
        lemma_digits_val_prefix_le(s, k + 1);
    } else {
        assert(s.take(k) =~= s);
    }
}

/// Parses a signed 64-bit decimal integer: an optional single `+` or
/// `-` sign, then at least one digit.  A string with any other
/// character, with no digit, or denoting a value outside the 64-bit
/// range yields nothing.
pub fn parse_i64(s: &str) -> (r: Option<i64>)
    ensures
        r == spec_parse_i64(s@),
{
    let len = s.unicode_len();
    let (negative, start): (bool, usize) = if len > 0 {
        let c0 = s.get_char(0);
        if c0 == '-' {
            (true, 1)
        } else if c0 == '+' {
            (false, 1)
        } else {
            (false, 0)
        }
    } else {
        (false, 0)
    };
    let ghost digits: Seq<char> = if start == 1 {
        s@.skip(1)
    } else {
        s@
    };
    if len == start {
        assert(digits.len() == 0);
        return None;
    }
    let mut acc: u64 = 0;
    let mut idx: usize = start;
    while idx < len
        invariant
            len == s@.len(),
            start <= idx <= len,
            start <= 1,
            (start == 1) == (s@.len() > 0 && (s@[0] == '+' || s@[0] == '-')),
            negative == (s@.len() > 0 && s@[0] == '-'),
            digits == (if start == 1 {
                s@.skip(1)
            } else {
                s@
            }),
            digits.len() == len - start,
            forall|i: int| 0 <= i < idx - start ==> spec_is_digit(#[trigger] digits[i]),
            acc as int == spec_digits_val(digits.take(idx - start)),
        decreases len - idx,
    {
        let c = s.get_char(idx);
        assert(c == digits[idx - start]);
        let code: u32 = c as u32;
        if code < 48 || code > 57 {
            assert(!spec_is_digit(digits[idx - start]));
            assert(!spec_all_digits(digits));
            return None;
        }
        let d: u64 = (code - 48) as u64;
        let ghost prefix = digits.take(idx - start);
        let ghost prefix1 = digits.take(idx + 1 - start);
        proof {
            assert(prefix1.drop_last() =~= prefix);
            assert(prefix1.last() == digits[idx - start]);
            assert(spec_digits_val(prefix1) == spec_digits_val(prefix) * 10 + spec_digit_val(
                digits[idx - start],
            ));
        }
        let widened = match acc.checked_mul(10) {
            Some(w) => w.checked_add(d),
            None => None,
        };
        match widened {
            Some(w) => {
                acc = w;
            },
            None => {
                proof {
                    assert(d as int == spec_digit_val(digits[idx - start]));
                    assert(spec_digits_val(prefix1) > u64::MAX);
                    if spec_all_digits(digits) {
                        lemma_digits_val_prefix_le(digits, idx + 1 - start);
                        assert(spec_digits_val(digits) > u64::MAX);
                    }
                    assert(spec_parse_i64(s@) is None);
                }
                return None;
            },
        }
        idx = idx + 1;
    }
    proof {
        assert(digits.take(len - start) =~= digits);
        assert(acc as int == spec_digits_val(digits));
        assert(spec_all_digits(digits));
    }
    if negative {
        if acc <= 9223372036854775807u64 {
            Some(-(acc as i64))
        } else if acc == 9223372036854775808u64 {
            Some(i64::MIN)
        } else {
            None
        }
    } else {
        if acc <= 9223372036854775807u64 {
            Some(acc as i64)
        } else {
            None
        }
    }
}

/// The length announced by the first `Content-Length` header in the
/// chain, when its value parses as a decimal integer.
pub fn content_length(h: &Option<Box<HTTPHeaderField>>) -> (r: Option<i64>)
    ensures
        r == match spec_header_lookup(*h, "Content-Length"@) {
            Some(v) => spec_parse_i64(v),
            None => None,
        },
    decreases *h,
{
    match h {
        Some(kv) => {
            let key: String = "Content-Length".to_owned();
            if kv.name == key {
                parse_i64(kv.value.as_str())
            } else {
                content_length(&kv.next)
            }
        },
        None => None,
    }
}

} // verus!
