//! Decoding of raw event text: XML unescaping (through the pull-parser
//! crate) and parsing of decimal integer fields (verified here).

use vstd::prelude::*;
use vstd::string::StrSliceExecFns;

use crate::error::{LoadError, LoadErrorV};

verus! {

/// What `quick_xml::escape::unescape` returns on a given input: `Some` with
/// the text after every XML character and entity reference is replaced, or
/// `None` when a reference is malformed.  The result depends on the input
/// text alone.
pub uninterp spec fn unescaped(raw: Seq<char>) -> Option<Seq<char>>;

/// Relies on `quick_xml::escape::unescape`: resolves XML character and
/// entity references (`&amp;`, `&#xE9;`, ...); deterministic in its input.
#[verifier::external_body]
fn unescape_raw(raw: &str) -> (r: Result<String, ()>)
    ensures
        r is Ok <==> unescaped(raw@) is Some,
        r is Ok ==> r->Ok_0@ == unescaped(raw@)->Some_0,
{
    match quick_xml::escape::unescape(raw) {
        Ok(cow) => Ok(cow.into_owned()),
        Err(_) => Err(()),
    }
}

/// What decoding a text value yields: the unescaped text, or the error that
/// the load aborts with.
pub open spec fn spec_text_value(raw: Seq<char>) -> Result<Seq<char>, LoadErrorV> {
    match unescaped(raw) {
        Some(s) => Ok(s),
        None => Err(LoadErrorV::Xml { raw }),
    }
}

/// Decodes a scalar text value: resolves XML escapes.
pub fn text_value(raw: String) -> (r: Result<String, LoadError>)
    ensures
        r is Ok <==> spec_text_value(raw@) is Ok,
        r is Ok ==> r->Ok_0@ == spec_text_value(raw@)->Ok_0,
        r is Err ==> r->Err_0@ == spec_text_value(raw@)->Err_0,
{
    match unescape_raw(raw.as_str()) {
        Ok(s) => Ok(s),
        Err(_) => Err(LoadError::Xml { raw }),
    }
}

/// Whether `c` is an ASCII decimal digit.
pub open spec fn is_digit(c: char) -> bool {
    '0' <= c && c <= '9'
}

/// The numeric value of a digit character.
pub open spec fn digit_val(c: char) -> nat {
    ((c as int) - ('0' as int)) as nat
}

/// Whether every character of `s` is a decimal digit.
pub open spec fn all_digits(s: Seq<char>) -> bool {
    forall|i: int| 0 <= i < s.len() ==> is_digit(#[trigger] s[i])
}

/// The value of a digit string read in base ten.
pub open spec fn digits_val(s: Seq<char>) -> nat
    decreases s.len(),
{
    if s.len() == 0 {
        0
    } else {
        digits_val(s.drop_last()) * 10 + digit_val(s.last())
    }
}

/// What Rust's `str::parse::<i32>` accepts: an optional sign followed by one
/// or more digits, the value fitting in 32 signed bits.
pub open spec fn spec_parse_i32(s: Seq<char>) -> Option<i32> {
    let ds = if s.len() > 0 && (s[0] == '+' || s[0] == '-') {
        s.skip(1)
    } else {
        s
    };
    let negative = s.len() > 0 && s[0] == '-';
    if ds.len() == 0 || !all_digits(ds) {
        None
    } else {
        let v = if negative {
            -(digits_val(ds) as int)
        } else {
            digits_val(ds) as int
        };
        if i32::MIN <= v <= i32::MAX {
            Some(v as i32)
        } else {
            None
        }
    }
}

/// A digit string's value only grows as digits are appended.
proof fn lemma_digits_val_prefix(s: Seq<char>, i: int)
    requires
        0 <= i <= s.len(),
    ensures
        digits_val(s.take(i)) <= digits_val(s),
    decreases s.len(),
{
    if i < s.len() {
        assert(s.drop_last().take(i) =~= s.take(i));
        lemma_digits_val_prefix(s.drop_last(), i);
    } else {
        assert(s.take(i) =~= s);
    }
}

/// Parses a decimal `i32` exactly as `str::parse::<i32>` would.
pub fn parse_i32(s: &str) -> (r: Option<i32>)
    ensures
        r == spec_parse_i32(s@),
{
    let n = s.unicode_len();
    let ghost sv = s@;
    let mut start: usize = 0;
    let mut negative = false;
    if n > 0 {
        let c0 = s.get_char(0);
        if c0 == '+' || c0 == '-' {
            start = 1;
            negative = c0 == '-';
        }
    }
    let ghost ds = if start == 1 { sv.skip(1) } else { sv };
    assert(ds.len() == n - start);
    if n == start {
        return None;
    }
    let mut acc: u64 = 0;
    let mut i: usize = start;
    while i < n
        invariant
            sv == s@,
            start <= i <= n,
            n == sv.len(),
            ds == (if start == 1 { sv.skip(1) } else { sv }),
            start == 0 || start == 1,
            (start == 1) == (sv.len() > 0 && (sv[0] == '+' || sv[0] == '-')),
            negative == (sv.len() > 0 && sv[0] == '-'),
            ds.len() == n - start,
            all_digits(ds.take(i - start)),
            acc == digits_val(ds.take(i - start)),
            acc <= 0xFFFF_FFFFu64,
        decreases n - i,
    {
        let c = s.get_char(i);
        assert(ds[i - start] == c);
        if !(c >= '0' && c <= '9') {
            assert(!is_digit(ds[i - start]));
            return None;
        }
        let d: u64 = (c as u32 - '0' as u32) as u64;
        let next: u64 = acc * 10 + d;
        assert(ds.take(i + 1 - start).drop_last() =~= ds.take(i - start));
        if next > 0xFFFF_FFFFu64 {
            // The value already exceeds the `i32` range and appending more
            // digits can only grow it.
            proof {
                if all_digits(ds) {
                    lemma_digits_val_prefix(ds, i + 1 - start);
                }
            }
            return None;
        }
        acc = next;
        i += 1;
    }
    assert(ds.take(i - start) =~= ds);
    if negative {
        if acc > 0x8000_0000u64 {
            return None;
        }
        if acc == 0x8000_0000u64 {
            return Some(i32::MIN);
        }
        return Some(-((acc as u32) as i32));
    }
    if acc > 0x7FFF_FFFFu64 {
        return None;
    }
    Some(acc as u32 as i32)
}

/// What decoding an integer field yields: unescape, then parse; `at` is the
/// breadcrumb carried by a parse failure.
pub open spec fn spec_int_value(raw: Seq<char>, at: Seq<char>) -> Result<i32, LoadErrorV> {
    match unescaped(raw) {
        None => Err(LoadErrorV::Xml { raw }),
        Some(s) => match spec_parse_i32(s) {
            Some(v) => Ok(v),
            None => Err(LoadErrorV::Parse { at, raw: s }),
        },
    }
}

/// Decodes an integer field: resolves XML escapes, then parses base ten.
pub fn int_value(raw: String, at: &str) -> (r: Result<i32, LoadError>)
    ensures
        r is Ok <==> spec_int_value(raw@, at@) is Ok,
        r is Ok ==> r->Ok_0 == spec_int_value(raw@, at@)->Ok_0,
        r is Err ==> r->Err_0@ == spec_int_value(raw@, at@)->Err_0,
{
    match unescape_raw(raw.as_str()) {
        Err(_) => Err(LoadError::Xml { raw }),
        Ok(s) => match parse_i32(s.as_str()) {
            Some(v) => Ok(v),
            None => Err(LoadError::Parse { at: at.to_owned(), raw: s }),
        },
    }
}

} // verus!
