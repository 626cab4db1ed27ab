//! SQL functions the application registers with SQLite: `REGEXP(pattern, text)` and
//! `LEN(text)`.

use vstd::prelude::*;
use vstd::string::StringSliceAdditionalSpecFns;
use vstd::utf8::{valid_utf8, decode_utf8};
use crate::value::{SqlValue, ColumnError};

verus! {

/// Whether the `regex` crate compiles `pattern` (`Regex::new` succeeds).
pub uninterp spec fn regex_compiles(pattern: Seq<char>) -> bool;

/// Whether the regular expression `pattern`, compiled by the `regex` crate, matches
/// somewhere in `text` (`Regex::is_match`).
pub uninterp spec fn regex_finds(pattern: Seq<char>, text: Seq<char>) -> bool;

#[verifier::external_type_specification]
#[verifier::external_body]
pub struct ExRegex(regex::Regex);

/// A regular expression together with the pattern it was compiled from.
///
/// The fields are private and `compile_pattern` is the only constructor, so `re` is
/// always the compilation of `source`.
pub struct CompiledPattern {
    source: String,
    re: regex::Regex,
}

impl CompiledPattern {
    /// The pattern this expression was compiled from.
    pub closed spec fn source(&self) -> Seq<char> {
        self.source@
    }
}

/// Compiles `pattern` with `regex::Regex::new`; whether it succeeds is named
/// `regex_compiles` and not spelled out.
#[verifier::external_body]
fn compile_pattern(pattern: &str) -> (r: Option<CompiledPattern>)
    ensures
        r is Some <==> regex_compiles(pattern@),
        r matches Some(c) ==> c.source() == pattern@,
{
    match regex::Regex::new(pattern) {
        Ok(re) => Some(CompiledPattern { source: pattern.to_string(), re }),
        Err(_) => None,
    }
}

/// The pattern is made of ASCII letters and digits only, none of which is a regex
/// metacharacter.
pub open spec fn ascii_alphanumeric(s: Seq<char>) -> bool {
    forall|i: int|
        0 <= i < s.len() ==> {
            let c = #[trigger] s[i] as u32;
            (0x30 <= c <= 0x39) || (0x41 <= c <= 0x5a) || (0x61 <= c <= 0x7a)
        }
}

/// `needle` occurs in `hay` at some position.
pub open spec fn occurs_in(needle: Seq<char>, hay: Seq<char>) -> bool {
    exists|i: int| 0 <= i <= hay.len() - needle.len() && #[trigger] hay.subrange(i, i + needle.len()) == needle
}

/// Searches `text` with `regex::Regex::is_match`; the answer is named `regex_finds`
/// over the pattern the expression was compiled from.
///
/// The crate documents `is_match` as true exactly when the regex matches anywhere in
/// the text, and ASCII letters and digits as characters that match themselves; so for
/// a pattern made of them only, the contract states that it is found exactly when it
/// occurs in the text.
#[verifier::external_body]
fn pattern_is_match(c: &CompiledPattern, text: &str) -> (found: bool)
    ensures
        found == regex_finds(c.source(), text@),
        ascii_alphanumeric(c.source()) ==> (found <==> occurs_in(c.source(), text@)),
{
    c.re.is_match(text)
}

/// Why a registered SQL function gave no result.
#[derive(Debug, PartialEq, Eq, Structural, Clone, Copy)]
pub enum FunctionError {
    /// Argument `index` (counted from 0) could not be read as text.
    Argument(usize, ColumnError),
    /// The pattern is not a regular expression the `regex` crate accepts.
    InvalidPattern,
}

/// The result of `REGEXP(pattern, text)`.
pub open spec fn regexp_result(pattern: SqlValue, text: SqlValue) -> Result<bool, FunctionError> {
    match pattern.text_of() {
        Err(e) => Err(FunctionError::Argument(0, e)),
        Ok(p) => match text.text_of() {
            Err(e) => Err(FunctionError::Argument(1, e)),
            Ok(t) => if regex_compiles(p) {
                Ok(regex_finds(p, t))
            } else {
                Err(FunctionError::InvalidPattern)
            },
        },
    }
}

/// `REGEXP(pattern, text)`: whether `pattern` matches somewhere in `text`. Both
/// arguments must be text; the pattern is read first, then the text, then compiled.
pub fn regexp(pattern: &SqlValue, text: &SqlValue) -> (r: Result<bool, FunctionError>)
    ensures
        r == regexp_result(*pattern, *text),
        // A pattern of letters and digits is found wherever it occurs in the text, not
        // only at its start.
        pattern.text_of() is Ok && text.text_of() is Ok && ascii_alphanumeric(pattern.text_of()->Ok_0)
            && regex_compiles(pattern.text_of()->Ok_0) ==> r == Ok::<bool, FunctionError>(
            occurs_in(pattern.text_of()->Ok_0, text.text_of()->Ok_0),
        ),
{
    let p = match pattern.as_str() {
        Ok(p) => p,
        Err(e) => return Err(FunctionError::Argument(0, e)),
    };
    let t = match text.as_str() {
        Ok(t) => t,
        Err(e) => return Err(FunctionError::Argument(1, e)),
    };
    match compile_pattern(p) {
        Some(re) => Ok(pattern_is_match(&re, t)),
        None => Err(FunctionError::InvalidPattern),
    }
}

/// REGEXP reads both arguments as text and searches the whole text with the pattern
/// exactly as given: an argument that is not text is reported with its position, a
/// pattern that does not compile is `InvalidPattern`, and otherwise the answer is
/// whether the unmodified pattern matches somewhere in the text.
pub proof fn law_regexp_searches_with_pattern_as_given(pattern: SqlValue, text: SqlValue)
    ensures
        pattern.text_of() matches Err(e) ==> regexp_result(pattern, text)
            == Err::<bool, FunctionError>(FunctionError::Argument(0, e)),
        pattern.text_of() is Ok ==> (text.text_of() matches Err(e) ==> regexp_result(pattern, text)
            == Err::<bool, FunctionError>(FunctionError::Argument(1, e))),
        pattern.text_of() matches Ok(p) ==> (text.text_of() matches Ok(t) ==> regexp_result(pattern, text) == if regex_compiles(p) {
            Ok::<bool, FunctionError>(regex_finds(p, t))
        } else {
            Err::<bool, FunctionError>(FunctionError::InvalidPattern)
        }),
{
}

/// The result of `LEN(text)`: the number of bytes of the text's UTF-8 encoding.
pub open spec fn len_result(arg: SqlValue) -> Result<int, FunctionError> {
    match arg {
        SqlValue::Text(bytes) => if valid_utf8(bytes@) {
            Ok(bytes@.len() as int)
        } else {
            Err(FunctionError::Argument(0, ColumnError::InvalidUtf8))
        },
        _ => Err(FunctionError::Argument(0, ColumnError::InvalidType)),
    }
}

/// `LEN(text)`: the length of a text argument in bytes (not characters).
pub fn len(arg: &SqlValue) -> (r: Result<i64, FunctionError>)
    requires
        arg matches SqlValue::Text(bytes) ==> bytes@.len() <= i64::MAX,
    ensures
        match r {
            Ok(n) => len_result(*arg) == Ok::<int, FunctionError>(n as int),
            Err(e) => len_result(*arg) == Err::<int, FunctionError>(e),
        },
{
    let s = match arg.as_str() {
        Ok(s) => s,
        Err(e) => return Err(FunctionError::Argument(0, e)),
    };
    proof {
        // The text was decoded from valid UTF-8, so its encoding is the stored bytes.
        vstd::utf8::decode_utf8_encode_utf8(arg->Text_0@);
    }
    let n = s.as_bytes().len();
    Ok(n as i64)
}


/// The positions of the sorted values whose mean is the median of `len` values: the
/// middle one twice for an odd count, the two middle ones for an even count, none
/// when there are no values.
pub fn median_positions(len: usize) -> (pos: Option<(usize, usize)>)
    ensures
        len == 0 ==> pos is None,
        len > 0 && len % 2 == 0 ==> pos == Some(((len / 2 - 1) as usize, (len / 2) as usize)),
        len % 2 == 1 ==> pos == Some(((len / 2) as usize, (len / 2) as usize)),
{
    if len == 0 {
        None
    } else if len % 2 == 0 {
        Some((len / 2 - 1, len / 2))
    } else {
        Some((len / 2, len / 2))
    }
}

} // verus!
