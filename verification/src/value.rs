//! A column value as SQLite stores it, and the conversions every column mapping
//! starts from.

use vstd::prelude::*;
use vstd::utf8::{valid_utf8, decode_utf8, encode_utf8};

verus! {

/// One value of a result column or statement parameter.
///
/// A REAL is carried by the bit pattern of its IEEE-754 double.
#[derive(Debug)]
pub enum SqlValue {
    Null,
    Integer(i64),
    Real(u64),
    Text(Vec<u8>),
    Blob(Vec<u8>),
}

/// Why a column value could not be read as the requested type.
#[derive(Debug, PartialEq, Eq, Structural, Clone, Copy)]
pub enum ColumnError {
    /// The value has a storage class the type cannot be read from.
    InvalidType,
    /// The integer does not stand for any value of the type.
    OutOfRange(i64),
    /// A TEXT value is not valid UTF-8.
    InvalidUtf8,
}

/// Decodes `bytes` as UTF-8; `None` when they are not valid UTF-8.
///
/// Calls `std::str::from_utf8`, whose documentation promises success exactly on
/// valid UTF-8; the contract adds that the characters are the UTF-8 decoding of the
/// bytes.
#[verifier::external_body]
fn utf8_str(bytes: &[u8]) -> (s: Option<&str>)
    ensures
        s is Some <==> valid_utf8(bytes@),
        s matches Some(t) ==> t@ == decode_utf8(bytes@),
{
    std::str::from_utf8(bytes).ok()
}

impl SqlValue {
    /// The integer of an INTEGER value.
    pub open spec fn int_of(self) -> Result<i64, ColumnError> {
        match self {
            SqlValue::Integer(i) => Ok(i),
            _ => Err(ColumnError::InvalidType),
        }
    }

    /// The characters of a TEXT value.
    pub open spec fn text_of(self) -> Result<Seq<char>, ColumnError> {
        match self {
            SqlValue::Text(bytes) => if valid_utf8(bytes@) {
                Ok(decode_utf8(bytes@))
            } else {
                Err(ColumnError::InvalidUtf8)
            },
            _ => Err(ColumnError::InvalidType),
        }
    }

    /// The bytes of a BLOB value.
    pub open spec fn blob_of(self) -> Result<Seq<u8>, ColumnError> {
        match self {
            SqlValue::Blob(bytes) => Ok(bytes@),
            _ => Err(ColumnError::InvalidType),
        }
    }

    /// Reads an INTEGER value; any other storage class is `InvalidType`.
    pub fn as_i64(&self) -> (r: Result<i64, ColumnError>)
        ensures
            r == self.int_of(),
    {
        match self {
            SqlValue::Integer(i) => Ok(*i),
            _ => Err(ColumnError::InvalidType),
        }
    }

    /// Reads a TEXT value; another storage class is `InvalidType`, bytes that are not
    /// UTF-8 are `InvalidUtf8`.
    pub fn as_str(&self) -> (r: Result<&str, ColumnError>)
        ensures
            match r {
                Ok(s) => self.text_of() == Ok::<Seq<char>, ColumnError>(s@),
                Err(e) => self.text_of() == Err::<Seq<char>, ColumnError>(e),
            },
    {
        match self {
            SqlValue::Text(bytes) => match utf8_str(bytes.as_slice()) {
                Some(s) => Ok(s),
                None => Err(ColumnError::InvalidUtf8),
            },
            _ => Err(ColumnError::InvalidType),
        }
    }

    /// Reads a BLOB value; any other storage class is `InvalidType`.
    pub fn as_blob(&self) -> (r: Result<&[u8], ColumnError>)
        ensures
            match r {
                Ok(b) => self.blob_of() == Ok::<Seq<u8>, ColumnError>(b@),
                Err(e) => self.blob_of() == Err::<Seq<u8>, ColumnError>(e),
            },
    {
        match self {
            SqlValue::Blob(bytes) => Ok(bytes.as_slice()),
            _ => Err(ColumnError::InvalidType),
        }
    }
}

/// The TEXT value holding the UTF-8 encoding of `s`.
pub fn text_value(s: &str) -> (v: SqlValue)
    ensures
        v matches SqlValue::Text(bytes) && bytes@ == encode_utf8(s@),
        v.text_of() == Ok::<Seq<char>, ColumnError>(s@),
{
    let bytes = vstd::slice::slice_to_vec(s.as_bytes());
    proof {
        vstd::utf8::encode_utf8_valid_utf8(s@);
        vstd::utf8::encode_utf8_decode_utf8(s@);
    }
    SqlValue::Text(bytes)
}

} // verus!
