//! A UUID column stored as a 16-byte BLOB, also readable from its textual form.

use vstd::prelude::*;
use crate::value::{SqlValue, ColumnError};

verus! {

/// The 16 bytes that the `uuid` crate parses from `text`, if it accepts it as a UUID.
pub uninterp spec fn uuid_parsed(text: Seq<char>) -> Option<Seq<u8>>;

/// Draws a random (version 4) UUID with `uuid::Uuid::new_v4`.
///
/// The contract states what that function sets whatever the random draw: the version
/// nibble 4 in byte 6 and the RFC 4122 variant bits `10` in byte 8.
#[verifier::external_body]
fn uuid_new_v4() -> (bytes: [u8; 16])
    ensures
        bytes@[6] & 0xf0u8 == 0x40u8,
        bytes@[8] & 0xc0u8 == 0x80u8,
{
    uuid::Uuid::new_v4().into_bytes()
}

/// Builds a UUID from a byte slice with `uuid::Uuid::from_slice`, which accepts
/// exactly the slices of length 16 and keeps their bytes in order.
#[verifier::external_body]
fn uuid_from_slice(bytes: &[u8]) -> (r: Option<[u8; 16]>)
    ensures
        r is Some <==> bytes@.len() == 16,
        r matches Some(a) ==> a@ == bytes@,
{
    uuid::Uuid::from_slice(bytes).ok().map(|u| u.into_bytes())
}

/// Parses the textual form of a UUID with `uuid::Uuid::parse_str`; the result is named
/// `uuid_parsed` and not spelled out (the crate accepts several textual forms).
#[verifier::external_body]
fn uuid_parse_str(text: &str) -> (r: Option<[u8; 16]>)
    ensures
        match r {
            Some(a) => uuid_parsed(text@) == Some(a@),
            None => uuid_parsed(text@) is None,
        },
{
    uuid::Uuid::parse_str(text).ok().map(|u| u.into_bytes())
}

/// A UUID held by its 16 bytes in big-endian (RFC 4122) order.
#[derive(Debug, Clone, Copy, PartialEq, Eq)]
pub struct UuidWrapper {
    bytes: [u8; 16],
}

/// Reading a UUID column: a 16-byte BLOB gives those bytes, a TEXT value is parsed,
/// anything else is `InvalidType`.
pub open spec fn uuid_read(v: SqlValue) -> Result<Seq<u8>, ColumnError> {
    match v {
        SqlValue::Blob(b) => if b@.len() == 16 {
            Ok(b@)
        } else {
            Err(ColumnError::InvalidType)
        },
        _ => match v.text_of() {
            Ok(text) => match uuid_parsed(text) {
                Some(bytes) => Ok(bytes),
                None => Err(ColumnError::InvalidType),
            },
            Err(_) => Err(ColumnError::InvalidType),
        },
    }
}

impl UuidWrapper {
    /// The 16 bytes of this UUID.
    pub closed spec fn bytes(self) -> Seq<u8> {
        self.bytes@
    }

    /// Every UUID has 16 bytes.
    pub proof fn lemma_len(self)
        ensures
            self.bytes().len() == 16,
    {
    }

    /// A fresh random UUID of version 4 and the RFC 4122 variant.
    pub fn new_v4() -> (u: Self)
        ensures
            u.bytes().len() == 16,
            u.bytes()[6] & 0xf0u8 == 0x40u8,
            u.bytes()[8] & 0xc0u8 == 0x80u8,
    {
        UuidWrapper { bytes: uuid_new_v4() }
    }

    /// The UUID with the given bytes.
    pub fn from_uuid(bytes: [u8; 16]) -> (u: Self)
        ensures
            u.bytes() == bytes@,
    {
        UuidWrapper { bytes }
    }

    /// The bytes of this UUID.
    pub fn as_uuid(&self) -> (b: &[u8; 16])
        ensures
            b@ == self.bytes(),
    {
        &self.bytes
    }

    /// The bytes of this UUID, consuming it.
    pub fn into_uuid(self) -> (b: [u8; 16])
        ensures
            b@ == self.bytes(),
    {
        self.bytes
    }

    /// The value bound for this UUID: its 16 bytes as a BLOB.
    pub fn to_sql(&self) -> (v: SqlValue)
        ensures
            v matches SqlValue::Blob(b) && b@ == self.bytes(),
    {
        SqlValue::Blob(vstd::slice::slice_to_vec(self.bytes.as_slice()))
    }

    /// Reads a UUID column: a BLOB of exactly 16 bytes, or TEXT that the `uuid` crate
    /// parses; every other value, a BLOB of another length included, is `InvalidType`.
    pub fn column_result(value: &SqlValue) -> (r: Result<UuidWrapper, ColumnError>)
        ensures
            match r {
                Ok(u) => uuid_read(*value) == Ok::<Seq<u8>, ColumnError>(u.bytes()),
                Err(e) => uuid_read(*value) == Err::<Seq<u8>, ColumnError>(e),
            },
    {
        match value {
            SqlValue::Blob(b) => {
                if b.len() == 16 {
                    match uuid_from_slice(b.as_slice()) {
                        Some(bytes) => Ok(UuidWrapper { bytes }),
                        None => Err(ColumnError::InvalidType),
                    }
                } else {
                    Err(ColumnError::InvalidType)
                }
            },
            _ => match value.as_str() {
                Ok(text) => match uuid_parse_str(text) {
                    Some(bytes) => Ok(UuidWrapper { bytes }),
                    None => Err(ColumnError::InvalidType),
                },
                Err(_) => Err(ColumnError::InvalidType),
            },
        }
    }
}

/// A UUID stored as a BLOB reads back as the same UUID.
pub proof fn law_uuid_blob_round_trip(u: UuidWrapper, stored: SqlValue)
    requires
        stored matches SqlValue::Blob(b) && b@ == u.bytes(),
    ensures
        uuid_read(stored) == Ok::<Seq<u8>, ColumnError>(u.bytes()),
{
}

} // verus!
