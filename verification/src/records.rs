//! Structured records kept in a single column as serialized bytes.
//!
//! Serializing and parsing the records happens with the caller, which owns the
//! serialization formats; this module holds the records and decides which stored
//! bytes a record is written with.

use vstd::prelude::*;
use crate::time_column::UtcDateTime;

verus! {

/// Display preferences of a user, stored as JSON text.
#[derive(Debug, Clone)]
pub struct UserSettings {
    pub theme: String,
    pub notifications: bool,
    pub language: String,
}

/// A user profile, stored as a serialized BLOB.
#[derive(Debug, Clone)]
pub struct UserMetadata {
    pub user_id: i64,
    pub name: String,
    pub tags: Vec<String>,
    pub settings: UserSettings,
    pub created_at: UtcDateTime,
}

/// A user profile with its serialized JSON kept alongside, so it can be written
/// without serializing again.
pub struct UserMetadataOptimized {
    pub data: UserMetadata,
    /// The JSON serialization of `data`, when it has been computed.
    pub cached_json: Option<Vec<u8>>,
}

impl UserMetadataOptimized {
    /// A profile as read from a column: nothing is cached on reading.
    pub fn from_data(data: UserMetadata) -> (m: Self)
        ensures
            m.data == data,
            m.cached_json is None,
    {
        UserMetadataOptimized { data, cached_json: None }
    }

    /// The cached serialization, borrowed, to be written as a BLOB without copying;
    /// `None` when the caller must serialize `data` itself.
    pub fn cached_bytes(&self) -> (b: Option<&[u8]>)
        ensures
            match self.cached_json {
                Some(bytes) => b matches Some(c) && c@ == bytes@,
                None => b is None,
            },
    {
        match &self.cached_json {
            Some(bytes) => Some(bytes.as_slice()),
            None => None,
        }
    }
}

} // verus!
