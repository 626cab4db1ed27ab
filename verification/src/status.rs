//! An account status stored as a small integer code.

use vstd::prelude::*;
use crate::value::{SqlValue, ColumnError};

verus! {

/// The state of a user account; stored as 0, 1 or 2.
#[derive(Debug, Clone, Copy, PartialEq, Eq, Structural)]
pub enum UserStatus {
    Inactive,
    Active,
    Banned,
}

/// The code stored for a status.
pub open spec fn status_code(s: UserStatus) -> i32 {
    match s {
        UserStatus::Inactive => 0,
        UserStatus::Active => 1,
        UserStatus::Banned => 2,
    }
}

/// The status a code stands for, if any.
pub open spec fn status_from_code(code: i64) -> Option<UserStatus> {
    if code == 0 {
        Some(UserStatus::Inactive)
    } else if code == 1 {
        Some(UserStatus::Active)
    } else if code == 2 {
        Some(UserStatus::Banned)
    } else {
        None
    }
}

/// Reading a status from a column: an INTEGER holding a known code; an unknown code
/// gives `unknown`.
pub open spec fn status_read(v: SqlValue, unknown: ColumnError) -> Result<UserStatus, ColumnError> {
    match v.int_of() {
        Ok(code) => match status_from_code(code) {
            Some(s) => Ok(s),
            None => Err(unknown),
        },
        Err(e) => Err(e),
    }
}

impl UserStatus {
    /// The integer code of this status.
    pub fn code(&self) -> (c: i32)
        ensures
            c == status_code(*self),
    {
        match self {
            UserStatus::Inactive => 0,
            UserStatus::Active => 1,
            UserStatus::Banned => 2,
        }
    }

    /// The value bound for this status: its code as an INTEGER.
    pub fn to_sql(&self) -> (v: SqlValue)
        ensures
            v == SqlValue::Integer(status_code(*self) as i64),
    {
        SqlValue::Integer(self.code() as i64)
    }

    fn decode(value: &SqlValue, unknown: ColumnError) -> (r: Result<UserStatus, ColumnError>)
        ensures
            r == status_read(*value, unknown),
    {
        let code = match value.as_i64() {
            Ok(c) => c,
            Err(e) => return Err(e),
        };
        if code == 0 {
            Ok(UserStatus::Inactive)
        } else if code == 1 {
            Ok(UserStatus::Active)
        } else if code == 2 {
            Ok(UserStatus::Banned)
        } else {
            Err(unknown)
        }
    }

    /// Reads a status column: a non-INTEGER value is `InvalidType`, and so is an
    /// integer other than 0, 1 and 2.
    pub fn column_result(value: &SqlValue) -> (r: Result<UserStatus, ColumnError>)
        ensures
            r == status_read(*value, ColumnError::InvalidType),
    {
        Self::decode(value, ColumnError::InvalidType)
    }

    /// Reads a status column, reporting an unknown code as `OutOfRange(3)`
    /// (the number of known codes); a non-INTEGER value is `InvalidType`.
    pub fn column_result_with_range(value: &SqlValue) -> (r: Result<UserStatus, ColumnError>)
        ensures
            r == status_read(*value, ColumnError::OutOfRange(3)),
    {
        Self::decode(value, ColumnError::OutOfRange(3))
    }
}

/// A status written to a column reads back as the same status, whichever error the
/// reader reports for unknown codes; and exactly the codes 0, 1 and 2 read as a status.
pub proof fn law_status_round_trip(s: UserStatus, code: i64, unknown: ColumnError)
    ensures
        status_read(SqlValue::Integer(status_code(s) as i64), unknown) == Ok::<UserStatus, ColumnError>(s),
        status_read(SqlValue::Integer(code), unknown) is Ok <==> 0 <= code <= 2,
        0 <= code <= 2 ==> status_code(status_read(SqlValue::Integer(code), unknown)->Ok_0) == code,
{
}

} // verus!
