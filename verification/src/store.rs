use vstd::prelude::*;
use vstd::string::StringExecFns;

use crate::text::{decimal, decimal_string};

verus! {

/// Where the database is and how to log in to it.
#[derive(Debug, Clone)]
pub struct DbConfig {
    pub name: String,
    pub host: String,
    pub port: u16,
    pub username: String,
    pub password: String,
}

/// Why a database operation failed.
#[derive(Debug, Clone)]
pub enum DbError {
    /// The row was written by someone else since it was read: the version
    /// check of an upsert matched no row.
    ConcurrentUpdate,
    /// Anything else, with its description.
    Unknown(String),
    /// The database or its driver reported an error, with its description.
    Postgres(String),
}

/// The text of the error raised when more than one row was updated.
pub open spec fn too_many_rows_text(n: nat) -> Seq<char> {
    "More than one("@ + decimal(n) + ") row was updated"@
}

/// The version of a row as the database stores it (a signed 32-bit
/// integer); versions beyond its range are refused.
pub fn version_to_db(version: u32) -> (r: Result<i32, DbError>)
    ensures
        version <= i32::MAX ==> r == Ok::<i32, DbError>(version as i32),
        version > i32::MAX ==> (r matches Err(DbError::Unknown(m)) && m@ == "version overflow"@),
{
    if version <= 2147483647 {
        Ok(version as i32)
    } else {
        Err(DbError::Unknown(String::from_str("version overflow")))
    }
}

/// The version of a row read back from the database, reinterpreted as
/// unsigned the way `as` does.
pub fn version_from_db(version: i32) -> (r: u32)
    ensures
        r == version as u32,
{
    version as u32
}

/// The outcome of a versioned upsert from the number of rows it touched:
/// none means a concurrent writer won, one is success, more is an error.
pub fn upsert_outcome(affected_rows: u64) -> (r: Result<(), DbError>)
    ensures
        affected_rows == 0 ==> r matches Err(DbError::ConcurrentUpdate),
        affected_rows == 1 ==> r is Ok,
        affected_rows > 1 ==> (r matches Err(DbError::Unknown(m)) && m@ == too_many_rows_text(
            affected_rows as nat,
        )),
{
    if affected_rows == 0 {
        Err(DbError::ConcurrentUpdate)
    } else if affected_rows == 1 {
        Ok(())
    } else {
        let mut m = String::from_str("More than one(");
        m.append(decimal_string(affected_rows).as_str());
        m.append(") row was updated");
        Err(DbError::Unknown(m))
    }
}

/// Every version a row can be written with reads back unchanged.
pub proof fn lemma_version_round_trip(version: u32)
    requires
        version <= i32::MAX,
    ensures
        (version as i32) as u32 == version,
{
}

} // verus!
