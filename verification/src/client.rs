//! A small typed query against any connection.

use crate::error::{other_error, Error};
use crate::redis_io;
use vstd::prelude::*;

verus! {

/// Whether the key exists on the server, over any connection; any failure is
/// the generic error.
pub fn my_exists<C: redis::ConnectionLike>(conn: &mut C, key: &String) -> (r: Result<bool, Error>)
    ensures
        r matches Err(e) ==> e is Other,
{
    match redis_io::redis_exists(conn, key) {
        Ok(b) => Ok(b),
        Err(e) => Err(other_error(redis_io::error_message(&e))),
    }
}

} // verus!
