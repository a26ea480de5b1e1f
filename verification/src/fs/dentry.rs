//! Directory entries: what the VFS is told after a lookup, and what
//! `d_splice_alias` returned.

use vstd::prelude::*;
use crate::error::{Error, to_err_ptr, err_value_addr, is_err_addr, err_addr_errno};

verus! {

/// The dentry address handed back to the VFS from a lookup: the found
/// alias, null for none, or the error encoded as an error pointer.
pub fn lookup_reply(r: Result<Option<usize>, Error>) -> (addr: usize)
    ensures
        match r {
            Ok(Some(d)) => addr == d,
            Ok(None) => addr == 0,
            Err(e) => addr == err_value_addr(e@),
        },
{
    let res = match r {
        Ok(Some(d)) => Ok(d),
        Ok(None) => Ok(0),
        Err(e) => Err(e),
    };
    to_err_ptr(res)
}

/// What binding a dentry makes of the address `d_splice_alias` returned:
/// null means the dentry itself was used (no alias), an error pointer is
/// the error it carries, any other address is an existing alias (returned
/// with a reference held).
pub fn splice_alias_outcome(result: usize) -> (r: Result<Option<usize>, Error>)
    ensures
        result == 0 ==> r == Ok::<Option<usize>, Error>(None),
        result != 0 && !is_err_addr(result) ==> r == Ok::<Option<usize>, Error>(Some(result)),
        is_err_addr(result) ==> (r matches Err(e) && e@ == err_addr_errno(result)),
{
    if result == 0 {
        Ok(None)
    } else if result > usize::MAX - 4095 {
        let d: usize = usize::MAX - result;
        let errno: i32 = -(d as i32) - 1;
        Err(Error::from_errno(errno))
    } else {
        Ok(Some(result))
    }
}

} // verus!
