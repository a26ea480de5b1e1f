//! Kernel error type wrapping errno codes, and the kernel's convention of
//! carrying an errno inside a pointer value (`ERR_PTR`).

use vstd::prelude::*;
use crate::kalloc::AllocError;

verus! {

/// Operation not permitted.
pub const EPERM: i32 = 1;
/// No such file or directory.
pub const ENOENT: i32 = 2;
/// I/O error.
pub const EIO: i32 = 5;
/// No such device or address.
pub const ENXIO: i32 = 6;
/// Argument list too long.
pub const E2BIG: i32 = 7;
/// Try again (operation would block).
pub const EAGAIN: i32 = 11;
/// Out of memory.
pub const ENOMEM: i32 = 12;
/// Bad address.
pub const EFAULT: i32 = 14;
/// Device or resource busy.
pub const EBUSY: i32 = 16;
/// File exists.
pub const EEXIST: i32 = 17;
/// Not a directory.
pub const ENOTDIR: i32 = 20;
/// Is a directory.
pub const EISDIR: i32 = 21;
/// Invalid argument.
pub const EINVAL: i32 = 22;
/// Math argument out of domain.
pub const EDOM: i32 = 33;
/// Result out of range.
pub const ERANGE: i32 = 34;
/// File name too long.
pub const ENAMETOOLONG: i32 = 36;
/// Function not implemented.
pub const ENOSYS: i32 = 38;
/// No data available.
pub const ENODATA: i32 = 61;
/// Operation not supported.
pub const EOPNOTSUPP: i32 = 95;
/// Software caused connection abort.
pub const ECONNABORTED: i32 = 103;
/// Connection reset by peer.
pub const ECONNRESET: i32 = 104;
/// Stale file handle.
pub const ESTALE: i32 = 116;

/// Largest errno that an error pointer can carry.
pub const MAX_ERRNO: i32 = 4095;

/// A kernel error code (normally a negative errno value).
#[derive(Clone, Copy, Debug, PartialEq, Eq, Structural)]
pub struct Error(i32);

impl View for Error {
    type V = i32;

    /// The stored value, as handed back to the kernel.
    closed spec fn view(&self) -> i32 {
        self.0
    }
}

/// What a callback trampoline hands back to C for `result`: 0 on success,
/// the stored error value on failure.
pub open spec fn result_code(result: Result<(), Error>) -> i32 {
    match result {
        Ok(()) => 0,
        Err(e) => e@,
    }
}

impl Error {
    /// Create an `Error` from a kernel errno constant; the value is stored
    /// negated: `Error::new(EINVAL)` holds `-EINVAL`.
    pub fn new(errno: i32) -> (e: Self)
        requires
            errno != i32::MIN,
        ensures
            e@ == -errno,
    {
        Error(-errno)
    }

    /// The stored (negative errno) value, for passing back to the kernel.
    pub fn to_errno(self) -> (r: i32)
        ensures
            r == self@,
    {
        self.0
    }

    /// Create an `Error` from a raw negative errno returned by a kernel
    /// function. A zero or positive value gives `EINVAL` instead.
    pub fn from_errno(errno: i32) -> (e: Self)
        ensures
            errno < 0 ==> e@ == errno,
            errno >= 0 ==> e@ == -EINVAL,
    {
        if errno < 0 {
            Error(errno)
        } else {
            Error(-EINVAL)
        }
    }

    /// `-EPERM`.
    pub fn eperm() -> (e: Self)
        ensures
            e@ == -EPERM,
    {
        Error(-EPERM)
    }

    /// `-ENOENT`.
    pub fn enoent() -> (e: Self)
        ensures
            e@ == -ENOENT,
    {
        Error(-ENOENT)
    }

    /// `-EIO`.
    pub fn eio() -> (e: Self)
        ensures
            e@ == -EIO,
    {
        Error(-EIO)
    }

    /// `-ENXIO`.
    pub fn enxio() -> (e: Self)
        ensures
            e@ == -ENXIO,
    {
        Error(-ENXIO)
    }

    /// `-E2BIG`.
    pub fn e2big() -> (e: Self)
        ensures
            e@ == -E2BIG,
    {
        Error(-E2BIG)
    }

    /// `-ENOMEM`.
    pub fn enomem() -> (e: Self)
        ensures
            e@ == -ENOMEM,
    {
        Error(-ENOMEM)
    }

    /// `-EFAULT`.
    pub fn efault() -> (e: Self)
        ensures
            e@ == -EFAULT,
    {
        Error(-EFAULT)
    }

    /// `-EBUSY`.
    pub fn ebusy() -> (e: Self)
        ensures
            e@ == -EBUSY,
    {
        Error(-EBUSY)
    }

    /// `-EEXIST`.
    pub fn eexist() -> (e: Self)
        ensures
            e@ == -EEXIST,
    {
        Error(-EEXIST)
    }

    /// `-ENOTDIR`.
    pub fn enotdir() -> (e: Self)
        ensures
            e@ == -ENOTDIR,
    {
        Error(-ENOTDIR)
    }

    /// `-EISDIR`.
    pub fn eisdir() -> (e: Self)
        ensures
            e@ == -EISDIR,
    {
        Error(-EISDIR)
    }

    /// `-EINVAL`.
    pub fn einval() -> (e: Self)
        ensures
            e@ == -EINVAL,
    {
        Error(-EINVAL)
    }

    /// `-EDOM`.
    pub fn edom() -> (e: Self)
        ensures
            e@ == -EDOM,
    {
        Error(-EDOM)
    }

    /// `-ERANGE`.
    pub fn erange() -> (e: Self)
        ensures
            e@ == -ERANGE,
    {
        Error(-ERANGE)
    }

    /// `-ENAMETOOLONG`.
    pub fn enametoolong() -> (e: Self)
        ensures
            e@ == -ENAMETOOLONG,
    {
        Error(-ENAMETOOLONG)
    }

    /// `-ENOSYS`.
    pub fn enosys() -> (e: Self)
        ensures
            e@ == -ENOSYS,
    {
        Error(-ENOSYS)
    }

    /// `-ENODATA`.
    pub fn enodata() -> (e: Self)
        ensures
            e@ == -ENODATA,
    {
        Error(-ENODATA)
    }

    /// `-EOPNOTSUPP`.
    pub fn eopnotsupp() -> (e: Self)
        ensures
            e@ == -EOPNOTSUPP,
    {
        Error(-EOPNOTSUPP)
    }

    /// `-ECONNABORTED`.
    pub fn econnaborted() -> (e: Self)
        ensures
            e@ == -ECONNABORTED,
    {
        Error(-ECONNABORTED)
    }

    /// `-ECONNRESET`.
    pub fn econnreset() -> (e: Self)
        ensures
            e@ == -ECONNRESET,
    {
        Error(-ECONNRESET)
    }

    /// `-ESTALE`.
    pub fn estale() -> (e: Self)
        ensures
            e@ == -ESTALE,
    {
        Error(-ESTALE)
    }
}

impl From<AllocError> for Error {
    /// An allocation failure is `-ENOMEM`.
    fn from(e: AllocError) -> (r: Error) {
        Error(-ENOMEM)
    }
}

impl vstd::std_specs::convert::FromSpecImpl<AllocError> for Error {
    open spec fn obeys_from_spec() -> bool {
        true
    }

    closed spec fn from_spec(v: AllocError) -> Error {
        Error((-ENOMEM) as i32)
    }
}

/// Converting an allocation failure gives `-ENOMEM`.
pub proof fn lemma_alloc_error_is_enomem(e: AllocError)
    ensures
        (<Error as vstd::std_specs::convert::FromSpec<AllocError>>::from_spec(e))@ == -ENOMEM,
{
}

/// Converts a `Result<(), Error>` produced by a callback to a C `int`:
/// 0 on success, the stored negative errno on failure.
pub fn from_result<F: FnOnce() -> Result<(), Error>>(f: F) -> (r: i32)
    requires
        f.requires(()),
    ensures
        exists|res: Result<(), Error>| f.ensures((), res) && r == result_code(res),
{
    let res = f();
    let ghost produced = res;
    let r = match res {
        Ok(()) => 0,
        Err(e) => e.to_errno(),
    };
    assert(f.ensures((), produced) && r == result_code(produced));
    r
}

/// `IS_ERR`: the address lies in the top `MAX_ERRNO` values of the address
/// space, where the kernel encodes error codes.
pub open spec fn is_err_addr(addr: usize) -> bool {
    addr > usize::MAX - MAX_ERRNO
}

/// The errno an error address encodes (`PTR_ERR`), a value in
/// `-MAX_ERRNO..=-1`.
pub open spec fn err_addr_errno(addr: usize) -> int {
    addr - (usize::MAX + 1)
}

/// `ERR_PTR`: the address the kernel uses to carry the stored error value
/// (the two's-complement image of the value as a pointer-sized integer).
pub open spec fn err_value_addr(value: i32) -> int {
    if value >= 0 {
        value as int
    } else {
        usize::MAX + 1 + value
    }
}

/// Converts a possibly-error kernel pointer, given by its address, to a
/// `Result`: an error address yields its errno, any other address is
/// returned as `Ok`.
pub fn from_err_ptr(addr: usize) -> (r: Result<usize, Error>)
    ensures
        is_err_addr(addr) ==> (r matches Err(e) && e@ == err_addr_errno(addr)),
        !is_err_addr(addr) ==> r == Ok::<usize, Error>(addr),
{
    if addr > usize::MAX - 4095 {
        let d: usize = usize::MAX - addr;
        let errno: i32 = -(d as i32) - 1;
        Err(Error::from_errno(errno))
    } else {
        Ok(addr)
    }
}

/// Converts a `Result` holding a pointer address to the address handed back
/// to C: the address itself on success, `ERR_PTR(error)` on failure.
pub fn to_err_ptr(result: Result<usize, Error>) -> (r: usize)
    ensures
        match result {
            Ok(addr) => r == addr,
            Err(e) => r == err_value_addr(e@),
        },
{
    match result {
        Ok(addr) => addr,
        Err(e) => {
            let v = e.to_errno();
            if v >= 0 {
                v as usize
            } else {
                let m: i32 = -(v + 1);
                usize::MAX - (m as usize)
            }
        },
    }
}

/// Decoding an error pointer gives back the error that was encoded, for
/// every errno the convention can carry; and a pointer that is not an error
/// address passes through both directions unchanged.
pub proof fn lemma_err_ptr_round_trip(e: Error, addr: usize)
    requires
        -MAX_ERRNO <= e@ <= -1,
    ensures
        is_err_addr(err_value_addr(e@) as usize),
        err_addr_errno(err_value_addr(e@) as usize) == e@,
        !is_err_addr(addr) ==> err_value_addr(e@) != addr,
{
}

} // verus!
