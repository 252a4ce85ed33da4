//! Kernel-style error codes: a negative `errno` in `-MAX_ERRNO..=-1`.
use vstd::prelude::*;

verus! {

/// The largest errno value the kernel hands out.
pub const MAX_ERRNO: i32 = 4095;

/// Out of memory.
pub const ENOMEM_NUM: i32 = 12;

/// Device or resource busy.
pub const EBUSY_NUM: i32 = 16;

/// Invalid argument.
pub const EINVAL_NUM: i32 = 22;

/// An error code, held as the negative errno that C callers see.
#[derive(Clone, Copy, Debug, PartialEq, Eq, Structural)]
pub struct Error(i32);

/// Whether `errno` names an error: it lies in `-MAX_ERRNO..=-1`.
pub open spec fn is_error_errno(errno: int) -> bool {
    -MAX_ERRNO <= errno < 0
}

/// The errno that `from_errno` keeps: the code itself where it names an error, else `-EINVAL`.
pub open spec fn errno_or_einval(errno: int) -> int {
    if is_error_errno(errno) {
        errno
    } else {
        -EINVAL_NUM
    }
}

/// What `to_result` makes of a C return value.
pub open spec fn spec_to_result(ret: int) -> Result<(), Error> {
    if ret < 0 {
        Err(Error::with_errno(errno_or_einval(ret)))
    } else {
        Ok(())
    }
}

impl Error {
    #[verifier::type_invariant]
    spec fn inv(self) -> bool {
        is_error_errno(self.0 as int)
    }

    /// The errno this error carries.
    pub closed spec fn errno(self) -> int {
        self.0 as int
    }

    /// The error that carries `errno`.
    pub closed spec fn with_errno(errno: int) -> Error {
        Error(errno as i32)
    }

    /// An error is determined by its errno, and `with_errno` builds the one for a valid code.
    pub proof fn lemma_errno(e: Error, f: Error, errno: int)
        ensures
            e.errno() == f.errno() ==> e == f,
            is_error_errno(errno) ==> Error::with_errno(errno).errno() == errno,
            e == Error::with_errno(e.errno()),
            i32::MIN <= e.errno() <= i32::MAX,
            i32::MIN <= f.errno() <= i32::MAX,
    {
    }

    /// `-ENOMEM`.
    pub fn enomem() -> (e: Error)
        ensures
            e.errno() == -ENOMEM_NUM,
            e == Error::with_errno(-ENOMEM_NUM),
    {
        Error(-ENOMEM_NUM)
    }

    /// `-EBUSY`.
    pub fn ebusy() -> (e: Error)
        ensures
            e.errno() == -EBUSY_NUM,
            e == Error::with_errno(-EBUSY_NUM),
    {
        Error(-EBUSY_NUM)
    }

    /// `-EINVAL`.
    pub fn einval() -> (e: Error)
        ensures
            e.errno() == -EINVAL_NUM,
            e == Error::with_errno(-EINVAL_NUM),
    {
        Error((-EINVAL_NUM) as i32)
    }

    /// The error for `errno` if it names one (`-MAX_ERRNO..=-1`), else `None`.
    pub fn try_from_errno(errno: i32) -> (r: Option<Error>)
        ensures
            r is Some <==> is_error_errno(errno as int),
            r matches Some(e) ==> e.errno() == errno,
    {
        if errno < -MAX_ERRNO || errno >= 0 {
            None
        } else {
            Some(Error(errno))
        }
    }

    /// The error for `errno`; a value that names no error becomes `EINVAL`.
    pub fn from_errno(errno: i32) -> (e: Error)
        ensures
            e.errno() == errno_or_einval(errno as int),
            e == Error::with_errno(errno_or_einval(errno as int)),
            is_error_errno(errno as int) ==> e.errno() == errno,
            !is_error_errno(errno as int) ==> e.errno() == -EINVAL_NUM,
    {
        match Self::try_from_errno(errno) {
            Some(e) => e,
            None => Error(-EINVAL_NUM),
        }
    }

    /// The negative errno handed back to C.
    pub fn to_errno(&self) -> (r: i32)
        ensures
            r == self.errno(),
            is_error_errno(r as int),
    {
        proof {
            use_type_invariant(self);
        }
        self.0
    }
}

/// Turns a C return value into a `Result`: negative is an error, anything else success.
pub fn to_result(ret: i32) -> (r: Result<(), Error>)
    ensures
        r is Ok <==> ret >= 0,
        r matches Err(e) ==> e.errno() == errno_or_einval(ret as int),
        r == spec_to_result(ret as int),
{
    if ret < 0 {
        Err(Error::from_errno(ret))
    } else {
        Ok(())
    }
}

} // verus!
