use vstd::prelude::*;

verus! {

/// Error kinds a system call can fail with, each with a fixed numeric identity.
#[derive(Debug, Clone, Copy, PartialEq, Eq, Structural)]
pub enum SysError {
    /// Invalid argument, also an invalid file descriptor.
    Inval,
    /// Out of memory, also no space left on a device.
    Nomem,
    /// No such file or directory.
    Noent,
    /// The descriptor is a directory.
    Isdir,
    /// The descriptor is not a directory.
    Notdir,
    /// Cross-device link.
    Xdev,
    /// Not implemented.
    Unimp,
    /// File exists.
    Exists,
    /// Directory is not empty.
    Notempty,
    /// I/O error.
    Io,
    /// An error of no known kind.
    Unspcified,
}

impl SysError {
    /// The fixed numeric identity of the error kind.
    pub open spec fn spec_code(self) -> isize {
        match self {
            SysError::Inval => 3,
            SysError::Nomem => 4,
            SysError::Noent => 16,
            SysError::Isdir => 17,
            SysError::Notdir => 18,
            SysError::Xdev => 19,
            SysError::Unimp => 20,
            SysError::Exists => 23,
            SysError::Notempty => 24,
            SysError::Io => 5,
            SysError::Unspcified => 1,
        }
    }

    /// The numeric identity of the error kind, always a small positive number.
    pub fn code(&self) -> (c: isize)
        ensures
            c == self.spec_code(),
            0 < c <= 24,
    {
        match self {
            SysError::Inval => 3,
            SysError::Nomem => 4,
            SysError::Noent => 16,
            SysError::Isdir => 17,
            SysError::Notdir => 18,
            SysError::Xdev => 19,
            SysError::Unimp => 20,
            SysError::Exists => 23,
            SysError::Notempty => 24,
            SysError::Io => 5,
            SysError::Unspcified => 1,
        }
    }
}

/// What a handler reports: a success value, or the kind of failure.
pub type SysResult = Result<isize, SysError>;

/// The return code that user mode sees for a handler's result: the success
/// value itself, or the negated identity of the error kind.
pub open spec fn spec_encode(r: SysResult) -> int {
    match r {
        Ok(v) => v as int,
        Err(e) => -(e.spec_code() as int),
    }
}

/// Converts a handler's result into the signed return code.
pub fn encode_result(r: SysResult) -> (c: isize)
    ensures
        c == spec_encode(r),
        r is Ok ==> c == r->Ok_0,
        r is Err ==> c == -r->Err_0.spec_code() && c < 0,
{
    match r {
        Ok(v) => v,
        Err(e) => -e.code(),
    }
}

/// A success value that is not negative comes back unchanged, and every
/// failure comes back strictly negative, so the two never overlap.
pub proof fn lemma_encode_sign(r: SysResult)
    ensures
        r matches Ok(v) ==> (v >= 0 ==> spec_encode(r) == v && spec_encode(r) >= 0),
        r matches Err(e) ==> (spec_encode(r) == -(e.spec_code() as int) && spec_encode(r) < 0),
{
}

} // verus!
