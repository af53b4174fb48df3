//! What the entropy call's failures mean.
//!
//! The call follows the kernel's convention: a return value below zero is the
//! negated code of the failure, and a code is a number above zero. The codes
//! are those of the generic Linux ABI.

use vstd::prelude::*;

verus! {

/// Code of a call that a signal cut short before it did any work.
pub const EINTR: i64 = 4;

/// Code of a call that would have had to wait although it was told not to.
pub const EAGAIN: i64 = 11;

/// Code of a call whose arguments the kernel refuses.
pub const EINVAL: i64 = 22;

/// Code of a call that this kernel does not have.
pub const ENOSYS: i64 = 38;

/// A returned value that reports a failure without a code: the one value
/// below zero that is the negation of no number.
pub const NO_CODE: i64 = i64::MIN;

/// The kind of a failure of the entropy call.
#[derive(Clone, Copy, Debug, PartialEq, Eq, Structural)]
pub enum ErrorKind {
    /// The call was told not to wait and would have had to.
    WouldBlock,
    /// The kernel refused the flags or the buffer.
    InvalidArgument,
    /// The kernel does not have the call.
    Unsupported,
    /// Any other failure. A number above zero is the platform's code of the
    /// failure. Every code is above zero, so a number that is not stands for
    /// a returned value outside the call's convention, of which it is the
    /// negation: below zero for a count above the buffer's length, and
    /// `NO_CODE` for a failure reported without a code.
    Unknown(i64),
}

/// The negation of a value, where `NO_CODE`, which has none, stands for
/// itself. Negating twice gives the value back.
pub open spec fn negated(value: i64) -> i64 {
    if value == NO_CODE {
        value
    } else {
        (-value) as i64
    }
}

/// The negation of a value, where `NO_CODE` stands for itself.
pub fn negate(value: i64) -> (n: i64)
    ensures
        n == negated(value),
{
    if value == NO_CODE {
        value
    } else {
        -value
    }
}

impl ErrorKind {
    /// The kind of the failure that a returned value below zero reports,
    /// where that value is no interruption: the kind of its code, which is
    /// its negation.
    pub open spec fn of_return(ret: i64) -> ErrorKind
        recommends
            ret < 0,
            ret != -EINTR,
    {
        if ret == -EAGAIN {
            ErrorKind::WouldBlock
        } else if ret == -EINVAL {
            ErrorKind::InvalidArgument
        } else if ret == -ENOSYS {
            ErrorKind::Unsupported
        } else {
            ErrorKind::Unknown(negated(ret))
        }
    }

    /// The value that a call returns to report a failure of this kind.
    pub open spec fn as_return(self) -> i64 {
        match self {
            ErrorKind::WouldBlock => (-EAGAIN) as i64,
            ErrorKind::InvalidArgument => (-EINVAL) as i64,
            ErrorKind::Unsupported => (-ENOSYS) as i64,
            ErrorKind::Unknown(code) => negated(code),
        }
    }

    /// Classifies the failure that a returned value below zero reports. An
    /// interruption is no failure to classify: it is answered by calling
    /// again and has no kind.
    pub fn from_return(ret: i64) -> (kind: ErrorKind)
        requires
            ret < 0,
            ret != -EINTR,
        ensures
            kind == ErrorKind::of_return(ret),
            kind.as_return() == ret,
    {
        if ret == -EAGAIN {
            ErrorKind::WouldBlock
        } else if ret == -EINVAL {
            ErrorKind::InvalidArgument
        } else if ret == -ENOSYS {
            ErrorKind::Unsupported
        } else {
            ErrorKind::Unknown(negate(ret))
        }
    }

    /// The value that a call returns to report a failure of this kind.
    pub fn raw_return(&self) -> (ret: i64)
        ensures
            ret == self.as_return(),
    {
        match self {
            ErrorKind::WouldBlock => -EAGAIN,
            ErrorKind::InvalidArgument => -EINVAL,
            ErrorKind::Unsupported => -ENOSYS,
            ErrorKind::Unknown(code) => negate(*code),
        }
    }
}

/// Negating twice gives the value back, so no value is lost in its negation.
pub proof fn law_negated_twice(value: i64)
    ensures
        negated(negated(value)) == value,
        value < 0 && value != NO_CODE <==> negated(value) > 0,
{
}

/// No failure is lost in its kind: the value that the call returned can be
/// read back from the kind it was given.
pub proof fn law_kind_keeps_return(ret: i64)
    requires
        ret < 0,
    ensures
        ErrorKind::of_return(ret).as_return() == ret,
{
}

/// Each classified code becomes its own kind, and every other code becomes
/// `Unknown` and is carried in it as it is. A failure reported without a code
/// is `Unknown` too and carries `NO_CODE`, which is no code.
pub proof fn law_kinds_by_code(ret: i64)
    requires
        ret < 0,
    ensures
        ErrorKind::of_return(ret) == ErrorKind::WouldBlock <==> ret == -EAGAIN,
        ErrorKind::of_return(ret) == ErrorKind::InvalidArgument <==> ret == -EINVAL,
        ErrorKind::of_return(ret) == ErrorKind::Unsupported <==> ret == -ENOSYS,
        ret != NO_CODE && ret != -EAGAIN && ret != -EINVAL && ret != -ENOSYS ==> -ret > 0
            && ErrorKind::of_return(ret) == ErrorKind::Unknown((-ret) as i64),
        ret == NO_CODE ==> ErrorKind::of_return(ret) == ErrorKind::Unknown(NO_CODE),
{
}

} // verus!
