//! From the C library's convention to the kernel's.
//!
//! The C library's call returns a count of bytes, or a value below zero and
//! leaves the code of the failure aside, in the platform's own numbering. The
//! gateway reads one value in the kernel's convention, in the numbering of the
//! generic ABI.

use vstd::prelude::*;
use crate::error::{EAGAIN, EINTR, EINVAL, ENOSYS, NO_CODE};

verus! {

/// The numbers that a platform gives to the four codes that the gateway tells
/// apart.
#[derive(Clone, Copy, Debug, PartialEq, Eq, Structural)]
pub struct PlatformCodes {
    /// The platform's `EINTR`.
    pub eintr: i32,
    /// The platform's `EAGAIN`.
    pub eagain: i32,
    /// The platform's `EINVAL`.
    pub einval: i32,
    /// The platform's `ENOSYS`.
    pub enosys: i32,
}

/// Whether a number is one of the four codes of the generic ABI that the
/// gateway tells apart.
pub open spec fn is_told_apart(code: int) -> bool {
    code == EINTR || code == EAGAIN || code == EINVAL || code == ENOSYS
}

impl PlatformCodes {
    /// Whether the platform numbers the four codes as the generic ABI does.
    pub open spec fn is_generic(self) -> bool {
        self.eintr == EINTR && self.eagain == EAGAIN && self.einval == EINVAL && self.enosys
            == ENOSYS
    }

    /// The code in the generic numbering for a platform's code above zero.
    /// Each of the platform's four becomes its generic number. Another code
    /// keeps its number, unless the generic ABI gives that number to one of
    /// the four: it would then be taken for a failure that did not happen,
    /// and has no number to go by.
    pub open spec fn generic_code(self, code: i32) -> Option<i64> {
        if code == self.eintr {
            Some(EINTR)
        } else if code == self.eagain {
            Some(EAGAIN)
        } else if code == self.einval {
            Some(EINVAL)
        } else if code == self.enosys {
            Some(ENOSYS)
        } else if is_told_apart(code as int) {
            None
        } else {
            Some(code as i64)
        }
    }

    /// The numbering of the generic ABI itself.
    pub fn generic() -> (codes: PlatformCodes)
        ensures
            codes.is_generic(),
    {
        PlatformCodes { eintr: 4, eagain: 11, einval: 22, enosys: 38 }
    }
}

/// The value in the kernel's convention for what the C library's call gave:
/// the value it returned, `ret`, and the code it left, `code`, if any.
///
/// A value from zero on is a count and stays. Below zero the call failed: the
/// result is the negated code in the generic numbering, and `NO_CODE` where
/// no code was left, where it is not above zero, or where it has no number in
/// the generic numbering.
pub open spec fn reply_value(ret: i64, code: Option<i32>, platform: PlatformCodes) -> i64 {
    if ret >= 0 {
        ret
    } else if code is Some && code->0 > 0 && platform.generic_code(code->0) is Some {
        (-platform.generic_code(code->0)->0) as i64
    } else {
        NO_CODE
    }
}

/// Puts what the C library's call gave into the kernel's convention.
pub fn reply_of(ret: i64, code: Option<i32>, platform: &PlatformCodes) -> (reply: i64)
    ensures
        reply == reply_value(ret, code, *platform),
        ret >= 0 ==> reply == ret,
        ret < 0 ==> reply < 0,
{
    if ret >= 0 {
        return ret;
    }
    match code {
        Some(c) if c > 0 => {
            if c == platform.eintr {
                -EINTR
            } else if c == platform.eagain {
                -EAGAIN
            } else if c == platform.einval {
                -EINVAL
            } else if c == platform.enosys {
                -ENOSYS
            } else if c == 4 || c == 11 || c == 22 || c == 38 {
                NO_CODE
            } else {
                -(c as i64)
            }
        },
        _ => NO_CODE,
    }
}

/// On a platform with the generic numbering every code above zero goes by its
/// own number: a failure with the code `code` becomes the value `-code`.
pub proof fn law_generic_platform_keeps_codes(platform: PlatformCodes, ret: i64, code: i32)
    requires
        platform.is_generic(),
        ret < 0,
        code > 0,
    ensures
        platform.generic_code(code) == Some(code as i64),
        reply_value(ret, Some(code), platform) == -code,
{
}

/// On every platform each of its four codes becomes the generic one, and no
/// other code is taken for one of the four.
pub proof fn law_only_the_four_are_told_apart(platform: PlatformCodes, ret: i64, code: i32)
    requires
        ret < 0,
        code > 0,
    ensures
        code == platform.eintr ==> reply_value(ret, Some(code), platform) == -EINTR,
        code != platform.eintr && code != platform.eagain && code != platform.einval && code
            != platform.enosys ==> !is_told_apart(-reply_value(ret, Some(code), platform)),
        reply_value(ret, Some(code), platform) == -code || reply_value(ret, Some(code), platform)
            == NO_CODE || is_told_apart(-reply_value(ret, Some(code), platform)),
{
}

} // verus!
