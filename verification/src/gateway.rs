//! The call boundary: what is handed to the entropy call, and what is made of
//! each value that it returns.
//!
//! A [`Request`] is the pending call. Whoever can reach the kernel issues it,
//! with the caller's buffer, and hands the returned value to
//! [`Request::on_return`], which says whether to issue the same request again
//! or what the caller gets.

use vstd::prelude::*;
use crate::error::{negate, ErrorKind, EAGAIN, EINTR, EINVAL, ENOSYS};
use crate::flags::GetRandomFlags;

verus! {

/// The argument list of one entropy call, besides the buffer's address: the
/// buffer's length in bytes and the raw flag bits.
#[derive(Clone, Copy, Debug, PartialEq, Eq, Structural)]
pub struct Request {
    /// Length of the caller's buffer, in bytes.
    pub len: usize,
    /// The flag bits, as the caller's flag set holds them.
    pub bits: u32,
}

/// What follows a returned value.
#[derive(Clone, Copy, Debug, PartialEq, Eq)]
pub enum Step {
    /// The call was interrupted: issue this request, which is the same one.
    Again(Request),
    /// The exchange is over, and this is what the caller gets.
    Done(Result<usize, ErrorKind>),
}

/// What a recorded sequence of returned values amounts to.
#[derive(Clone, Copy, Debug, PartialEq, Eq)]
pub struct Replay {
    /// What the caller gets; `None` where every recorded call was interrupted.
    pub outcome: Option<Result<usize, ErrorKind>>,
    /// How many of the recorded values were used, one for each call issued
    /// and answered.
    pub calls: usize,
}

/// Whether a returned value reports an interruption: no byte was written and
/// the same call is to be issued again.
pub open spec fn interrupted(ret: i64) -> bool {
    ret == -EINTR
}

/// What the caller gets for a returned value that is no interruption.
///
/// A value from zero to the buffer's length is the count of bytes written. A
/// value below zero is a failure, of the kind of its code. A value above the
/// buffer's length cannot be a count of bytes written to that buffer and is
/// no code either: it is a failure of kind `Unknown` that carries the
/// negation of the value, a number below zero, which is the code of no
/// failure.
pub open spec fn result_of(len: usize, ret: i64) -> Result<usize, ErrorKind> {
    if 0 <= ret <= len {
        Ok(ret as usize)
    } else if ret > len {
        Err(ErrorKind::Unknown((-ret) as i64))
    } else {
        Err(ErrorKind::of_return(ret))
    }
}

/// What the caller gets when the calls, issued one after another from the
/// position `at` on, return the values `rets[at]`, `rets[at + 1]`, ...: the
/// result of the first value that is no interruption.
pub open spec fn outcome_from(len: usize, rets: Seq<i64>, at: int) -> Option<
    Result<usize, ErrorKind>,
>
    decreases rets.len() - at,
{
    if at < 0 || at >= rets.len() {
        None
    } else if interrupted(rets[at]) {
        outcome_from(len, rets, at + 1)
    } else {
        Some(result_of(len, rets[at]))
    }
}

/// How many calls are issued and answered from the position `at` on: every
/// interrupted one, and the first that is not.
pub open spec fn answered_from(rets: Seq<i64>, at: int) -> nat
    decreases rets.len() - at,
{
    if at < 0 || at >= rets.len() {
        0
    } else if interrupted(rets[at]) {
        1 + answered_from(rets, at + 1)
    } else {
        1
    }
}

/// What the caller gets when the calls return `rets`, in this order.
pub open spec fn outcome(len: usize, rets: Seq<i64>) -> Option<Result<usize, ErrorKind>> {
    outcome_from(len, rets, 0)
}

/// How many calls are issued and answered when the calls return `rets`.
pub open spec fn answered(rets: Seq<i64>) -> nat {
    answered_from(rets, 0)
}

impl Request {
    /// What follows when this request's call returns `ret`.
    pub open spec fn step_of(self, ret: i64) -> Step {
        if interrupted(ret) {
            Step::Again(self)
        } else {
            Step::Done(result_of(self.len, ret))
        }
    }

    /// The request for a buffer of `len` bytes under `flags`. There is one for
    /// every length, zero too, and it holds the length and the bits as given.
    pub fn new(len: usize, flags: GetRandomFlags) -> (req: Request)
        ensures
            req.len == len,
            req.bits == flags@,
    {
        Request { len, bits: flags.bits() }
    }

    /// Decides what follows when this request's call returns `ret`: on an
    /// interruption the same request again, else the caller's result. A count
    /// is never larger than the buffer, a failure has the kind of its code,
    /// and an interruption is never a result.
    pub fn on_return(self, ret: i64) -> (step: Step)
        ensures
            step == self.step_of(ret),
            step matches Step::Done(Ok(count)) ==> count <= self.len && count == ret,
            step matches Step::Done(Err(kind)) ==> kind.as_return() == ret && !interrupted(ret),
            step matches Step::Again(next) ==> next == self && interrupted(ret),
    {
        if ret == -EINTR {
            Step::Again(self)
        } else if ret >= 0 && ret as u64 <= self.len as u64 {
            Step::Done(Ok(ret as usize))
        } else if ret >= 0 {
            Step::Done(Err(ErrorKind::Unknown(negate(ret))))
        } else {
            Step::Done(Err(ErrorKind::from_return(ret)))
        }
    }

    /// Runs the exchange against recorded returned values, taken in order as
    /// the answers to this request's calls, and stops at the first that is no
    /// interruption.
    pub fn replay(self, rets: &[i64]) -> (r: Replay)
        ensures
            r.outcome == outcome(self.len, rets@),
            r.calls == answered(rets@),
    {
        let mut pending = self;
        let mut at: usize = 0;
        while at < rets.len()
            invariant
                at <= rets.len(),
                pending == self,
                outcome(self.len, rets@) == outcome_from(self.len, rets@, at as int),
                answered(rets@) == at + answered_from(rets@, at as int),
            decreases rets.len() - at,
        {
            match pending.on_return(rets[at]) {
                Step::Again(next) => {
                    pending = next;
                    at = at + 1;
                },
                Step::Done(result) => {
                    return Replay { outcome: Some(result), calls: at + 1 };
                },
            }
        }
        Replay { outcome: None, calls: at }
    }
}

/// A successful exchange reports a count that is at most the buffer's length,
/// whatever the calls returned.
pub proof fn law_count_fits_buffer(len: usize, rets: Seq<i64>)
    ensures
        outcome(len, rets) matches Some(Ok(count)) ==> count <= len,
{
    lemma_outcome_is_a_result(len, rets, 0);
}

/// A result is never the interruption itself, whatever the calls returned.
pub proof fn law_interruption_never_surfaces(len: usize, rets: Seq<i64>)
    ensures
        outcome(len, rets) matches Some(Err(kind)) ==> !interrupted(kind.as_return()),
{
    lemma_outcome_is_a_result(len, rets, 0);
}

/// There is no result without a call: an exchange that has an outcome has
/// issued at least one call, and one in which no call was answered has none.
/// This holds for every length, zero too.
pub proof fn law_result_needs_a_call(len: usize, rets: Seq<i64>)
    ensures
        outcome(len, rets) is Some ==> answered(rets) >= 1,
        answered(rets) == 0 ==> outcome(len, rets) is None,
        answered(rets) <= rets.len(),
{
    lemma_outcome_is_a_result(len, rets, 0);
}

/// With a buffer of no bytes a call that is not interrupted gives `Ok(0)`
/// where it returns zero, and else a failure: the one that it reports, or
/// that of a count which the buffer cannot hold.
pub proof fn law_zero_length(req: Request, ret: i64)
    requires
        req.len == 0,
        !interrupted(ret),
    ensures
        ret == 0 ==> req.step_of(ret) == Step::Done(Ok(0usize)),
        ret < 0 ==> req.step_of(ret) == Step::Done(Err(ErrorKind::of_return(ret))),
        ret > 0 ==> req.step_of(ret) == Step::Done(Err(ErrorKind::Unknown((-ret) as i64))),
{
}

/// A reported failure surfaces as the kind of its code. Where the returned
/// value is the negation of a code that is not the interruption's, the caller
/// gets the kind of that code: its own kind for each classified code, and for
/// every other `Unknown` with the code itself.
pub proof fn law_failure_has_kind_of_code(len: usize, code: i64)
    requires
        code > 0,
        code != EINTR,
    ensures
        code == EAGAIN ==> result_of(len, (-code) as i64) == Err::<usize, ErrorKind>(
            ErrorKind::WouldBlock,
        ),
        code == EINVAL ==> result_of(len, (-code) as i64) == Err::<usize, ErrorKind>(
            ErrorKind::InvalidArgument,
        ),
        code == ENOSYS ==> result_of(len, (-code) as i64) == Err::<usize, ErrorKind>(
            ErrorKind::Unsupported,
        ),
        code != EAGAIN && code != EINVAL && code != ENOSYS ==> result_of(len, (-code) as i64)
            == Err::<usize, ErrorKind>(ErrorKind::Unknown(code)),
{
}

/// A count above the buffer's length is never a success and is kept apart
/// from every code: the failure carries a number below zero, and every code
/// is above zero.
pub proof fn law_count_above_buffer(len: usize, ret: i64)
    requires
        ret > len,
    ensures
        result_of(len, ret) == Err::<usize, ErrorKind>(ErrorKind::Unknown((-ret) as i64)),
        -ret < 0,
{
}

/// Interruptions are absorbed. Where the calls before position `last` are all
/// interrupted and the one at `last` is not, the caller gets exactly the
/// result of that one, after `last + 1` calls; what is recorded after it is
/// never used.
pub proof fn law_interruptions_absorbed(len: usize, rets: Seq<i64>, last: int)
    requires
        0 <= last < rets.len(),
        forall|j: int| 0 <= j < last ==> interrupted(#[trigger] rets[j]),
        !interrupted(rets[last]),
    ensures
        outcome(len, rets) == Some(result_of(len, rets[last])),
        answered(rets) == last + 1,
{
    lemma_absorbed_from(len, rets, 0, last);
}

/// While every call is interrupted the exchange goes on: there is no result,
/// and each recorded value was the answer to one call.
pub proof fn law_all_interrupted(len: usize, rets: Seq<i64>)
    requires
        forall|j: int| 0 <= j < rets.len() ==> interrupted(#[trigger] rets[j]),
    ensures
        outcome(len, rets) is None,
        answered(rets) == rets.len(),
{
    lemma_all_interrupted_from(len, rets, 0);
}

proof fn lemma_outcome_is_a_result(len: usize, rets: Seq<i64>, at: int)
    requires
        0 <= at,
    ensures
        outcome_from(len, rets, at) matches Some(Ok(count)) ==> count <= len,
        outcome_from(len, rets, at) matches Some(Err(kind)) ==> !interrupted(kind.as_return()),
        outcome_from(len, rets, at) is Some ==> answered_from(rets, at) >= 1,
        answered_from(rets, at) == 0 ==> outcome_from(len, rets, at) is None,
        at <= rets.len() ==> answered_from(rets, at) <= rets.len() - at,
    decreases rets.len() - at,
{
    if at < rets.len() && interrupted(rets[at]) {
        lemma_outcome_is_a_result(len, rets, at + 1);
    }
}

proof fn lemma_absorbed_from(len: usize, rets: Seq<i64>, at: int, last: int)
    requires
        0 <= at <= last < rets.len(),
        forall|j: int| at <= j < last ==> interrupted(#[trigger] rets[j]),
        !interrupted(rets[last]),
    ensures
        outcome_from(len, rets, at) == Some(result_of(len, rets[last])),
        answered_from(rets, at) == last - at + 1,
    decreases last - at,
{
    if at < last {
        lemma_absorbed_from(len, rets, at + 1, last);
    }
}

proof fn lemma_all_interrupted_from(len: usize, rets: Seq<i64>, at: int)
    requires
        0 <= at <= rets.len(),
        forall|j: int| at <= j < rets.len() ==> interrupted(#[trigger] rets[j]),
    ensures
        outcome_from(len, rets, at) is None,
        answered_from(rets, at) == rets.len() - at,
    decreases rets.len() - at,
{
    if at < rets.len() {
        lemma_all_interrupted_from(len, rets, at + 1);
    }
}

} // verus!
