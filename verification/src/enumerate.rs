use vstd::prelude::*;

use crate::error::Error;

verus! {

/// What the operating system answered to one enumerate-all-processes call:
/// failure with the system's last-error code, or the number of identifier
/// slots it filled (the front end divides the reported byte count by the
/// slot width). The call never distinguishes an exact fit from truncation.
#[derive(Clone, Copy, Debug, PartialEq, Eq, Structural)]
pub enum EnumResponse {
    Failed { code: u32 },
    Filled { count: usize },
}

/// What the protocol decides after one answer: call again with the enlarged
/// buffer, accept the filled buffer as complete, or give up with an error.
#[derive(Clone, Copy, Debug, PartialEq, Eq, Structural)]
pub enum EnumStep {
    Retry,
    Done,
    Fail { error: Error },
}

/// The retry-on-truncation protocol for process enumeration.
///
/// The count of running processes is not known in advance, and a buffer
/// filled to its exact capacity is indistinguishable from a truncated one.
/// The protocol therefore starts from a caller-chosen capacity and doubles
/// it on every exact-capacity answer, at most a caller-chosen number of
/// times, so that it can neither truncate silently nor grow without bound.
pub struct EnumProtocol {
    capacity: usize,
    grows_left: u32,
}

impl EnumProtocol {
    /// How many identifier slots the next enumeration call should offer.
    pub closed spec fn spec_capacity(self) -> usize {
        self.capacity
    }

    /// How many more doublings the protocol still allows itself.
    pub closed spec fn spec_grows_left(self) -> u32 {
        self.grows_left
    }

    #[verifier::type_invariant]
    spec fn inv(self) -> bool {
        self.capacity >= 1
    }

    /// Starts a protocol run that offers `initial_capacity` slots first and
    /// will double the offer at most `max_growths` times.
    pub fn new(initial_capacity: usize, max_growths: u32) -> (r: EnumProtocol)
        requires
            initial_capacity >= 1,
        ensures
            r.spec_capacity() == initial_capacity,
            r.spec_grows_left() == max_growths,
    {
        EnumProtocol { capacity: initial_capacity, grows_left: max_growths }
    }

    /// How many identifier slots the next enumeration call should offer.
    pub fn capacity(&self) -> (r: usize)
        ensures
            r == self.spec_capacity(),
            r >= 1,
    {
        proof {
            use_type_invariant(self);
        }
        self.capacity
    }

    /// Decides what to do with one operating-system answer. A reported
    /// failure gives up with that error, and only that gives up: truncation
    /// is never an error. An answer strictly under capacity is complete.
    /// An exact-capacity answer is treated as possibly truncated: while
    /// doublings remain (and the doubled capacity is representable) the
    /// protocol asks for a retry with twice the capacity, and every retry
    /// spends one of the finitely many doublings, so a run over a stable
    /// process table always converges. With the doublings spent, the filled
    /// buffer is accepted as it stands.
    pub fn on_response(&mut self, resp: EnumResponse) -> (step: EnumStep)
        requires
            resp is Filled ==> resp->count <= old(self).spec_capacity(),
        ensures
            resp is Failed ==> step == (EnumStep::Fail {
                error: Error::Os { code: resp->code },
            }) && *final(self) == *old(self),
            resp is Filled && resp->count < old(self).spec_capacity() ==> step == EnumStep::Done
                && *final(self) == *old(self),
            resp is Filled && resp->count == old(self).spec_capacity()
                && old(self).spec_grows_left() > 0 && old(self).spec_capacity() <= usize::MAX / 2
                ==> step == EnumStep::Retry
                && final(self).spec_capacity() == 2 * old(self).spec_capacity()
                && final(self).spec_grows_left() == old(self).spec_grows_left() - 1,
            resp is Filled && resp->count == old(self).spec_capacity()
                && (old(self).spec_grows_left() == 0 || old(self).spec_capacity() > usize::MAX / 2)
                ==> step == EnumStep::Done && *final(self) == *old(self),
            step is Retry ==> final(self).spec_grows_left() < old(self).spec_grows_left(),
    {
        proof {
            use_type_invariant(&*self);
        }
        match resp {
            EnumResponse::Failed { code } => EnumStep::Fail { error: Error::Os { code } },
            EnumResponse::Filled { count } => {
                if count < self.capacity {
                    EnumStep::Done
                } else if self.grows_left > 0 && self.capacity <= usize::MAX / 2 {
                    self.capacity = self.capacity * 2;
                    self.grows_left = self.grows_left - 1;
                    EnumStep::Retry
                } else {
                    EnumStep::Done
                }
            },
        }
    }
}

/// Whether `v` already holds the identifier `x`.
fn contains_pid(v: &Vec<u32>, x: u32) -> (r: bool)
    ensures
        r == v@.contains(x),
{
    let mut i: usize = 0;
    while i < v.len()
        invariant
            i <= v.len(),
            forall|k: int| 0 <= k < i ==> v@[k] != x,
        decreases v.len() - i,
    {
        if v[i] == x {
            return true;
        }
        i = i + 1;
    }
    false
}

/// Completes an enumeration from the identifier slots the operating system
/// filled: the result holds exactly the distinct positive identifiers of the
/// raw buffer, each once. The system's table may report the pseudo-process
/// with identifier zero; a process identifier proper is positive, so zero
/// slots are dropped rather than handed to callers who would try to open
/// them.
pub fn enum_proc(raw: Vec<u32>) -> (r: Vec<u32>)
    ensures
        forall|i: int| 0 <= i < r@.len() ==> r@[i] > 0,
        forall|i: int, j: int| 0 <= i < j < r@.len() ==> r@[i] != r@[j],
        forall|i: int| 0 <= i < raw@.len() && raw@[i] > 0 ==> r@.contains(raw@[i]),
        forall|i: int| 0 <= i < r@.len() ==> raw@.contains(r@[i]),
{
    let mut out: Vec<u32> = Vec::new();
    let mut i: usize = 0;
    while i < raw.len()
        invariant
            i <= raw.len(),
            forall|k: int| 0 <= k < out@.len() ==> out@[k] > 0,
            forall|k: int, l: int| 0 <= k < l < out@.len() ==> out@[k] != out@[l],
            forall|k: int| 0 <= k < i && raw@[k] > 0 ==> out@.contains(raw@[k]),
            forall|k: int| 0 <= k < out@.len() ==> raw@.contains(out@[k]),
        decreases raw.len() - i,
    {
        let x = raw[i];
        if x > 0 && !contains_pid(&out, x) {
            let ghost before = out@;
            out.push(x);
            proof {
                assert(out@ == before.push(x));
                assert(out@[out@.len() - 1] == x);
                assert forall|k: int| 0 <= k < i + 1 && raw@[k] > 0 implies out@.contains(
                    raw@[k],
                ) by {
                    if k < i {
                        assert(before.contains(raw@[k]));
                        let w = choose|w: int| 0 <= w < before.len() && before[w] == raw@[k];
                        assert(out@[w] == raw@[k]);
                    } else {
                        assert(out@[out@.len() - 1] == raw@[k]);
                    }
                }
            }
        }
        i = i + 1;
    }
    out
}

} // verus!
