use vstd::prelude::*;

use crate::error::Error;

verus! {

/// Access right asking for permission to query information about a process
/// (the host's `PROCESS_QUERY_INFORMATION` right).
pub const QUERY_INFORMATION_RIGHT: u32 = 0x0400;

/// Access right asking for permission to read a process's memory
/// (the host's `PROCESS_VM_READ` right).
pub const VM_READ_RIGHT: u32 = 0x0010;

/// The access mask a handle is opened with: query information and read
/// memory, nothing more. No write, terminate or control capability is ever
/// requested — the whole crate is read-only introspection.
pub fn desired_access() -> (r: u32)
    ensures
        r == (QUERY_INFORMATION_RIGHT | VM_READ_RIGHT),
{
    QUERY_INFORMATION_RIGHT | VM_READ_RIGHT
}

/// An open, capability-scoped reference to one target process.
///
/// A `Process` exclusively owns one operating-system open-process resource,
/// represented by its nonzero raw handle value. It can only be made through
/// [`Process::open`], which refuses a zero handle value, so a live `Process`
/// always stands for a resource the system actually issued. The only way out
/// is [`Process::close`], which consumes the value and surrenders the raw
/// handle for release: a closed handle cannot be queried again, because the
/// value no longer exists.
pub struct Process {
    pid: u32,
    raw: usize,
}

impl Process {
    /// The identifier this handle was opened for.
    pub closed spec fn spec_pid(self) -> u32 {
        self.pid
    }

    /// The operating-system handle value, as an address-sized integer.
    pub closed spec fn spec_raw(self) -> usize {
        self.raw
    }

    #[verifier::type_invariant]
    spec fn inv(self) -> bool {
        self.raw != 0
    }

    /// Finishes an open-process request. `raw` is the handle value the
    /// operating system returned for `pid` (zero when the open was refused:
    /// insufficient privilege, a protected process, or a process that no
    /// longer exists) and `code` is the system's last-error code at that
    /// moment. A refusal is surfaced as an [`Error::Os`] carrying that code,
    /// never as a crash or an empty success.
    pub fn open(pid: u32, raw: usize, code: u32) -> (r: Result<Process, Error>)
        ensures
            raw != 0 ==> (r matches Ok(p) && p.spec_pid() == pid && p.spec_raw() == raw),
            raw == 0 ==> r == Err::<Process, Error>((Error::Os { code })),
    {
        if raw != 0 {
            Ok(Process { pid, raw })
        } else {
            Err(Error::Os { code })
        }
    }

    /// The identifier this handle was opened for.
    pub fn pid(&self) -> (r: u32)
        ensures
            r == self.spec_pid(),
    {
        self.pid
    }

    /// The raw operating-system handle value, to be passed to the blocking
    /// query / read calls. Never zero.
    pub fn raw(&self) -> (r: usize)
        ensures
            r == self.spec_raw(),
            r != 0,
    {
        proof {
            use_type_invariant(self);
        }
        self.raw
    }

    /// Gives the handle up. The returned raw value must be released through
    /// the operating system's close-resource call, exactly once. Because
    /// `close` takes the handle by value, no query can be performed through
    /// it afterwards: use-after-release is unrepresentable.
    pub fn close(self) -> (r: usize)
        ensures
            r == self.spec_raw(),
            r != 0,
    {
        proof {
            use_type_invariant(&self);
        }
        self.raw
    }
}

} // verus!
