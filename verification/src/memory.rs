use vstd::prelude::*;

use crate::error::Error;
use crate::process::Process;

verus! {

/// A local copy of bytes read out of a target's address space, together with
/// the address they were read from. Its length is exactly the number of
/// bytes the operating system reported as copied — never the requested
/// capacity — so every byte it holds was supplied by the system's copy.
pub struct MemoryBuffer {
    addr: usize,
    bytes: Vec<u8>,
}

impl MemoryBuffer {
    /// The address in the target the bytes came from.
    pub closed spec fn spec_addr(self) -> usize {
        self.addr
    }

    /// The copied bytes.
    pub closed spec fn spec_bytes(self) -> Seq<u8> {
        self.bytes@
    }

    /// The address in the target the bytes came from.
    pub fn addr(&self) -> (r: usize)
        ensures
            r == self.spec_addr(),
    {
        self.addr
    }

    /// How many bytes were actually copied.
    pub fn len(&self) -> (r: usize)
        ensures
            r == self.spec_bytes().len(),
    {
        self.bytes.len()
    }

    /// The copied bytes, borrowed.
    pub fn bytes(&self) -> (r: &Vec<u8>)
        ensures
            r@ == self.spec_bytes(),
    {
        &self.bytes
    }

    /// The copied bytes, taking the buffer apart.
    pub fn into_bytes(self) -> (r: Vec<u8>)
        ensures
            r@ == self.spec_bytes(),
    {
        self.bytes
    }
}

/// What the operating system answered to a read-process-memory call: failure
/// with the system's last-error code (an unmapped or protected address, a
/// handle without the read capability, a target that has exited), or the
/// buffer it filled together with the byte count it reported as actually
/// copied.
pub enum ReadResponse {
    Failed { code: u32 },
    Copied { data: Vec<u8>, read: usize },
}

impl Process {
    /// Finishes a read of up to `n` bytes at `addr` in the target. A
    /// zero-length request is answered locally with an empty buffer — it is
    /// not an error and needs no operating-system call. A failed copy is an
    /// [`Error::Os`] with the system's code, never a silent empty success. A
    /// successful copy yields a buffer holding exactly the prefix of `data`
    /// that the system reported as written: the reported count alone decides
    /// the buffer's length, so no byte beyond what the system supplied is
    /// ever exposed.
    pub fn read_memory(&self, addr: usize, n: usize, resp: ReadResponse) -> (r: Result<
        MemoryBuffer,
        Error,
    >)
        requires
            resp is Copied ==> resp->read <= resp->data@.len() <= n,
        ensures
            n == 0 ==> (r matches Ok(b) && b.spec_addr() == addr && b.spec_bytes().len() == 0),
            n > 0 && resp is Failed ==> r == Err::<MemoryBuffer, Error>(
                (Error::Os { code: resp->code }),
            ),
            n > 0 && resp is Copied ==> (r matches Ok(b) && b.spec_addr() == addr
                && b.spec_bytes() == resp->data@.take(resp->read as int)),
    {
        if n == 0 {
            return Ok(MemoryBuffer { addr, bytes: Vec::new() });
        }
        match resp {
            ReadResponse::Failed { code } => Err(Error::Os { code }),
            ReadResponse::Copied { data, read } => {
                let mut bytes = data;
                bytes.truncate(read);
                Ok(MemoryBuffer { addr, bytes })
            },
        }
    }
}

} // verus!
