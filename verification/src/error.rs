use vstd::prelude::*;

verus! {

/// Why an introspection operation failed.
///
/// The two kinds are kept apart so that a caller can tell "the operating
/// system refused the call" from "the operating system answered, but the
/// answer was malformed".
#[derive(Clone, Copy, Debug, PartialEq, Eq, Structural)]
pub enum Error {
    /// An operating-system call reported failure; `code` carries the
    /// last-error code the system supplied, verbatim.
    Os { code: u32 },
    /// Bytes returned by the operating system do not form valid text.
    Decode,
}

} // verus!
