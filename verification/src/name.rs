use vstd::prelude::*;
use vstd::utf8::decode_utf8;
use vstd::utf8::valid_utf8;

use crate::error::Error;
use crate::process::Process;

verus! {

/// What the operating system answered when the front end asked a target for
/// its primary loaded module and that module's base file name: either one of
/// the two queries was rejected (with the system's last-error code — this
/// includes the case of a name call that reported zero bytes written), or a
/// buffer holding the name bytes the system wrote.
pub enum NameResponse {
    Failed { code: u32 },
    Bytes { data: Vec<u8> },
}

/// Relies on `String::from_utf8`: it returns the string a byte vector
/// encodes exactly when the bytes are a valid UTF-8 encoding, and an error
/// otherwise.
#[verifier::external_body]
fn string_from_utf8(data: Vec<u8>) -> (r: Option<String>)
    ensures
        r is Some <==> valid_utf8(data@),
        r matches Some(s) ==> s@ == decode_utf8(data@),
{
    match String::from_utf8(data) {
        Ok(s) => Some(s),
        Err(_) => None,
    }
}

impl Process {
    /// Finishes resolving this process's executable base name from the
    /// operating system's answer. A rejected query is surfaced as an
    /// [`Error::Os`] with the system's code; bytes that are not valid text
    /// are surfaced as [`Error::Decode`], never silently truncated or
    /// replaced; valid bytes become exactly the string they encode.
    pub fn name(&self, resp: NameResponse) -> (r: Result<String, Error>)
        ensures
            resp is Failed ==> r == Err::<String, Error>((Error::Os { code: resp->code })),
            resp is Bytes && valid_utf8(resp->data@) ==> (r matches Ok(s) && s@ == decode_utf8(
                resp->data@,
            )),
            resp is Bytes && !valid_utf8(resp->data@) ==> r == Err::<String, Error>(Error::Decode),
            resp is Bytes && valid_utf8(resp->data@) && resp->data@.len() > 0 ==> (r matches Ok(s)
                && s@.len() > 0),
    {
        proof {
            if resp is Bytes && valid_utf8(resp->data@) && resp->data@.len() > 0 {
                reveal_with_fuel(decode_utf8, 2);
                assert(decode_utf8(resp->data@).len() > 0);
            }
        }
        match resp {
            NameResponse::Failed { code } => Err(Error::Os { code }),
            NameResponse::Bytes { data } => match string_from_utf8(data) {
                Some(s) => Ok(s),
                None => Err(Error::Decode),
            },
        }
    }
}

} // verus!
