//! The error channel: every fallible operation of this layer returns either a
//! success value or one of these typed failures. Soft absence (missing
//! metadata, an unresolved link, a wrong password during authentication) is
//! never an error; it is a successful result carrying an empty or negative
//! value.

use vstd::prelude::*;
use vstd::string::StringSliceAdditionalSpecFns;

verus! {

/// A typed failure surfaced to the caller instead of a crash or a leak.
#[derive(Debug, Clone)]
pub enum Error {
    /// A caller-supplied string cannot be represented in the native string
    /// encoding because it embeds the terminator byte.
    InvalidInput,
    /// The native layer reported failure; carries the diagnostic message
    /// retrieved from the engine's execution context at the time of failure.
    Engine { message: String },
}

impl Error {
    /// Whether this failure came from rejecting a caller-supplied string.
    pub open spec fn is_invalid_input(self) -> bool {
        self matches Error::InvalidInput
    }

    /// Whether this failure was reported by the native layer.
    pub open spec fn is_engine(self) -> bool {
        self matches Error::Engine { .. }
    }
}

/// Translates a native failure sentinel into a typed error, wrapping the
/// diagnostic message pulled from the engine's execution context.
pub fn engine_error(message: String) -> (e: Error)
    ensures
        e == (Error::Engine { message }),
{
    Error::Engine { message }
}

/// Whether `s` can be marshaled to the native string form: the native
/// encoding terminates at the first zero byte, so a string embedding one
/// cannot be passed across the boundary.
pub open spec fn marshalable(s: &str) -> bool {
    !s.spec_bytes().contains(0u8)
}

/// Validates a caller-supplied string before it crosses the native boundary.
/// An embedded terminator byte is an invalid-input failure, never a panic.
pub fn check_c_str(s: &str) -> (r: Result<(), Error>)
    ensures
        r is Ok <==> marshalable(s),
        r is Err ==> r->Err_0 is InvalidInput,
{
    let bytes = s.as_bytes();
    let n = bytes.len();
    let mut i: usize = 0;
    while i < n
        invariant
            0 <= i <= n,
            n == bytes@.len(),
            bytes@ == s.spec_bytes(),
            forall|j: int| 0 <= j < i ==> bytes@[j] != 0u8,
        decreases n - i,
    {
        if bytes[i] == 0 {
            return Err(Error::InvalidInput);
        }
        i += 1;
    }
    Ok(())
}

} // verus!
