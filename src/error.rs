use vstd::prelude::*;

verus! {

/// What can go wrong in a call of this library.
#[derive(Clone, Debug, PartialEq, Eq)]
pub enum Error {
    /// The native library reported a failure; this is its last error message.
    SdlError(String),
    /// A text handed to the native library holds a nul byte, which cannot be passed on.
    NulInText,
}

} // verus!
