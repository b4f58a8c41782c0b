use vstd::prelude::*;

verus! {

/// Why no report could be derived from a response.
#[derive(Debug, Clone, Copy, PartialEq, Eq, Structural)]
pub enum BlockRequestError {
    /// The response text is not a JSON document.
    JsonDecodeError,
    /// A value that has to be a string, or a list, is of another type.
    TypeMismatch,
    /// The hash, the validator or the list of transactions is absent or
    /// null, or the hash or the validator is the empty string.
    MissingField,
    /// A string is not a hexadecimal quantity of at most 64 bits.
    MalformedHex,
}

} // verus!
