//! The crate's error type.

use vstd::prelude::*;

verus! {

/// Errors from parsing principals and from handling KEM keys.
#[derive(Debug, Clone, Copy, PartialEq, Eq)]
pub enum Error {
    /// A DID string is not a principal this crate supports.
    InvalidPrincipal(&'static str),
    /// A cryptographic operation failed. Opaque by design: which step
    /// failed is not something to branch on or to leak.
    Crypto,
    /// A wrapped key or an encoded key is malformed.
    Encoding(&'static str),
}

/// The message of an error: the variant's fixed text, then the reason it
/// carries, if any.
pub open spec fn error_message(e: Error) -> Seq<char> {
    match e {
        Error::InvalidPrincipal(reason) => "invalid principal: "@ + reason@,
        Error::Crypto => "cryptographic operation failed"@,
        Error::Encoding(reason) => "invalid encoding: "@ + reason@,
    }
}

impl Error {
    /// The message of this error, as it is displayed.
    pub fn message(&self) -> (r: String)
        ensures
            r@ == error_message(*self),
    {
        match self {
            Error::InvalidPrincipal(reason) => String::from_str("invalid principal: ").concat(
                reason,
            ),
            Error::Crypto => String::from_str("cryptographic operation failed"),
            Error::Encoding(reason) => String::from_str("invalid encoding: ").concat(reason),
        }
    }
}

} // verus!
