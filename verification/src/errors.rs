//! The uniform error taxonomy of the session layer. Every native-layer or
//! adapter failure is converted into one of these variants at the boundary;
//! no raw failure signal crosses back into caller code.

use vstd::prelude::*;

verus! {

/// A failure of the session-oriented operation surface.
#[derive(Clone, Copy, Debug, PartialEq, Eq, Structural)]
pub enum HeError {
    /// A native allocation or call returned no handle.
    NullPointer,
    /// Scheme parameters or a value count violate the backend's constraints.
    InvalidParameter,
    /// The native encrypt operation signalled failure.
    EncryptionFailed,
    /// The native decrypt operation signalled failure, including a ciphertext
    /// whose noise budget is exhausted, or bytes that decode to no ciphertext.
    DecryptionFailed,
    /// A native homomorphic operation signalled failure.
    OperationFailed,
    /// The request named a session token that no live session carries.
    SessionNotFound,
    /// An operand or token crossed a backend or context boundary.
    BackendMismatch,
}

impl HeError {
    /// A short human-readable description of the failure.
    pub fn message(&self) -> (m: &'static str)
        ensures
            self is NullPointer ==> m@ == "Null handle returned by the native layer"@,
            self is InvalidParameter ==> m@ == "Invalid parameter"@,
            self is EncryptionFailed ==> m@ == "Encryption failed"@,
            self is DecryptionFailed ==> m@ == "Decryption failed"@,
            self is OperationFailed ==> m@ == "Homomorphic operation failed"@,
            self is SessionNotFound ==> m@ == "Session not found"@,
            self is BackendMismatch ==> m@ == "Operand crosses a backend or context boundary"@,
    {
        match self {
            HeError::NullPointer => "Null handle returned by the native layer",
            HeError::InvalidParameter => "Invalid parameter",
            HeError::EncryptionFailed => "Encryption failed",
            HeError::DecryptionFailed => "Decryption failed",
            HeError::OperationFailed => "Homomorphic operation failed",
            HeError::SessionNotFound => "Session not found",
            HeError::BackendMismatch => "Operand crosses a backend or context boundary",
        }
    }
}

} // verus!
