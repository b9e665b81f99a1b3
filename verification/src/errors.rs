//! The error surface: a small fixed enumeration of numeric codes,
//! plus the two native failure classes (missing signature, unrecognized or
//! empty instruction) that the router and the handlers can report.

use vstd::prelude::*;

verus! {

/// The program's own error codes. The numeric code of each variant is given by
/// [`ExclusionError::code`]; hosts surface it as a custom program error.
#[derive(Clone, Copy, Debug, PartialEq, Eq, Structural)]
pub enum ExclusionError {
    /// The instruction payload has the wrong length.
    InvalidDataLength,
    /// The record's discriminator bytes do not match the fixed constant.
    InvalidStateAccount,
    /// The root embedded in the witness differs from the stored root.
    SmtRootMismatch,
    /// The identity hash embedded in the witness is not the signer's.
    PubkeyHashMismatch,
    /// The hash primitive reported that it could not compute a digest.
    PoseidonHashFailed,
    /// Reserved: only the admin may perform this action. No handler path
    /// returns it today; authorization is enforced through the derived
    /// address check, surfaced as `InvalidStatePda`.
    UnauthorizedAdmin,
    /// The supplied record address is not the one derived for the signer.
    InvalidStatePda,
    /// The supplied verifier address is not the fixed verifier program.
    InvalidZkVerifier,
    /// The external verifier rejected the proof.
    ZkVerificationFailed,
}

/// The numeric code of each error variant, as hosts report it.
pub open spec fn error_code(e: ExclusionError) -> u32 {
    match e {
        ExclusionError::InvalidDataLength => 0,
        ExclusionError::InvalidStateAccount => 1,
        ExclusionError::SmtRootMismatch => 2,
        ExclusionError::PubkeyHashMismatch => 3,
        ExclusionError::PoseidonHashFailed => 4,
        ExclusionError::UnauthorizedAdmin => 5,
        ExclusionError::InvalidStatePda => 6,
        ExclusionError::InvalidZkVerifier => 7,
        ExclusionError::ZkVerificationFailed => 8,
    }
}

impl ExclusionError {
    /// The numeric code under which this error is reported.
    pub fn code(&self) -> (r: u32)
        ensures
            r == error_code(*self),
    {
        match *self {
            ExclusionError::InvalidDataLength => 0,
            ExclusionError::InvalidStateAccount => 1,
            ExclusionError::SmtRootMismatch => 2,
            ExclusionError::PubkeyHashMismatch => 3,
            ExclusionError::PoseidonHashFailed => 4,
            ExclusionError::UnauthorizedAdmin => 5,
            ExclusionError::InvalidStatePda => 6,
            ExclusionError::InvalidZkVerifier => 7,
            ExclusionError::ZkVerificationFailed => 8,
        }
    }
}

/// Everything a handler or the router can fail with: one of the program's own
/// codes, a missing required signature, or an instruction buffer that is
/// empty or carries an unrecognized opcode.
#[derive(Clone, Copy, Debug, PartialEq, Eq, Structural)]
pub enum GateError {
    /// One of the program's own error codes.
    Exclusion(ExclusionError),
    /// The account that must sign the enclosing transaction did not.
    MissingSignature,
    /// The instruction buffer is empty or its opcode matches no handler.
    InvalidInstruction,
}

} // verus!
