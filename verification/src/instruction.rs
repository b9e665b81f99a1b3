//! The instruction router's wire format: a single leading opcode byte
//! followed by the handler's payload, parsed into a closed tagged-variant
//! type with exactly the three documented payload shapes.

use vstd::prelude::*;
use vstd::bytes::spec_u64_from_le_bytes;
use vstd::bytes::u64_from_le_bytes;
use vstd::slice::slice_subrange;
use vstd::slice::slice_to_vec;
use crate::errors::ExclusionError;
use crate::errors::GateError;

verus! {

/// Opcode of the Initialize instruction.
pub const INITIALIZE: u8 = 0;

/// Opcode of the SetRoot instruction.
pub const SET_SMT_ROOT: u8 = 1;

/// Opcode of the GatedTransfer instruction.
pub const TRANSFER_SOL: u8 = 2;

/// Size in bytes of a SetRoot payload: the new 32-byte root.
pub const SET_ROOT_PAYLOAD_SIZE: usize = 32;

/// Size in bytes of the opaque proof inside a GatedTransfer payload.
pub const PROOF_SIZE: usize = 388;

/// Size in bytes of the public witness inside a GatedTransfer payload.
pub const WITNESS_SIZE: usize = 76;

/// Size in bytes of a GatedTransfer payload: 8-byte little-endian amount,
/// then the proof, then the witness.
pub const TRANSFER_PAYLOAD_SIZE: usize = 8 + 388 + 76;

/// An instruction after parsing: one of the three documented shapes.
#[derive(Debug)]
pub enum ParsedInstruction {
    /// Create and seed a record for the signing admin. Carries no payload;
    /// trailing bytes after the opcode are ignored.
    Initialize,
    /// Overwrite the stored root of the signing admin's record.
    SetRoot { root: Vec<u8> },
    /// Verify the exclusion proof, then move `amount` value units.
    GatedTransfer { amount: u64, proof: Vec<u8>, witness: Vec<u8> },
}

/// Parse an incoming byte buffer: the first byte selects the handler, the
/// rest is its payload. An empty buffer and an unrecognized opcode are
/// rejected; a payload of the wrong length for its opcode is rejected with
/// `InvalidDataLength`.
pub fn parse_instruction(data: &[u8]) -> (r: Result<ParsedInstruction, GateError>)
    ensures
        data@.len() == 0 ==> r == Err::<ParsedInstruction, GateError>(GateError::InvalidInstruction),
        data@.len() > 0 && data@[0] == INITIALIZE ==> r == Ok::<ParsedInstruction, GateError>(
            ParsedInstruction::Initialize,
        ),
        data@.len() > 0 && data@[0] == SET_SMT_ROOT && data@.len() != 1 + SET_ROOT_PAYLOAD_SIZE
            ==> r == Err::<ParsedInstruction, GateError>(
            GateError::Exclusion(ExclusionError::InvalidDataLength),
        ),
        data@.len() > 0 && data@[0] == SET_SMT_ROOT && data@.len() == 1 + SET_ROOT_PAYLOAD_SIZE
            ==> (r matches Ok(pi) && pi matches ParsedInstruction::SetRoot { root } && root@
            == data@.subrange(1, 33)),
        data@.len() > 0 && data@[0] == TRANSFER_SOL && data@.len() != 1 + TRANSFER_PAYLOAD_SIZE
            ==> r == Err::<ParsedInstruction, GateError>(
            GateError::Exclusion(ExclusionError::InvalidDataLength),
        ),
        data@.len() > 0 && data@[0] == TRANSFER_SOL && data@.len() == 1 + TRANSFER_PAYLOAD_SIZE
            ==> (r matches Ok(pi) && pi matches ParsedInstruction::GatedTransfer {
            amount,
            proof,
            witness,
        } && amount == spec_u64_from_le_bytes(data@.subrange(1, 9)) && proof@ == data@.subrange(
            9,
            397,
        ) && witness@ == data@.subrange(397, 473)),
        data@.len() > 0 && data@[0] != INITIALIZE && data@[0] != SET_SMT_ROOT && data@[0]
            != TRANSFER_SOL ==> r == Err::<ParsedInstruction, GateError>(
            GateError::InvalidInstruction,
        ),
{
    if data.len() == 0 {
        return Err(GateError::InvalidInstruction);
    }
    let opcode = data[0];
    if opcode == INITIALIZE {
        Ok(ParsedInstruction::Initialize)
    } else if opcode == SET_SMT_ROOT {
        if data.len() != 1 + SET_ROOT_PAYLOAD_SIZE {
            return Err(GateError::Exclusion(ExclusionError::InvalidDataLength));
        }
        let root = slice_to_vec(slice_subrange(data, 1, 33));
        Ok(ParsedInstruction::SetRoot { root })
    } else if opcode == TRANSFER_SOL {
        if data.len() != 1 + TRANSFER_PAYLOAD_SIZE {
            return Err(GateError::Exclusion(ExclusionError::InvalidDataLength));
        }
        let amount = u64_from_le_bytes(slice_subrange(data, 1, 9));
        let proof = slice_to_vec(slice_subrange(data, 9, 397));
        let witness = slice_to_vec(slice_subrange(data, 397, 473));
        Ok(ParsedInstruction::GatedTransfer { amount, proof, witness })
    } else {
        Err(GateError::InvalidInstruction)
    }
}

} // verus!
