//! The three instruction handlers. Each validates everything before anything
//! is mutated, and either describes the effect to perform (a plan the host
//! carries out) or reports exactly one error. The gated transfer is the core
//! security path: it binds the proof's public witness to the current stored
//! root and to the signing identity before the verifier is ever consulted,
//! and releases the transfer only on the verifier's success.

use vstd::prelude::*;
use vstd::slice::slice_subrange;
use crate::bytes::bytes_eq;
use crate::bytes::concat_bytes;
use crate::errors::ExclusionError;
use crate::errors::GateError;
use crate::pda::derive_state_address;
use crate::pda::is_state_address_for;
use crate::pda::pda_of;
use crate::pda::state_seed;
use crate::poseidon::identity_binding;
use crate::poseidon::identity_commitment;
use crate::state::initial_record;
use crate::state::record_admin;
use crate::state::record_has_discriminator;
use crate::state::record_root;
use crate::state::record_tagged;
use crate::state::record_well_formed;
use crate::state::set_record_root;
use crate::state::zero_root;
use crate::state::STATE_SIZE;

verus! {

/// The fixed identity of the external proof-verifier program. A gated
/// transfer accepts no other verifier: this prevents substituting a
/// permissive one.
pub const ZK_VERIFIER_PROGRAM_ID: [u8; 32] = [
    0x3c, 0x3c, 0x6b, 0x81, 0xa2, 0x7d, 0xda, 0xf2, 0xf0, 0x97, 0x86, 0x40, 0xf9, 0x49, 0x3f,
    0xc3, 0x92, 0x26, 0x88, 0xce, 0x8c, 0x8c, 0x0d, 0xd3, 0xdf, 0x8c, 0x34, 0x56, 0x97, 0x7f,
    0x12, 0xe9,
];

/// What Initialize asks the host to do once its checks have passed: create
/// the record account with the derivation's bump byte, then seed it with
/// these 72 bytes.
#[derive(Debug)]
pub struct InitializePlan {
    /// The bump byte of the record address derivation, presented by the host
    /// to authorize creating the account at the derived address.
    pub bump: u8,
    /// The bytes the new record is seeded with.
    pub record: Vec<u8>,
}

/// Validate an Initialize instruction: the admin must have signed, and the
/// supplied record address must equal the one derived for the admin. On
/// success the plan holds the derivation's bump and the 72 record bytes to
/// write: the discriminator, the admin identity, and an all-zero root.
pub fn process_initialize(
    program_id: &[u8; 32],
    admin: &[u8; 32],
    admin_is_signer: bool,
    state_address: &[u8; 32],
) -> (r: Result<InitializePlan, GateError>)
    ensures
        !admin_is_signer ==> r == Err::<InitializePlan, GateError>(GateError::MissingSignature),
        admin_is_signer && !is_state_address_for(state_address@, admin@, program_id@) ==> r == Err::<
            InitializePlan,
            GateError,
        >(GateError::Exclusion(ExclusionError::InvalidStatePda)),
        admin_is_signer && is_state_address_for(state_address@, admin@, program_id@) ==> (r matches
            Ok(plan) && {
            &&& (pda_of(state_seed(), admin@, program_id@) matches Some(p) && plan.bump == p.1)
            &&& record_well_formed(plan.record@)
            &&& record_admin(plan.record@) == admin@
            &&& record_root(plan.record@) == zero_root()
        }),
{
    if !admin_is_signer {
        return Err(GateError::MissingSignature);
    }
    match derive_state_address(admin, program_id) {
        None => Err(GateError::Exclusion(ExclusionError::InvalidStatePda)),
        Some((address, bump)) => {
            if bytes_eq(state_address.as_slice(), address.as_slice()) {
                let record = initial_record(admin);
                Ok(InitializePlan { bump, record })
            } else {
                Err(GateError::Exclusion(ExclusionError::InvalidStatePda))
            }
        },
    }
}

/// Handle a SetRoot instruction: the admin must have signed, the supplied
/// record address must equal the one derived for the admin (the sole
/// authorization check), and the record must carry the fixed discriminator.
/// Then bytes 40..72 of the record are overwritten with the new root and
/// nothing else changes; on any failure the record is untouched.
pub fn process_set_smt_root(
    program_id: &[u8; 32],
    admin: &[u8; 32],
    admin_is_signer: bool,
    state_address: &[u8; 32],
    record: &mut Vec<u8>,
    root: &[u8],
) -> (r: Result<(), GateError>)
    requires
        old(record)@.len() == STATE_SIZE,
        root@.len() == 32,
    ensures
        !admin_is_signer ==> r == Err::<(), GateError>(GateError::MissingSignature)
            && final(record)@ == old(record)@,
        admin_is_signer && !is_state_address_for(state_address@, admin@, program_id@) ==> r == Err::<
            (),
            GateError,
        >(GateError::Exclusion(ExclusionError::InvalidStatePda)) && final(record)@ == old(record)@,
        admin_is_signer && is_state_address_for(state_address@, admin@, program_id@)
            && !record_tagged(old(record)@) ==> r == Err::<(), GateError>(
            GateError::Exclusion(ExclusionError::InvalidStateAccount),
        ) && final(record)@ == old(record)@,
        admin_is_signer && is_state_address_for(state_address@, admin@, program_id@)
            && record_tagged(old(record)@) ==> r == Ok::<(), GateError>(())
            && final(record)@ == old(record)@.subrange(0, 40) + root@,
{
    if !admin_is_signer {
        return Err(GateError::MissingSignature);
    }
    let matches_derived = match derive_state_address(admin, program_id) {
        None => false,
        Some((address, _bump)) => bytes_eq(state_address.as_slice(), address.as_slice()),
    };
    if !matches_derived {
        return Err(GateError::Exclusion(ExclusionError::InvalidStatePda));
    }
    if !record_has_discriminator(record.as_slice()) {
        return Err(GateError::Exclusion(ExclusionError::InvalidStateAccount));
    }
    set_record_root(record, root);
    Ok(())
}

/// What a GatedTransfer asks the host to do once every binding has been
/// validated: hand `verifier_payload` (proof followed by witness) to the
/// fixed verifier program, and only on its success move `amount` value units
/// from the sender to the recipient.
#[derive(Debug)]
pub struct TransferPlan {
    /// The amount of value units to move, little-endian-decoded from the
    /// payload.
    pub amount: u64,
    /// The opaque bytes for the verifier: the proof followed by the witness.
    pub verifier_payload: Vec<u8>,
}

/// The outcome that a gated transfer's validation owes for the given inputs:
/// each check in order, each failure with its error, and on success the
/// amount and the verifier payload.
pub open spec fn transfer_outcome(
    sender: Seq<u8>,
    sender_is_signer: bool,
    verifier_program: Seq<u8>,
    record: Seq<u8>,
    amount: u64,
    proof_data: Seq<u8>,
    witness: Seq<u8>,
) -> Result<(u64, Seq<u8>), GateError> {
    if !sender_is_signer {
        Err(GateError::MissingSignature)
    } else if verifier_program != ZK_VERIFIER_PROGRAM_ID@ {
        Err(GateError::Exclusion(ExclusionError::InvalidZkVerifier))
    } else if !record_tagged(record) {
        Err(GateError::Exclusion(ExclusionError::InvalidStateAccount))
    } else if witness.subrange(12, 44) != record_root(record) {
        Err(GateError::Exclusion(ExclusionError::SmtRootMismatch))
    } else {
        match identity_binding(sender) {
            None => Err(GateError::Exclusion(ExclusionError::PoseidonHashFailed)),
            Some(binding) => if witness.subrange(44, 76) != binding {
                Err(GateError::Exclusion(ExclusionError::PubkeyHashMismatch))
            } else {
                Ok((amount, proof_data + witness))
            },
        }
    }
}

/// Validate a GatedTransfer instruction: the sender must have signed, the
/// supplied verifier must be the fixed verifier program, the record must
/// carry the discriminator, the witness's embedded root (bytes 12..44) must
/// equal the stored root, and the witness's embedded identity hash (bytes
/// 44..76) must equal the sender's computed binding. On success the plan
/// holds the amount and the verifier payload; the record is never mutated.
pub fn prepare_transfer_sol(
    sender: &[u8; 32],
    sender_is_signer: bool,
    verifier_program: &[u8; 32],
    record: &[u8],
    amount: u64,
    proof_data: &[u8],
    witness: &[u8],
) -> (r: Result<TransferPlan, GateError>)
    requires
        record@.len() == STATE_SIZE,
        proof_data@.len() == 388,
        witness@.len() == 76,
    ensures
        match r {
            Ok(plan) => transfer_outcome(
                sender@,
                sender_is_signer,
                verifier_program@,
                record@,
                amount,
                proof_data@,
                witness@,
            ) == Ok::<(u64, Seq<u8>), GateError>((plan.amount, plan.verifier_payload@)),
            Err(e) => transfer_outcome(
                sender@,
                sender_is_signer,
                verifier_program@,
                record@,
                amount,
                proof_data@,
                witness@,
            ) == Err::<(u64, Seq<u8>), GateError>(e),
        },
{
    if !sender_is_signer {
        return Err(GateError::MissingSignature);
    }
    let verifier_id: [u8; 32] = ZK_VERIFIER_PROGRAM_ID;
    if !bytes_eq(verifier_program.as_slice(), verifier_id.as_slice()) {
        return Err(GateError::Exclusion(ExclusionError::InvalidZkVerifier));
    }
    if !record_has_discriminator(record) {
        return Err(GateError::Exclusion(ExclusionError::InvalidStateAccount));
    }
    let witness_root = slice_subrange(witness, 12, 44);
    let stored_root = slice_subrange(record, 40, 72);
    if !bytes_eq(witness_root, stored_root) {
        return Err(GateError::Exclusion(ExclusionError::SmtRootMismatch));
    }
    match identity_commitment(sender) {
        Err(e) => Err(GateError::Exclusion(e)),
        Ok(binding) => {
            let witness_binding = slice_subrange(witness, 44, 76);
            if !bytes_eq(witness_binding, binding.as_slice()) {
                return Err(GateError::Exclusion(ExclusionError::PubkeyHashMismatch));
            }
            let verifier_payload = concat_bytes(proof_data, witness);
            Ok(TransferPlan { amount, verifier_payload })
        },
    }
}

/// Decide a validated transfer on the verifier's answer: on success the
/// host owes the transfer of the plan's amount; on failure the whole
/// operation aborts with `ZkVerificationFailed` and no value moves.
pub fn settle_transfer_sol(verifier_accepted: bool, plan: &TransferPlan) -> (r: Result<
    u64,
    GateError,
>)
    ensures
        verifier_accepted ==> r == Ok::<u64, GateError>(plan.amount),
        !verifier_accepted ==> r == Err::<u64, GateError>(
            GateError::Exclusion(ExclusionError::ZkVerificationFailed),
        ),
{
    if verifier_accepted {
        Ok(plan.amount)
    } else {
        Err(GateError::Exclusion(ExclusionError::ZkVerificationFailed))
    }
}

/// The root binding law: a gated transfer whose witness carries the record's
/// current root never fails with `SmtRootMismatch`; one whose witness
/// carries any other root (a stale root included) never succeeds, and fails
/// with exactly `SmtRootMismatch` as soon as the signature, verifier and
/// discriminator checks pass — the verifier is never consulted, since no
/// plan exists.
pub proof fn lemma_root_binding(
    sender: Seq<u8>,
    sender_is_signer: bool,
    verifier_program: Seq<u8>,
    record: Seq<u8>,
    amount: u64,
    proof_data: Seq<u8>,
    witness: Seq<u8>,
)
    ensures
        witness.subrange(12, 44) == record_root(record) ==> transfer_outcome(
            sender,
            sender_is_signer,
            verifier_program,
            record,
            amount,
            proof_data,
            witness,
        ) != Err::<(u64, Seq<u8>), GateError>(
            GateError::Exclusion(ExclusionError::SmtRootMismatch),
        ),
        witness.subrange(12, 44) != record_root(record) ==> !(transfer_outcome(
            sender,
            sender_is_signer,
            verifier_program,
            record,
            amount,
            proof_data,
            witness,
        ) is Ok),
        sender_is_signer && verifier_program == ZK_VERIFIER_PROGRAM_ID@ && record_tagged(record)
            && witness.subrange(12, 44) != record_root(record) ==> transfer_outcome(
            sender,
            sender_is_signer,
            verifier_program,
            record,
            amount,
            proof_data,
            witness,
        ) == Err::<(u64, Seq<u8>), GateError>(
            GateError::Exclusion(ExclusionError::SmtRootMismatch),
        ),
{
}

/// The identity binding law: when the earlier checks pass and the witness's
/// embedded identity hash differs from the binding computed for the signer,
/// the gated transfer fails with exactly `PubkeyHashMismatch` — a valid
/// proof cannot be replayed by a different caller.
pub proof fn lemma_identity_binding(
    sender: Seq<u8>,
    sender_is_signer: bool,
    verifier_program: Seq<u8>,
    record: Seq<u8>,
    amount: u64,
    proof_data: Seq<u8>,
    witness: Seq<u8>,
)
    ensures
        sender_is_signer && verifier_program == ZK_VERIFIER_PROGRAM_ID@ && record_tagged(record)
            && witness.subrange(12, 44) == record_root(record) && (identity_binding(sender) matches
            Some(b) && witness.subrange(44, 76) != b) ==> transfer_outcome(
            sender,
            sender_is_signer,
            verifier_program,
            record,
            amount,
            proof_data,
            witness,
        ) == Err::<(u64, Seq<u8>), GateError>(
            GateError::Exclusion(ExclusionError::PubkeyHashMismatch),
        ),
{
}

/// The acceptance law: a signed transfer through the fixed verifier, against
/// a tagged record, whose witness embeds the record's current root and the
/// signer's computed binding, passes every check; its plan carries the
/// decoded amount and hands the verifier exactly the proof followed by the
/// witness.
pub proof fn lemma_bound_witness_accepted(
    sender: Seq<u8>,
    sender_is_signer: bool,
    verifier_program: Seq<u8>,
    record: Seq<u8>,
    amount: u64,
    proof_data: Seq<u8>,
    witness: Seq<u8>,
)
    ensures
        sender_is_signer && verifier_program == ZK_VERIFIER_PROGRAM_ID@ && record_tagged(record)
            && witness.subrange(12, 44) == record_root(record) && (identity_binding(sender) matches
            Some(b) && witness.subrange(44, 76) == b) ==> transfer_outcome(
            sender,
            sender_is_signer,
            verifier_program,
            record,
            amount,
            proof_data,
            witness,
        ) == Ok::<(u64, Seq<u8>), GateError>((amount, proof_data + witness)),
{
}

} // verus!
