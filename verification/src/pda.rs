//! Deterministic derivation of the per-admin record address: a pure function
//! of a fixed label, the admin identity and the program's own identity,
//! yielding an address with no corresponding private key plus a
//! disambiguation byte (the "bump").

use vstd::prelude::*;

verus! {

/// The address that the ledger derives for the seed pair
/// `(seed0, seed1)` under `program_id`, together with its bump byte, or
/// nothing in the (statistically improbable) event that no bump yields a
/// valid derived address. The derivation is a pure function of its
/// arguments: the same seeds and program identity always give the same
/// address and bump.
pub uninterp spec fn pda_of(seed0: Seq<u8>, seed1: Seq<u8>, program_id: Seq<u8>) -> Option<(Seq<u8>, u8)>;

/// The fixed label under which record addresses are derived: the bytes of
/// `"state"`.
pub open spec fn state_seed() -> Seq<u8> {
    seq![0x73u8, 0x74u8, 0x61u8, 0x74u8, 0x65u8]
}

/// Relies on solana_program's `Pubkey::try_find_program_address`: the derived
/// address and bump depend on the seeds and the program identity alone, and
/// the search returns `None` only when no bump byte yields a valid address.
#[verifier::external_body]
fn try_find_program_address(seed0: &[u8], seed1: &[u8], program_id: &[u8; 32]) -> (r: Option<(
    [u8; 32],
    u8,
)>)
    ensures
        match r {
            Some(p) => pda_of(seed0@, seed1@, program_id@) == Some((p.0@, p.1)),
            None => pda_of(seed0@, seed1@, program_id@) is None,
        },
{
    let pid = solana_program::pubkey::Pubkey::new_from_array(*program_id);
    match solana_program::pubkey::Pubkey::try_find_program_address(&[seed0, seed1], &pid) {
        Some((address, bump)) => Some((address.to_bytes(), bump)),
        None => None,
    }
}

/// Derive the record address and bump for an admin identity under a program
/// identity, using the fixed `"state"` label.
pub fn derive_state_address(admin: &[u8; 32], program_id: &[u8; 32]) -> (r: Option<([u8; 32], u8)>)
    ensures
        match r {
            Some(p) => pda_of(state_seed(), admin@, program_id@) == Some((p.0@, p.1)),
            None => pda_of(state_seed(), admin@, program_id@) is None,
        },
{
    let label: [u8; 5] = [0x73, 0x74, 0x61, 0x74, 0x65];
    proof {
        assert(label@ =~= state_seed());
    }
    try_find_program_address(label.as_slice(), admin.as_slice(), program_id)
}

/// Whether `address` is the address derived for `admin` under `program_id`.
/// When no address can be derived at all, no supplied address can match.
pub open spec fn is_state_address_for(address: Seq<u8>, admin: Seq<u8>, program_id: Seq<u8>) -> bool {
    match pda_of(state_seed(), admin, program_id) {
        Some(p) => address == p.0,
        None => false,
    }
}

/// The derivation is pure and deterministic: the same admin and program
/// identity always yield the same address and bump.
pub proof fn lemma_state_address_deterministic(
    admin1: Seq<u8>,
    program_id1: Seq<u8>,
    admin2: Seq<u8>,
    program_id2: Seq<u8>,
)
    ensures
        admin1 == admin2 && program_id1 == program_id2 ==> pda_of(
            state_seed(),
            admin1,
            program_id1,
        ) == pda_of(state_seed(), admin2, program_id2),
{
}

} // verus!
