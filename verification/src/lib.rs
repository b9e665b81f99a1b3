//! An on-chain access-control gate: before a value transfer is permitted, the
//! caller must present a zero-knowledge proof that their identity is absent
//! from a confidential exclusion list. This crate holds the validation and
//! binding logic: per-identity record address derivation, binary payload
//! parsing, hash-based binding of the caller's identity to the proof's public
//! witness, and the ordering of checks before any value moves.

pub mod bytes;
pub mod errors;
pub mod gate;
pub mod instruction;
pub mod pda;
pub mod poseidon;
pub mod state;

pub use bytes::bytes_eq;
pub use bytes::concat_bytes;
pub use bytes::reverse_digest;
pub use errors::ExclusionError;
pub use errors::GateError;
pub use gate::prepare_transfer_sol;
pub use gate::process_initialize;
pub use gate::process_set_smt_root;
pub use gate::settle_transfer_sol;
pub use gate::InitializePlan;
pub use gate::TransferPlan;
pub use gate::ZK_VERIFIER_PROGRAM_ID;
pub use instruction::parse_instruction;
pub use instruction::ParsedInstruction;
pub use pda::derive_state_address;
pub use poseidon::identity_commitment;
pub use state::initial_record;
pub use state::record_has_discriminator;
pub use state::set_record_root;
pub use state::STATE_DISCRIMINATOR;
pub use state::STATE_SIZE;
