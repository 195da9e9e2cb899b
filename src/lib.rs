//! State machine and account addressing of a two-party legal agreement
//! workflow: registries that count agreements, signature records addressed
//! from their registry, and the escrow transfer that each step is bound to.

mod address;
mod escrow;
mod instructions;
mod laws;
mod records;

pub use address::{
    program_address_of, registry_address, registry_address_of, registry_tag, same_address,
    signature_address, signature_address_of, signature_tag, Address,
};
pub use escrow::{
    base_units_per_whole, escrow_amount, escrow_amount_spec, escrow_of, escrow_transfer,
    ESCROW_WHOLE_UNITS,
};
pub use instructions::{
    create_signature, create_signature_result, initialize, initialize_result, new_record,
    new_registry, sign_as_counterparty, sign_legal_agreement, sign_result, CreateSignature,
    Initialize, SignLegalAgreement,
};
pub use laws::{
    lemma_address_derivation_deterministic, lemma_counter_counts_successes,
    lemma_failed_transfer_commits_nothing, lemma_registry_created_once, lemma_sign_single_shot,
    run_creations,
};
pub use records::{
    fits, fits_in, record_data_fits, record_fits, registry_data_fits, registry_fits, AccountSlot,
    EscrowTransfer, ProgramError, Signature, SignatureState, Storage, MAX_HASH_BYTES,
    MAX_ID_BYTES, MAX_NAME_BYTES, MAX_REGISTRY_NAME_BYTES, MAX_URL_BYTES,
};
