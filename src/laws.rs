use vstd::prelude::*;
use crate::address::{registry_address_of, signature_address_of, Address};
use crate::instructions::{
    create_signature_result, initialize_result, sign_result, CreateSignature, Initialize,
    SignLegalAgreement,
};
use crate::records::{
    record_fits, registry_fits, EscrowTransfer, ProgramError, Signature, SignatureState, Storage,
};

verus! {

/// Deriving an address is a function of its seeds: two derivations of a
/// record's address from the same registry and id agree, as do two
/// derivations of a registry's address from the same id. A created record or
/// registry lies at the derived address, and the bump it keeps is the one the
/// derivation yields.
pub proof fn lemma_address_derivation_deterministic(
    program_id: Address,
    registry: Address,
    id: Seq<char>,
    other_id: Seq<char>,
    cctx: CreateSignature,
    data: Signature,
    allocation_ok: bool,
    transfer_ok: bool,
    ictx: Initialize,
    init_data: Storage,
    funded: bool,
)
    requires
        id == other_id,
    ensures
        signature_address_of(program_id, registry, id) == signature_address_of(program_id, registry, other_id),
        registry_address_of(program_id, id) == registry_address_of(program_id, other_id),
        create_signature_result(cctx, data, allocation_ok, transfer_ok).0 is Ok ==> ({
            let after = create_signature_result(cctx, data, allocation_ok, transfer_ok).1;
            &&& after.signature.key == cctx.signature.key
            &&& after.signature.data matches Some(rec)
            &&& signature_address_of(cctx.program_id, cctx.storage_key, rec.id@) == Some((after.signature.key.bytes, rec.bump))
        }),
        initialize_result(ictx, init_data, funded).0 is Ok ==> ({
            let after = initialize_result(ictx, init_data, funded).1;
            &&& after.init_storage.key == ictx.init_storage.key
            &&& after.init_storage.data matches Some(reg)
            &&& registry_address_of(ictx.program_id, reg.id@) == Some((after.init_storage.key.bytes, reg.bump))
        }),
{
}

/// A registry id can be taken once: after a registry has been created, a
/// second creation with the same id at the same account fails, and where its
/// name fits the reserved bytes the error is `AddressCollision`. A creation at the derived, still empty account that
/// the payer funds, with an id and name that fit, succeeds.
pub proof fn lemma_registry_created_once(
    ctx: Initialize,
    first: Storage,
    first_funded: bool,
    second_ctx: Initialize,
    second: Storage,
    second_funded: bool,
)
    requires
        first.id@ == second.id@,
        second_ctx.program_id == ctx.program_id,
        second_ctx.init_storage == initialize_result(ctx, first, first_funded).1.init_storage,
    ensures
        initialize_result(ctx, first, first_funded).0 is Ok
            ==> initialize_result(second_ctx, second, second_funded).0 is Err,
        initialize_result(ctx, first, first_funded).0 is Ok && registry_fits(second)
            ==> initialize_result(second_ctx, second, second_funded).0 == Err::<(), ProgramError>(ProgramError::AddressCollision),
        !(initialize_result(ctx, first, first_funded).0 is Ok && initialize_result(second_ctx, second, second_funded).0 is Ok),
        (registry_address_of(ctx.program_id, first.id@) matches Some((key, _)) && key == ctx.init_storage.key.bytes
            && ctx.init_storage.data is None && first_funded && registry_fits(first))
            ==> initialize_result(ctx, first, first_funded).0 is Ok,
{
}

/// The registry's counter after a run of record creations against it: the
/// running registry stands in for the one of each call's accounts. Also gives
/// how many of the calls succeeded.
pub open spec fn run_creations(storage: Storage, calls: Seq<(CreateSignature, Signature, bool, bool)>) -> (Storage, nat)
    decreases calls.len(),
{
    if calls.len() == 0 {
        (storage, 0)
    } else {
        let call = calls[0];
        let step = create_signature_result(CreateSignature { storage, ..call.0 }, call.1, call.2, call.3);
        let rest = run_creations(step.1.storage, calls.drop_first());
        (rest.0, if step.0 is Ok { rest.1 + 1 } else { rest.1 })
    }
}

/// Over any run of record creations against one registry, successful or
/// not, the counter grows by exactly the number that succeeded; a registry
/// just created ends the run holding that number.
pub proof fn lemma_counter_counts_successes(storage: Storage, calls: Seq<(CreateSignature, Signature, bool, bool)>)
    ensures
        run_creations(storage, calls).0.counter == storage.counter + run_creations(storage, calls).1,
        storage.counter == 0 ==> run_creations(storage, calls).0.counter == run_creations(storage, calls).1,
    decreases calls.len(),
{
    if calls.len() > 0 {
        let call = calls[0];
        let step = create_signature_result(CreateSignature { storage, ..call.0 }, call.1, call.2, call.3);
        lemma_counter_counts_successes(step.1.storage, calls.drop_first());
    }
}

/// Signing succeeds at most once: once a signing has gone through, signing
/// the record again fails with `AlreadySigned` and leaves it signed. A record
/// just created is unsigned.
pub proof fn lemma_sign_single_shot(
    ctx: SignLegalAgreement,
    transfer_ok: bool,
    again: SignLegalAgreement,
    again_transfer_ok: bool,
    cctx: CreateSignature,
    data: Signature,
    allocation_ok: bool,
    created_transfer_ok: bool,
)
    requires
        again.signature == sign_result(ctx, transfer_ok).1.signature,
    ensures
        sign_result(ctx, transfer_ok).0 is Ok ==> {
            &&& sign_result(again, again_transfer_ok).0 == Err::<EscrowTransfer, ProgramError>(ProgramError::AlreadySigned)
            &&& sign_result(again, again_transfer_ok).1 == again
            &&& again.signature.state == SignatureState::Signed
        },
        ctx.signature.state == SignatureState::Signed ==> sign_result(ctx, transfer_ok).1 == ctx,
        create_signature_result(cctx, data, allocation_ok, created_transfer_ok).0 is Ok ==>
            (create_signature_result(cctx, data, allocation_ok, created_transfer_ok).1.signature.data matches Some(rec)
                && rec.state == SignatureState::Unsigned),
{
}

/// A refused escrow transfer commits nothing: neither a record nor a counter
/// increment on creation, nor the move to signed on signing. Where nothing
/// else stands in the way (a creation into an initialized registry whose
/// counter is not full, at the derived and still empty account, funded, with
/// data that fits; a signing of an unsigned record), the error is
/// `TransferFailed`.
pub proof fn lemma_failed_transfer_commits_nothing(
    cctx: CreateSignature,
    data: Signature,
    allocation_ok: bool,
    sctx: SignLegalAgreement,
)
    ensures
        create_signature_result(cctx, data, allocation_ok, false).0 is Err,
        create_signature_result(cctx, data, allocation_ok, false).1 == cctx,
        create_signature_result(cctx, data, allocation_ok, false).1.storage.counter == cctx.storage.counter,
        (cctx.storage.initialized && record_fits(data) && allocation_ok
            && cctx.storage.counter < u32::MAX && cctx.signature.data is None
            && (signature_address_of(cctx.program_id, cctx.storage_key, data.id@) matches Some((key, _))
                && key == cctx.signature.key.bytes))
            ==> create_signature_result(cctx, data, allocation_ok, false).0
                == Err::<EscrowTransfer, ProgramError>(ProgramError::TransferFailed),
        sign_result(sctx, false).0 is Err,
        sign_result(sctx, false).1 == sctx,
        sctx.signature.state == SignatureState::Unsigned
            ==> sign_result(sctx, false).0 == Err::<EscrowTransfer, ProgramError>(ProgramError::TransferFailed),
{
}

} // verus!
