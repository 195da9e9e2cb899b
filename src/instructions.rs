use vstd::prelude::*;
use crate::address::{
    registry_address, registry_address_of, same_address, signature_address,
    signature_address_of, Address,
};
use crate::escrow::{escrow_of, escrow_transfer};
use crate::records::{
    record_data_fits, record_fits, registry_data_fits, registry_fits, AccountSlot,
    EscrowTransfer, ProgramError, Signature, SignatureState, Storage,
};

verus! {

/// The accounts that creating a registry touches.
#[derive(Clone, Debug)]
pub struct Initialize {
    /// The program that owns the accounts.
    pub program_id: Address,
    /// The payer of the new account.
    pub authority: Address,
    /// The account at which the registry is to be created.
    pub init_storage: AccountSlot<Storage>,
}

/// The accounts that creating a signature record touches.
#[derive(Clone, Debug)]
pub struct CreateSignature {
    pub program_id: Address,
    /// The caller, payer of the new account and authority of the transfer.
    pub authority: Address,
    /// The registry's address.
    pub storage_key: Address,
    pub storage: Storage,
    /// The account at which the record is to be created.
    pub signature: AccountSlot<Signature>,
    /// The counter-signer's account that the instruction declares; the
    /// record's parties are the caller.
    pub signer_account: Address,
    pub from_ata: Address,
    pub to_ata: Address,
}

/// The accounts that signing a record touches.
#[derive(Clone, Debug)]
pub struct SignLegalAgreement {
    /// The caller and authority of the transfer.
    pub authority: Address,
    pub signature: Signature,
    pub from_ata: Address,
    pub to_ata: Address,
}

/// A registry just created from `data` with the given bump.
pub open spec fn new_registry(data: Storage, bump: u8) -> Storage {
    Storage {
        id: data.id,
        name_storage: data.name_storage,
        initialized: true,
        counter: 0,
        bump,
    }
}

/// A record just created from `data`, with `caller` as both of its parties.
pub open spec fn new_record(data: Signature, caller: Address, bump: u8) -> Signature {
    Signature {
        id: data.id,
        name: data.name,
        url: data.url,
        hash_verified: data.hash_verified,
        state: SignatureState::Unsigned,
        signature_account: caller,
        creator_account: caller,
        bump,
    }
}

/// The outcome of creating a registry from `data`: the result and the
/// accounts afterwards. An error leaves the accounts as they were.
pub open spec fn initialize_result(ctx: Initialize, data: Storage, allocation_ok: bool) -> (Result<(), ProgramError>, Initialize) {
    if !registry_fits(data) {
        (Err(ProgramError::FieldTooLong), ctx)
    } else {
        match registry_address_of(ctx.program_id, data.id@) {
            None => (Err(ProgramError::InvalidSeeds), ctx),
            Some((key, bump)) => {
                if ctx.init_storage.key.bytes != key {
                    (Err(ProgramError::AddressMismatch), ctx)
                } else if ctx.init_storage.data is Some {
                    (Err(ProgramError::AddressCollision), ctx)
                } else if !allocation_ok {
                    (Err(ProgramError::InsufficientFunds), ctx)
                } else {
                    (Ok(()), Initialize {
                        init_storage: AccountSlot {
                            key: ctx.init_storage.key,
                            data: Some(new_registry(data, bump)),
                        },
                        ..ctx
                    })
                }
            },
        }
    }
}

/// The outcome of creating a record from `data` under the registry of `ctx`:
/// the transfer made and the accounts afterwards. An error leaves the accounts
/// as they were.
pub open spec fn create_signature_result(
    ctx: CreateSignature,
    data: Signature,
    allocation_ok: bool,
    transfer_ok: bool,
) -> (Result<EscrowTransfer, ProgramError>, CreateSignature) {
    if !ctx.storage.initialized {
        (Err(ProgramError::RegistryNotInitialized), ctx)
    } else if !record_fits(data) {
        (Err(ProgramError::FieldTooLong), ctx)
    } else {
        match signature_address_of(ctx.program_id, ctx.storage_key, data.id@) {
            None => (Err(ProgramError::InvalidSeeds), ctx),
            Some((key, bump)) => {
                if ctx.signature.key.bytes != key {
                    (Err(ProgramError::AddressMismatch), ctx)
                } else if ctx.signature.data is Some {
                    (Err(ProgramError::AddressCollision), ctx)
                } else if !allocation_ok {
                    (Err(ProgramError::InsufficientFunds), ctx)
                } else if ctx.storage.counter == u32::MAX {
                    (Err(ProgramError::CounterOverflow), ctx)
                } else if !transfer_ok {
                    (Err(ProgramError::TransferFailed), ctx)
                } else {
                    (Ok(escrow_of(ctx.from_ata, ctx.to_ata, ctx.authority)), CreateSignature {
                        storage: Storage { counter: (ctx.storage.counter + 1) as u32, ..ctx.storage },
                        signature: AccountSlot {
                            key: ctx.signature.key,
                            data: Some(new_record(data, ctx.authority, bump)),
                        },
                        ..ctx
                    })
                }
            },
        }
    }
}

/// The outcome of signing the record of `ctx`: the transfer made and the
/// accounts afterwards. An error leaves the accounts as they were.
pub open spec fn sign_result(ctx: SignLegalAgreement, transfer_ok: bool) -> (Result<EscrowTransfer, ProgramError>, SignLegalAgreement) {
    if ctx.signature.state == SignatureState::Signed {
        (Err(ProgramError::AlreadySigned), ctx)
    } else if !transfer_ok {
        (Err(ProgramError::TransferFailed), ctx)
    } else {
        (Ok(escrow_of(ctx.from_ata, ctx.to_ata, ctx.authority)), SignLegalAgreement {
            signature: Signature { state: SignatureState::Signed, ..ctx.signature },
            ..ctx
        })
    }
}

/// Creates the registry described by `init_data` (its id and name) at
/// `ctx.init_storage`, which must be the address derived from the id and
/// must not hold an account yet; the id and name must fit the bytes reserved
/// for them. `allocation_ok` tells whether the payer
/// funded the new account.
pub fn initialize(ctx: &mut Initialize, init_data: Storage, allocation_ok: bool) -> (r: Result<(), ProgramError>)
    ensures
        (r, *final(ctx)) == initialize_result(*old(ctx), init_data, allocation_ok),
        r is Ok ==> (final(ctx).init_storage.data matches Some(s) && s.counter == 0 && s.initialized),
        old(ctx).init_storage.data is Some ==> r is Err,
        !registry_fits(init_data) ==> r == Err::<(), ProgramError>(ProgramError::FieldTooLong),
{
    if !registry_data_fits(&init_data) {
        return Err(ProgramError::FieldTooLong);
    }
    let derived = registry_address(&ctx.program_id, &init_data.id);
    match derived {
        None => Err(ProgramError::InvalidSeeds),
        Some((key, bump)) => {
            if !same_address(&ctx.init_storage.key, &Address { bytes: key }) {
                return Err(ProgramError::AddressMismatch);
            }
            if ctx.init_storage.data.is_some() {
                return Err(ProgramError::AddressCollision);
            }
            if !allocation_ok {
                return Err(ProgramError::InsufficientFunds);
            }
            ctx.init_storage.data = Some(
                Storage {
                    id: init_data.id,
                    name_storage: init_data.name_storage,
                    initialized: true,
                    counter: 0,
                    bump,
                },
            );
            Ok(())
        },
    }
}

/// Creates the record described by `sign_data` (its id and metadata, which
/// must fit the bytes reserved for them) at `ctx.signature`, which must be the
/// address derived from the registry and the id, with the caller
/// `ctx.authority` as both of its parties, counts it in the registry and moves the escrow amount from
/// `ctx.from_ata` to `ctx.to_ata`. `allocation_ok` tells whether the payer
/// funded the new account, `transfer_ok` whether the transfer went through;
/// the transfer made is returned.
pub fn create_signature(
    ctx: &mut CreateSignature,
    sign_data: Signature,
    allocation_ok: bool,
    transfer_ok: bool,
) -> (r: Result<EscrowTransfer, ProgramError>)
    ensures
        (r, *final(ctx)) == create_signature_result(*old(ctx), sign_data, allocation_ok, transfer_ok),
        r is Ok ==> final(ctx).storage.counter == old(ctx).storage.counter + 1,
        r is Ok ==> (final(ctx).signature.data matches Some(rec)
            && rec.creator_account == old(ctx).authority
            && rec.signature_account == old(ctx).authority),
        old(ctx).storage.initialized && !record_fits(sign_data)
            ==> r == Err::<EscrowTransfer, ProgramError>(ProgramError::FieldTooLong),
        r is Err ==> *final(ctx) == *old(ctx),
        !transfer_ok ==> r is Err,
{
    if !ctx.storage.initialized {
        return Err(ProgramError::RegistryNotInitialized);
    }
    if !record_data_fits(&sign_data) {
        return Err(ProgramError::FieldTooLong);
    }
    let derived = signature_address(&ctx.program_id, &ctx.storage_key, &sign_data.id);
    match derived {
        None => Err(ProgramError::InvalidSeeds),
        Some((key, bump)) => {
            if !same_address(&ctx.signature.key, &Address { bytes: key }) {
                return Err(ProgramError::AddressMismatch);
            }
            if ctx.signature.data.is_some() {
                return Err(ProgramError::AddressCollision);
            }
            if !allocation_ok {
                return Err(ProgramError::InsufficientFunds);
            }
            if ctx.storage.counter == u32::MAX {
                return Err(ProgramError::CounterOverflow);
            }
            if !transfer_ok {
                return Err(ProgramError::TransferFailed);
            }
            ctx.signature.data = Some(
                Signature {
                    id: sign_data.id,
                    name: sign_data.name,
                    url: sign_data.url,
                    hash_verified: sign_data.hash_verified,
                    state: SignatureState::Unsigned,
                    signature_account: ctx.authority,
                    creator_account: ctx.authority,
                    bump,
                },
            );
            ctx.storage.counter = ctx.storage.counter + 1;
            Ok(escrow_transfer(ctx.from_ata, ctx.to_ata, ctx.authority))
        },
    }
}

/// Moves the record of `ctx` from unsigned to signed and the escrow amount
/// from `ctx.from_ata` to `ctx.to_ata`. `transfer_ok` tells whether the
/// transfer went through; the transfer made is returned. Whoever calls may
/// sign: `sign_as_counterparty` is the form that admits only the record's
/// designated signer.
pub fn sign_legal_agreement(ctx: &mut SignLegalAgreement, transfer_ok: bool) -> (r: Result<EscrowTransfer, ProgramError>)
    ensures
        (r, *final(ctx)) == sign_result(*old(ctx), transfer_ok),
        r is Ok ==> old(ctx).signature.state == SignatureState::Unsigned
            && final(ctx).signature.state == SignatureState::Signed,
        r is Err ==> *final(ctx) == *old(ctx),
        !transfer_ok ==> r is Err,
{
    if ctx.signature.state == SignatureState::Signed {
        return Err(ProgramError::AlreadySigned);
    }
    if !transfer_ok {
        return Err(ProgramError::TransferFailed);
    }
    ctx.signature.state = SignatureState::Signed;
    Ok(escrow_transfer(ctx.from_ata, ctx.to_ata, ctx.authority))
}

/// Signs as `sign_legal_agreement` does, but only where the caller is the
/// record's designated signer.
pub fn sign_as_counterparty(ctx: &mut SignLegalAgreement, transfer_ok: bool) -> (r: Result<EscrowTransfer, ProgramError>)
    ensures
        old(ctx).authority.bytes != old(ctx).signature.signature_account.bytes ==> r == Err::<EscrowTransfer, ProgramError>(ProgramError::NotCounterparty)
            && *final(ctx) == *old(ctx),
        old(ctx).authority.bytes == old(ctx).signature.signature_account.bytes ==> (r, *final(ctx)) == sign_result(*old(ctx), transfer_ok),
{
    if !same_address(&ctx.authority, &ctx.signature.signature_account) {
        return Err(ProgramError::NotCounterparty);
    }
    sign_legal_agreement(ctx, transfer_ok)
}

} // verus!
