use vstd::prelude::*;
use vstd::utf8::encode_utf8;
use crate::address::Address;

verus! {

/// Where a signature record stands in its workflow.
#[derive(Clone, Copy, Debug, PartialEq, Eq, Structural)]
pub enum SignatureState {
    Unsigned,
    Signed,
}

/// A registry: one per agreement namespace, counting the records created
/// under it.
#[derive(Clone, Debug)]
pub struct Storage {
    pub id: String,
    pub name_storage: String,
    pub initialized: bool,
    pub counter: u32,
    pub bump: u8,
}

/// A signature record: the agreement's metadata, its two parties and its
/// state.
#[derive(Clone, Debug)]
pub struct Signature {
    pub id: String,
    pub name: String,
    pub url: String,
    pub hash_verified: String,
    pub state: SignatureState,
    /// The account designated to sign: the caller that created the record.
    pub signature_account: Address,
    pub creator_account: Address,
    pub bump: u8,
}

/// An account at a known address, allocated (`Some`) or not yet (`None`).
#[derive(Clone, Debug)]
pub struct AccountSlot<T> {
    pub key: Address,
    pub data: Option<T>,
}

/// Why an instruction did not commit.
#[derive(Clone, Copy, Debug, PartialEq, Eq, Structural)]
pub enum ProgramError {
    /// An account already exists at the derived address.
    AddressCollision,
    /// The account handed in is not the one at the derived address.
    AddressMismatch,
    /// No address can be derived from the seeds (an id too long to be a seed).
    InvalidSeeds,
    /// The payer could not fund the new account.
    InsufficientFunds,
    /// The registry has not been initialized.
    RegistryNotInitialized,
    /// The registry has counted as many records as its counter holds.
    CounterOverflow,
    /// The record is signed already.
    AlreadySigned,
    /// A string is longer than the bytes reserved for it in the record.
    FieldTooLong,
    /// The caller is not the record's designated signer.
    NotCounterparty,
    /// The escrow transfer was refused.
    TransferFailed,
}

/// Bytes reserved for an id: the longest seed an address derives from.
pub const MAX_ID_BYTES: usize = 32;

/// Bytes reserved for a registry's name.
pub const MAX_REGISTRY_NAME_BYTES: usize = 300;

/// Bytes reserved for a record's name.
pub const MAX_NAME_BYTES: usize = 64;

/// Bytes reserved for a record's url.
pub const MAX_URL_BYTES: usize = 200;

/// Bytes reserved for a record's hash.
pub const MAX_HASH_BYTES: usize = 64;

/// Whether the UTF-8 encoding of `s` takes at most `max` bytes.
pub open spec fn fits_in(s: Seq<char>, max: usize) -> bool {
    encode_utf8(s).len() <= max
}

/// Whether the strings of a registry fit the space reserved for them.
pub open spec fn registry_fits(data: Storage) -> bool {
    fits_in(data.id@, MAX_ID_BYTES) && fits_in(data.name_storage@, MAX_REGISTRY_NAME_BYTES)
}

/// Whether the strings of a record fit the space reserved for them.
pub open spec fn record_fits(data: Signature) -> bool {
    &&& fits_in(data.id@, MAX_ID_BYTES)
    &&& fits_in(data.name@, MAX_NAME_BYTES)
    &&& fits_in(data.url@, MAX_URL_BYTES)
    &&& fits_in(data.hash_verified@, MAX_HASH_BYTES)
}

/// Whether the UTF-8 encoding of `s` takes at most `max` bytes.
pub fn fits(s: &String, max: usize) -> (r: bool)
    ensures
        r == fits_in(s@, max),
{
    s.as_str().as_bytes().len() <= max
}

/// Whether the strings of a registry fit the space reserved for them.
pub fn registry_data_fits(data: &Storage) -> (r: bool)
    ensures
        r == registry_fits(*data),
{
    fits(&data.id, MAX_ID_BYTES) && fits(&data.name_storage, MAX_REGISTRY_NAME_BYTES)
}

/// Whether the strings of a record fit the space reserved for them.
pub fn record_data_fits(data: &Signature) -> (r: bool)
    ensures
        r == record_fits(*data),
{
    fits(&data.id, MAX_ID_BYTES) && fits(&data.name, MAX_NAME_BYTES) && fits(&data.url, MAX_URL_BYTES)
        && fits(&data.hash_verified, MAX_HASH_BYTES)
}

/// A value transfer between two asset accounts that an instruction is bound to.
#[derive(Clone, Copy, Debug, PartialEq, Eq)]
pub struct EscrowTransfer {
    pub from: Address,
    pub to: Address,
    pub authority: Address,
    pub amount: u64,
}

} // verus!
