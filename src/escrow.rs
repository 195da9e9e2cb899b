use vstd::prelude::*;
use anchor_lang::solana_program::native_token::LAMPORTS_PER_SOL;
use crate::address::Address;
use crate::records::EscrowTransfer;

verus! {

/// The escrow, in whole units of the ledger's native token.
pub const ESCROW_WHOLE_UNITS: u64 = 10000;

/// Base units in one whole unit of the native token.
pub open spec fn base_units_per_whole() -> u64 {
    1_000_000_000
}

/// The amount that each step of the workflow moves, in base units.
pub open spec fn escrow_amount_spec() -> u64 {
    (ESCROW_WHOLE_UNITS * base_units_per_whole()) as u64
}

/// Relies on `native_token::LAMPORTS_PER_SOL` of solana-program (re-exported
/// by anchor-lang): the base units in one whole unit.
#[verifier::external_body]
fn lamports_per_sol() -> (r: u64)
    ensures
        r == base_units_per_whole(),
{
    LAMPORTS_PER_SOL
}

/// The amount that each step of the workflow moves, in base units.
pub fn escrow_amount() -> (r: u64)
    ensures
        r == escrow_amount_spec(),
        r == 10_000_000_000_000u64,
{
    ESCROW_WHOLE_UNITS * lamports_per_sol()
}

/// The transfer of the escrow amount from `from` to `to`, authorized by
/// `authority`.
pub open spec fn escrow_of(from: Address, to: Address, authority: Address) -> EscrowTransfer {
    EscrowTransfer { from, to, authority, amount: escrow_amount_spec() }
}

/// Builds the transfer of the escrow amount from `from` to `to`.
pub fn escrow_transfer(from: Address, to: Address, authority: Address) -> (r: EscrowTransfer)
    ensures
        r == escrow_of(from, to, authority),
{
    EscrowTransfer { from, to, authority, amount: escrow_amount() }
}

} // verus!
