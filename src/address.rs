use vstd::prelude::*;
use vstd::utf8::encode_utf8;
use anchor_lang::prelude::Pubkey;

verus! {

/// A ledger address: 32 bytes.
#[derive(Clone, Copy, Debug, PartialEq, Eq)]
pub struct Address {
    pub bytes: [u8; 32],
}

/// What `Pubkey::try_find_program_address` returns for the given seeds and
/// program: the derived address and its bump, or nothing.
pub uninterp spec fn program_address_of(seeds: Seq<Seq<u8>>, program_id: Seq<u8>) -> Option<([u8; 32], u8)>;

/// Relies on `Pubkey::try_find_program_address` of solana-program (re-exported
/// by anchor-lang): a function of the seeds and the program id alone, which
/// finds nothing where there are more than fifteen seeds or a seed is longer
/// than thirty-two bytes.
#[verifier::external_body]
fn find_program_address(seeds: &Vec<Vec<u8>>, program_id: &Address) -> (r: Option<([u8; 32], u8)>)
    ensures
        r == program_address_of(seeds@.map_values(|s: Vec<u8>| s@), program_id.bytes@),
        seeds@.len() > 15 ==> r is None,
        (exists|i: int| 0 <= i < seeds@.len() && #[trigger] seeds@[i]@.len() > 32) ==> r is None,
{
    let parts: Vec<&[u8]> = seeds.iter().map(|s| s.as_slice()).collect();
    Pubkey::try_find_program_address(&parts, &Pubkey::new_from_array(program_id.bytes))
        .map(|(key, bump)| (key.to_bytes(), bump))
}

/// The first seed of a registry's address: the bytes of "storage".
pub open spec fn registry_tag() -> Seq<u8> {
    seq![115u8, 116u8, 111u8, 114u8, 97u8, 103u8, 101u8]
}

/// The first seed of a signature record's address: the bytes of "signature".
pub open spec fn signature_tag() -> Seq<u8> {
    seq![115u8, 105u8, 103u8, 110u8, 97u8, 116u8, 117u8, 114u8, 101u8]
}

/// The address and bump of the registry with the given id.
pub open spec fn registry_address_of(program_id: Address, id: Seq<char>) -> Option<([u8; 32], u8)> {
    program_address_of(seq![registry_tag(), encode_utf8(id)], program_id.bytes@)
}

/// The address and bump of the record with the given id under a registry.
pub open spec fn signature_address_of(program_id: Address, registry: Address, id: Seq<char>) -> Option<([u8; 32], u8)> {
    program_address_of(seq![signature_tag(), registry.bytes@, encode_utf8(id)], program_id.bytes@)
}

/// Whether two addresses hold the same bytes.
pub fn same_address(a: &Address, b: &Address) -> (r: bool)
    ensures
        r == (a.bytes == b.bytes),
{
    let mut i: usize = 0;
    while i < 32
        invariant
            0 <= i <= 32,
            a.bytes@.len() == 32,
            b.bytes@.len() == 32,
            forall|j: int| 0 <= j < i ==> a.bytes@[j] == b.bytes@[j],
        decreases 32 - i,
    {
        if a.bytes[i] != b.bytes[i] {
            proof {
                assert(a.bytes@[i as int] != b.bytes@[i as int]);
            }
            return false;
        }
        i = i + 1;
    }
    proof {
        broadcast use vstd::array::group_array_axioms;
        assert(a.bytes =~= b.bytes);
    }
    true
}

fn string_bytes(s: &String) -> (r: Vec<u8>)
    ensures
        r@ == encode_utf8(s@),
{
    vstd::slice::slice_to_vec(s.as_str().as_bytes())
}

/// Derives the address and bump of the registry with the given id; nothing
/// where the id is too long to be a seed.
pub fn registry_address(program_id: &Address, id: &String) -> (r: Option<([u8; 32], u8)>)
    ensures
        r == registry_address_of(*program_id, id@),
        encode_utf8(id@).len() > 32 ==> r is None,
{
    let tag: Vec<u8> = vec![115u8, 116u8, 111u8, 114u8, 97u8, 103u8, 101u8];
    let id_bytes = string_bytes(id);
    let seeds: Vec<Vec<u8>> = vec![tag, id_bytes];
    proof {
        assert(seeds@.map_values(|s: Vec<u8>| s@) =~= seq![registry_tag(), encode_utf8(id@)]);
        assert(seeds@[1]@.len() == encode_utf8(id@).len());
    }
    find_program_address(&seeds, program_id)
}

/// Derives the address and bump of the record with the given id under the
/// registry at `registry`; nothing where the id is too long to be a seed.
pub fn signature_address(program_id: &Address, registry: &Address, id: &String) -> (r: Option<([u8; 32], u8)>)
    ensures
        r == signature_address_of(*program_id, *registry, id@),
        encode_utf8(id@).len() > 32 ==> r is None,
{
    let tag: Vec<u8> = vec![115u8, 105u8, 103u8, 110u8, 97u8, 116u8, 117u8, 114u8, 101u8];
    let key: Vec<u8> = vstd::slice::slice_to_vec(registry.bytes.as_slice());
    let id_bytes = string_bytes(id);
    let seeds: Vec<Vec<u8>> = vec![tag, key, id_bytes];
    proof {
        assert(seeds@.map_values(|s: Vec<u8>| s@) =~= seq![signature_tag(), registry.bytes@, encode_utf8(id@)]);
        assert(seeds@[2]@.len() == encode_utf8(id@).len());
    }
    find_program_address(&seeds, program_id)
}

} // verus!
