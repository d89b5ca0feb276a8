//! Per-account key material, derived from a 64-byte mnemonic seed.

use vstd::prelude::*;

verus! {

/// Byte `j` of the account-mixing pattern: byte `j % 4` of the index,
/// least significant first.
pub open spec fn index_byte(account_index: u32, j: int) -> u8 {
    ((account_index >> (((j % 4) * 8) as u32)) & 0xff) as u8
}

/// The 32 bytes of key material for an account: the first 32 bytes of the
/// seed, each combined by exclusive-or with the index's bytes cycled in
/// groups of four.
pub open spec fn account_key_material(seed: Seq<u8>, account_index: u32) -> Seq<u8>
    recommends
        seed.len() >= 32,
{
    Seq::new(32, |j: int| seed[j] ^ index_byte(account_index, j))
}

/// Mixes the first 32 bytes of `seed` with `account_index`.
pub fn derive_account_key_material(seed: &[u8; 64], account_index: u32) -> (r: [u8; 32])
    ensures
        r@ == account_key_material(seed@, account_index),
{
    let mut material: [u8; 32] = [0u8; 32];
    let mut i: usize = 0;
    while i < 32
        invariant
            0 <= i <= 32,
            seed@.len() == 64,
            material@.len() == 32,
            forall|j: int| 0 <= j < i ==> material@[j] == seed@[j] ^ index_byte(account_index, j),
        decreases 32 - i,
    {
        let shift: u32 = ((i % 4) * 8) as u32;
        let b: u8 = ((account_index >> shift) & 0xff) as u8;
        material[i] = seed[i] ^ b;
        i = i + 1;
    }
    assert(material@ =~= account_key_material(seed@, account_index));
    material
}

/// Key material is a function of the seed and the index alone, and for one
/// seed two different indices give different material: the first four bytes
/// carry the index itself.
pub proof fn lemma_key_material_separates_accounts(seed: Seq<u8>, i: u32, j: u32)
    requires
        seed.len() >= 32,
    ensures
        account_key_material(seed, i) == account_key_material(seed, j) <==> i == j,
{
    if account_key_material(seed, i) == account_key_material(seed, j) {
        assert forall|k: int| 0 <= k < 4 implies index_byte(i, k) == index_byte(j, k) by {
            let s = seed[k];
            let a = index_byte(i, k);
            let b = index_byte(j, k);
            assert(account_key_material(seed, i)[k] == account_key_material(seed, j)[k]);
            assert((s ^ a) == (s ^ b) ==> a == b) by (bit_vector);
        }
        let b0 = index_byte(i, 0) == index_byte(j, 0);
        let b1 = index_byte(i, 1) == index_byte(j, 1);
        let b2 = index_byte(i, 2) == index_byte(j, 2);
        let b3 = index_byte(i, 3) == index_byte(j, 3);
        assert(b0 && b1 && b2 && b3);
        assert(
            ((i >> 0u32) & 0xff) as u8 == ((j >> 0u32) & 0xff) as u8
            && ((i >> 8u32) & 0xff) as u8 == ((j >> 8u32) & 0xff) as u8
            && ((i >> 16u32) & 0xff) as u8 == ((j >> 16u32) & 0xff) as u8
            && ((i >> 24u32) & 0xff) as u8 == ((j >> 24u32) & 0xff) as u8 ==> i == j
        ) by (bit_vector);
    }
}

} // verus!
