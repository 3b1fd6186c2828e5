//! Key normalization and the derivation of the two padded keys.

use vstd::prelude::*;
use crate::model::{key_block, xor_with, zero_padded, BLOCK_SIZE, INNER_PAD_BYTE, OUTER_PAD_BYTE};
use crate::sha256::{hashv, lemma_joined_one};

verus! {

/// Copies `bytes` to the front of a fresh block whose other bytes are zero.
pub fn zero_pad(bytes: &[u8]) -> (block: [u8; 64])
    requires
        bytes@.len() <= BLOCK_SIZE,
    ensures
        block@ == zero_padded(bytes@),
{
    let mut block = [0u8; BLOCK_SIZE];
    let mut i: usize = 0;
    while i < bytes.len()
        invariant
            i <= bytes@.len() <= BLOCK_SIZE,
            forall|j: int| 0 <= j < i ==> block@[j] == bytes@[j],
            forall|j: int| i <= j < BLOCK_SIZE ==> block@[j] == 0,
        decreases bytes@.len() - i,
    {
        block[i] = bytes[i];
        i += 1;
    }
    assert(block@ =~= zero_padded(bytes@));
    block
}

/// Reduces a key of any length to one block.
pub fn normalize(key: &[u8]) -> (block: [u8; 64])
    ensures
        block@ == key_block(key@),
{
    if key.len() > BLOCK_SIZE {
        let parts = [key];
        let hashed_key = hashv(&parts);
        proof {
            lemma_joined_one(parts@);
        }
        zero_pad(&hashed_key)
    } else {
        zero_pad(key)
    }
}

/// Derives the inner and the outer padded key from a key block.
pub fn derive_pads(key_block: &[u8; 64]) -> (pads: ([u8; 64], [u8; 64]))
    ensures
        pads.0@ == xor_with(key_block@, INNER_PAD_BYTE),
        pads.1@ == xor_with(key_block@, OUTER_PAD_BYTE),
{
    let mut inner_key_pad = [0u8; BLOCK_SIZE];
    let mut outer_key_pad = [0u8; BLOCK_SIZE];
    let mut i: usize = 0;
    while i < BLOCK_SIZE
        invariant
            i <= BLOCK_SIZE,
            forall|j: int| 0 <= j < i ==> inner_key_pad@[j] == key_block@[j] ^ INNER_PAD_BYTE,
            forall|j: int| 0 <= j < i ==> outer_key_pad@[j] == key_block@[j] ^ OUTER_PAD_BYTE,
        decreases BLOCK_SIZE - i,
    {
        inner_key_pad[i] = key_block[i] ^ INNER_PAD_BYTE;
        outer_key_pad[i] = key_block[i] ^ OUTER_PAD_BYTE;
        i += 1;
    }
    assert(inner_key_pad@ =~= xor_with(key_block@, INNER_PAD_BYTE));
    assert(outer_key_pad@ =~= xor_with(key_block@, OUTER_PAD_BYTE));
    (inner_key_pad, outer_key_pad)
}

} // verus!
