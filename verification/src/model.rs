//! The mathematical definition of HMAC-SHA256 over byte sequences.

use vstd::prelude::*;
use crate::sha256::sha256;

verus! {

/// Size of a SHA-256 input block, in bytes; keys are brought to this length.
pub const BLOCK_SIZE: usize = 64;

/// The byte that the key block is combined with to give the inner pad.
pub const INNER_PAD_BYTE: u8 = 0x36;

/// The byte that the key block is combined with to give the outer pad.
pub const OUTER_PAD_BYTE: u8 = 0x5C;

/// `n` zero bytes.
pub open spec fn zeros(n: nat) -> Seq<u8> {
    Seq::new(n, |i: int| 0u8)
}

/// `bytes` followed by as many zero bytes as bring it to one block.
pub open spec fn zero_padded(bytes: Seq<u8>) -> Seq<u8> {
    bytes + zeros((BLOCK_SIZE - bytes.len()) as nat)
}

/// The block that stands for a key: a key longer than one block is replaced
/// by its digest, and the result is filled up with zero bytes.
pub open spec fn key_block(key: Seq<u8>) -> Seq<u8> {
    if key.len() > BLOCK_SIZE {
        zero_padded(sha256(key)@)
    } else {
        zero_padded(key)
    }
}

/// Every byte of `block` combined with `byte` by exclusive or.
pub open spec fn xor_with(block: Seq<u8>, byte: u8) -> Seq<u8> {
    Seq::new(block.len(), |i: int| block[i] ^ byte)
}

/// The inner padded key of `key`.
pub open spec fn inner_pad(key: Seq<u8>) -> Seq<u8> {
    xor_with(key_block(key), INNER_PAD_BYTE)
}

/// The outer padded key of `key`.
pub open spec fn outer_pad(key: Seq<u8>) -> Seq<u8> {
    xor_with(key_block(key), OUTER_PAD_BYTE)
}

/// The tag that a pair of padded keys gives for `message`: the digest of the
/// outer pad followed by the digest of the inner pad followed by the message.
pub open spec fn tag_of(inner: Seq<u8>, outer: Seq<u8>, message: Seq<u8>) -> [u8; 32] {
    sha256(outer + sha256(inner + message)@)
}

/// The HMAC-SHA256 tag of `message` under `key`.
pub open spec fn hmac(key: Seq<u8>, message: Seq<u8>) -> [u8; 32] {
    tag_of(inner_pad(key), outer_pad(key), message)
}

/// What an updatable digest stands for: the two padded keys it was made with
/// and its running buffer, which is hashed when a tag is asked for.
pub struct HmacState {
    pub inner_pad: Seq<u8>,
    pub outer_pad: Seq<u8>,
    pub buffer: Seq<u8>,
}

impl HmacState {
    /// The state of a fresh digest under `key`: the buffer holds the inner pad.
    pub open spec fn keyed(key: Seq<u8>) -> HmacState {
        HmacState { inner_pad: inner_pad(key), outer_pad: outer_pad(key), buffer: inner_pad(key) }
    }

    /// The state after `data` has been appended to the buffer.
    pub open spec fn update(self, data: Seq<u8>) -> HmacState {
        HmacState { buffer: self.buffer + data, ..self }
    }

    /// The state after each of `chunks` has been appended in turn.
    pub open spec fn update_all(self, chunks: Seq<Seq<u8>>) -> HmacState
        decreases chunks.len(),
    {
        if chunks.len() == 0 {
            self
        } else {
            self.update_all(chunks.drop_last()).update(chunks.last())
        }
    }

    /// The state with the buffer cut back to the inner pad.
    pub open spec fn reset(self) -> HmacState {
        HmacState { buffer: self.inner_pad, ..self }
    }

    /// The tag that the state gives: the digest of the outer pad followed by
    /// the digest of the buffer.
    pub open spec fn tag(self) -> [u8; 32] {
        sha256(self.outer_pad + sha256(self.buffer)@)
    }

    /// The pads are those of `key`.
    pub open spec fn made_with(self, key: Seq<u8>) -> bool {
        self.inner_pad == inner_pad(key) && self.outer_pad == outer_pad(key)
    }

    /// Both pads are one block long and the buffer begins with the inner pad.
    pub open spec fn well_formed(self) -> bool {
        &&& self.inner_pad.len() == BLOCK_SIZE
        &&& self.outer_pad.len() == BLOCK_SIZE
        &&& self.inner_pad.is_prefix_of(self.buffer)
    }

    /// Nothing has been taken in since the state was made or last reset: the
    /// buffer holds the inner pad and nothing else.
    pub open spec fn ready(self) -> bool {
        self.buffer == self.inner_pad
    }

    /// The message taken in since the state was made or last reset: the
    /// buffer without the inner pad at its front.
    pub open spec fn message(self) -> Seq<u8> {
        self.buffer.skip(BLOCK_SIZE as int)
    }
}

} // verus!
