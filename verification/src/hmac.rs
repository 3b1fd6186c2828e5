//! HMAC-SHA256 as a one-shot function and as an updatable digest.

use vstd::prelude::*;
use crate::lemmas::{lemma_keyed_state, lemma_reset_clears, lemma_update_appends};
use crate::model::{hmac, HmacState, BLOCK_SIZE};
use crate::pads::{derive_pads, normalize};
use crate::sha256::{hashv, lemma_joined_one, lemma_joined_two};

verus! {

/// An HMAC-SHA256 computation with an updatable digest: the message may be
/// handed over in pieces, and the digest can be reset and used again under the
/// same key.
#[derive(Debug)]
pub struct HmacSha256 {
    outer_key_pad: [u8; 64],
    inner_key_pad: [u8; 64],
    digest: Vec<u8>,
}

impl View for HmacSha256 {
    type V = HmacState;

    closed spec fn view(&self) -> HmacState {
        HmacState {
            inner_pad: self.inner_key_pad@,
            outer_pad: self.outer_key_pad@,
            buffer: self.digest@,
        }
    }
}

impl Clone for HmacSha256 {
    /// A second digest with the same key and the same message taken in.
    fn clone(&self) -> (copy: Self)
        ensures
            copy@ == self@,
    {
        let digest = self.digest.clone();
        assert(digest@ =~= self.digest@);
        HmacSha256 {
            outer_key_pad: self.outer_key_pad,
            inner_key_pad: self.inner_key_pad,
            digest,
        }
    }
}

impl HmacSha256 {
    /// Both pads of a digest are one block long.
    pub proof fn lemma_pad_lengths(&self)
        ensures
            self@.inner_pad.len() == BLOCK_SIZE,
            self@.outer_pad.len() == BLOCK_SIZE,
    {
    }

    /// Sets up a digest under `key`, with no message taken in yet.
    pub fn new(key: &[u8]) -> (hmac: Self)
        ensures
            hmac@ == HmacState::keyed(key@),
            hmac@.well_formed(),
            hmac@.ready(),
    {
        let key_block = normalize(key);
        let (inner_key_pad, outer_key_pad) = derive_pads(&key_block);
        let mut digest: Vec<u8> = Vec::new();
        digest.extend_from_slice(&inner_key_pad);
        proof {
            assert(digest@ =~= inner_key_pad@);
            lemma_keyed_state(key@);
        }
        HmacSha256 { digest, outer_key_pad, inner_key_pad }
    }

    /// Appends `data` to the message.
    pub fn update(&mut self, data: &[u8])
        ensures
            final(self)@ == old(self)@.update(data@),
            old(self)@.well_formed() ==> final(self)@.well_formed(),
    {
        self.digest.extend_from_slice(data);
        proof {
            assert(self.digest@ =~= old(self).digest@ + data@);
            if old(self)@.well_formed() {
                lemma_update_appends(old(self)@, data@);
            }
        }
    }

    /// Discards the message taken in so far; the key stays.
    pub fn reset(&mut self)
        ensures
            final(self)@ == old(self)@.reset(),
            final(self)@.well_formed(),
            final(self)@.ready(),
    {
        self.digest.clear();
        self.digest.extend_from_slice(&self.inner_key_pad);
        proof {
            assert(self.digest@ =~= self.inner_key_pad@);
            lemma_reset_clears(old(self)@);
        }
    }

    /// The tag of the message taken in so far. The digest is left as it is.
    pub fn finalize(&self) -> (tag: [u8; 32])
        ensures
            tag == self@.tag(),
    {
        let inner_parts = [self.digest.as_slice()];
        let inner_hash = hashv(&inner_parts);
        let outer_parts = [self.outer_key_pad.as_slice(), inner_hash.as_slice()];
        let tag = hashv(&outer_parts);
        proof {
            lemma_joined_one(inner_parts@);
            lemma_joined_two(outer_parts@);
        }
        tag
    }

    /// The tag of the message taken in so far, after which the message is
    /// discarded.
    pub fn finalize_reset(&mut self) -> (tag: [u8; 32])
        ensures
            tag == old(self)@.tag(),
            final(self)@ == old(self)@.reset(),
            final(self)@.well_formed(),
            final(self)@.ready(),
    {
        let result = self.finalize();
        self.reset();
        result
    }
}

/// The HMAC-SHA256 tag of `message` under `key`, in one call.
pub fn hmac_sha256(key: &[u8], message: &[u8]) -> (tag: [u8; 32])
    ensures
        tag == hmac(key@, message@),
{
    let key_block = normalize(key);
    let (inner_key_pad, outer_key_pad) = derive_pads(&key_block);
    let inner_parts = [inner_key_pad.as_slice(), message];
    let inner_hash = hashv(&inner_parts);
    let outer_parts = [outer_key_pad.as_slice(), inner_hash.as_slice()];
    let tag = hashv(&outer_parts);
    proof {
        lemma_joined_two(inner_parts@);
        lemma_joined_two(outer_parts@);
    }
    tag
}

} // verus!
