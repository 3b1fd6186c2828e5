//! What holds of HMAC-SHA256 and of the updatable digest, for every key and
//! every message.

use vstd::prelude::*;
use crate::model::{
    hmac, inner_pad, key_block, outer_pad, tag_of, zero_padded, zeros, HmacState, BLOCK_SIZE,
};
use crate::sha256::{sha256, HASH_LENGTH};

verus! {

/// Zero padding brings any byte string of at most one block to exactly one
/// block, and keeps the bytes at its front.
pub proof fn lemma_zero_padded(bytes: Seq<u8>)
    requires
        bytes.len() <= BLOCK_SIZE,
    ensures
        zero_padded(bytes).len() == BLOCK_SIZE,
        bytes.is_prefix_of(zero_padded(bytes)),
        forall|i: int| bytes.len() <= i < BLOCK_SIZE ==> zero_padded(bytes)[i] == 0,
{
}

/// The block of any key is exactly one block long, and so are both pads.
pub proof fn lemma_block_length(key: Seq<u8>)
    ensures
        key_block(key).len() == BLOCK_SIZE,
        inner_pad(key).len() == BLOCK_SIZE,
        outer_pad(key).len() == BLOCK_SIZE,
{
}

/// A key of at most one block is used as it is, followed by zero bytes; it is
/// not hashed.
pub proof fn lemma_short_key_block(key: Seq<u8>)
    requires
        key.len() <= BLOCK_SIZE,
    ensures
        key_block(key) == key + zeros((BLOCK_SIZE - key.len()) as nat),
{
}

/// A key of exactly one block is its own key block: nothing is hashed and
/// nothing is added.
pub proof fn lemma_block_sized_key_is_its_block(key: Seq<u8>)
    requires
        key.len() == BLOCK_SIZE,
    ensures
        key_block(key) == key,
{
    assert(key_block(key) =~= key);
}

/// A key longer than one block enters the computation through its digest
/// alone: its block is the digest followed by zero bytes, which is also the
/// block of the digest taken as a key, so both keys give the same tags.
pub proof fn lemma_long_key_acts_as_its_digest(key: Seq<u8>, message: Seq<u8>)
    requires
        key.len() > BLOCK_SIZE,
    ensures
        key_block(key) == sha256(key)@ + zeros((BLOCK_SIZE - HASH_LENGTH) as nat),
        key_block(key) == key_block(sha256(key)@),
        hmac(key, message) == hmac(sha256(key)@, message),
        hmac(key, message) == hmac(key_block(key), message),
{
    assert(key_block(key) =~= sha256(key)@ + zeros((BLOCK_SIZE - HASH_LENGTH) as nat));
    lemma_block_sized_key_is_its_block(key_block(key));
}

/// Two keys longer than one block that have the same digest give the same
/// block, the same pads and the same tag for every message.
pub proof fn lemma_long_keys_with_equal_digests(key1: Seq<u8>, key2: Seq<u8>, message: Seq<u8>)
    requires
        key1.len() > BLOCK_SIZE,
        key2.len() > BLOCK_SIZE,
    ensures
        sha256(key1) == sha256(key2) ==> {
            &&& key_block(key1) == key_block(key2)
            &&& inner_pad(key1) == inner_pad(key2)
            &&& outer_pad(key1) == outer_pad(key2)
            &&& hmac(key1, message) == hmac(key2, message)
        },
{
}

/// The tag is a function of the key block and the message: keys with the same
/// block cannot be told apart.
pub proof fn lemma_tag_depends_on_key_block(key1: Seq<u8>, key2: Seq<u8>, message: Seq<u8>)
    requires
        key_block(key1) == key_block(key2),
    ensures
        hmac(key1, message) == hmac(key2, message),
        HmacState::keyed(key1) == HmacState::keyed(key2),
{
}

/// Equal keys and equal messages give equal tags: the tag depends on nothing
/// but the two byte strings.
pub proof fn lemma_deterministic(key1: Seq<u8>, message1: Seq<u8>, key2: Seq<u8>, message2: Seq<u8>)
    requires
        key1 == key2,
        message1 == message2,
    ensures
        hmac(key1, message1) == hmac(key2, message2),
        HmacState::keyed(key1).update(message1).tag() == HmacState::keyed(key2).update(
            message2,
        ).tag(),
{
}

/// A fresh digest is well formed, is made with its key, and has taken in
/// nothing.
pub proof fn lemma_keyed_state(key: Seq<u8>)
    ensures
        HmacState::keyed(key).well_formed(),
        HmacState::keyed(key).made_with(key),
        HmacState::keyed(key).ready(),
        HmacState::keyed(key).message() == Seq::<u8>::empty(),
        HmacState::keyed(key).tag() == hmac(key, Seq::empty()),
{
    let state = HmacState::keyed(key);
    assert(state.message() =~= Seq::<u8>::empty());
    assert(state.buffer =~= inner_pad(key) + Seq::<u8>::empty());
}

/// Appending keeps a state well formed and its pads, and adds the data to the
/// end of the message.
pub proof fn lemma_update_appends(state: HmacState, data: Seq<u8>)
    requires
        state.well_formed(),
    ensures
        state.update(data).well_formed(),
        state.update(data).inner_pad == state.inner_pad,
        state.update(data).outer_pad == state.outer_pad,
        state.update(data).message() == state.message() + data,
        state.update(data).ready() <==> state.ready() && data.len() == 0,
{
    assert(state.update(data).ready() ==> data.len() == 0) by {
        if state.update(data).ready() {
            assert(state.update(data).buffer.len() == state.inner_pad.len());
        }
    }
    assert(state.ready() && data.len() == 0 ==> state.update(data).ready()) by {
        if state.ready() && data.len() == 0 {
            assert(state.buffer + data =~= state.buffer);
        }
    }
    assert(state.update(data).message() =~= state.message() + data);
}

/// A reset leaves a well-formed state whose pads are unchanged and whose
/// message is empty.
pub proof fn lemma_reset_clears(state: HmacState)
    requires
        state.inner_pad.len() == BLOCK_SIZE,
        state.outer_pad.len() == BLOCK_SIZE,
    ensures
        state.reset().well_formed(),
        state.reset().ready(),
        state.reset().inner_pad == state.inner_pad,
        state.reset().outer_pad == state.outer_pad,
        state.reset().message() == Seq::<u8>::empty(),
{
    assert(state.reset().message() =~= Seq::<u8>::empty());
}

/// The tag of a well-formed state is the tag that its pads give for its
/// message; if the state was made with `key`, it is the HMAC of the message
/// under `key`.
pub proof fn lemma_tag_of_message(state: HmacState, key: Seq<u8>)
    requires
        state.well_formed(),
    ensures
        state.buffer == state.inner_pad + state.message(),
        state.tag() == tag_of(state.inner_pad, state.outer_pad, state.message()),
        state.made_with(key) ==> state.tag() == hmac(key, state.message()),
{
    assert(state.buffer =~= state.inner_pad + state.message());
}

/// The one-shot function and the digest agree: a fresh digest under `key`
/// that takes in `message` in one piece gives the HMAC of `message` under
/// `key`.
pub proof fn lemma_one_shot_matches_single_update(key: Seq<u8>, message: Seq<u8>)
    ensures
        HmacState::keyed(key).update(message).tag() == hmac(key, message),
{
}

/// Appending two pieces one after the other is appending their concatenation.
pub proof fn lemma_update_twice(state: HmacState, first: Seq<u8>, second: Seq<u8>)
    ensures
        state.update(first).update(second) == state.update(first + second),
{
    assert(state.buffer + first + second =~= state.buffer + (first + second));
}

/// The tag does not depend on where a message is cut in two: handing over
/// `first` and then `second` gives the HMAC of `first + second`.
pub proof fn lemma_two_chunks(key: Seq<u8>, first: Seq<u8>, second: Seq<u8>)
    ensures
        HmacState::keyed(key).update(first).update(second).tag() == hmac(key, first + second),
{
    lemma_update_twice(HmacState::keyed(key), first, second);
}

/// Appending any number of pieces in turn is appending their concatenation.
pub proof fn lemma_update_all(state: HmacState, chunks: Seq<Seq<u8>>)
    ensures
        state.update_all(chunks) == state.update(chunks.flatten()),
    decreases chunks.len(),
{
    if chunks.len() == 0 {
        assert(state.buffer + chunks.flatten() =~= state.buffer);
    } else {
        let front = chunks.drop_last();
        lemma_update_all(state, front);
        lemma_update_twice(state, front.flatten(), chunks.last());
        assert(chunks =~= front.push(chunks.last()));
        front.lemma_flatten_push(chunks.last());
    }
}

/// The tag does not depend on how a message is cut into pieces: a fresh
/// digest under `key` that takes in `chunks` in turn gives the HMAC of their
/// concatenation.
pub proof fn lemma_any_chunks(key: Seq<u8>, chunks: Seq<Seq<u8>>)
    ensures
        HmacState::keyed(key).update_all(chunks).tag() == hmac(key, chunks.flatten()),
{
    lemma_update_all(HmacState::keyed(key), chunks);
}

/// A reset brings a digest made with `key` back to the fresh state, whatever
/// it had taken in, so the next tag is the HMAC of the empty message.
pub proof fn lemma_reset_restores_fresh_state(state: HmacState, key: Seq<u8>)
    requires
        state.made_with(key),
    ensures
        state.reset() == HmacState::keyed(key),
        state.reset().tag() == hmac(key, Seq::empty()),
{
    lemma_keyed_state(key);
}

/// Appending and resetting keep the key that a state was made with.
pub proof fn lemma_key_is_kept(state: HmacState, key: Seq<u8>, data: Seq<u8>)
    requires
        state.made_with(key),
    ensures
        state.update(data).made_with(key),
        state.reset().made_with(key),
{
}

/// After a reset, the tag is that of the empty message, whatever pieces the
/// digest had taken in before: the reset gives back the fresh digest.
pub proof fn lemma_reset_after_any_chunks(key: Seq<u8>, chunks: Seq<Seq<u8>>)
    ensures
        HmacState::keyed(key).update_all(chunks).reset() == HmacState::keyed(key),
        HmacState::keyed(key).update_all(chunks).reset().tag() == hmac(key, Seq::empty()),
{
    lemma_update_all(HmacState::keyed(key), chunks);
    lemma_keyed_state(key);
}

} // verus!
