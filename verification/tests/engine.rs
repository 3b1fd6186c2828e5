use hmac_sha256::{hmac_sha256, HmacSha256};

fn sample_key(len: usize) -> Vec<u8> {
    let mut key: Vec<u8> = Vec::new();
    let mut byte: u8 = 7;
    while key.len() < len {
        key.push(byte);
        byte = byte.wrapping_mul(31).wrapping_add(11);
    }
    key
}

const KEY_LENGTHS: [usize; 10] = [0, 1, 31, 32, 33, 63, 64, 65, 128, 300];

#[test]
fn one_update_matches_one_shot() {
    let message = b"The quick brown fox jumps over the lazy dog";
    for len in KEY_LENGTHS {
        let key = sample_key(len);
        let mut h = HmacSha256::new(&key);
        h.update(message);
        assert_eq!(h.finalize(), hmac_sha256(&key, message));
    }
}

#[test]
fn no_update_matches_empty_message() {
    for len in KEY_LENGTHS {
        let key = sample_key(len);
        let h = HmacSha256::new(&key);
        assert_eq!(h.finalize(), hmac_sha256(&key, b""));
    }
}

#[test]
fn two_chunks_match_whole_message() {
    let message = b"The quick brown fox jumps over the lazy dog";
    for len in KEY_LENGTHS {
        let key = sample_key(len);
        let whole = hmac_sha256(&key, message);
        for cut in 0..=message.len() {
            let mut h = HmacSha256::new(&key);
            h.update(&message[..cut]);
            h.update(&message[cut..]);
            assert_eq!(h.finalize(), whole);
        }
    }
}

#[test]
fn byte_by_byte_matches_whole_message() {
    let message = sample_key(200);
    let key = sample_key(20);
    let mut h = HmacSha256::new(&key);
    for byte in message.iter() {
        h.update(&[*byte]);
    }
    assert_eq!(h.finalize(), hmac_sha256(&key, &message));
}

#[test]
fn empty_chunks_change_nothing() {
    let mut h = HmacSha256::new(b"key");
    h.update(b"");
    assert_eq!(h.finalize(), hmac_sha256(b"key", b""));
    h.update(b"abc");
    h.update(b"");
    h.update(b"def");
    h.update(b"");
    assert_eq!(h.finalize(), hmac_sha256(b"key", b"abcdef"));
}

#[test]
fn finalize_leaves_the_digest_as_it_is() {
    let mut h = HmacSha256::new(b"key");
    h.update(b"abc");
    let first = h.finalize();
    let second = h.finalize();
    assert_eq!(first, second);
    assert_eq!(first, hmac_sha256(b"key", b"abc"));
    h.update(b"def");
    assert_eq!(h.finalize(), hmac_sha256(b"key", b"abcdef"));
}

#[test]
fn reset_discards_the_message() {
    let mut h = HmacSha256::new(b"key");
    h.update(b"some bytes that are to be forgotten");
    h.reset();
    assert_eq!(h.finalize(), hmac_sha256(b"key", b""));
    h.update(b"abc");
    assert_eq!(h.finalize(), hmac_sha256(b"key", b"abc"));
}

#[test]
fn reset_of_a_fresh_digest_changes_nothing() {
    let mut h = HmacSha256::new(b"key");
    h.reset();
    assert_eq!(h.finalize(), hmac_sha256(b"key", b""));
    h.reset();
    h.reset();
    h.update(b"abc");
    assert_eq!(h.finalize(), hmac_sha256(b"key", b"abc"));
}

#[test]
fn finalize_reset_returns_the_tag_before_the_reset() {
    let mut h = HmacSha256::new(b"test");
    h.update(b"test");
    let tag = h.finalize_reset();
    assert_eq!(
        tag,
        [
            0x88, 0xcd, 0x21, 0x08, 0xb5, 0x34, 0x7d, 0x97, 0x3c, 0xf3, 0x9c, 0xdf, 0x90, 0x53,
            0xd7, 0xdd, 0x42, 0x70, 0x48, 0x76, 0xd8, 0xc9, 0xa9, 0xbd, 0x8e, 0x2d, 0x16, 0x82,
            0x59, 0xd3, 0xdd, 0xf7
        ]
    );
}

#[test]
fn finalize_after_finalize_reset_is_tag_of_empty_message() {
    for len in KEY_LENGTHS {
        let key = sample_key(len);
        let mut h = HmacSha256::new(&key);
        h.update(b"first message");
        assert_eq!(h.finalize_reset(), hmac_sha256(&key, b"first message"));
        assert_eq!(h.finalize(), hmac_sha256(&key, b""));
    }
}

#[test]
fn digest_is_reusable_after_finalize_reset() {
    let key = sample_key(100);
    let mut h = HmacSha256::new(&key);
    h.update(b"first");
    assert_eq!(h.finalize_reset(), hmac_sha256(&key, b"first"));
    h.update(b"sec");
    h.update(b"ond");
    assert_eq!(h.finalize_reset(), hmac_sha256(&key, b"second"));
    assert_eq!(h.finalize_reset(), hmac_sha256(&key, b""));
    h.update(b"third");
    assert_eq!(h.finalize(), hmac_sha256(&key, b"third"));
}

#[test]
fn clone_carries_key_and_message() {
    let mut h = HmacSha256::new(b"key");
    h.update(b"abc");
    let mut copy = h.clone();
    assert_eq!(copy.finalize(), hmac_sha256(b"key", b"abc"));
    copy.update(b"def");
    assert_eq!(copy.finalize(), hmac_sha256(b"key", b"abcdef"));
    assert_eq!(h.finalize(), hmac_sha256(b"key", b"abc"));
    h.reset();
    assert_eq!(h.finalize(), hmac_sha256(b"key", b""));
    assert_eq!(copy.finalize(), hmac_sha256(b"key", b"abcdef"));
    copy.reset();
    assert_eq!(copy.finalize(), hmac_sha256(b"key", b""));
}

#[test]
fn debug_output_names_the_type() {
    let h = HmacSha256::new(b"key");
    let text = format!("{:?}", h);
    assert!(text.starts_with("HmacSha256"));
}

#[test]
fn message_larger_than_many_blocks() {
    let key = sample_key(64);
    let message = sample_key(10_000);
    let mut h = HmacSha256::new(&key);
    for chunk in message.chunks(97) {
        h.update(chunk);
    }
    assert_eq!(h.finalize(), hmac_sha256(&key, &message));
}
