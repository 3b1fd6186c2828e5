//! HMAC-SHA256 message authentication codes, as a one-shot function and as an
//! updatable digest, with the SHA-256 primitive supplied by `solana_nostd_sha256`.
//!
//! - [`sha256`]: the hash primitive, the one part that is trusted and not proved.
//! - [`model`]: what a key block, the two pads and a tag are, over byte sequences.
//! - [`pads`]: key normalization and pad derivation.
//! - [`hmac`]: [`hmac_sha256`] and [`HmacSha256`].
//! - [`lemmas`]: what holds for every key and every message.

pub mod hmac;
pub mod lemmas;
pub mod model;
pub mod pads;
pub mod sha256;

pub use crate::hmac::{hmac_sha256, HmacSha256};
