//! A deterministic ChaCha20 random number generator whose stream position is
//! exchanged across a plain-value boundary as a 128-bit big-endian value.
//!
//! The generator itself is an outside crate and stays opaque; what this
//! module verifies is the bookkeeping around it: seeding from plain values
//! and the exact byte-level encoding of the stream position.

use vstd::prelude::*;
use rand_core::Rng;
use rand_core::SeedableRng;
use crate::bytes128::McU128;
use crate::bytes128::RngSeed32;
use crate::bytes128::be_bytes_of;
use crate::bytes128::be_val_of;
use crate::bytes128::lemma_be_round_trip;

verus! {

/// The stream position of the generator fits in 68 bits.
pub const WORD_POS_BOUND: u128 = 0x100000000000000000;

#[verifier::external_type_specification]
#[verifier::external_body]
pub struct ExChaCha20Rng(rand_chacha::ChaCha20Rng);

/// Relies on rand_core::SeedableRng::seed_from_u64 for ChaCha20Rng: builds a
/// generator from a 64-bit seed.
#[verifier::external_body]
fn chacha20_from_u64(seed: u64) -> rand_chacha::ChaCha20Rng {
    rand_chacha::ChaCha20Rng::seed_from_u64(seed)
}

/// Relies on rand_core::SeedableRng::from_seed for ChaCha20Rng: builds a
/// generator from 32 seed bytes.
#[verifier::external_body]
fn chacha20_from_seed(seed: &RngSeed32) -> rand_chacha::ChaCha20Rng {
    rand_chacha::ChaCha20Rng::from_seed(*seed.as_bytes())
}

/// Relies on rand_core::RngCore::next_u64 for ChaCha20Rng: draws the next
/// value and advances the stream.
#[verifier::external_body]
fn chacha20_next_u64(rng: &mut rand_chacha::ChaCha20Rng) -> u64 {
    rng.next_u64()
}

/// Relies on rand_chacha::ChaCha20Rng::get_word_pos: the stream position is
/// a 68-bit number.
#[verifier::external_body]
fn chacha20_get_word_pos(rng: &rand_chacha::ChaCha20Rng) -> (r: u128)
    ensures
        r < WORD_POS_BOUND,
{
    rng.get_word_pos()
}

/// Relies on rand_chacha::ChaCha20Rng::set_word_pos: moves the stream to the
/// given position (taken modulo the 68-bit position space).
#[verifier::external_body]
fn chacha20_set_word_pos(rng: &mut rand_chacha::ChaCha20Rng, pos: u128) {
    rng.set_word_pos(pos)
}

/// A seeded deterministic generator: same seed, same stream.
pub struct SeededRng {
    inner: rand_chacha::ChaCha20Rng,
}

impl SeededRng {
    /// A generator seeded from a 64-bit value.
    pub fn from_u64_seed(seed: u64) -> SeededRng {
        SeededRng { inner: chacha20_from_u64(seed) }
    }

    /// A generator seeded from 32 bytes.
    pub fn from_seed(seed: &RngSeed32) -> SeededRng {
        SeededRng { inner: chacha20_from_seed(seed) }
    }

    /// Draws the next 64-bit value and advances the stream.
    pub fn next_u64(&mut self) -> u64 {
        chacha20_next_u64(&mut self.inner)
    }

    /// The current stream position, packed as 16 big-endian bytes. The
    /// position is a 68-bit number, so the packed value stays below the
    /// position bound whatever state the generator is in.
    pub fn word_pos(&self) -> (r: McU128)
        ensures
            be_val_of(r.bytes@) < WORD_POS_BOUND,
    {
        let pos = chacha20_get_word_pos(&self.inner);
        let r = McU128::from_u128(pos);
        proof {
            lemma_be_round_trip(pos);
            assert(r.bytes@ == be_bytes_of(pos));
        }
        r
    }

    /// Moves the stream to the position packed in 16 big-endian bytes.
    pub fn set_word_pos(&mut self, pos: &McU128) {
        let value = pos.to_u128();
        chacha20_set_word_pos(&mut self.inner, value);
    }
}

} // verus!
