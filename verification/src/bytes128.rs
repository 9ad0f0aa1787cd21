//! Plain-value carriers for fixed-width byte material: a 128-bit integer in
//! big-endian byte form and a 32-byte random-number-generator seed.

use vstd::prelude::*;

verus! {

/// The big-endian byte sequence of a 128-bit value: the most significant byte
/// first.
pub open spec fn be_bytes_of(v: u128) -> Seq<u8> {
    seq![
        ((v >> 120) & 0xff) as u8,
        ((v >> 112) & 0xff) as u8,
        ((v >> 104) & 0xff) as u8,
        ((v >> 96) & 0xff) as u8,
        ((v >> 88) & 0xff) as u8,
        ((v >> 80) & 0xff) as u8,
        ((v >> 72) & 0xff) as u8,
        ((v >> 64) & 0xff) as u8,
        ((v >> 56) & 0xff) as u8,
        ((v >> 48) & 0xff) as u8,
        ((v >> 40) & 0xff) as u8,
        ((v >> 32) & 0xff) as u8,
        ((v >> 24) & 0xff) as u8,
        ((v >> 16) & 0xff) as u8,
        ((v >> 8) & 0xff) as u8,
        (v & 0xff) as u8,
    ]
}

/// The 128-bit value read back from 16 bytes in big-endian order.
pub open spec fn be_val_of(s: Seq<u8>) -> u128
    recommends
        s.len() == 16,
{
    (s[0] as u128) << 120 | (s[1] as u128) << 112 | (s[2] as u128) << 104 | (s[3] as u128) << 96
        | (s[4] as u128) << 88 | (s[5] as u128) << 80 | (s[6] as u128) << 72 | (s[7] as u128) << 64
        | (s[8] as u128) << 56 | (s[9] as u128) << 48 | (s[10] as u128) << 40 | (s[11] as u128)
        << 32 | (s[12] as u128) << 24 | (s[13] as u128) << 16 | (s[14] as u128) << 8 | (
    s[15] as u128)
}

/// Reading the big-endian bytes of a value gives the value back.
pub proof fn lemma_be_round_trip(v: u128)
    ensures
        be_val_of(be_bytes_of(v)) == v,
{
    let s = be_bytes_of(v);
    assert((((v >> 120) & 0xff) as u8 as u128) << 120 | (((v >> 112) & 0xff) as u8 as u128) << 112
        | (((v >> 104) & 0xff) as u8 as u128) << 104 | (((v >> 96) & 0xff) as u8 as u128) << 96 | (
    ((v >> 88) & 0xff) as u8 as u128) << 88 | (((v >> 80) & 0xff) as u8 as u128) << 80 | (((v >> 72)
        & 0xff) as u8 as u128) << 72 | (((v >> 64) & 0xff) as u8 as u128) << 64 | (((v >> 56)
        & 0xff) as u8 as u128) << 56 | (((v >> 48) & 0xff) as u8 as u128) << 48 | (((v >> 40)
        & 0xff) as u8 as u128) << 40 | (((v >> 32) & 0xff) as u8 as u128) << 32 | (((v >> 24)
        & 0xff) as u8 as u128) << 24 | (((v >> 16) & 0xff) as u8 as u128) << 16 | (((v >> 8)
        & 0xff) as u8 as u128) << 8 | ((v & 0xff) as u8 as u128) == v) by (bit_vector);
}

/// Writing back the value read from 16 bytes restores the same bytes.
pub proof fn lemma_be_bytes_of_val(s: Seq<u8>)
    requires
        s.len() == 16,
    ensures
        be_bytes_of(be_val_of(s)) == s,
{
    let b0 = s[0];
    let b1 = s[1];
    let b2 = s[2];
    let b3 = s[3];
    let b4 = s[4];
    let b5 = s[5];
    let b6 = s[6];
    let b7 = s[7];
    let b8 = s[8];
    let b9 = s[9];
    let b10 = s[10];
    let b11 = s[11];
    let b12 = s[12];
    let b13 = s[13];
    let b14 = s[14];
    let b15 = s[15];
    let v = be_val_of(s);
    assert(v == (b0 as u128) << 120 | (b1 as u128) << 112 | (b2 as u128) << 104 | (b3 as u128)
        << 96 | (b4 as u128) << 88 | (b5 as u128) << 80 | (b6 as u128) << 72 | (b7 as u128) << 64
        | (b8 as u128) << 56 | (b9 as u128) << 48 | (b10 as u128) << 40 | (b11 as u128) << 32 | (
    b12 as u128) << 24 | (b13 as u128) << 16 | (b14 as u128) << 8 | (b15 as u128));
    let w = (b0 as u128) << 120 | (b1 as u128) << 112 | (b2 as u128) << 104 | (b3 as u128) << 96 | (
    b4 as u128) << 88 | (b5 as u128) << 80 | (b6 as u128) << 72 | (b7 as u128) << 64 | (b8 as u128)
        << 56 | (b9 as u128) << 48 | (b10 as u128) << 40 | (b11 as u128) << 32 | (b12 as u128)
        << 24 | (b13 as u128) << 16 | (b14 as u128) << 8 | (b15 as u128);
    assert(((w >> 120) & 0xff) as u8 == b0 && ((w >> 112) & 0xff) as u8 == b1 && ((w >> 104)
        & 0xff) as u8 == b2 && ((w >> 96) & 0xff) as u8 == b3 && ((w >> 88) & 0xff) as u8 == b4 && (
    (w >> 80) & 0xff) as u8 == b5 && ((w >> 72) & 0xff) as u8 == b6 && ((w >> 64) & 0xff) as u8
        == b7 && ((w >> 56) & 0xff) as u8 == b8 && ((w >> 48) & 0xff) as u8 == b9 && ((w >> 40)
        & 0xff) as u8 == b10 && ((w >> 32) & 0xff) as u8 == b11 && ((w >> 24) & 0xff) as u8 == b12
        && ((w >> 16) & 0xff) as u8 == b13 && ((w >> 8) & 0xff) as u8 == b14 && (w & 0xff) as u8
        == b15) by (bit_vector)
        requires
            w == (b0 as u128) << 120 | (b1 as u128) << 112 | (b2 as u128) << 104 | (b3 as u128)
                << 96 | (b4 as u128) << 88 | (b5 as u128) << 80 | (b6 as u128) << 72 | (
            b7 as u128) << 64 | (b8 as u128) << 56 | (b9 as u128) << 48 | (b10 as u128) << 40 | (
            b11 as u128) << 32 | (b12 as u128) << 24 | (b13 as u128) << 16 | (b14 as u128) << 8 | (
            b15 as u128),
    ;
    assert(be_bytes_of(v) =~= s);
}

/// A 128-bit value carried across a plain-value boundary as 16 big-endian
/// bytes.
pub struct McU128 {
    /// The big-endian bytes of the value.
    pub bytes: [u8; 16],
}

impl McU128 {
    /// Packs a 128-bit value into its big-endian byte form.
    pub fn from_u128(val: u128) -> (r: McU128)
        ensures
            r.bytes@ == be_bytes_of(val),
    {
        let v = val;
        proof {
            assert((v >> 120) & 0xff < 256 && (v >> 112) & 0xff < 256 && (v >> 104) & 0xff < 256
                && (v >> 96) & 0xff < 256 && (v >> 88) & 0xff < 256 && (v >> 80) & 0xff < 256 && (v
                >> 72) & 0xff < 256 && (v >> 64) & 0xff < 256 && (v >> 56) & 0xff < 256 && (v >> 48)
                & 0xff < 256 && (v >> 40) & 0xff < 256 && (v >> 32) & 0xff < 256 && (v >> 24) & 0xff
                < 256 && (v >> 16) & 0xff < 256 && (v >> 8) & 0xff < 256 && v & 0xff
                < 256) by (bit_vector);
        }
        let bytes: [u8; 16] = [
            ((v >> 120) & 0xff) as u8,
            ((v >> 112) & 0xff) as u8,
            ((v >> 104) & 0xff) as u8,
            ((v >> 96) & 0xff) as u8,
            ((v >> 88) & 0xff) as u8,
            ((v >> 80) & 0xff) as u8,
            ((v >> 72) & 0xff) as u8,
            ((v >> 64) & 0xff) as u8,
            ((v >> 56) & 0xff) as u8,
            ((v >> 48) & 0xff) as u8,
            ((v >> 40) & 0xff) as u8,
            ((v >> 32) & 0xff) as u8,
            ((v >> 24) & 0xff) as u8,
            ((v >> 16) & 0xff) as u8,
            ((v >> 8) & 0xff) as u8,
            (v & 0xff) as u8,
        ];
        let r = McU128 { bytes };
        proof {
            assert(r.bytes@ =~= be_bytes_of(val));
        }
        r
    }

    /// Reads the 128-bit value back out of the big-endian bytes.
    pub fn to_u128(&self) -> (r: u128)
        ensures
            r == be_val_of(self.bytes@),
    {
        (self.bytes[0] as u128) << 120 | (self.bytes[1] as u128) << 112 | (self.bytes[2] as u128)
            << 104 | (self.bytes[3] as u128) << 96 | (self.bytes[4] as u128) << 88 | (
        self.bytes[5] as u128) << 80 | (self.bytes[6] as u128) << 72 | (self.bytes[7] as u128)
            << 64 | (self.bytes[8] as u128) << 56 | (self.bytes[9] as u128) << 48 | (
        self.bytes[10] as u128) << 40 | (self.bytes[11] as u128) << 32 | (self.bytes[12] as u128)
            << 24 | (self.bytes[13] as u128) << 16 | (self.bytes[14] as u128) << 8 | (
        self.bytes[15] as u128)
    }
}

/// A 32-byte seed for a deterministic random number generator.
pub struct RngSeed32 {
    seed: [u8; 32],
}

impl View for RngSeed32 {
    type V = Seq<u8>;

    closed spec fn view(&self) -> Seq<u8> {
        self.seed@
    }
}

impl RngSeed32 {
    /// Wraps 32 seed bytes.
    pub fn new(seed: [u8; 32]) -> (r: RngSeed32)
        ensures
            r@ == seed@,
    {
        RngSeed32 { seed }
    }

    /// The seed bytes.
    pub fn as_bytes(&self) -> (r: &[u8; 32])
        ensures
            r@ == self@,
    {
        &self.seed
    }
}

} // verus!
