//! Encoding of 32-bit words and 16-bit half-words as bytes in RAM. The
//! machine uses one byte order throughout, little-endian, so that load,
//! execute and read-back always agree.

use vstd::prelude::*;

verus! {

/// The 32-bit signed word that four little-endian bytes encode.
pub open spec fn word_of(b0: u8, b1: u8, b2: u8, b3: u8) -> i32 {
    ((b0 as u32) | ((b1 as u32) << 8u32) | ((b2 as u32) << 16u32) | ((b3 as u32) << 24u32)) as i32
}

/// The 16-bit signed half-word that two little-endian bytes encode.
pub open spec fn half_of(b0: u8, b1: u8) -> i16 {
    ((b0 as u16) | ((b1 as u16) << 8u16)) as i16
}

/// The four little-endian bytes of a 32-bit signed word, lowest first.
pub open spec fn word_bytes(w: i32) -> Seq<u8> {
    seq![
        ((w as u32) & 0xff) as u8,
        (((w as u32) >> 8u32) & 0xff) as u8,
        (((w as u32) >> 16u32) & 0xff) as u8,
        (((w as u32) >> 24u32) & 0xff) as u8,
    ]
}

/// The word stored in memory at the given address.
pub open spec fn word_at(ram: Seq<u8>, a: int) -> i32 {
    word_of(ram[a], ram[a + 1], ram[a + 2], ram[a + 3])
}

/// Memory after a word has been stored at the given address.
pub open spec fn word_stored(ram: Seq<u8>, a: int, w: i32) -> Seq<u8> {
    ram.update(a, word_bytes(w)[0]).update(a + 1, word_bytes(w)[1]).update(
        a + 2,
        word_bytes(w)[2],
    ).update(a + 3, word_bytes(w)[3])
}

/// Encoding a word as bytes and decoding them again yields the word back:
/// the byte order is internally consistent.
pub proof fn lemma_word_round_trip(w: i32)
    ensures
        word_of(word_bytes(w)[0], word_bytes(w)[1], word_bytes(w)[2], word_bytes(w)[3]) == w,
{
    assert(((((w as u32) & 0xff) as u8 as u32) | (((((w as u32) >> 8u32) & 0xff) as u8 as u32)
        << 8u32) | (((((w as u32) >> 16u32) & 0xff) as u8 as u32) << 16u32) | (((((w as u32)
        >> 24u32) & 0xff) as u8 as u32) << 24u32)) as i32 == w) by (bit_vector);
}

/// Storing a word and reading it back at the same address yields the word.
pub proof fn lemma_store_then_read(ram: Seq<u8>, a: int, w: i32)
    requires
        0 <= a,
        a + 4 <= ram.len(),
    ensures
        word_at(word_stored(ram, a, w), a) == w,
{
    lemma_word_round_trip(w);
}

/// Reads the 32-bit signed word stored at the given address.
pub fn read_word(ram: &Vec<u8>, a: usize) -> (w: i32)
    requires
        a + 4 <= ram@.len(),
    ensures
        w == word_at(ram@, a as int),
{
    let _n = ram.len();
    let u: u32 = (ram[a] as u32) | ((ram[a + 1] as u32) << 8u32) | ((ram[a + 2] as u32) << 16u32)
        | ((ram[a + 3] as u32) << 24u32);
    #[verifier::truncate] (u as i32)
}

/// Reads the 16-bit signed half-word stored at the given address.
pub fn read_half(ram: &Vec<u8>, a: usize) -> (h: i16)
    requires
        a + 2 <= ram@.len(),
    ensures
        h == half_of(ram@[a as int], ram@[a as int + 1]),
{
    let _n = ram.len();
    let u: u16 = (ram[a] as u16) | ((ram[a + 1] as u16) << 8u16);
    #[verifier::truncate] (u as i16)
}

/// Stores a 32-bit signed word at the given address.
pub fn write_word(ram: &mut Vec<u8>, a: usize, w: i32)
    requires
        a + 4 <= old(ram)@.len(),
    ensures
        final(ram)@ == word_stored(old(ram)@, a as int, w),
{
    let _n = ram.len();
    let u: u32 = #[verifier::truncate] (w as u32);
    ram[a] = #[verifier::truncate] ((u & 0xff) as u8);
    ram[a + 1] = #[verifier::truncate] (((u >> 8u32) & 0xff) as u8);
    ram[a + 2] = #[verifier::truncate] (((u >> 16u32) & 0xff) as u8);
    ram[a + 3] = #[verifier::truncate] (((u >> 24u32) & 0xff) as u8);
}

} // verus!
