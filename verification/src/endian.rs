//! Words and the bytes they are stored as.
//!
//! Shader code reaches the driver as words and geometry reaches it as
//! bytes, both in the byte order of the machine. This module does the
//! conversions with arithmetic, for either byte order, and finds out which
//! of the two the machine has.

use vstd::prelude::*;

verus! {

/// The word that four bytes make when the first is the least significant.
pub open spec fn word_le(b0: u8, b1: u8, b2: u8, b3: u8) -> u32 {
    (b0 + b1 * 0x100 + b2 * 0x1_0000 + b3 * 0x100_0000) as u32
}

/// The word that four bytes make in the byte order given: the first byte
/// least significant where `little`, most significant otherwise.
pub open spec fn word_of(little: bool, b0: u8, b1: u8, b2: u8, b3: u8) -> u32 {
    if little {
        word_le(b0, b1, b2, b3)
    } else {
        word_le(b3, b2, b1, b0)
    }
}

/// The half-word that two bytes make in the byte order given.
pub open spec fn half_of(little: bool, b0: u8, b1: u8) -> u16 {
    if little {
        (b0 + b1 * 0x100) as u16
    } else {
        (b1 + b0 * 0x100) as u16
    }
}

/// Whether `words` is `bytes` taken four at a time in the byte order
/// given.
pub open spec fn is_packed(words: Seq<u32>, bytes: Seq<u8>, little: bool) -> bool {
    &&& bytes.len() == 4 * words.len()
    &&& forall|i: int|
        0 <= i < words.len() ==> #[trigger] words[i] == word_of(
            little,
            bytes[4 * i],
            bytes[4 * i + 1],
            bytes[4 * i + 2],
            bytes[4 * i + 3],
        )
}

/// Whether `halves` is `bytes` taken two at a time in the byte order
/// given.
pub open spec fn is_packed_halves(halves: Seq<u16>, bytes: Seq<u8>, little: bool) -> bool {
    &&& bytes.len() == 2 * halves.len()
    &&& forall|i: int|
        0 <= i < halves.len() ==> #[trigger] halves[i] == half_of(
            little,
            bytes[2 * i],
            bytes[2 * i + 1],
        )
}

/// Whether `words` is `bytes` taken four at a time in one of the two byte
/// orders, the same for every word.
pub open spec fn is_packed_natively(words: Seq<u32>, bytes: Seq<u8>) -> bool {
    is_packed(words, bytes, true) || is_packed(words, bytes, false)
}

/// Whether `halves` is `bytes` taken two at a time in one of the two byte
/// orders, the same for every half-word.
pub open spec fn is_packed_halves_natively(halves: Seq<u16>, bytes: Seq<u8>) -> bool {
    is_packed_halves(halves, bytes, true) || is_packed_halves(halves, bytes, false)
}

/// `u32::from_ne_bytes`: the word that four bytes make in the byte order
/// of this machine. Which order that is the contract leaves open; it is
/// one of the two.
#[verifier::external_body]
fn word_from_ne_bytes(b0: u8, b1: u8, b2: u8, b3: u8) -> (word: u32)
    ensures
        word == word_of(true, b0, b1, b2, b3) || word == word_of(false, b0, b1, b2, b3),
{
    u32::from_ne_bytes([b0, b1, b2, b3])
}

/// Whether the bytes 1, 0, 0, 0 make the word 1 on this machine, which
/// they do where the least significant byte comes first. Nothing is
/// promised of the answer: what is done with it is proved for both.
pub(crate) fn native_order_is_little() -> bool {
    word_from_ne_bytes(1, 0, 0, 0) == 1
}

/// One word from four bytes in the byte order given.
pub fn pack_word(little: bool, b0: u8, b1: u8, b2: u8, b3: u8) -> (word: u32)
    ensures
        word == word_of(little, b0, b1, b2, b3),
{
    if little {
        b0 as u32 + b1 as u32 * 0x100 + b2 as u32 * 0x1_0000 + b3 as u32 * 0x100_0000
    } else {
        b3 as u32 + b2 as u32 * 0x100 + b1 as u32 * 0x1_0000 + b0 as u32 * 0x100_0000
    }
}

/// Packs bytes into words, four at a time, in the byte order given.
/// `None` where the number of bytes is not a multiple of four.
pub fn pack_words(bytes: &Vec<u8>, little: bool) -> (words: Option<Vec<u32>>)
    ensures
        words is Some <==> bytes.len() % 4 == 0,
        words matches Some(w) ==> is_packed(w@, bytes@, little),
{
    if bytes.len() % 4 != 0 {
        return None;
    }
    let count = bytes.len() / 4;
    let mut words: Vec<u32> = Vec::new();
    let mut i: usize = 0;
    while i < count
        invariant
            bytes.len() == 4 * count,
            i <= count,
            words.len() == i,
            forall|k: int|
                0 <= k < i ==> #[trigger] words[k] == word_of(
                    little,
                    bytes[4 * k],
                    bytes[4 * k + 1],
                    bytes[4 * k + 2],
                    bytes[4 * k + 3],
                ),
        decreases count - i,
    {
        let word = pack_word(
            little,
            bytes[4 * i],
            bytes[4 * i + 1],
            bytes[4 * i + 2],
            bytes[4 * i + 3],
        );
        words.push(word);
        i += 1;
    }
    Some(words)
}

/// The four bytes that store `word` in the byte order given.
pub fn split_word(word: u32, little: bool) -> (bytes: (u8, u8, u8, u8))
    ensures
        word == word_of(little, bytes.0, bytes.1, bytes.2, bytes.3),
{
    let low: u8 = (word % 0x100) as u8;
    let mid_low: u8 = ((word / 0x100) % 0x100) as u8;
    let mid_high: u8 = ((word / 0x1_0000) % 0x100) as u8;
    let high: u8 = (word / 0x100_0000) as u8;
    if little {
        (low, mid_low, mid_high, high)
    } else {
        (high, mid_high, mid_low, low)
    }
}

/// The two bytes that store `half` in the byte order given.
pub fn split_half(half: u16, little: bool) -> (bytes: (u8, u8))
    ensures
        half == half_of(little, bytes.0, bytes.1),
{
    let low: u8 = (half % 0x100) as u8;
    let high: u8 = (half / 0x100) as u8;
    if little {
        (low, high)
    } else {
        (high, low)
    }
}

/// The bytes that store `words` in the byte order given, four for each
/// word. `None` where that is more bytes than a vector can hold.
pub fn unpack_words(words: &Vec<u32>, little: bool) -> (bytes: Option<Vec<u8>>)
    ensures
        bytes is Some <==> 4 * words.len() <= usize::MAX,
        bytes matches Some(b) ==> is_packed(words@, b@, little),
{
    if words.len() > usize::MAX / 4 {
        return None;
    }
    let mut bytes: Vec<u8> = Vec::new();
    let mut i: usize = 0;
    while i < words.len()
        invariant
            4 * words.len() <= usize::MAX,
            i <= words.len(),
            bytes.len() == 4 * i,
            is_packed(words@.take(i as int), bytes@, little),
        decreases words.len() - i,
    {
        let (b0, b1, b2, b3) = split_word(words[i], little);
        bytes.push(b0);
        bytes.push(b1);
        bytes.push(b2);
        bytes.push(b3);
        i += 1;
    }
    assert(words@.take(i as int) =~= words@);
    Some(bytes)
}

/// The bytes that store `halves` in the byte order given, two for each
/// half-word. `None` where that is more bytes than a vector can hold.
pub fn unpack_halves(halves: &Vec<u16>, little: bool) -> (bytes: Option<Vec<u8>>)
    ensures
        bytes is Some <==> 2 * halves.len() <= usize::MAX,
        bytes matches Some(b) ==> is_packed_halves(halves@, b@, little),
{
    if halves.len() > usize::MAX / 2 {
        return None;
    }
    let mut bytes: Vec<u8> = Vec::new();
    let mut i: usize = 0;
    while i < halves.len()
        invariant
            2 * halves.len() <= usize::MAX,
            i <= halves.len(),
            bytes.len() == 2 * i,
            is_packed_halves(halves@.take(i as int), bytes@, little),
        decreases halves.len() - i,
    {
        let (b0, b1) = split_half(halves[i], little);
        bytes.push(b0);
        bytes.push(b1);
        i += 1;
    }
    assert(halves@.take(i as int) =~= halves@);
    Some(bytes)
}

} // verus!
