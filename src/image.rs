use vstd::prelude::*;

verus! {

/// The 16-bit word whose little-endian bytes are `lo`, `hi`.
pub open spec fn le_word(lo: u8, hi: u8) -> nat {
    lo as nat + 256 * hi as nat
}

/// The words of a program image stored as little-endian byte pairs; a
/// trailing odd byte belongs to no word.
pub fn words_from_le_bytes(bytes: &Vec<u8>) -> (r: Vec<u16>)
    ensures
        r@.len() == bytes@.len() / 2,
        forall|i: int|
            0 <= i < r@.len() ==> #[trigger] r@[i] as nat == le_word(bytes@[2 * i], bytes@[2 * i + 1]),
{
    let mut words: Vec<u16> = Vec::new();
    let len: usize = bytes.len();
    let n: usize = len / 2;
    let mut i: usize = 0;
    while i < n
        invariant
            len == bytes@.len(),
            n == len / 2,
            i <= n,
            words@.len() == i,
            forall|j: int|
                0 <= j < i ==> #[trigger] words@[j] as nat == le_word(bytes@[2 * j], bytes@[2 * j + 1]),
        decreases n - i,
    {
        let lo = bytes[2 * i];
        let hi = bytes[2 * i + 1];
        words.push(lo as u16 + 256 * (hi as u16));
        i = i + 1;
    }
    words
}

} // verus!
