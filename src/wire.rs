//! The byte layout that the GPU reads: 32-bit words in little-endian order.

use vstd::prelude::*;

verus! {

/// The four bytes of `w`, least significant first.
pub open spec fn word_le_bytes(w: u32) -> Seq<u8> {
    seq![
        (w % 0x100) as u8,
        ((w / 0x100) % 0x100) as u8,
        ((w / 0x1_0000) % 0x100) as u8,
        (w / 0x100_0000) as u8,
    ]
}

/// The words of `ws`, each as four little-endian bytes, in order.
pub open spec fn words_le_bytes(ws: Seq<u32>) -> Seq<u8> {
    Seq::new(4 * ws.len(), |i: int| word_le_bytes(ws[i / 4])[i % 4])
}

/// The word whose little-endian bytes are `b0 b1 b2 b3`.
pub open spec fn word_from_le(b0: u8, b1: u8, b2: u8, b3: u8) -> int {
    b0 + 0x100 * b1 + 0x1_0000 * b2 + 0x100_0000 * b3
}

/// The words that `bytes` holds, four little-endian bytes each; a trailing
/// partial word is ignored.
pub open spec fn le_words(bytes: Seq<u8>) -> Seq<u32> {
    Seq::new(
        bytes.len() / 4,
        |k: int| word_from_le(bytes[4 * k], bytes[4 * k + 1], bytes[4 * k + 2], bytes[4 * k + 3]) as u32,
    )
}

/// Appends the four little-endian bytes of `w`.
pub fn push_word_le(out: &mut Vec<u8>, w: u32)
    ensures
        final(out)@ == old(out)@ + word_le_bytes(w),
{
    out.push((w % 0x100) as u8);
    out.push(((w / 0x100) % 0x100) as u8);
    out.push(((w / 0x1_0000) % 0x100) as u8);
    out.push((w / 0x100_0000) as u8);
    assert(out@ =~= old(out)@ + word_le_bytes(w));
}

/// Appends the little-endian bytes of every word of `ws`.
pub fn extend_words_le(out: &mut Vec<u8>, ws: &Vec<u32>)
    requires
        old(out)@.len() + 4 * ws@.len() <= usize::MAX,
    ensures
        final(out)@ == old(out)@ + words_le_bytes(ws@),
{
    let ghost start = out@;
    let mut i: usize = 0;
    while i < ws.len()
        invariant
            i <= ws@.len(),
            out@ =~= start + words_le_bytes(ws@.subrange(0, i as int)),
        decreases ws@.len() - i,
    {
        proof {
            let prev = ws@.subrange(0, i as int);
            let next = ws@.subrange(0, i + 1);
            assert(words_le_bytes(next) =~= words_le_bytes(prev) + word_le_bytes(ws@[i as int]));
        }
        push_word_le(out, ws[i]);
        i = i + 1;
    }
    assert(ws@.subrange(0, ws@.len() as int) =~= ws@);
}

/// Reads the word at word index `k` of `bytes`.
pub fn read_word_le(bytes: &Vec<u8>, k: usize) -> (r: u32)
    requires
        4 * k + 4 <= bytes@.len(),
    ensures
        r == word_from_le(
            bytes@[4 * k],
            bytes@[4 * k + 1],
            bytes@[4 * k + 2],
            bytes@[4 * k + 3],
        ),
        word_le_bytes(r) == bytes@.subrange(4 * k as int, 4 * k + 4),
{
    let n = bytes.len();
    assert(4 * k + 4 <= n);
    let b0 = bytes[4 * k];
    let b1 = bytes[4 * k + 1];
    let b2 = bytes[4 * k + 2];
    let b3 = bytes[4 * k + 3];
    let r: u32 = b0 as u32 + 0x100 * (b1 as u32) + 0x1_0000 * (b2 as u32) + 0x100_0000 * (
    b3 as u32);
    proof {
        lemma_word_le_round_trip(b0, b1, b2, b3);
        assert(word_le_bytes(r) =~= bytes@.subrange(4 * k as int, 4 * k + 4));
    }
    r
}

/// Assembling a word from four bytes and splitting it again gives the bytes back.
pub proof fn lemma_word_le_round_trip(b0: u8, b1: u8, b2: u8, b3: u8)
    ensures
        0 <= word_from_le(b0, b1, b2, b3) <= u32::MAX,
        word_le_bytes(word_from_le(b0, b1, b2, b3) as u32) == seq![b0, b1, b2, b3],
{
    let w = word_from_le(b0, b1, b2, b3);
    assert(w % 0x100 == b0);
    assert((w / 0x100) % 0x100 == b1);
    assert((w / 0x1_0000) % 0x100 == b2);
    assert(w / 0x100_0000 == b3);
    assert(word_le_bytes(w as u32) =~= seq![b0, b1, b2, b3]);
}

/// Splitting a word into its four bytes and assembling them gives the word
/// back.
pub proof fn lemma_le_bytes_word(w: u32)
    ensures
        word_from_le(
            word_le_bytes(w)[0],
            word_le_bytes(w)[1],
            word_le_bytes(w)[2],
            word_le_bytes(w)[3],
        ) == w,
{
    let b = word_le_bytes(w);
    assert(b[0] == w % 0x100);
    assert(b[1] == (w / 0x100) % 0x100);
    assert(b[2] == (w / 0x1_0000) % 0x100);
    assert(b[3] == w / 0x100_0000);
    assert(w == w % 0x100 + 0x100 * ((w / 0x100) % 0x100) + 0x1_0000 * ((w / 0x1_0000) % 0x100)
        + 0x100_0000 * (w / 0x100_0000)) by (bit_vector);
}

/// Reading the words back from their little-endian bytes gives the words.
pub proof fn lemma_le_words_round_trip(ws: Seq<u32>)
    ensures
        le_words(words_le_bytes(ws)) == ws,
{
    let bytes = words_le_bytes(ws);
    assert forall|k: int| 0 <= k < ws.len() implies #[trigger] le_words(bytes)[k] == ws[k] by {
        assert(bytes[4 * k] == word_le_bytes(ws[k])[0]);
        assert(bytes[4 * k + 1] == word_le_bytes(ws[k])[1]);
        assert(bytes[4 * k + 2] == word_le_bytes(ws[k])[2]);
        assert(bytes[4 * k + 3] == word_le_bytes(ws[k])[3]);
        lemma_le_bytes_word(ws[k]);
    }
    assert(le_words(bytes) =~= ws);
}

} // verus!
