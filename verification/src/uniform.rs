//! The per-frame uniform block: the fixed-layout record uploaded every
//! frame and read by the shader stages.
//!
//! The byte layout is the wire contract between host and shader: the
//! fields, in order, as 32-bit little-endian words with no padding between
//! them. Each field holds the IEEE-754 bit pattern of the shader-visible
//! scalar, so the library never performs floating-point arithmetic on it.
//! The base block carries resolution, elapsed time and pointer state; the
//! extended block adds accumulated scroll, five button-hold durations and
//! accumulated pan.

use vstd::prelude::*;

verus! {

use vstd::bytes::{
    spec_u32_to_le_bytes,
    spec_u32_from_le_bytes,
    u32_to_le_bytes,
    u32_from_le_bytes,
    lemma_auto_spec_u32_to_from_le_bytes,
};
use vstd::slice::slice_subrange;

/// Byte size of the base uniform block: eight 32-bit words.
pub const UNIFORM_BLOCK_BYTES: usize = 32;

/// Byte size of the extended uniform block: seventeen 32-bit words.
pub const UNIFORM_BLOCK_EXT_BYTES: usize = 68;

/// The base per-frame record: resolution (three words), elapsed time, and
/// pointer state (four words). Every field is the bit pattern of the
/// shader-visible 32-bit scalar.
#[derive(Clone, Copy, Debug, PartialEq, Eq, Structural)]
pub struct UniformBlock {
    pub res_x: u32,
    pub res_y: u32,
    pub res_z: u32,
    pub time: u32,
    pub mouse_x: u32,
    pub mouse_y: u32,
    pub mouse_z: u32,
    pub mouse_w: u32,
}

/// The extended per-frame record: the base fields followed by accumulated
/// scroll (two words), five button-hold durations, and accumulated pan
/// (two words).
#[derive(Clone, Copy, Debug, PartialEq, Eq, Structural)]
pub struct UniformBlockExt {
    pub base: UniformBlock,
    pub scroll_x: u32,
    pub scroll_y: u32,
    pub button_left: u32,
    pub button_right: u32,
    pub button_middle: u32,
    pub button_4: u32,
    pub button_5: u32,
    pub pan_x: u32,
    pub pan_y: u32,
}

/// The words of the base block in wire order.
pub open spec fn spec_block_words(u: UniformBlock) -> Seq<u32> {
    seq![u.res_x, u.res_y, u.res_z, u.time, u.mouse_x, u.mouse_y, u.mouse_z, u.mouse_w]
}

/// The words of the extended block in wire order.
pub open spec fn spec_block_ext_words(u: UniformBlockExt) -> Seq<u32> {
    spec_block_words(u.base) + seq![
        u.scroll_x,
        u.scroll_y,
        u.button_left,
        u.button_right,
        u.button_middle,
        u.button_4,
        u.button_5,
        u.pan_x,
        u.pan_y,
    ]
}

/// A word sequence laid out as consecutive little-endian bytes.
pub open spec fn spec_words_bytes(words: Seq<u32>) -> Seq<u8>
    decreases words.len(),
{
    if words.len() == 0 {
        Seq::empty()
    } else {
        spec_u32_to_le_bytes(words[0]) + spec_words_bytes(words.drop_first())
    }
}

/// The exact byte image of the base block.
pub open spec fn spec_block_bytes(u: UniformBlock) -> Seq<u8> {
    spec_words_bytes(spec_block_words(u))
}

/// The exact byte image of the extended block.
pub open spec fn spec_block_ext_bytes(u: UniformBlockExt) -> Seq<u8> {
    spec_words_bytes(spec_block_ext_words(u))
}

/// Appends the little-endian bytes of one word.
fn push_word(out: &mut Vec<u8>, w: u32)
    ensures
        final(out)@ == old(out)@ + spec_u32_to_le_bytes(w),
{
    let b = u32_to_le_bytes(w);
    out.push(b[0]);
    out.push(b[1]);
    out.push(b[2]);
    out.push(b[3]);
    proof {
        assert(final(out)@ =~= old(out)@ + spec_u32_to_le_bytes(w));
    }
}

/// Appending the bytes of one more word extends the byte image by that
/// word's bytes.
proof fn lemma_words_bytes_push(words: Seq<u32>, w: u32)
    ensures
        spec_words_bytes(words.push(w)) == spec_words_bytes(words) + spec_u32_to_le_bytes(w),
    decreases words.len(),
{
    lemma_auto_spec_u32_to_from_le_bytes();
    assert(spec_u32_to_le_bytes(w).len() == 4);
    if words.len() == 0 {
        assert(words.push(w)[0] == w);
        assert(words.push(w).drop_first() =~= Seq::<u32>::empty());
        assert(spec_words_bytes(words.push(w).drop_first()) =~= Seq::<u8>::empty());
        assert(spec_words_bytes(words.push(w)) =~= spec_words_bytes(words)
            + spec_u32_to_le_bytes(w));
    } else {
        assert(words.push(w).drop_first() =~= words.drop_first().push(w));
        lemma_words_bytes_push(words.drop_first(), w);
        assert(spec_words_bytes(words.push(w)) =~= spec_words_bytes(words)
            + spec_u32_to_le_bytes(w));
    }
}

/// Serializes a word list in wire order.
fn words_to_bytes(words: &Vec<u32>) -> (r: Vec<u8>)
    ensures
        r@ == spec_words_bytes(words@),
{
    let n = words.len();
    let mut r: Vec<u8> = Vec::new();
    let mut i: usize = 0;
    while i < n
        invariant
            n == words@.len(),
            i <= n,
            r@ == spec_words_bytes(words@.take(i as int)),
        decreases n - i,
    {
        let ghost prefix = words@.take(i as int);
        push_word(&mut r, words[i]);
        proof {
            assert(words@.take(i + 1) =~= prefix.push(words@[i as int]));
            lemma_words_bytes_push(prefix, words@[i as int]);
        }
        i = i + 1;
    }
    proof {
        assert(words@.take(n as int) =~= words@);
    }
    r
}

impl UniformBlock {
    /// Serializes the block to its exact 32-byte wire image.
    pub fn to_bytes(&self) -> (r: Vec<u8>)
        ensures
            r@ == spec_block_bytes(*self),
            r@.len() == UNIFORM_BLOCK_BYTES,
    {
        let mut words: Vec<u32> = Vec::new();
        words.push(self.res_x);
        words.push(self.res_y);
        words.push(self.res_z);
        words.push(self.time);
        words.push(self.mouse_x);
        words.push(self.mouse_y);
        words.push(self.mouse_z);
        words.push(self.mouse_w);
        proof {
            assert(words@ =~= spec_block_words(*self));
            lemma_block_bytes_len(*self);
        }
        words_to_bytes(&words)
    }

    /// Reads a block back from its 32-byte wire image: each field is the
    /// little-endian word at its fixed offset.
    pub fn from_bytes(bytes: &Vec<u8>) -> (r: Self)
        requires
            bytes@.len() == UNIFORM_BLOCK_BYTES,
        ensures
            r.res_x == spec_u32_from_le_bytes(bytes@.subrange(0, 4)),
            r.res_y == spec_u32_from_le_bytes(bytes@.subrange(4, 8)),
            r.res_z == spec_u32_from_le_bytes(bytes@.subrange(8, 12)),
            r.time == spec_u32_from_le_bytes(bytes@.subrange(12, 16)),
            r.mouse_x == spec_u32_from_le_bytes(bytes@.subrange(16, 20)),
            r.mouse_y == spec_u32_from_le_bytes(bytes@.subrange(20, 24)),
            r.mouse_z == spec_u32_from_le_bytes(bytes@.subrange(24, 28)),
            r.mouse_w == spec_u32_from_le_bytes(bytes@.subrange(28, 32)),
    {
        let s = bytes.as_slice();
        UniformBlock {
            res_x: u32_from_le_bytes(slice_subrange(s, 0, 4)),
            res_y: u32_from_le_bytes(slice_subrange(s, 4, 8)),
            res_z: u32_from_le_bytes(slice_subrange(s, 8, 12)),
            time: u32_from_le_bytes(slice_subrange(s, 12, 16)),
            mouse_x: u32_from_le_bytes(slice_subrange(s, 16, 20)),
            mouse_y: u32_from_le_bytes(slice_subrange(s, 20, 24)),
            mouse_z: u32_from_le_bytes(slice_subrange(s, 24, 28)),
            mouse_w: u32_from_le_bytes(slice_subrange(s, 28, 32)),
        }
    }
}

impl UniformBlockExt {
    /// Serializes the extended block to its exact 68-byte wire image.
    pub fn to_bytes(&self) -> (r: Vec<u8>)
        ensures
            r@ == spec_block_ext_bytes(*self),
            r@.len() == UNIFORM_BLOCK_EXT_BYTES,
    {
        let mut words: Vec<u32> = Vec::new();
        words.push(self.base.res_x);
        words.push(self.base.res_y);
        words.push(self.base.res_z);
        words.push(self.base.time);
        words.push(self.base.mouse_x);
        words.push(self.base.mouse_y);
        words.push(self.base.mouse_z);
        words.push(self.base.mouse_w);
        words.push(self.scroll_x);
        words.push(self.scroll_y);
        words.push(self.button_left);
        words.push(self.button_right);
        words.push(self.button_middle);
        words.push(self.button_4);
        words.push(self.button_5);
        words.push(self.pan_x);
        words.push(self.pan_y);
        proof {
            assert(words@ =~= spec_block_ext_words(*self));
            lemma_block_ext_bytes_len(*self);
        }
        words_to_bytes(&words)
    }
}

/// The byte image of each word list prefix lays word `i` at offset `4 * i`.
proof fn lemma_words_bytes_index(words: Seq<u32>, i: int)
    requires
        0 <= i < words.len(),
    ensures
        spec_words_bytes(words).len() == 4 * words.len(),
        spec_words_bytes(words).subrange(4 * i, 4 * i + 4) == spec_u32_to_le_bytes(words[i]),
    decreases words.len(),
{
    lemma_auto_spec_u32_to_from_le_bytes();
    lemma_words_bytes_len(words);
    if i == 0 {
        assert(spec_words_bytes(words).subrange(0, 4) =~= spec_u32_to_le_bytes(words[0]));
    } else {
        lemma_words_bytes_index(words.drop_first(), i - 1);
        lemma_words_bytes_len(words.drop_first());
        assert(spec_words_bytes(words).subrange(4 * i, 4 * i + 4) =~= spec_words_bytes(
            words.drop_first(),
        ).subrange(4 * (i - 1), 4 * (i - 1) + 4));
    }
}

/// A word list's byte image is four bytes per word.
proof fn lemma_words_bytes_len(words: Seq<u32>)
    ensures
        spec_words_bytes(words).len() == 4 * words.len(),
    decreases words.len(),
{
    lemma_auto_spec_u32_to_from_le_bytes();
    if words.len() > 0 {
        lemma_words_bytes_len(words.drop_first());
    }
}

/// The base block's byte image is 32 bytes.
pub proof fn lemma_block_bytes_len(u: UniformBlock)
    ensures
        spec_block_bytes(u).len() == UNIFORM_BLOCK_BYTES,
{
    lemma_words_bytes_len(spec_block_words(u));
}

/// The extended block's byte image is 68 bytes.
pub proof fn lemma_block_ext_bytes_len(u: UniformBlockExt)
    ensures
        spec_block_ext_bytes(u).len() == UNIFORM_BLOCK_EXT_BYTES,
{
    lemma_words_bytes_len(spec_block_ext_words(u));
}

/// Each field of the base block sits at its fixed word offset of the wire
/// image.
proof fn lemma_block_bytes_split(u: UniformBlock)
    ensures
        spec_block_bytes(u).len() == UNIFORM_BLOCK_BYTES,
        spec_block_bytes(u).subrange(0, 4) == spec_u32_to_le_bytes(u.res_x),
        spec_block_bytes(u).subrange(4, 8) == spec_u32_to_le_bytes(u.res_y),
        spec_block_bytes(u).subrange(8, 12) == spec_u32_to_le_bytes(u.res_z),
        spec_block_bytes(u).subrange(12, 16) == spec_u32_to_le_bytes(u.time),
        spec_block_bytes(u).subrange(16, 20) == spec_u32_to_le_bytes(u.mouse_x),
        spec_block_bytes(u).subrange(20, 24) == spec_u32_to_le_bytes(u.mouse_y),
        spec_block_bytes(u).subrange(24, 28) == spec_u32_to_le_bytes(u.mouse_z),
        spec_block_bytes(u).subrange(28, 32) == spec_u32_to_le_bytes(u.mouse_w),
{
    let words = spec_block_words(u);
    lemma_words_bytes_len(words);
    lemma_words_bytes_index(words, 0);
    lemma_words_bytes_index(words, 1);
    lemma_words_bytes_index(words, 2);
    lemma_words_bytes_index(words, 3);
    lemma_words_bytes_index(words, 4);
    lemma_words_bytes_index(words, 5);
    lemma_words_bytes_index(words, 6);
    lemma_words_bytes_index(words, 7);
}

/// Writing the base block and reading the bytes back yields the identical
/// record: when `bytes` is the wire image of `u` (as `to_bytes` ensures)
/// and `r` is read from those bytes field by field (as `from_bytes`
/// ensures), every field of `r` equals the corresponding field of `u` — a
/// shader stage that echoes its declared inputs sees exactly what the host
/// wrote.
pub proof fn lemma_uniform_round_trip(u: UniformBlock, bytes: Seq<u8>, r: UniformBlock)
    requires
        bytes == spec_block_bytes(u),
        r.res_x == spec_u32_from_le_bytes(bytes.subrange(0, 4)),
        r.res_y == spec_u32_from_le_bytes(bytes.subrange(4, 8)),
        r.res_z == spec_u32_from_le_bytes(bytes.subrange(8, 12)),
        r.time == spec_u32_from_le_bytes(bytes.subrange(12, 16)),
        r.mouse_x == spec_u32_from_le_bytes(bytes.subrange(16, 20)),
        r.mouse_y == spec_u32_from_le_bytes(bytes.subrange(20, 24)),
        r.mouse_z == spec_u32_from_le_bytes(bytes.subrange(24, 28)),
        r.mouse_w == spec_u32_from_le_bytes(bytes.subrange(28, 32)),
    ensures
        r == u,
{
    lemma_auto_spec_u32_to_from_le_bytes();
    lemma_block_bytes_split(u);
    assert(spec_u32_to_le_bytes(u.res_x).len() == 4);
    assert(spec_u32_to_le_bytes(u.res_y).len() == 4);
    assert(spec_u32_to_le_bytes(u.res_z).len() == 4);
    assert(spec_u32_to_le_bytes(u.time).len() == 4);
    assert(spec_u32_to_le_bytes(u.mouse_x).len() == 4);
    assert(spec_u32_to_le_bytes(u.mouse_y).len() == 4);
    assert(spec_u32_to_le_bytes(u.mouse_z).len() == 4);
    assert(spec_u32_to_le_bytes(u.mouse_w).len() == 4);
}

} // verus!
