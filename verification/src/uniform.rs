//! The uniform block that the fragment stage reads, and its bytes.
//!
//! The fragment stage sees two uniform buffers in bind group 0: binding 0
//! holds the resolution as two packed 32-bit words (width, then height),
//! binding 1 holds the frame index as one 32-bit word. Each buffer is its own
//! allocation, so each binding starts at offset 0. Words are stored in the
//! byte order of the host, which is the order in which the device reads them.

use vstd::prelude::*;

verus! {

/// Bind group that carries both uniform buffers.
pub const UNIFORM_BIND_GROUP: u32 = 0;

/// Binding of the resolution buffer.
pub const RESOLUTION_BINDING: u32 = 0;

/// Binding of the frame-index buffer.
pub const FRAME_INDEX_BINDING: u32 = 1;

/// Bytes of the resolution buffer.
pub const RESOLUTION_BYTES: u64 = 8;

/// Bytes of the frame-index buffer.
pub const FRAME_INDEX_BYTES: u64 = 4;

/// The weight of byte `k` of a word, counted from the least significant.
pub open spec fn byte_weight(k: int) -> int {
    if k == 0 {
        1
    } else if k == 1 {
        0x100
    } else if k == 2 {
        0x1_0000
    } else {
        0x100_0000
    }
}

/// Byte `k` of a word, counted from the least significant.
pub open spec fn byte_of(word: u32, k: int) -> u8 {
    let x = word as int;
    if k == 0 {
        (x % 256) as u8
    } else if k == 1 {
        (x / 256 % 256) as u8
    } else if k == 2 {
        (x / 256 / 256 % 256) as u8
    } else {
        (x / 256 / 256 / 256 % 256) as u8
    }
}

/// A word is the weighted sum of its four bytes.
pub proof fn lemma_word_is_sum_of_bytes(word: u32)
    ensures
        word == byte_of(word, 0) * byte_weight(0) + byte_of(word, 1) * byte_weight(1) + byte_of(
            word,
            2,
        ) * byte_weight(2) + byte_of(word, 3) * byte_weight(3),
{
    let x = word as int;
    let a = x / 256;
    let b = a / 256;
    let c = b / 256;
    assert(x == 256 * a + x % 256);
    assert(a == 256 * b + a % 256);
    assert(b == 256 * c + b % 256);
    assert(0 <= c < 256);
}

/// The significance of the byte that the host stores at offset `pos` of a word.
pub open spec fn host_significance(pos: int) -> int {
    match vstd::endian::endianness() {
        vstd::endian::Endian::Little => pos,
        vstd::endian::Endian::Big => 3 - pos,
    }
}

/// The bytes of a run of words as they lie in host memory.
pub open spec fn host_bytes(words: Seq<u32>) -> Seq<u8> {
    Seq::new(4 * words.len(), |k: int| byte_of(words[k / 4], host_significance(k % 4)))
}

/// The word that a reader in host byte order finds at word offset `index`.
pub open spec fn host_word(bytes: Seq<u8>, index: int) -> int {
    bytes[4 * index] * byte_weight(host_significance(0)) + bytes[4 * index + 1] * byte_weight(
        host_significance(1),
    ) + bytes[4 * index + 2] * byte_weight(host_significance(2)) + bytes[4 * index + 3]
        * byte_weight(host_significance(3))
}

/// Reading back what was stored gives the word that was stored.
pub proof fn lemma_host_word_of_host_bytes(words: Seq<u32>, index: int)
    requires
        0 <= index < words.len(),
    ensures
        host_bytes(words).len() == 4 * words.len(),
        host_word(host_bytes(words), index) == words[index],
{
    let bytes = host_bytes(words);
    let w = words[index];
    assert forall|pos: int| 0 <= pos < 4 implies #[trigger] bytes[4 * index + pos] == byte_of(
        w,
        host_significance(pos),
    ) by {
        assert((4 * index + pos) / 4 == index);
        assert((4 * index + pos) % 4 == pos);
    }
    assert(bytes[4 * index + 0] == byte_of(w, host_significance(0)));
    assert(bytes[4 * index + 1] == byte_of(w, host_significance(1)));
    assert(bytes[4 * index + 2] == byte_of(w, host_significance(2)));
    assert(bytes[4 * index + 3] == byte_of(w, host_significance(3)));
    lemma_word_is_sum_of_bytes(w);
}

/// `bytemuck::cast_slice`, from 32-bit words to bytes. The cast reinterprets
/// the memory of the slice: four bytes per word, in the byte order of the
/// host. It cannot fail in this direction, since bytes need no alignment and
/// every word is a whole number of bytes.
#[verifier::external_body]
fn words_as_bytes<'a>(words: &'a [u32]) -> (bytes: &'a [u8])
    ensures
        bytes@ == host_bytes(words@),
{
    bytemuck::cast_slice::<u32, u8>(words)
}

/// What one frame shows to the fragment stage.
#[derive(Clone, Copy, Debug, PartialEq, Eq, Structural)]
pub struct UniformBlock {
    /// Width of the target in pixels.
    pub width: u32,
    /// Height of the target in pixels.
    pub height: u32,
    /// Index of the frame within its sequence.
    pub frame_index: u32,
}

impl UniformBlock {
    /// The words of the resolution buffer.
    pub open spec fn resolution_words(self) -> Seq<u32> {
        seq![self.width, self.height]
    }

    /// The words of the frame-index buffer.
    pub open spec fn frame_index_words(self) -> Seq<u32> {
        seq![self.frame_index]
    }

    /// Contents of the resolution buffer (binding 0).
    pub fn resolution_bytes(&self) -> (bytes: Vec<u8>)
        ensures
            bytes@ == host_bytes(self.resolution_words()),
            bytes@.len() == RESOLUTION_BYTES,
            host_word(bytes@, 0) == self.width,
            host_word(bytes@, 1) == self.height,
    {
        let mut words: Vec<u32> = Vec::new();
        words.push(self.width);
        words.push(self.height);
        proof {
            assert(words@ =~= self.resolution_words());
            lemma_host_word_of_host_bytes(words@, 0);
            lemma_host_word_of_host_bytes(words@, 1);
        }
        vstd::slice::slice_to_vec(words_as_bytes(words.as_slice()))
    }

    /// Contents of the frame-index buffer (binding 1).
    pub fn frame_index_bytes(&self) -> (bytes: Vec<u8>)
        ensures
            bytes@ == host_bytes(self.frame_index_words()),
            bytes@.len() == FRAME_INDEX_BYTES,
            host_word(bytes@, 0) == self.frame_index,
    {
        let mut words: Vec<u32> = Vec::new();
        words.push(self.frame_index);
        proof {
            assert(words@ =~= self.frame_index_words());
            lemma_host_word_of_host_bytes(words@, 0);
        }
        vstd::slice::slice_to_vec(words_as_bytes(words.as_slice()))
    }
}

} // verus!
