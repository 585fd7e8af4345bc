//! A world kept as one machine word for each voxel, in the form in which a
//! compute shader takes it and hands it back.

use vstd::prelude::*;

verus! {

/// A world of `width` by `height` voxels, one `u32` each, row by row.
pub struct VoxelWorld {
    pub data: Vec<u32>,
    pub width: u32,
    pub height: u32,
}

/// The sizes that did not agree when a world was to be loaded from bytes.
#[derive(Clone, Copy, Debug, PartialEq, Eq, Structural)]
pub struct SizeMismatch {
    /// Number of words that the world holds; it takes four bytes for each.
    pub words: usize,
    /// Number of bytes that were given.
    pub bytes: usize,
}

/// Edge of the square of voxels that one workgroup of the shader works on.
pub const WORKGROUP_EDGE: u32 = 16;

/// One byte of a word; place 0 is the least significant.
pub open spec fn word_byte(word: u32, place: int) -> u8 {
    if place == 0 {
        (word % 0x100) as u8
    } else if place == 1 {
        (word / 0x100 % 0x100) as u8
    } else if place == 2 {
        (word / 0x1_0000 % 0x100) as u8
    } else {
        (word / 0x100_0000) as u8
    }
}

/// The bytes of `words`, each word with its least significant byte first.
pub open spec fn little_endian(words: Seq<u32>) -> Seq<u8> {
    Seq::new(4 * words.len(), |i: int| word_byte(words[i / 4], i % 4))
}

/// The bytes of `words`, each word with its most significant byte first.
pub open spec fn big_endian(words: Seq<u32>) -> Seq<u8> {
    Seq::new(4 * words.len(), |i: int| word_byte(words[i / 4], 3 - i % 4))
}

/// Whether `bytes` is what `words` looks like in memory, on a machine of
/// either byte order.
pub open spec fn is_memory_of(bytes: Seq<u8>, words: Seq<u32>) -> bool {
    bytes == little_endian(words) || bytes == big_endian(words)
}

/// `bytemuck::cast_slice` from `u32` to `u8`: the same memory seen as
/// bytes, four for each word, in the byte order of the machine. The cast to
/// a type of alignment 1 and size 1 cannot fail.
#[verifier::external_body]
fn words_as_bytes(words: &[u32]) -> (bytes: &[u8])
    ensures
        is_memory_of(bytes@, words@),
{
    bytemuck::cast_slice::<u32, u8>(words)
}

/// `bytemuck::pod_collect_to_vec` from `u8` to `u32`, for a whole number
/// of words: a new vector whose memory is a copy of `bytes`, so each word is
/// made of four bytes in the byte order of the machine.
#[verifier::external_body]
fn bytes_to_words(bytes: &[u8]) -> (words: Vec<u32>)
    requires
        bytes@.len() % 4 == 0,
    ensures
        is_memory_of(bytes@, words@),
{
    bytemuck::pod_collect_to_vec::<u8, u32>(bytes)
}

/// Memory of `count` words is `4 * count` bytes long.
pub proof fn lemma_memory_len(bytes: Seq<u8>, words: Seq<u32>)
    requires
        is_memory_of(bytes, words),
    ensures
        bytes.len() == 4 * words.len(),
{
}

impl VoxelWorld {
    /// A world of `width` by `height` voxels, all zero.
    pub fn new(width: u32, height: u32) -> (world: Self)
        requires
            width * height <= u32::MAX,
        ensures
            world.width == width,
            world.height == height,
            world.data@ == Seq::new((width * height) as nat, |i: int| 0u32),
    {
        let count = (width * height) as usize;
        let data: Vec<u32> = vec![0u32; count];
        assert(data@ =~= Seq::new((width * height) as nat, |i: int| 0u32));
        VoxelWorld { data, width, height }
    }

    /// Number of workgroups that the shader is started with, along the
    /// columns, the rows and the depth: one for each whole square of
    /// `WORKGROUP_EDGE` voxels.
    pub fn workgroup_count(&self) -> (count: [u32; 3])
        ensures
            count@ == seq![self.width / WORKGROUP_EDGE, self.height / WORKGROUP_EDGE, 1u32],
    {
        let count = [self.width / WORKGROUP_EDGE, self.height / WORKGROUP_EDGE, 1u32];
        assert(count@ =~= seq![self.width / WORKGROUP_EDGE, self.height / WORKGROUP_EDGE, 1u32]);
        count
    }

    /// The voxels as the bytes that they are in memory.
    pub fn as_bytes(&self) -> (bytes: &[u8])
        ensures
            is_memory_of(bytes@, self.data@),
    {
        words_as_bytes(self.data.as_slice())
    }

    /// Takes the voxels from `bytes`, which has to be as long as the world
    /// is in memory. Bytes of another length are refused and the world is
    /// left as it is.
    pub fn load_bytes(&mut self, bytes: &[u8]) -> (done: Result<(), SizeMismatch>)
        ensures
            final(self).width == old(self).width,
            final(self).height == old(self).height,
            bytes@.len() == 4 * old(self).data@.len() ==> done.is_ok() && final(self).data@.len()
                == old(self).data@.len() && is_memory_of(bytes@, final(self).data@),
            bytes@.len() != 4 * old(self).data@.len() ==> final(self).data@ == old(self).data@
                && done == Err::<(), SizeMismatch>(
                SizeMismatch { words: old(self).data.len(), bytes: bytes.len() },
            ),
    {
        if bytes.len() % 4 != 0 || bytes.len() / 4 != self.data.len() {
            return Err(SizeMismatch { words: self.data.len(), bytes: bytes.len() });
        }
        let words = bytes_to_words(bytes);
        proof {
            lemma_memory_len(bytes@, words@);
        }
        self.data = words;
        Ok(())
    }
}

} // verus!
