use vstd::prelude::*;

verus! {

/// The unit in which the kernel counts allocated blocks, whatever the
/// filesystem's own block size.
pub const BLOCK_UNIT: u64 = 512;

/// The part of the kernel's `statx` record that this library reads.
#[derive(Clone, Copy, Debug, PartialEq, Eq, Structural)]
pub struct Statx {
    /// The reported file size, in bytes.
    pub stx_size: u64,
    /// The number of allocated blocks, in units of [`BLOCK_UNIT`] bytes.
    pub stx_blocks: u64,
    /// The filesystem's preferred block size for I/O, in bytes.
    pub stx_blksize: u32,
}

impl Statx {
    /// The record describes an allocation whose size in bytes fits in a `u64`.
    pub open spec fn well_formed(self) -> bool {
        self.stx_blocks * BLOCK_UNIT <= u64::MAX
    }
}

/// Represents the status information about a file.
#[derive(Clone, Copy, Debug, PartialEq, Eq, Structural)]
pub struct Stat {
    /// The reported file size, in bytes. This will likely differ from
    /// allocated_file_size which returns how many bytes were allocated on
    /// the filesystem.
    pub file_size: u64,
    /// How many bytes were allocated on the filesystem, ignoring sparse
    /// regions.
    pub allocated_file_size: u64,
    /// The cluster size on the filesystem that the file lives on, in bytes.
    pub fs_cluster_size: u32,
}

/// The number of bytes that `blocks` allocated blocks take.
pub open spec fn allocated_bytes(blocks: u64) -> int {
    blocks * BLOCK_UNIT
}

impl Stat {
    /// The status information that a well-formed record describes.
    pub open spec fn translated(s: Statx) -> Stat {
        Stat {
            file_size: s.stx_size,
            allocated_file_size: allocated_bytes(s.stx_blocks) as u64,
            fs_cluster_size: s.stx_blksize,
        }
    }

    /// Translates a kernel record: the size and the cluster size are taken
    /// as they are, the allocated size is the block count times [`BLOCK_UNIT`].
    pub fn from(s: Statx) -> (r: Stat)
        requires
            s.well_formed(),
        ensures
            r == Stat::translated(s),
            r.file_size == s.stx_size,
            r.allocated_file_size == allocated_bytes(s.stx_blocks),
            r.fs_cluster_size == s.stx_blksize,
    {
        Stat {
            file_size: s.stx_size,
            allocated_file_size: s.stx_blocks * BLOCK_UNIT,
            fs_cluster_size: s.stx_blksize,
        }
    }
}

/// Translation is exact: for every well-formed record the size and the cluster
/// size come through unchanged and the allocated size is exactly the block
/// count times [`BLOCK_UNIT`], with no rounding.
pub proof fn lemma_translation_exact(s: Statx)
    requires
        s.well_formed(),
    ensures
        Stat::translated(s).file_size == s.stx_size,
        Stat::translated(s).allocated_file_size == s.stx_blocks * 512,
        Stat::translated(s).fs_cluster_size == s.stx_blksize,
{
}

} // verus!
