//! Command-line settings and the byte total derived from them.

use vstd::prelude::*;

verus! {

/// Block size used when none is given: one mebibyte.
pub const DEFAULT_BLOCK_SIZE: usize = 1048576;

/// Settings of one copy, as given on the command line.
#[derive(Debug)]
pub struct AppArgs {
    /// The file to read.
    pub input: String,
    /// The file to write.
    pub output: String,
    /// Size of one block in bytes; one mebibyte when absent.
    pub blocksize: Option<usize>,
    /// Number of blocks to copy; up to the end of the source when absent.
    pub count: Option<usize>,
    /// Whether progress of the flush phase was asked for.
    pub sync_progress: bool,
}

/// The block size that `blocksize` stands for.
pub open spec fn spec_block_size(blocksize: Option<usize>) -> usize {
    match blocksize {
        Some(b) => b,
        None => DEFAULT_BLOCK_SIZE,
    }
}

/// The number of bytes a copy is expected to move: `count` blocks of
/// `block_size` bytes where a count is given, the length of the source
/// otherwise.
pub open spec fn spec_total_expected(block_size: usize, count: Option<usize>, source_len: usize) -> int {
    match count {
        Some(c) => c * block_size,
        None => source_len as int,
    }
}

impl AppArgs {
    /// The block size in effect.
    pub fn block_size(&self) -> (size: usize)
        ensures
            size == spec_block_size(self.blocksize),
    {
        match self.blocksize {
            Some(b) => b,
            None => DEFAULT_BLOCK_SIZE,
        }
    }

    /// The expected byte total of the copy these settings describe, for a
    /// source of `source_len` bytes. `None` exactly when the total does not
    /// fit in a `usize`.
    pub fn total_expected_bytes(&self, source_len: usize) -> (total: Option<usize>)
        ensures
            total == total_expected_bytes(spec_block_size(self.blocksize), self.count, source_len),
    {
        let size: usize = self.block_size();
        total_expected_bytes(size, self.count, source_len)
    }
}

/// The expected byte total of a copy. `None` exactly when `count` blocks of
/// `block_size` bytes are more than a `usize` holds.
#[verifier::when_used_as_spec(spec_checked_total)]
pub fn total_expected_bytes(block_size: usize, count: Option<usize>, source_len: usize) -> (total: Option<usize>)
    ensures
        total == spec_checked_total(block_size, count, source_len),
        spec_total_expected(block_size, count, source_len) <= usize::MAX ==> total == Some(
            spec_total_expected(block_size, count, source_len) as usize,
        ),
        spec_total_expected(block_size, count, source_len) > usize::MAX ==> total.is_none(),
{
    match count {
        Some(c) => c.checked_mul(block_size),
        None => Some(source_len),
    }
}

/// `spec_total_expected` where it fits in a `usize`, `None` where it does not.
pub open spec fn spec_checked_total(block_size: usize, count: Option<usize>, source_len: usize) -> Option<usize> {
    let t = spec_total_expected(block_size, count, source_len);
    if t <= usize::MAX {
        Some(t as usize)
    } else {
        None
    }
}

} // verus!
