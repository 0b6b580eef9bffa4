//! Buffers: linear memory of the device, created with their first contents.

use vstd::prelude::*;
use crate::conv::{map_buffer_usage, map_sharing_mode, native_buffer_usage, native_sharing_mode};
use crate::device::Device;
use crate::flags::BufferUsages;
use crate::memory::{
    alloc_usage, buffer_alloc_usage, Creation, Deallocate, MemoryBlock, Stage,
};
use crate::native;
use crate::types::{SharingMode, COPY_BUFFER_ALIGNMENT};

verus! {

/// Describes a buffer to create, with the bytes that it holds at first.
#[derive(Clone, Copy, Debug)]
pub struct BufferInitInfo<'a> {
    pub label: Option<&'a str>,
    pub contents: &'a [u8],
    pub usage: BufferUsages,
    pub sharing: SharingMode,
}

/// A buffer: the native buffer and the memory block that it owns until it is
/// freed.
#[derive(Debug, PartialEq, Eq)]
pub struct Buffer {
    pub handle: u64,
    pub block: MemoryBlock,
}

/// The size of a buffer that holds `len` bytes: `len` rounded up to the copy
/// alignment, and one alignment unit for no bytes at all.
pub open spec fn padded_size(len: nat) -> nat {
    if len == 0 {
        4
    } else {
        ((len + 3) / 4 * 4) as nat
    }
}

/// The padded size is the least multiple of four that is at least four and
/// at least the length.
pub proof fn lemma_padded_size_is_least(len: nat, other: nat)
    ensures
        padded_size(len) % 4 == 0,
        padded_size(len) >= len,
        padded_size(len) >= 4,
        padded_size(len) < len + 4 || len == 0,
        other % 4 == 0 && other >= len && other >= 4 ==> padded_size(len) <= other,
{
}

/// The size of a buffer that holds `len` bytes.
pub fn buffer_size(len: u64) -> (size: u64)
    requires
        len <= u64::MAX - 3,
    ensures
        size == padded_size(len as nat),
{
    if len == 0 {
        COPY_BUFFER_ALIGNMENT
    } else {
        (len + (COPY_BUFFER_ALIGNMENT - 1)) / COPY_BUFFER_ALIGNMENT * COPY_BUFFER_ALIGNMENT
    }
}

impl<'a> BufferInitInfo<'a> {
    /// The padded size of the contents fits in 64 bits.
    pub open spec fn well_formed(&self) -> bool {
        self.contents@.len() <= u64::MAX - 3
    }

    /// Whether the descriptor is well formed.
    pub fn is_well_formed(&self) -> (ok: bool)
        ensures
            ok == self.well_formed(),
    {
        self.contents.len() as u64 <= u64::MAX - 3
    }
}

impl<E> Device<E> {
    /// Begins the creation of a buffer with the given first contents. The
    /// native buffer is created with the padded size of the contents, the
    /// native usage and the native sharing mode. Its memory is of the usage
    /// class that the buffer's usage asks for, and the contents are written
    /// into it where there are any.
    pub fn create_buffer_init<'a>(&self, info: &BufferInitInfo<'a>) -> (creation: (
        native::BufferCreateInfo,
        Creation<'a>,
    ))
        requires
            info.well_formed(),
        ensures
            creation.0.size == padded_size(info.contents@.len()),
            creation.0.usage == native_buffer_usage(info.usage),
            creation.0.sharing_mode == native_sharing_mode(info.sharing),
            creation.1.stage == Stage::Start,
            creation.1.usage == buffer_alloc_usage(info.usage),
            creation.1.contents == info.contents,
    {
        (
            native::BufferCreateInfo {
                size: buffer_size(info.contents.len() as u64),
                usage: map_buffer_usage(info.usage),
                sharing_mode: map_sharing_mode(info.sharing),
            },
            Creation::new(alloc_usage(info.usage), info.contents),
        )
    }

    /// The two steps of freeing a buffer, in their order: the native buffer
    /// is destroyed, then the block that the buffer owned goes back to the
    /// sub-allocator.
    pub fn free_buffer(&self, buffer: Buffer) -> (released: (native::DestroyBuffer, Deallocate))
        ensures
            released.0.buffer == buffer.handle,
            released.1.block == buffer.block,
    {
        (native::DestroyBuffer { buffer: buffer.handle }, Deallocate { block: buffer.block })
    }
}

} // verus!
