//! Memory of resources, and the steps in which a resource that owns memory
//! is created.
//!
//! A buffer or an image is created in several native calls: the object is
//! created, its memory requirements are read, a block is taken from the
//! sub-allocator, a buffer's first contents are written into the block, and
//! the block is bound to the object. Any of the calls may fail. `Creation`
//! decides after each call what comes next, and on a failure names what was
//! acquired so far, so that it is released and nothing half made is left.

use vstd::prelude::*;
use crate::device::DeviceError;
use crate::flags::BufferUsages;
use crate::native;

verus! {

/// A block of device memory that the sub-allocator handed out.
#[derive(Clone, Copy, Debug, PartialEq, Eq, Structural)]
pub struct MemoryBlock {
    /// The native memory object that the block lies in.
    pub memory: u64,
    /// Where the block begins in that object, in bytes.
    pub offset: u64,
    /// Length of the block in bytes.
    pub size: u64,
}

/// Hands a block back to the sub-allocator.
#[derive(Clone, Copy, Debug, PartialEq, Eq, Structural)]
pub struct Deallocate {
    pub block: MemoryBlock,
}

/// A request to the sub-allocator.
#[derive(Clone, Copy, Debug, PartialEq, Eq, Structural)]
pub struct MemoryRequest {
    /// Least size of the block in bytes.
    pub size: u64,
    /// Least alignment of the block, less one.
    pub align_mask: u64,
    /// The usage class of the memory, a mask of the `ALLOC_USAGE` bits.
    pub usage: u8,
    /// The native memory types that the block may lie in, one bit each.
    pub memory_types: u32,
}

/// The usage class of the memory of a buffer. A buffer that the host maps
/// lies in host-visible memory, for download where it is mapped for reading
/// and for upload where it is mapped for writing. Any other buffer lies in
/// memory that the device reaches fastest.
pub open spec fn buffer_alloc_usage(usage: BufferUsages) -> u8 {
    let read = usage.bits & BufferUsages::MAP_READ != 0;
    let write = usage.bits & BufferUsages::MAP_WRITE != 0;
    if read && write {
        0x0e
    } else if read {
        0x06
    } else if write {
        0x0a
    } else {
        native::ALLOC_USAGE_FAST_DEVICE_ACCESS
    }
}

/// The usage class of the memory of a buffer.
pub fn alloc_usage(usage: BufferUsages) -> (class: u8)
    ensures
        class == buffer_alloc_usage(usage),
{
    let read = usage.bits & BufferUsages::MAP_READ != 0;
    let write = usage.bits & BufferUsages::MAP_WRITE != 0;
    if read && write {
        0x0e
    } else if read {
        0x06
    } else if write {
        0x0a
    } else {
        native::ALLOC_USAGE_FAST_DEVICE_ACCESS
    }
}

/// The usage class of a mapped buffer is host access together with download
/// where the buffer is read and upload where it is written, and that of any
/// other buffer is fast device access alone.
pub proof fn lemma_alloc_usage_bits(usage: BufferUsages)
    ensures
        (buffer_alloc_usage(usage) & native::ALLOC_USAGE_HOST_ACCESS != 0) == (usage.bits & (
        BufferUsages::MAP_READ | BufferUsages::MAP_WRITE) != 0),
        (buffer_alloc_usage(usage) & native::ALLOC_USAGE_DOWNLOAD != 0) == (usage.bits
            & BufferUsages::MAP_READ != 0),
        (buffer_alloc_usage(usage) & native::ALLOC_USAGE_UPLOAD != 0) == (usage.bits
            & BufferUsages::MAP_WRITE != 0),
        (buffer_alloc_usage(usage) & native::ALLOC_USAGE_FAST_DEVICE_ACCESS != 0) == (usage.bits & (
        BufferUsages::MAP_READ | BufferUsages::MAP_WRITE) == 0),
{
    let bits = usage.bits;
    assert((bits & (0x1u32 | 0x2u32) != 0) == (bits & 0x1 != 0 || bits & 0x2 != 0))
        by (bit_vector);
    assert(0x0eu8 & 0x02 != 0 && 0x0eu8 & 0x04 != 0 && 0x0eu8 & 0x08 != 0 && 0x0eu8 & 0x01 == 0
        && 0x06u8 & 0x02 != 0 && 0x06u8 & 0x04 != 0 && 0x06u8 & 0x08 == 0 && 0x06u8 & 0x01 == 0
        && 0x0au8 & 0x02 != 0 && 0x0au8 & 0x04 == 0 && 0x0au8 & 0x08 != 0 && 0x0au8 & 0x01 == 0
        && 0x01u8 & 0x02 == 0 && 0x01u8 & 0x04 == 0 && 0x01u8 & 0x08 == 0 && 0x01u8 & 0x01 != 0)
        by (bit_vector);
}

/// The request for the memory of a resource: a block of the size, the
/// alignment and one of the memory types that the native API asks for, in
/// the given usage class.
pub open spec fn request_for(requirements: native::MemoryRequirements, usage: u8) -> MemoryRequest {
    MemoryRequest {
        size: requirements.size,
        align_mask: (requirements.alignment - 1) as u64,
        usage,
        memory_types: requirements.memory_type_bits,
    }
}

/// The request for the memory of a resource.
pub fn memory_request(requirements: native::MemoryRequirements, usage: u8) -> (request:
    MemoryRequest)
    requires
        requirements.alignment >= 1,
    ensures
        request == request_for(requirements, usage),
{
    MemoryRequest {
        size: requirements.size,
        align_mask: requirements.alignment - 1,
        usage,
        memory_types: requirements.memory_type_bits,
    }
}

/// How far the creation of a resource has come.
#[derive(Clone, Copy, Debug, PartialEq, Eq, Structural)]
pub enum Stage {
    /// Nothing was asked of the native API yet.
    Start,
    /// The native object is being created.
    Creating,
    /// The memory requirements of the object are being read.
    Querying,
    /// The block is being allocated.
    Allocating,
    /// The first contents are being written into the block.
    Writing,
    /// The block is being bound to the object.
    Binding,
    /// The resource is made, or its creation has failed.
    Finished,
}

/// What the native API or the sub-allocator answered.
#[derive(Debug)]
pub enum Event {
    /// The creation begins.
    Begin,
    /// The native object was created, with this handle, or was not.
    Created(Result<u64, ash::vk::Result>),
    /// The memory requirements of the object.
    Requirements(native::MemoryRequirements),
    /// The block was allocated, or was not.
    Allocated(Result<MemoryBlock, ash::vk::Result>),
    /// The contents were written, or were not.
    Written(Result<(), ash::vk::Result>),
    /// The block was bound, or was not.
    Bound(Result<(), ash::vk::Result>),
}

/// What to do next.
#[derive(Debug)]
pub enum Step<'a> {
    /// Create the native object.
    Create,
    /// Read the memory requirements of the object.
    Query { object: u64 },
    /// Allocate a block.
    Allocate(MemoryRequest),
    /// Write the bytes into the block, from the given offset in the block
    /// on.
    Write { block: MemoryBlock, offset: u64, bytes: &'a [u8] },
    /// Bind the object to the block's memory at the block's offset.
    Bind { object: u64, memory: u64, offset: u64 },
    /// The resource is made of this object and this block.
    Done { object: u64, block: MemoryBlock },
    /// The creation has failed. The block, if one is named, goes back to the
    /// sub-allocator, then the object, if one is named, is destroyed, and
    /// the error is reported.
    Fail { error: DeviceError, free: Option<MemoryBlock>, destroy: Option<u64> },
}

/// The creation of one resource.
#[derive(Clone, Copy, Debug, PartialEq, Eq)]
pub struct Creation<'a> {
    pub stage: Stage,
    /// The usage class of the memory of the resource.
    pub usage: u8,
    /// The bytes that the resource holds at first.
    pub contents: &'a [u8],
    /// The native object, once it is created.
    pub object: u64,
    /// The block, once it is allocated.
    pub block: MemoryBlock,
}

impl<'a> Creation<'a> {
    /// Whether `event` is the answer that the creation waits for.
    pub open spec fn expects(self, event: Event) -> bool {
        match (self.stage, event) {
            (Stage::Start, Event::Begin) => true,
            (Stage::Creating, Event::Created(_)) => true,
            (Stage::Querying, Event::Requirements(requirements)) => requirements.alignment >= 1,
            (Stage::Allocating, Event::Allocated(_)) => true,
            (Stage::Writing, Event::Written(_)) => true,
            (Stage::Binding, Event::Bound(_)) => true,
            _ => false,
        }
    }

    /// The creation after `event`, and what to do next.
    pub open spec fn next(self, event: Event) -> (Creation<'a>, Step<'a>) {
        match event {
            Event::Begin => (Creation { stage: Stage::Creating, ..self }, Step::Create),
            Event::Created(Ok(object)) => (
                Creation { stage: Stage::Querying, object, ..self },
                Step::Query { object },
            ),
            Event::Created(Err(status)) => (
                Creation { stage: Stage::Finished, ..self },
                Step::Fail { error: DeviceError::Other(status), free: None, destroy: None },
            ),
            Event::Requirements(requirements) => (
                Creation { stage: Stage::Allocating, ..self },
                Step::Allocate(request_for(requirements, self.usage)),
            ),
            Event::Allocated(Ok(block)) => if self.contents@.len() > 0 {
                (
                    Creation { stage: Stage::Writing, block, ..self },
                    Step::Write { block, offset: 0, bytes: self.contents },
                )
            } else {
                (
                    Creation { stage: Stage::Binding, block, ..self },
                    Step::Bind { object: self.object, memory: block.memory, offset: block.offset },
                )
            },
            Event::Allocated(Err(status)) => (
                Creation { stage: Stage::Finished, ..self },
                Step::Fail {
                    error: DeviceError::Other(status),
                    free: None,
                    destroy: Some(self.object),
                },
            ),
            Event::Written(Ok(_)) => (
                Creation { stage: Stage::Binding, ..self },
                Step::Bind {
                    object: self.object,
                    memory: self.block.memory,
                    offset: self.block.offset,
                },
            ),
            Event::Written(Err(status)) | Event::Bound(Err(status)) => (
                Creation { stage: Stage::Finished, ..self },
                Step::Fail {
                    error: DeviceError::Other(status),
                    free: Some(self.block),
                    destroy: Some(self.object),
                },
            ),
            Event::Bound(Ok(_)) => (
                Creation { stage: Stage::Finished, ..self },
                Step::Done { object: self.object, block: self.block },
            ),
        }
    }

    /// Begins the creation of a resource whose memory is of the usage class
    /// `usage` and that holds `contents` at first.
    pub fn new(usage: u8, contents: &'a [u8]) -> (creation: Self)
        ensures
            creation == (Creation {
                stage: Stage::Start,
                usage,
                contents,
                object: native::NULL_HANDLE,
                block: MemoryBlock { memory: native::NULL_HANDLE, offset: 0, size: 0 },
            }),
    {
        Creation {
            stage: Stage::Start,
            usage,
            contents,
            object: native::NULL_HANDLE,
            block: MemoryBlock { memory: native::NULL_HANDLE, offset: 0, size: 0 },
        }
    }

    /// Whether `event` is the answer that the creation waits for.
    pub fn is_expected(&self, event: &Event) -> (ok: bool)
        ensures
            ok == self.expects(*event),
    {
        match (self.stage, event) {
            (Stage::Start, Event::Begin) => true,
            (Stage::Creating, Event::Created(_)) => true,
            (Stage::Querying, Event::Requirements(requirements)) => requirements.alignment >= 1,
            (Stage::Allocating, Event::Allocated(_)) => true,
            (Stage::Writing, Event::Written(_)) => true,
            (Stage::Binding, Event::Bound(_)) => true,
            _ => false,
        }
    }

    /// Takes the answer to the last step and says what to do next.
    pub fn advance(&mut self, event: Event) -> (step: Step<'a>)
        requires
            old(self).expects(event),
        ensures
            (*final(self), step) == old(self).next(event),
    {
        match event {
            Event::Begin => {
                self.stage = Stage::Creating;
                Step::Create
            },
            Event::Created(Ok(object)) => {
                self.stage = Stage::Querying;
                self.object = object;
                Step::Query { object }
            },
            Event::Created(Err(status)) => {
                self.stage = Stage::Finished;
                Step::Fail { error: DeviceError::Other(status), free: None, destroy: None }
            },
            Event::Requirements(requirements) => {
                self.stage = Stage::Allocating;
                Step::Allocate(memory_request(requirements, self.usage))
            },
            Event::Allocated(Ok(block)) => {
                self.block = block;
                if self.contents.len() > 0 {
                    self.stage = Stage::Writing;
                    Step::Write { block, offset: 0, bytes: self.contents }
                } else {
                    self.stage = Stage::Binding;
                    Step::Bind { object: self.object, memory: block.memory, offset: block.offset }
                }
            },
            Event::Allocated(Err(status)) => {
                self.stage = Stage::Finished;
                Step::Fail {
                    error: DeviceError::Other(status),
                    free: None,
                    destroy: Some(self.object),
                }
            },
            Event::Written(Ok(_)) => {
                self.stage = Stage::Binding;
                Step::Bind {
                    object: self.object,
                    memory: self.block.memory,
                    offset: self.block.offset,
                }
            },
            Event::Written(Err(status)) => {
                self.stage = Stage::Finished;
                Step::Fail {
                    error: DeviceError::Other(status),
                    free: Some(self.block),
                    destroy: Some(self.object),
                }
            },
            Event::Bound(Ok(_)) => {
                self.stage = Stage::Finished;
                Step::Done { object: self.object, block: self.block }
            },
            Event::Bound(Err(status)) => {
                self.stage = Stage::Finished;
                Step::Fail {
                    error: DeviceError::Other(status),
                    free: Some(self.block),
                    destroy: Some(self.object),
                }
            },
        }
    }
}

/// What a creation holds of the native API at a stage: the object from the
/// moment it is created, the block from the moment it is allocated.
pub open spec fn holds_object(stage: Stage) -> bool {
    stage == Stage::Querying || stage == Stage::Allocating || stage == Stage::Writing || stage
        == Stage::Binding
}

pub open spec fn holds_block(stage: Stage) -> bool {
    stage == Stage::Writing || stage == Stage::Binding
}

/// Nothing is left half made. A step that fails names the object exactly
/// where the creation holds one, and the block exactly where it holds one;
/// they are the object that was created and the block that was allocated.
/// After the failure the creation is finished.
pub proof fn lemma_failure_releases(creation: Creation<'_>, event: Event)
    requires
        creation.expects(event),
        creation.next(event).1 is Fail,
    ensures
        creation.next(event).0.stage == Stage::Finished,
        creation.next(event).1->destroy == (if holds_object(creation.stage) {
            Some(creation.object)
        } else {
            None
        }),
        creation.next(event).1->free == (if holds_block(creation.stage) {
            Some(creation.block)
        } else {
            None
        }),
{
}

/// What is written is the contents, whole, at the beginning of the block
/// that was just allocated; and it is written exactly where there are
/// contents.
pub proof fn lemma_contents_written(creation: Creation<'_>, event: Event)
    requires
        creation.expects(event),
    ensures
        creation.next(event).1 is Write <==> (event matches Event::Allocated(Ok(_))
            && creation.contents@.len() > 0),
        creation.next(event).1 matches Step::Write { block, offset, bytes } ==> event
            == Event::Allocated(Ok(block)) && offset == 0 && bytes == creation.contents,
{
}

/// A step fails exactly where the native API or the sub-allocator reports a
/// failure, and with the reported status.
pub proof fn lemma_failure_reported(creation: Creation<'_>, event: Event)
    requires
        creation.expects(event),
    ensures
        creation.next(event).1 is Fail <==> (event matches Event::Created(Err(_)) || event matches Event::Allocated(
            Err(_),
        ) || event matches Event::Written(Err(_)) || event matches Event::Bound(Err(_))),
{
}

/// A resource is done exactly when the block is bound, and is then made of
/// the object that was created and the block that was allocated.
pub proof fn lemma_done_when_bound(creation: Creation<'_>, event: Event)
    requires
        creation.expects(event),
    ensures
        creation.next(event).1 is Done <==> event matches Event::Bound(Ok(_)),
        creation.next(event).1 is Done ==> creation.next(event).1 == (Step::Done {
            object: creation.object,
            block: creation.block,
        }),
{
}

} // verus!
