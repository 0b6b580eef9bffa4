//! Queue families and queues.

use vstd::prelude::*;
use crate::command::CommandBuffer;
use crate::native;
use crate::sync::{BinarySemaphore, Fence};

verus! {

/// One queue family of a physical device.
#[derive(Clone, Copy, Debug, PartialEq, Eq, Structural)]
pub struct QueueFamily {
    pub physical_device_id: u32,
    pub family_id: u32,
    pub properties: native::QueueFamilyProperties,
}

impl QueueFamily {
    /// Whether the queues of the family take graphics commands.
    pub fn supports_graphics(&self) -> (supported: bool)
        ensures
            supported == (self.properties.queue_flags & native::QUEUE_GRAPHICS != 0),
    {
        self.properties.queue_flags & native::QUEUE_GRAPHICS != 0
    }

    /// Whether the queues of the family take compute commands.
    pub fn supports_compute(&self) -> (supported: bool)
        ensures
            supported == (self.properties.queue_flags & native::QUEUE_COMPUTE != 0),
    {
        self.properties.queue_flags & native::QUEUE_COMPUTE != 0
    }

    /// Whether the queues of the family take transfer commands.
    pub fn supports_transfer(&self) -> (supported: bool)
        ensures
            supported == (self.properties.queue_flags & native::QUEUE_TRANSFER != 0),
    {
        self.properties.queue_flags & native::QUEUE_TRANSFER != 0
    }
}

/// The queues to create in one family, one for each priority. `P` is the
/// type of a priority.
#[derive(Debug)]
pub struct QueueCreateInfo<P> {
    pub family: QueueFamily,
    pub priorities: Vec<P>,
}

impl<P> QueueCreateInfo<P> {
    pub fn new(family: QueueFamily, priorities: Vec<P>) -> (info: Self)
        ensures
            info.family == family,
            info.priorities == priorities,
    {
        QueueCreateInfo { family, priorities }
    }
}

/// A submission channel of a device. A queue is made once, by `new`, and its
/// family and its index in the family never change.
#[derive(Clone, Copy, Debug, PartialEq, Eq, Structural)]
pub struct Queue {
    id: u64,
    family: u32,
    id_in_family: u32,
}

impl Queue {
    /// The queue with the native handle `id`, which is the queue with the
    /// index `id_in_family` in the family `family`.
    pub fn new(id: u64, family: u32, id_in_family: u32) -> (queue: Queue)
        ensures
            queue.id() == id,
            queue.family() == family,
            queue.id_in_family() == id_in_family,
    {
        Queue { id, family, id_in_family }
    }

    pub closed spec fn spec_id(&self) -> u64 {
        self.id
    }

    pub closed spec fn spec_family(&self) -> u32 {
        self.family
    }

    pub closed spec fn spec_id_in_family(&self) -> u32 {
        self.id_in_family
    }

    /// The number that identifies the queue among the queues of its device:
    /// its native handle.
    #[verifier::when_used_as_spec(spec_id)]
    pub fn id(&self) -> (id: u64)
        ensures
            id == self.id(),
    {
        self.id
    }

    /// The family of the queue.
    #[verifier::when_used_as_spec(spec_family)]
    pub fn family(&self) -> (family: u32)
        ensures
            family == self.family(),
    {
        self.family
    }

    /// The index of the queue in its family.
    #[verifier::when_used_as_spec(spec_id_in_family)]
    pub fn id_in_family(&self) -> (index: u32)
        ensures
            index == self.id_in_family(),
    {
        self.id_in_family
    }

    /// The one native submission that runs the finished command buffers, in
    /// their order, after the semaphores of `wait` are signaled; it signals
    /// the semaphores of `signal`, and the fence if one is given. Every
    /// command of the submission waits for every semaphore of `wait`.
    pub fn submit(
        &self,
        buffers: Vec<CommandBuffer>,
        signal: &[&BinarySemaphore],
        wait: &[&BinarySemaphore],
        fence: Option<&Fence>,
    ) -> (submission: native::SubmitInfo)
        ensures
            submission.command_buffers@ == Seq::new(buffers@.len(), |i: int| buffers@[i].handle),
            submission.signal_semaphores@ == Seq::new(signal@.len(), |i: int| signal@[i].handle),
            submission.wait_semaphores@ == Seq::new(wait@.len(), |i: int| wait@[i].handle),
            submission.wait_dst_stage_masks@ == Seq::new(
                wait@.len(),
                |i: int| native::PIPELINE_STAGE_ALL_COMMANDS,
            ),
            submission.fence == match fence {
                Some(f) => f.handle,
                None => native::NULL_HANDLE,
            },
    {
        let mut command_buffers: Vec<u64> = Vec::new();
        let mut i: usize = 0;
        while i < buffers.len()
            invariant
                i <= buffers@.len(),
                command_buffers@ == Seq::new(i as nat, |k: int| buffers@[k].handle),
            decreases buffers@.len() - i,
        {
            command_buffers.push(buffers[i].handle);
            i += 1;
            assert(command_buffers@ =~= Seq::new(i as nat, |k: int| buffers@[k].handle));
        }
        let mut stages: Vec<u32> = Vec::new();
        let mut j: usize = 0;
        while j < wait.len()
            invariant
                j <= wait@.len(),
                stages@ == Seq::new(j as nat, |k: int| native::PIPELINE_STAGE_ALL_COMMANDS),
            decreases wait@.len() - j,
        {
            stages.push(native::PIPELINE_STAGE_ALL_COMMANDS);
            j += 1;
            assert(stages@ =~= Seq::new(j as nat, |k: int| native::PIPELINE_STAGE_ALL_COMMANDS));
        }
        native::SubmitInfo {
            command_buffers,
            wait_dst_stage_masks: stages,
            wait_semaphores: semaphore_handles(wait),
            signal_semaphores: semaphore_handles(signal),
            fence: match fence {
                Some(f) => f.handle,
                None => native::NULL_HANDLE,
            },
        }
    }
}

fn semaphore_handles(semaphores: &[&BinarySemaphore]) -> (handles: Vec<u64>)
    ensures
        handles@ == Seq::new(semaphores@.len(), |i: int| semaphores@[i].handle),
{
    let mut handles: Vec<u64> = Vec::new();
    let mut i: usize = 0;
    while i < semaphores.len()
        invariant
            i <= semaphores@.len(),
            handles@ == Seq::new(i as nat, |k: int| semaphores@[k].handle),
        decreases semaphores@.len() - i,
    {
        handles.push(semaphores[i].handle);
        i += 1;
        assert(handles@ =~= Seq::new(i as nat, |k: int| semaphores@[k].handle));
    }
    handles
}

} // verus!
