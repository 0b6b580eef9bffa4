//! Logical devices: what a device is requested with, and the encoders that a
//! device keeps for its queues.

use vstd::prelude::*;
use std::collections::HashMap;
use crate::adapter::Adapter;
use crate::native;
use crate::queue::{Queue, QueueCreateInfo};

verus! {

/// The status of a native call. The library carries values of this type and
/// never looks inside them.
#[verifier::external_type_specification]
#[verifier::external_body]
pub struct ExNativeStatus(ash::vk::Result);

/// A call into the native API failed.
#[derive(Debug)]
pub enum DeviceError {
    /// The status that the native call returned.
    Other(ash::vk::Result),
}

/// The value of a native call, or its failure as a device error.
pub fn native_result<T>(result: Result<T, ash::vk::Result>) -> (value: Result<T, DeviceError>)
    ensures
        value == match result {
            Ok(v) => Ok::<T, DeviceError>(v),
            Err(status) => Err::<T, DeviceError>(DeviceError::Other(status)),
        },
{
    match result {
        Ok(v) => Ok(v),
        Err(status) => Err(DeviceError::Other(status)),
    }
}

/// Device extensions to enable.
#[derive(Clone, Copy, Debug, PartialEq, Eq, Structural)]
pub struct Extensions {
    pub vk_khr_swapchain: bool,
    pub vk_khr_dynamic_rendering: bool,
    pub vk_khr_timeline_semaphore: bool,
}

impl Extensions {
    /// No extension.
    pub open spec fn spec_none() -> Self {
        Extensions {
            vk_khr_swapchain: false,
            vk_khr_dynamic_rendering: false,
            vk_khr_timeline_semaphore: false,
        }
    }

    /// No extension.
    #[verifier::when_used_as_spec(spec_none)]
    pub fn none() -> (extensions: Self)
        ensures
            extensions == Self::spec_none(),
    {
        Extensions {
            vk_khr_swapchain: false,
            vk_khr_dynamic_rendering: false,
            vk_khr_timeline_semaphore: false,
        }
    }

    /// The extensions that a device is created with when these are asked
    /// for. Timeline semaphores are always enabled. A device of an instance
    /// that renders to surfaces also has the swapchain and dynamic rendering.
    pub open spec fn enabled(self, render: bool) -> Extensions {
        Extensions {
            vk_khr_swapchain: self.vk_khr_swapchain || render,
            vk_khr_dynamic_rendering: self.vk_khr_dynamic_rendering || render,
            vk_khr_timeline_semaphore: true,
        }
    }

    /// The native names of the extensions, in the order of the fields.
    pub open spec fn names(self) -> Seq<&'static str> {
        (if self.vk_khr_swapchain {
            seq!["VK_KHR_swapchain"]
        } else {
            seq![]
        }) + (if self.vk_khr_dynamic_rendering {
            seq!["VK_KHR_dynamic_rendering"]
        } else {
            seq![]
        }) + (if self.vk_khr_timeline_semaphore {
            seq!["VK_KHR_timeline_semaphore"]
        } else {
            seq![]
        })
    }

    /// The native names of the extensions, in the order of the fields.
    pub fn extension_names(&self) -> (names: Vec<&'static str>)
        ensures
            names@ == self.names(),
    {
        let mut names: Vec<&'static str> = Vec::new();
        if self.vk_khr_swapchain {
            names.push("VK_KHR_swapchain");
        }
        if self.vk_khr_dynamic_rendering {
            names.push("VK_KHR_dynamic_rendering");
        }
        if self.vk_khr_timeline_semaphore {
            names.push("VK_KHR_timeline_semaphore");
        }
        assert(names@ =~= self.names());
        names
    }
}

/// Optional features of a physical device to enable.
#[derive(Clone, Copy, Debug, PartialEq, Eq, Structural)]
pub struct Features {
    pub geometry_shader: bool,
    pub tessellation_shader: bool,
    pub sampler_anisotropy: bool,
    pub fill_mode_non_solid: bool,
    pub wide_lines: bool,
    pub depth_clamp: bool,
}

impl Features {
    /// No optional feature.
    pub open spec fn spec_none() -> Self {
        Features {
            geometry_shader: false,
            tessellation_shader: false,
            sampler_anisotropy: false,
            fill_mode_non_solid: false,
            wide_lines: false,
            depth_clamp: false,
        }
    }

    /// No optional feature.
    #[verifier::when_used_as_spec(spec_none)]
    pub fn none() -> (features: Self)
        ensures
            features == Self::spec_none(),
    {
        Features {
            geometry_shader: false,
            tessellation_shader: false,
            sampler_anisotropy: false,
            fill_mode_non_solid: false,
            wide_lines: false,
            depth_clamp: false,
        }
    }
}

/// Describes a device to request. `P` is the type of a queue priority.
#[derive(Debug)]
pub struct DeviceCreateInfo<P> {
    pub extensions: Extensions,
    pub features: Features,
    pub queue_families: Vec<QueueCreateInfo<P>>,
}

impl<P> Default for DeviceCreateInfo<P> {
    fn default() -> (info: Self)
        ensures
            info.extensions == Extensions::none(),
            info.features == Features::none(),
            info.queue_families@.len() == 0,
    {
        DeviceCreateInfo {
            extensions: Extensions::none(),
            features: Features::none(),
            queue_families: Vec::new(),
        }
    }
}

/// One queue to fetch from a created device.
#[derive(Clone, Copy, Debug, PartialEq, Eq, Structural)]
pub struct QueueToGet {
    pub family: u32,
    pub id: u32,
}

impl QueueToGet {
    /// The queue that the device handed out for this request.
    pub fn queue(&self, handle: u64) -> (queue: Queue)
        ensures
            queue.id() == handle,
            queue.family() == self.family,
            queue.id_in_family() == self.id,
    {
        Queue::new(handle, self.family, self.id)
    }
}

/// What a device is created from, and the queues to fetch from it after.
#[derive(Debug)]
pub struct DeviceRequest<P> {
    pub extensions: Extensions,
    pub extension_names: Vec<&'static str>,
    pub features: Features,
    /// Whether the second generation of synchronization commands is enabled.
    pub synchronization2: bool,
    /// Whether timeline semaphores are enabled.
    pub timeline_semaphore: bool,
    /// Whether rendering without render pass objects is enabled.
    pub dynamic_rendering: bool,
    pub queue_infos: Vec<native::DeviceQueueCreateInfo<P>>,
    pub queues_to_get: Vec<QueueToGet>,
}

/// The native queue creation of one family: as many queues as priorities.
pub open spec fn native_queue_info<P>(info: QueueCreateInfo<P>) -> (u32, u32, Seq<P>) {
    (info.family.family_id, info.priorities@.len() as u32, info.priorities@)
}

/// The first `count` queues of a family, by their index in the family.
pub open spec fn family_queues(family: u32, count: int) -> Seq<QueueToGet> {
    Seq::new(count as nat, |id: int| QueueToGet { family, id: id as u32 })
}

/// The queues of the first `count` families: the queues of the first family
/// by their index, then those of the second, and so on.
pub open spec fn queues_of<P>(families: Seq<QueueCreateInfo<P>>, count: int) -> Seq<QueueToGet>
    decreases count,
{
    if count <= 0 {
        Seq::empty()
    } else {
        queues_of(families, count - 1) + family_queues(
            families[count - 1].family.family_id,
            families[count - 1].priorities@.len() as int,
        )
    }
}

/// The number of queues of the first `count` families.
pub open spec fn queue_count_of<P>(families: Seq<QueueCreateInfo<P>>, count: int) -> int
    decreases count,
{
    if count <= 0 {
        0
    } else {
        queue_count_of(families, count - 1) + families[count - 1].priorities@.len()
    }
}

/// As many queues are fetched as priorities are given, over all families.
pub proof fn lemma_queues_of_len<P>(families: Seq<QueueCreateInfo<P>>, count: int)
    ensures
        queues_of(families, count).len() == queue_count_of(families, count),
    decreases count,
{
    if count > 0 {
        lemma_queues_of_len(families, count - 1);
    }
}

fn copy_priorities<P: Copy>(priorities: &Vec<P>) -> (copy: Vec<P>)
    ensures
        copy@ == priorities@,
{
    let mut copy: Vec<P> = Vec::new();
    let mut i: usize = 0;
    while i < priorities.len()
        invariant
            i <= priorities@.len(),
            copy@ == priorities@.take(i as int),
        decreases priorities@.len() - i,
    {
        copy.push(priorities[i]);
        i += 1;
        assert(copy@ =~= priorities@.take(i as int));
    }
    assert(priorities@.take(priorities@.len() as int) =~= priorities@);
    copy
}

impl<P: Copy> DeviceCreateInfo<P> {
    /// No family asks for more queues than 32 bits can count.
    pub open spec fn well_formed(&self) -> bool {
        forall|i: int|
            0 <= i < self.queue_families@.len()
                ==> (#[trigger] self.queue_families@[i]).priorities@.len() <= u32::MAX
    }

    /// Whether the descriptor is well formed.
    pub fn is_well_formed(&self) -> (ok: bool)
        ensures
            ok == self.well_formed(),
    {
        let mut i: usize = 0;
        while i < self.queue_families.len()
            invariant
                i <= self.queue_families@.len(),
                forall|k: int|
                    0 <= k < i ==> (#[trigger] self.queue_families@[k]).priorities@.len()
                        <= u32::MAX,
            decreases self.queue_families@.len() - i,
        {
            if self.queue_families[i].priorities.len() > u32::MAX as usize {
                return false;
            }
            i += 1;
        }
        true
    }
}

impl Adapter {
    /// What a device of this adapter is created from when `info` asks for
    /// it, and the queues to fetch from the device: for every family of
    /// `info`, in order, one queue for each priority.
    pub fn request_device<P: Copy>(&self, info: DeviceCreateInfo<P>) -> (request: DeviceRequest<P>)
        requires
            info.well_formed(),
        ensures
            request.extensions == info.extensions.enabled(self.render),
            request.extension_names@ == request.extensions.names(),
            request.features == info.features,
            request.synchronization2,
            request.timeline_semaphore,
            request.dynamic_rendering,
            request.queue_infos@.len() == info.queue_families@.len(),
            forall|i: int|
                0 <= i < info.queue_families@.len() ==> {
                    &&& (#[trigger] request.queue_infos@[i]).flags == 0
                    &&& request.queue_infos@[i].queue_family_index
                        == info.queue_families@[i].family.family_id
                    &&& request.queue_infos@[i].queue_count
                        == info.queue_families@[i].priorities@.len()
                    &&& request.queue_infos@[i].queue_priorities@
                        == info.queue_families@[i].priorities@
                },
            request.queues_to_get@ == queues_of(
                info.queue_families@,
                info.queue_families@.len() as int,
            ),
    {
        let extensions = Extensions {
            vk_khr_swapchain: info.extensions.vk_khr_swapchain || self.render,
            vk_khr_dynamic_rendering: info.extensions.vk_khr_dynamic_rendering || self.render,
            vk_khr_timeline_semaphore: true,
        };
        let extension_names = extensions.extension_names();
        let mut queues_to_get: Vec<QueueToGet> = Vec::new();
        let mut queue_infos: Vec<native::DeviceQueueCreateInfo<P>> = Vec::new();
        let mut i: usize = 0;
        while i < info.queue_families.len()
            invariant
                info.well_formed(),
                i <= info.queue_families@.len(),
                queue_infos@.len() == i,
                forall|k: int|
                    0 <= k < i ==> {
                        &&& (#[trigger] queue_infos@[k]).flags == 0
                        &&& queue_infos@[k].queue_family_index
                            == info.queue_families@[k].family.family_id
                        &&& queue_infos@[k].queue_count == info.queue_families@[k].priorities@.len()
                        &&& queue_infos@[k].queue_priorities@
                            == info.queue_families@[k].priorities@
                    },
                queues_to_get@ == queues_of(info.queue_families@, i as int),
            decreases info.queue_families@.len() - i,
        {
            let family = &info.queue_families[i];
            let count: usize = family.priorities.len();
            assert(info.queue_families@[i as int].priorities@.len() <= u32::MAX);
            let mut id: usize = 0;
            while id < count
                invariant
                    i < info.queue_families@.len(),
                    *family == info.queue_families@[i as int],
                    count == family.priorities@.len(),
                    count <= u32::MAX,
                    id <= count,
                    queues_to_get@ == queues_of(info.queue_families@, i as int) + family_queues(
                        family.family.family_id,
                        id as int,
                    ),
                decreases count - id,
            {
                queues_to_get.push(QueueToGet { family: family.family.family_id, id: id as u32 });
                id += 1;
                assert(queues_to_get@ =~= queues_of(info.queue_families@, i as int)
                    + family_queues(family.family.family_id, id as int));
            }
            queue_infos.push(
                native::DeviceQueueCreateInfo {
                    flags: 0,
                    queue_family_index: family.family.family_id,
                    queue_count: count as u32,
                    queue_priorities: copy_priorities(&family.priorities),
                },
            );
            i += 1;
        }
        DeviceRequest {
            extensions,
            extension_names,
            features: info.features,
            synchronization2: true,
            timeline_semaphore: true,
            dynamic_rendering: true,
            queue_infos,
            queues_to_get,
        }
    }
}

/// Names the queue that an encoder is asked for.
#[derive(Clone, Copy, Debug)]
pub struct CommandEncoderInfo<'q> {
    pub queue: &'q Queue,
}

/// The encoders of a device after one more is offered for the queue `id`:
/// a queue that has an encoder keeps it, a queue that has none gets the
/// offered one.
pub open spec fn installed<E>(encoders: Map<u64, E>, id: u64, encoder: E) -> Map<u64, E> {
    if encoders.contains_key(id) {
        encoders
    } else {
        encoders.insert(id, encoder)
    }
}

/// The part of a logical device that lives on the host: the command encoders
/// of its queues, at most one for each queue. `E` is the type of an encoder
/// as the device hands it out.
pub struct Device<E> {
    command_encoders: HashMap<u64, E>,
}

impl<E> Device<E> {
    /// The encoders of the device, by the number of their queue.
    pub closed spec fn encoders(&self) -> Map<u64, E> {
        self.command_encoders@
    }

    /// A device without encoders.
    pub fn new() -> (device: Self)
        ensures
            device.encoders() == Map::<u64, E>::empty(),
    {
        Device { command_encoders: HashMap::new() }
    }

    /// The encoder of the queue, if the device has one. The device is not
    /// changed: asking again gives the same encoder.
    pub fn command_encoder(&self, info: CommandEncoderInfo<'_>) -> (encoder: Option<&E>)
        ensures
            match encoder {
                Some(e) => self.encoders().contains_key(info.queue.id()) && *e
                    == self.encoders()[info.queue.id()],
                None => !self.encoders().contains_key(info.queue.id()),
            },
    {
        broadcast use vstd::std_specs::hash::group_hash_axioms;

        self.command_encoders.get(&info.queue.id())
    }

    /// What the command pool of a new encoder for the queue is created from:
    /// a pool of the queue's family whose buffers can be reset one by one.
    pub fn allocate_command_encoder(&self, info: CommandEncoderInfo<'_>) -> (pool:
        native::CommandPoolCreateInfo)
        ensures
            pool.flags == native::COMMAND_POOL_CREATE_RESET_COMMAND_BUFFER,
            pool.queue_family_index == info.queue.family(),
    {
        native::CommandPoolCreateInfo {
            flags: native::COMMAND_POOL_CREATE_RESET_COMMAND_BUFFER,
            queue_family_index: info.queue.family(),
        }
    }

    /// Offers an encoder for the queue. A queue that has an encoder keeps
    /// it, and `false` is returned; a queue that has none gets this one.
    pub fn install_command_encoder(&mut self, info: CommandEncoderInfo<'_>, encoder: E) -> (fresh:
        bool)
        ensures
            fresh == !old(self).encoders().contains_key(info.queue.id()),
            final(self).encoders() == installed(old(self).encoders(), info.queue.id(), encoder),
    {
        broadcast use vstd::std_specs::hash::group_hash_axioms;

        if self.command_encoders.contains_key(&info.queue.id()) {
            false
        } else {
            self.command_encoders.insert(info.queue.id(), encoder);
            true
        }
    }
}

/// Once a queue has an encoder, it has the same one for good: whatever is
/// offered for the queue later, and whatever is offered for other queues,
/// the encoder of the queue stays the one it got first.
pub proof fn lemma_encoder_is_cached<E>(
    encoders: Map<u64, E>,
    id: u64,
    first: E,
    other: u64,
    later: E,
)
    ensures
        installed(encoders, id, first).contains_key(id),
        installed(installed(encoders, id, first), id, later) == installed(encoders, id, first),
        installed(installed(encoders, id, first), other, later)[id] == installed(
            encoders,
            id,
            first,
        )[id],
        encoders.contains_key(id) ==> installed(encoders, other, later)[id] == encoders[id],
{
}

} // verus!
