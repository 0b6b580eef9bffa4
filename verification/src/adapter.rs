//! Physical devices.

use vstd::prelude::*;
use crate::native;
use crate::queue::QueueFamily;

verus! {

/// A physical device: what was read of it when the devices were enumerated.
#[derive(Clone, Debug)]
pub struct Adapter {
    /// The native handle of the physical device.
    pub handle: u64,
    /// The device number that the native API reports.
    pub device_id: u32,
    /// Whether the instance that enumerated the adapter renders to surfaces.
    pub render: bool,
    pub queue_families: Vec<native::QueueFamilyProperties>,
}

impl Adapter {
    pub fn handle(&self) -> (handle: u64)
        ensures
            handle == self.handle,
    {
        self.handle
    }

    /// The family at position `index` among the families of the adapter.
    pub open spec fn family(&self, index: int) -> QueueFamily {
        QueueFamily {
            physical_device_id: self.device_id,
            family_id: index as u32,
            properties: self.queue_families@[index],
        }
    }

    /// The queue families of the adapter, each numbered by its position.
    pub fn queue_families(&self) -> (families: Vec<QueueFamily>)
        requires
            self.queue_families@.len() <= u32::MAX,
        ensures
            families@ == Seq::new(self.queue_families@.len(), |i: int| self.family(i)),
    {
        let mut families: Vec<QueueFamily> = Vec::new();
        let mut id: usize = 0;
        while id < self.queue_families.len()
            invariant
                self.queue_families@.len() <= u32::MAX,
                id <= self.queue_families@.len(),
                families@ == Seq::new(id as nat, |i: int| self.family(i)),
            decreases self.queue_families@.len() - id,
        {
            families.push(
                QueueFamily {
                    physical_device_id: self.device_id,
                    family_id: id as u32,
                    properties: self.queue_families[id],
                },
            );
            id += 1;
            assert(families@ =~= Seq::new(id as nat, |i: int| self.family(i)));
        }
        families
    }
}

} // verus!
