//! Capability enumeration: accepting the driver's device list and capturing
//! an immutable capability snapshot per physical device.

use vstd::prelude::*;
use crate::status::{Error, INCOMPLETE, SUCCESS};

verus! {

/// How many physical devices the enumeration probe can hold.  A driver
/// reporting more than this is answered with an error, never with a silently
/// truncated list.
pub const PROBE_CAPACITY: u32 = 4;

/// A device's hard limits, fixed at enumeration time.  The driver's limits
/// block goes on far beyond these (fine-grained descriptor, viewport and
/// precision bounds); this record carries its leading image and buffer
/// limits, which is what sizing decisions consult.
#[derive(Clone, Copy, PartialEq, Eq, Structural, Debug)]
pub struct DeviceLimits {
    /// Largest supported one-dimensional image extent.
    pub max_image_dimension_1d: u32,
    /// Largest supported two-dimensional image extent.
    pub max_image_dimension_2d: u32,
    /// Largest supported three-dimensional image extent.
    pub max_image_dimension_3d: u32,
    /// Largest supported cube-map image extent.
    pub max_image_dimension_cube: u32,
    /// Largest supported number of image array layers.
    pub max_image_array_layers: u32,
    /// Largest supported texel-buffer element count.
    pub max_texel_buffer_elements: u32,
    /// Largest supported uniform-buffer binding range, in bytes.
    pub max_uniform_buffer_range: u32,
    /// Largest supported storage-buffer binding range, in bytes.
    pub max_storage_buffer_range: u32,
    /// Largest supported push-constant block, in bytes.
    pub max_push_constants_size: u32,
    /// How many device memory allocations can live at once.
    pub max_memory_allocation_count: u32,
    /// How many sampler objects can live at once.
    pub max_sampler_allocation_count: u32,
}

/// A device's static capability record: identity and limits, fixed at
/// enumeration time.  The driver's record also carries a human-readable
/// device name and a pipeline-cache identifier; those stay with the shell,
/// which owns all presentation of driver text.
#[derive(Clone, Copy, PartialEq, Eq, Structural, Debug)]
pub struct DeviceProperties {
    /// The highest API version the device supports.
    pub api_version: u32,
    /// The driver's own version number.
    pub driver_version: u32,
    /// The device vendor's identifier.
    pub vendor_id: u32,
    /// The vendor's identifier for the device.
    pub device_id: u32,
    /// The kind of device (integrated, discrete, virtual, CPU, other).
    pub device_type: u32,
    /// The device's hard limits.
    pub limits: DeviceLimits,
}

/// One queue family: a group of command-submission queues sharing capability
/// flags.
#[derive(Clone, Copy, PartialEq, Eq, Structural, Debug)]
pub struct QueueFamily {
    /// The family's capability flags (graphics, compute, transfer, ...).
    pub queue_flags: u32,
    /// How many queues the family offers.
    pub queue_count: u32,
    /// How many bits of a timestamp query are valid on these queues.
    pub timestamp_valid_bits: u32,
}

/// One memory type: flags plus the heap it allocates from.
#[derive(Clone, Copy, PartialEq, Eq, Structural, Debug)]
pub struct MemoryType {
    /// The type's property flags (device-local, host-visible, ...).
    pub property_flags: u32,
    /// The index of the heap this type allocates from.
    pub heap_index: u32,
}

/// One memory heap: its size and flags.
#[derive(Clone, Copy, PartialEq, Eq, Structural, Debug)]
pub struct MemoryHeap {
    /// The heap's size in bytes.
    pub size: u64,
    /// The heap's flags (device-local, ...).
    pub flags: u32,
}

/// A device's memory-region descriptor table.
pub struct MemoryProperties {
    /// The memory types the device offers.
    pub memory_types: Vec<MemoryType>,
    /// The memory heaps the device offers.
    pub memory_heaps: Vec<MemoryHeap>,
}

/// Everything the enumerator queried about one physical device, as the
/// driver answered it: the four read-only queries plus, for the queue
/// families, the count-only first phase.
pub struct DeviceQueryData {
    /// The driver-owned device handle.
    pub handle: u64,
    /// The static capability record.
    pub properties: DeviceProperties,
    /// What the count-only queue-family query returned.
    pub queue_family_count: u32,
    /// What the follow-up fill query returned.
    pub queue_families: Vec<QueueFamily>,
    /// The memory-region descriptor table.
    pub memory: MemoryProperties,
    /// The supported feature flags, one bit per boolean capability.
    pub features: u64,
}

/// Whether the two phases of the queue-family query agree: the count-only
/// query and the fill query must have reported the same number of
/// descriptors.
pub open spec fn query_consistent(q: DeviceQueryData) -> bool {
    q.queue_family_count == q.queue_families@.len()
}

/// An immutable per-device capability snapshot.  Created once via
/// enumeration and never mutated; the underlying device handle is
/// driver-owned, not process-owned.
pub struct PhysicalDeviceInfo {
    /// The driver-owned device handle.
    pub device: u64,
    /// The static capability record.
    pub properties: DeviceProperties,
    /// The queue-family descriptors, in the driver's order.
    pub queue_families: Vec<QueueFamily>,
    /// The memory-region descriptor table.
    pub memory: MemoryProperties,
    /// The supported feature flags, one bit per boolean capability.
    pub features: u64,
}

/// Whether `info` is the snapshot that `q` describes: every captured field
/// taken from the query answers unchanged.
pub open spec fn snapshot_of(info: PhysicalDeviceInfo, q: DeviceQueryData) -> bool {
    &&& info.device == q.handle
    &&& info.properties == q.properties
    &&& info.queue_families@ == q.queue_families@
    &&& info.memory.memory_types@ == q.memory.memory_types@
    &&& info.memory.memory_heaps@ == q.memory.memory_heaps@
    &&& info.features == q.features
}

impl PhysicalDeviceInfo {
    /// Captures one device's snapshot from the driver's query answers.
    ///
    /// The two-phase queue-family query must be consistent: the snapshot is
    /// returned exactly when the fill query produced as many descriptors as
    /// the count-only query announced.  A mismatch is surfaced as the
    /// `incomplete` category, never silently truncated.
    pub fn new(q: DeviceQueryData) -> (r: Result<PhysicalDeviceInfo, Error>)
        ensures
            (r is Ok) == query_consistent(q),
            query_consistent(q) ==> (r matches Ok(info)
                && snapshot_of(info, q)
                && info.queue_families@.len() == q.queue_family_count),
            !query_consistent(q) ==> r == Err::<PhysicalDeviceInfo, Error>(Error(INCOMPLETE)),
    {
        if q.queue_families.len() as u64 != q.queue_family_count as u64 {
            return Err(Error(INCOMPLETE));
        }
        Ok(
            PhysicalDeviceInfo {
                device: q.handle,
                properties: q.properties,
                queue_families: q.queue_families,
                memory: q.memory,
                features: q.features,
            },
        )
    }
}

/// Accepts the driver's answer to the device-enumeration call: its status
/// and the device count it reported against the probe's capacity.
///
/// The count is returned exactly when the driver reported success and the
/// count fits the probe.  A non-success status is fatal and reported
/// unchanged; a count beyond [`PROBE_CAPACITY`] is surfaced as the
/// `incomplete` category, so that a full probe is never mistaken for a
/// driver with exactly that many devices.
pub fn accept_enumeration(status: i32, reported_count: u32, capacity: u32) -> (r: Result<
    u32,
    Error,
>)
    ensures
        (r is Ok) == (status == SUCCESS && reported_count <= capacity),
        status == SUCCESS && reported_count <= capacity ==> r == Ok::<u32, Error>(reported_count),
        status != SUCCESS ==> r == Err::<u32, Error>(Error(status)),
        status == SUCCESS && reported_count > capacity ==> r == Err::<u32, Error>(
            Error(INCOMPLETE),
        ),
{
    if status != SUCCESS {
        Err(Error(status))
    } else if reported_count > capacity {
        Err(Error(INCOMPLETE))
    } else {
        Ok(reported_count)
    }
}

} // verus!
