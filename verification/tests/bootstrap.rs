//! Bootstrap scenarios: request building, status classification, and the
//! strictly sequenced driver conversation.

use gfx::backend::{create, Backend, DriverEvents};
use gfx::enumerate::{
    accept_enumeration, DeviceLimits, DeviceProperties, DeviceQueryData, MemoryHeap,
    MemoryProperties, MemoryType, PhysicalDeviceInfo, QueueFamily, PROBE_CAPACITY,
};
use gfx::instance::{build_instance_request, nul_terminated, ApplicationInfo, API_VERSION};
use gfx::status::{
    Error, ERROR_INCOMPATIBLE_DRIVER, ERROR_INITIALIZATION_FAILED, ERROR_OUT_OF_HOST_MEMORY,
    INCOMPLETE, SUCCESS,
};

fn sample_limits() -> DeviceLimits {
    DeviceLimits {
        max_image_dimension_1d: 16384,
        max_image_dimension_2d: 16384,
        max_image_dimension_3d: 2048,
        max_image_dimension_cube: 16384,
        max_image_array_layers: 2048,
        max_texel_buffer_elements: 134217728,
        max_uniform_buffer_range: 65536,
        max_storage_buffer_range: 4294967295,
        max_push_constants_size: 256,
        max_memory_allocation_count: 4096,
        max_sampler_allocation_count: 4000,
    }
}

fn sample_properties() -> DeviceProperties {
    DeviceProperties {
        api_version: API_VERSION,
        driver_version: 7,
        vendor_id: 0x10de,
        device_id: 0x1b80,
        device_type: 2,
        limits: sample_limits(),
    }
}

fn sample_memory() -> MemoryProperties {
    MemoryProperties {
        memory_types: vec![
            MemoryType { property_flags: 1, heap_index: 0 },
            MemoryType { property_flags: 6, heap_index: 1 },
        ],
        memory_heaps: vec![
            MemoryHeap { size: 8 << 30, flags: 1 },
            MemoryHeap { size: 16 << 30, flags: 0 },
        ],
    }
}

fn sample_device(handle: u64) -> DeviceQueryData {
    DeviceQueryData {
        handle,
        properties: sample_properties(),
        queue_family_count: 2,
        queue_families: vec![
            QueueFamily { queue_flags: 0xf, queue_count: 16, timestamp_valid_bits: 64 },
            QueueFamily { queue_flags: 0x4, queue_count: 1, timestamp_valid_bits: 0 },
        ],
        memory: sample_memory(),
        features: 0b1011,
    }
}

fn good_events(devices: Vec<DeviceQueryData>) -> DriverEvents {
    let device_count = devices.len() as u32;
    DriverEvents {
        library_handle: Some(0x7000_0000),
        global_entry_addr: Some(0x7000_1000),
        create_instance_status: SUCCESS,
        instance_handle: 0x51,
        enumerate_status: SUCCESS,
        device_count,
        devices,
    }
}

fn demo_app_info() -> ApplicationInfo<'static> {
    ApplicationInfo {
        application_name: "demo",
        application_version: 1,
        engine_name: "core",
        engine_version: 1,
    }
}

#[test]
fn error_categories_cover_the_taxonomy() {
    assert_eq!(Error(0).description(), "success");
    assert_eq!(Error(1).description(), "not ready");
    assert_eq!(Error(2).description(), "timeout");
    assert_eq!(Error(3).description(), "event_set");
    assert_eq!(Error(4).description(), "event_reset");
    assert_eq!(Error(5).description(), "incomplete");
    assert_eq!(Error(-1).description(), "out of host memory");
    assert_eq!(Error(-2).description(), "out of device memory");
    assert_eq!(Error(-3).description(), "initialization failed");
    assert_eq!(Error(-4).description(), "device lost");
    assert_eq!(Error(-5).description(), "memory map failed");
    assert_eq!(Error(-6).description(), "layer not present");
    assert_eq!(Error(-7).description(), "extension not present");
    assert_eq!(Error(-8).description(), "feature not present");
    assert_eq!(Error(-9).description(), "incompatible driver");
    assert_eq!(Error(-10).description(), "too many objects");
    assert_eq!(Error(-11).description(), "format not supported");
    assert_eq!(Error(-1000000000).description(), "surface lost (KHR)");
    assert_eq!(Error(-1000000001).description(), "native window in use (KHR)");
    assert_eq!(Error(1000001003).description(), "suboptimal (KHR)");
    assert_eq!(Error(-1000001004).description(), "out of date (KHR)");
    assert_eq!(Error(-1000003001).description(), "incompatible display (KHR)");
    assert_eq!(Error(-1000011001).description(), "validation failed (EXT)");
    assert_eq!(Error(42).description(), "unknown");
    assert_eq!(Error(-100).description(), "unknown");
}

#[test]
fn nul_terminated_appends_exactly_one_terminator() {
    assert_eq!(nul_terminated("demo"), b"demo\0".to_vec());
    assert_eq!(nul_terminated(""), b"\0".to_vec());
}

#[test]
fn request_carries_app_info_as_terminated_buffers() {
    let request = build_instance_request(Some(demo_app_info()));
    let record = request.application_info.expect("metadata was supplied");
    assert_eq!(record.application_name_z, b"demo\0".to_vec());
    assert_eq!(record.application_version, 1);
    assert_eq!(record.engine_name_z, b"core\0".to_vec());
    assert_eq!(record.engine_version, 1);
    assert_eq!(record.api_version, API_VERSION);
    assert!(request.enabled_layer_names.is_empty());
    assert!(request.enabled_extension_names.is_empty());
}

#[test]
fn request_without_app_info_uses_absent_sentinel() {
    let request = build_instance_request(None);
    assert!(request.application_info.is_none());
    assert!(request.enabled_layer_names.is_empty());
    assert!(request.enabled_extension_names.is_empty());
}

#[test]
fn bootstrap_with_two_devices_captures_both() {
    let events = good_events(vec![sample_device(0xa1), sample_device(0xa2)]);
    let backend: Backend = create(Some(demo_app_info()), events).ok().expect("bootstrap succeeds");
    assert!(backend.devices.len() >= 1);
    assert_eq!(backend.devices.len(), 2);
    assert_eq!(backend.dynamic_lib.handle(), 0x7000_0000);
    assert_eq!(backend.functions.entry_addr(), 0x7000_1000);
    assert_eq!(backend.instance.raw(), 0x51);
    assert_eq!(backend.inst_pointers.instance(), backend.instance.raw());
    let first = &backend.devices[0];
    assert_eq!(first.device, 0xa1);
    assert_eq!(first.properties, sample_properties());
    assert_eq!(first.properties.limits.max_uniform_buffer_range, 65536);
    assert_eq!(first.properties.limits.max_push_constants_size, 256);
    assert_eq!(first.queue_families.len(), 2);
    assert_eq!(first.queue_families[0].queue_count, 16);
    assert_eq!(first.memory.memory_types.len(), 2);
    assert_eq!(first.memory.memory_heaps[1].size, 16 << 30);
    assert_eq!(first.features, 0b1011);
    assert_eq!(backend.devices[1].device, 0xa2);
}

#[test]
fn incompatible_driver_aborts_construction() {
    let mut events = good_events(vec![sample_device(0xa1)]);
    events.create_instance_status = ERROR_INCOMPATIBLE_DRIVER;
    let err = create(None, events).err().expect("creation must abort");
    assert_eq!(err, Error(ERROR_INCOMPATIBLE_DRIVER));
    assert_eq!(err.description(), "incompatible driver");
}

#[test]
fn failed_library_open_is_fatal() {
    let mut events = good_events(vec![]);
    events.library_handle = None;
    let err = create(None, events).err().expect("no driver, no backend");
    assert_eq!(err, Error(ERROR_INITIALIZATION_FAILED));
    assert_eq!(err.description(), "initialization failed");
}

#[test]
fn null_global_entry_point_is_fatal() {
    let mut events = good_events(vec![]);
    events.global_entry_addr = Some(0);
    let err = create(None, events).err().expect("unresolved entry point");
    assert_eq!(err, Error(ERROR_INITIALIZATION_FAILED));
}

#[test]
fn enumeration_failure_keeps_the_driver_status() {
    let mut events = good_events(vec![sample_device(0xa1)]);
    events.enumerate_status = ERROR_OUT_OF_HOST_MEMORY;
    let err = create(None, events).err().expect("enumeration failed");
    assert_eq!(err, Error(ERROR_OUT_OF_HOST_MEMORY));
    assert_eq!(err.description(), "out of host memory");
}

#[test]
fn over_capacity_enumeration_is_flagged() {
    let devices = vec![
        sample_device(1),
        sample_device(2),
        sample_device(3),
        sample_device(4),
        sample_device(5),
    ];
    let events = good_events(devices);
    assert_eq!(events.device_count, PROBE_CAPACITY + 1);
    let err = create(None, events).err().expect("more devices than the probe holds");
    assert_eq!(err, Error(INCOMPLETE));
    assert_eq!(err.description(), "incomplete");
}

#[test]
fn short_filled_enumeration_is_flagged() {
    let mut events = good_events(vec![sample_device(0xa1)]);
    events.device_count = 2;
    let err = create(None, events).err().expect("driver filled fewer records than reported");
    assert_eq!(err, Error(INCOMPLETE));
}

#[test]
fn accept_enumeration_checks_status_and_capacity() {
    assert_eq!(accept_enumeration(SUCCESS, 3, PROBE_CAPACITY), Ok(3));
    assert_eq!(accept_enumeration(SUCCESS, 0, PROBE_CAPACITY), Ok(0));
    assert_eq!(
        accept_enumeration(SUCCESS, PROBE_CAPACITY + 1, PROBE_CAPACITY),
        Err(Error(INCOMPLETE))
    );
    assert_eq!(
        accept_enumeration(ERROR_OUT_OF_HOST_MEMORY, 1, PROBE_CAPACITY),
        Err(Error(ERROR_OUT_OF_HOST_MEMORY))
    );
}

#[test]
fn two_phase_queue_query_must_agree() {
    let mut query = sample_device(0xa1);
    query.queue_family_count = 3;
    let err = PhysicalDeviceInfo::new(query).err().expect("count and fill disagree");
    assert_eq!(err, Error(INCOMPLETE));
    assert_eq!(err.description(), "incomplete");

    let mut events = good_events(vec![sample_device(0xa1)]);
    events.devices[0].queue_family_count = 3;
    let err = create(None, events).err().expect("mismatch is surfaced, not truncated");
    assert_eq!(err, Error(INCOMPLETE));
}

#[test]
fn consistent_queue_query_yields_snapshot() {
    let query = sample_device(0xbeef);
    let info = PhysicalDeviceInfo::new(query).ok().expect("phases agree");
    assert_eq!(info.device, 0xbeef);
    assert_eq!(info.queue_families.len(), 2);
    assert_eq!(info.queue_families[1].queue_flags, 0x4);
}

#[test]
fn teardown_releases_instance_before_library() {
    let events = good_events(vec![sample_device(0xa1)]);
    let backend = create(None, events).ok().expect("bootstrap succeeds");
    let library_handle = backend.dynamic_lib.handle();
    let instance_handle = backend.instance.raw();
    let teardown = backend.teardown();
    assert_eq!(teardown.release_instance.raw(), instance_handle);
    assert_eq!(teardown.unload_library.handle(), library_handle);
}
