//! The backend handle and its one-time, strictly sequenced bootstrap.

use vstd::prelude::*;
use crate::enumerate::{
    query_consistent, snapshot_of, DeviceQueryData, PhysicalDeviceInfo, PROBE_CAPACITY,
};
use crate::instance::{
    build_instance_request, create_instance_step, names_terminable, resolve_instance_table,
    ApplicationInfo, InstanceHandle, InstanceTable,
};
use crate::loader::{accept_library, resolve_global, DriverLibrary, GlobalTable};
use crate::status::{Error, INCOMPLETE, SUCCESS, ERROR_INITIALIZATION_FAILED};

verus! {

/// The outcomes of one bootstrap conversation with the native driver, as
/// plain values: what the shared-library open, the symbol lookup, the
/// instance-creation call, the enumeration call and the per-device queries
/// returned.  The unverified shell performs the calls and hands this record
/// to [`create`], which takes every decision.
pub struct DriverEvents {
    /// The handle from opening the driver's shared library, or `None` where
    /// the open failed.
    pub library_handle: Option<u64>,
    /// The address of the global address-lookup entry point, or `None` where
    /// the symbol lookup failed.
    pub global_entry_addr: Option<u64>,
    /// The status the instance-creation call returned.
    pub create_instance_status: i32,
    /// The instance handle the creation call wrote.
    pub instance_handle: u64,
    /// The status the device-enumeration call returned.
    pub enumerate_status: i32,
    /// The device count the enumeration call reported.
    pub device_count: u32,
    /// The per-device query answers, one record per enumerated handle.
    pub devices: Vec<DeviceQueryData>,
}

/// Whether the driver library was opened.
pub open spec fn library_ok(e: DriverEvents) -> bool {
    e.library_handle is Some
}

/// Whether the global entry point was resolved to a non-null address.
pub open spec fn global_ok(e: DriverEvents) -> bool {
    e.global_entry_addr matches Some(a) && a != 0
}

/// Whether the driver answered instance creation with success.
pub open spec fn instance_ok(e: DriverEvents) -> bool {
    e.create_instance_status == SUCCESS
}

/// Whether the enumeration call succeeded, its reported count fits the
/// probe, and the driver filled exactly as many records as it reported.
pub open spec fn enumeration_ok(e: DriverEvents) -> bool {
    &&& e.enumerate_status == SUCCESS
    &&& e.device_count <= PROBE_CAPACITY
    &&& e.devices@.len() == e.device_count
}

/// Whether every per-device two-phase queue-family query was consistent.
pub open spec fn devices_ok(e: DriverEvents) -> bool {
    forall|i: int| 0 <= i < e.devices@.len() ==> query_consistent(#[trigger] e.devices@[i])
}

/// Whether the whole bootstrap conversation succeeded: every step in the
/// strict sequence library open, symbol resolution, instance creation,
/// enumeration, per-device capture.
pub open spec fn bootstrap_ok(e: DriverEvents) -> bool {
    &&& library_ok(e)
    &&& global_ok(e)
    &&& instance_ok(e)
    &&& enumeration_ok(e)
    &&& devices_ok(e)
}

/// The long-lived backend aggregate: the loaded driver library, the live
/// instance, both function tables, and the captured device snapshots.  It is
/// the single object surviving for the process's GPU-usage lifetime and the
/// sole owner of the library and the instance.
pub struct Backend {
    /// The loaded driver library.
    pub dynamic_lib: DriverLibrary,
    /// The driver's global function table.
    pub functions: GlobalTable,
    /// The live instance handle.
    pub instance: InstanceHandle,
    /// The instance-scoped function table, resolved strictly after the
    /// instance existed.
    pub inst_pointers: InstanceTable,
    /// The captured per-device capability snapshots, in the driver's order.
    pub devices: Vec<PhysicalDeviceInfo>,
}

/// A backend taken apart for release, in the order the driver contract
/// dictates: the instance must be released through the instance-level
/// destroy entry point first, and the library unloaded only afterwards —
/// the inverse of the acquisition order, since a driver entry point must
/// never run after its library is unloaded.
pub struct Teardown {
    /// Released first: the instance handle.
    pub release_instance: InstanceHandle,
    /// Unloaded last, after the instance is released: the driver library.
    pub unload_library: DriverLibrary,
}

impl Backend {
    /// Whether the instance-scoped table is bound to this backend's own
    /// instance.  [`create`] establishes this for every backend it returns:
    /// the table is resolved only from the instance handle that creation
    /// produced.
    pub open spec fn table_bound(&self) -> bool {
        self.inst_pointers.spec_instance() == self.instance.spec_raw()
    }

    /// Tears the backend down, consuming it: the single point where the
    /// instance and the driver library are given up.  Both function tables
    /// and the device snapshots are dropped here; what survives is exactly
    /// the ordered pair of handles the shell must release, and no copy of
    /// either outlives the owner.
    pub fn teardown(self) -> (t: Teardown)
        ensures
            t.release_instance == self.instance,
            t.unload_library == self.dynamic_lib,
    {
        let Backend { dynamic_lib, functions: _, instance, inst_pointers: _, devices: _ } = self;
        Teardown { release_instance: instance, unload_library: dynamic_lib }
    }
}

/// Whether `b` is the backend that the conversation `e` describes: every
/// handle and every snapshot taken from `e` unchanged, and the instance
/// table bound to the created instance.
pub open spec fn backend_matches(b: Backend, e: DriverEvents) -> bool {
    &&& e.library_handle matches Some(h) && b.dynamic_lib.spec_handle() == h
    &&& e.global_entry_addr matches Some(a) && b.functions.spec_entry_addr() == a
    &&& b.instance.spec_raw() == e.instance_handle
    &&& b.table_bound()
    &&& b.devices@.len() == e.devices@.len()
    &&& forall|i: int|
        0 <= i < e.devices@.len() ==> snapshot_of(#[trigger] b.devices@[i], e.devices@[i])
}

/// Bootstraps the backend from optional application metadata and one
/// driver conversation, performing the loader, initializer and enumerator
/// steps in strict sequence.
///
/// There is no partial success: the backend is returned exactly when every
/// step of the conversation succeeded, and it then matches the conversation
/// in every captured field.  In particular the instance-scoped table is
/// resolved only after instance creation reported success, and is bound to
/// exactly that instance.  A failed step is fatal and classified: a failed
/// library open or symbol lookup as `initialization failed`; a rejected
/// instance creation or enumeration by the driver's own status; an
/// over-capacity, short-filled or two-phase-inconsistent enumeration as
/// `incomplete`.
pub fn create(app_info: Option<ApplicationInfo<'_>>, events: DriverEvents) -> (r: Result<
    Backend,
    Error,
>)
    requires
        app_info matches Some(info) ==> names_terminable(info),
    ensures
        (r is Ok) == bootstrap_ok(events),
        r matches Ok(b) ==> backend_matches(b, events),
        !library_ok(events) ==> r == Err::<Backend, Error>(Error(ERROR_INITIALIZATION_FAILED)),
        library_ok(events) && !global_ok(events) ==> r == Err::<Backend, Error>(
            Error(ERROR_INITIALIZATION_FAILED),
        ),
        library_ok(events) && global_ok(events) && !instance_ok(events) ==> r == Err::<
            Backend,
            Error,
        >(Error(events.create_instance_status)),
        library_ok(events) && global_ok(events) && instance_ok(events)
            && events.enumerate_status != SUCCESS ==> r == Err::<Backend, Error>(
            Error(events.enumerate_status),
        ),
        library_ok(events) && global_ok(events) && instance_ok(events)
            && events.enumerate_status == SUCCESS && !(enumeration_ok(events) && devices_ok(
            events,
        )) ==> r == Err::<Backend, Error>(Error(INCOMPLETE)),
{
    let dynamic_lib = match accept_library(events.library_handle) {
        Ok(lib) => lib,
        Err(e) => { return Err(e) },
    };
    let functions = match resolve_global(&dynamic_lib, events.global_entry_addr) {
        Ok(t) => t,
        Err(e) => { return Err(e) },
    };
    let request = build_instance_request(app_info);
    let instance = match create_instance_step(
        &functions,
        &request,
        events.create_instance_status,
        events.instance_handle,
    ) {
        Ok(h) => h,
        Err(e) => { return Err(e) },
    };
    let inst_pointers = resolve_instance_table(&instance);
    let count = match crate::enumerate::accept_enumeration(
        events.enumerate_status,
        events.device_count,
        PROBE_CAPACITY,
    ) {
        Ok(c) => c,
        Err(e) => { return Err(e) },
    };
    let mut pending = events.devices;
    let ghost all_queries = pending@;
    if pending.len() != count as usize {
        return Err(Error(INCOMPLETE));
    }
    let mut devices: Vec<PhysicalDeviceInfo> = Vec::new();
    while pending.len() > 0
        invariant
            library_ok(events),
            global_ok(events),
            instance_ok(events),
            events.enumerate_status == SUCCESS,
            events.device_count <= PROBE_CAPACITY,
            all_queries == events.devices@,
            all_queries.len() == events.device_count,
            devices@.len() + pending@.len() == all_queries.len(),
            pending@ == all_queries.subrange(devices@.len() as int, all_queries.len() as int),
            forall|i: int| 0 <= i < devices@.len() ==> query_consistent(#[trigger] all_queries[i]),
            forall|i: int|
                0 <= i < devices@.len() ==> snapshot_of(#[trigger] devices@[i], all_queries[i]),
        decreases pending@.len(),
    {
        let q = pending.remove(0);
        let info = match PhysicalDeviceInfo::new(q) {
            Ok(info) => info,
            Err(e) => {
                return Err(e);
            },
        };
        devices.push(info);
    }
    Ok(Backend { dynamic_lib, functions, instance, inst_pointers, devices })
}

} // verus!
