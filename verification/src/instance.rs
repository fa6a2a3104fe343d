//! Instance initialization: building the create-instance request from
//! optional application metadata, accepting the driver's answer, and
//! resolving the instance-scoped function table.

use vstd::prelude::*;
use vstd::string::{StrSliceExecFns, StringSliceAdditionalSpecFns};
use crate::status::{Error, SUCCESS};

verus! {

/// The API version the bootstrap requests from the driver.
pub const API_VERSION: u32 = 0x400000;

/// Information that can be given to the driver so that it can identify your
/// application.  It is consumed once during instance creation and not
/// retained afterward.
pub struct ApplicationInfo<'a> {
    /// Name of the application.
    pub application_name: &'a str,
    /// An opaque number that contains the version number of the application.
    pub application_version: u32,
    /// Name of the engine used to power the application.
    pub engine_name: &'a str,
    /// An opaque number that contains the version number of the engine.
    pub engine_version: u32,
}

/// Whether `info`'s names are free of interior null bytes.  The driver takes
/// the names as null-terminated buffers, so a name holding a null byte
/// cannot be handed over.
pub open spec fn names_terminable(info: ApplicationInfo<'_>) -> bool {
    &&& !info.application_name.spec_bytes().contains(0u8)
    &&& !info.engine_name.spec_bytes().contains(0u8)
}

/// The application-metadata record of a create-instance request, with the
/// two names already produced as null-terminated byte buffers.
pub struct AppInfoRecord {
    /// The application name's bytes, with a terminating null byte appended.
    pub application_name_z: Vec<u8>,
    /// The application's version number, passed through unchanged.
    pub application_version: u32,
    /// The engine name's bytes, with a terminating null byte appended.
    pub engine_name_z: Vec<u8>,
    /// The engine's version number, passed through unchanged.
    pub engine_version: u32,
    /// The requested API version, always [`API_VERSION`].
    pub api_version: u32,
}

/// A create-instance request.  `application_info` is `None` exactly when the
/// caller supplied no [`ApplicationInfo`]: the driver then receives the null
/// sentinel in its place.
pub struct InstanceRequest {
    /// The optional application metadata.
    pub application_info: Option<AppInfoRecord>,
    /// Names of layers to enable.  Left empty: capability negotiation is not
    /// yet implemented.
    pub enabled_layer_names: Vec<Vec<u8>>,
    /// Names of extensions to enable.  Left empty: capability negotiation is
    /// not yet implemented.
    pub enabled_extension_names: Vec<Vec<u8>>,
}

/// Appends the terminating null byte to a name's bytes.
///
/// The result is exactly the name's bytes followed by one null byte, so the
/// driver can read the name back up to the terminator.
pub fn nul_terminated(name: &str) -> (r: Vec<u8>)
    requires
        !name.spec_bytes().contains(0u8),
    ensures
        r@ == name.spec_bytes().push(0u8),
        r@.len() == name.spec_bytes().len() + 1,
{
    let mut bytes = name.as_bytes_vec();
    bytes.push(0u8);
    bytes
}

/// Builds the create-instance request from the optional application
/// metadata.
///
/// With metadata present, the request carries the two names as
/// null-terminated buffers, both version numbers unchanged, and
/// [`API_VERSION`]; without it, the request's application-info field is the
/// absent sentinel.  The layer and extension lists are empty in either case.
pub fn build_instance_request(app_info: Option<ApplicationInfo<'_>>) -> (r: InstanceRequest)
    requires
        app_info matches Some(info) ==> names_terminable(info),
    ensures
        (r.application_info is Some) == (app_info is Some),
        app_info matches Some(info) ==> (r.application_info matches Some(rec)
            && rec.application_name_z@ == info.application_name.spec_bytes().push(0u8)
            && rec.application_version == info.application_version
            && rec.engine_name_z@ == info.engine_name.spec_bytes().push(0u8)
            && rec.engine_version == info.engine_version
            && rec.api_version == API_VERSION),
        r.enabled_layer_names@ =~= Seq::<Vec<u8>>::empty(),
        r.enabled_extension_names@ =~= Seq::<Vec<u8>>::empty(),
{
    let application_info = match app_info {
        Some(info) => Some(
            AppInfoRecord {
                application_name_z: nul_terminated(info.application_name),
                application_version: info.application_version,
                engine_name_z: nul_terminated(info.engine_name),
                engine_version: info.engine_version,
                api_version: API_VERSION,
            },
        ),
        None => None,
    };
    InstanceRequest {
        application_info,
        enabled_layer_names: Vec::new(),
        enabled_extension_names: Vec::new(),
    }
}

/// A live instance handle.  Only [`create_instance_step`] constructs one, and
/// only from a creation call that the driver answered with success, so a
/// value of this type witnesses a successfully created instance.
pub struct InstanceHandle {
    raw: u64,
}

impl InstanceHandle {
    /// The raw handle value the driver returned.
    pub closed spec fn spec_raw(&self) -> u64 {
        self.raw
    }

    /// Reads the raw handle value.
    pub fn raw(&self) -> (r: u64)
        ensures
            r == self.spec_raw(),
    {
        self.raw
    }
}

/// Accepts the driver's answer to the instance-creation call made with
/// `request` through the global table: `status` and `handle` are what the
/// call returned.
///
/// Returns the instance handle exactly when the driver reported success; any
/// other status is fatal and reported unchanged, so that the caller sees the
/// driver's own failure category.
pub fn create_instance_step(
    globals: &crate::loader::GlobalTable,
    request: &InstanceRequest,
    status: i32,
    handle: u64,
) -> (r: Result<InstanceHandle, Error>)
    ensures
        (r is Ok) == (status == SUCCESS),
        status == SUCCESS ==> (r matches Ok(h) && h.spec_raw() == handle),
        status != SUCCESS ==> r == Err::<InstanceHandle, Error>(Error(status)),
{
    if status == SUCCESS {
        Ok(InstanceHandle { raw: handle })
    } else {
        Err(Error(status))
    }
}

/// The instance-scoped function table.  Every instance-level operation,
/// device enumeration included, is only available through this table, never
/// through the global entry points.
pub struct InstanceTable {
    instance: u64,
}

impl InstanceTable {
    /// The instance the table was resolved for.
    pub closed spec fn spec_instance(&self) -> u64 {
        self.instance
    }

    /// Reads the instance the table was resolved for.
    pub fn instance(&self) -> (r: u64)
        ensures
            r == self.spec_instance(),
    {
        self.instance
    }
}

/// Resolves the instance-scoped function table.
///
/// Taking the [`InstanceHandle`] makes the driver's ordering contract
/// structural: the table can only be resolved after instance creation
/// succeeded, and it is bound to exactly that instance.
pub fn resolve_instance_table(instance: &InstanceHandle) -> (t: InstanceTable)
    ensures
        t.spec_instance() == instance.spec_raw(),
{
    InstanceTable { instance: instance.raw() }
}

} // verus!
