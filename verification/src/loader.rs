//! Driver loading: accepting the outcome of opening the native shared
//! library and of resolving its global entry point.
//!
//! The library open and the symbol lookup themselves are operating-system
//! calls made by the unverified shell; this module holds the decisions taken
//! on their outcomes.  Both failures are fatal: nothing downstream can be
//! bootstrapped without a loaded driver and its global entry point.

use vstd::prelude::*;
use crate::status::{Error, ERROR_INITIALIZATION_FAILED};

verus! {

/// The loaded native driver library.  It is kept alive for the process's
/// remaining GPU-usage lifetime; only [`crate::backend::create`] constructs
/// one, so no second owner can unload the driver independently.
pub struct DriverLibrary {
    handle: u64,
}

impl DriverLibrary {
    /// The operating-system handle under which the library was opened.
    pub closed spec fn spec_handle(&self) -> u64 {
        self.handle
    }

    /// Reads the operating-system handle.
    pub fn handle(&self) -> (r: u64)
        ensures
            r == self.spec_handle(),
    {
        self.handle
    }
}

/// The driver-defined global function table: the single entry point that
/// yields all further function addresses.  It can only be resolved from a
/// loaded [`DriverLibrary`].
pub struct GlobalTable {
    entry_addr: u64,
}

impl GlobalTable {
    /// The address of the global address-lookup entry point.
    pub closed spec fn spec_entry_addr(&self) -> u64 {
        self.entry_addr
    }

    /// Reads the entry point's address.
    pub fn entry_addr(&self) -> (r: u64)
        ensures
            r == self.spec_entry_addr(),
    {
        self.entry_addr
    }
}

/// Accepts the outcome of opening the driver's shared library: `handle` is
/// the handle the open returned, or `None` where the open failed.
///
/// Returns the loaded library exactly when the open succeeded; a failed open
/// is fatal and maps to the `initialization failed` category.  There is no
/// retry policy and no fallback search path.
pub fn accept_library(handle: Option<u64>) -> (r: Result<DriverLibrary, Error>)
    ensures
        (r is Ok) == (handle is Some),
        handle matches Some(h) ==> (r matches Ok(lib) && lib.spec_handle() == h),
        handle is None ==> r == Err::<DriverLibrary, Error>(Error(ERROR_INITIALIZATION_FAILED)),
{
    match handle {
        Some(h) => Ok(DriverLibrary { handle: h }),
        None => Err(Error(ERROR_INITIALIZATION_FAILED)),
    }
}

/// Accepts the outcome of looking up the global address-lookup symbol in a
/// loaded library: `addr` is the resolved address, or `None` where the
/// lookup failed.
///
/// Returns the global table exactly when the lookup produced a non-null
/// address; failure to resolve is fatal, since nothing downstream can be
/// bootstrapped without this entry point.
pub fn resolve_global(library: &DriverLibrary, addr: Option<u64>) -> (r: Result<GlobalTable, Error>)
    ensures
        (r is Ok) == (addr matches Some(a) && a != 0),
        addr matches Some(a) ==> (a != 0 ==> (r matches Ok(t) && t.spec_entry_addr() == a)),
        addr matches Some(a) ==> (a == 0 ==> r == Err::<GlobalTable, Error>(
            Error(ERROR_INITIALIZATION_FAILED),
        )),
        addr is None ==> r == Err::<GlobalTable, Error>(Error(ERROR_INITIALIZATION_FAILED)),
{
    match addr {
        Some(a) => {
            if a != 0 {
                Ok(GlobalTable { entry_addr: a })
            } else {
                Err(Error(ERROR_INITIALIZATION_FAILED))
            }
        },
        None => Err(Error(ERROR_INITIALIZATION_FAILED)),
    }
}

} // verus!
