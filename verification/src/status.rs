//! Native status codes and their mapping onto well-known failure categories.

use vstd::prelude::*;

verus! {

/// The driver reports success.
pub const SUCCESS: i32 = 0;
/// A fence or query has not yet completed.
pub const NOT_READY: i32 = 1;
/// A wait operation has timed out.
pub const TIMEOUT: i32 = 2;
/// An event is signaled.
pub const EVENT_SET: i32 = 3;
/// An event is unsignaled.
pub const EVENT_RESET: i32 = 4;
/// A return array was too small for the result.
pub const INCOMPLETE: i32 = 5;
/// A host memory allocation has failed.
pub const ERROR_OUT_OF_HOST_MEMORY: i32 = -1;
/// A device memory allocation has failed.
pub const ERROR_OUT_OF_DEVICE_MEMORY: i32 = -2;
/// Initialization of an object could not be completed.
pub const ERROR_INITIALIZATION_FAILED: i32 = -3;
/// The logical or physical device has been lost.
pub const ERROR_DEVICE_LOST: i32 = -4;
/// Mapping of a memory object has failed.
pub const ERROR_MEMORY_MAP_FAILED: i32 = -5;
/// A requested layer is not present.
pub const ERROR_LAYER_NOT_PRESENT: i32 = -6;
/// A requested extension is not supported.
pub const ERROR_EXTENSION_NOT_PRESENT: i32 = -7;
/// A requested feature is not supported.
pub const ERROR_FEATURE_NOT_PRESENT: i32 = -8;
/// The driver is incompatible with this API version.
pub const ERROR_INCOMPATIBLE_DRIVER: i32 = -9;
/// Too many objects of a type have already been created.
pub const ERROR_TOO_MANY_OBJECTS: i32 = -10;
/// A requested format is not supported on this device.
pub const ERROR_FORMAT_NOT_SUPPORTED: i32 = -11;
/// A surface is no longer available.
pub const ERROR_SURFACE_LOST_KHR: i32 = -1000000000;
/// The requested window is already in use.
pub const ERROR_NATIVE_WINDOW_IN_USE_KHR: i32 = -1000000001;
/// A swapchain no longer matches the surface properties exactly.
pub const SUBOPTIMAL_KHR: i32 = 1000001003;
/// A surface has changed so that it is no longer compatible with the swapchain.
pub const ERROR_OUT_OF_DATE_KHR: i32 = -1000001004;
/// The display used by a swapchain does not use the same presentable image layout.
pub const ERROR_INCOMPATIBLE_DISPLAY_KHR: i32 = -1000003001;
/// Validation of an operation failed.
pub const ERROR_VALIDATION_FAILED_EXT: i32 = -1000011001;

/// The well-known failure category that a native status code maps to.
/// Codes not yet classified map to `"unknown"`, as a forward-compatibility
/// catch-all.
pub open spec fn spec_category(code: i32) -> Seq<char> {
    if code == SUCCESS {
        "success"@
    } else if code == NOT_READY {
        "not ready"@
    } else if code == TIMEOUT {
        "timeout"@
    } else if code == EVENT_SET {
        "event_set"@
    } else if code == EVENT_RESET {
        "event_reset"@
    } else if code == INCOMPLETE {
        "incomplete"@
    } else if code == ERROR_OUT_OF_HOST_MEMORY {
        "out of host memory"@
    } else if code == ERROR_OUT_OF_DEVICE_MEMORY {
        "out of device memory"@
    } else if code == ERROR_INITIALIZATION_FAILED {
        "initialization failed"@
    } else if code == ERROR_DEVICE_LOST {
        "device lost"@
    } else if code == ERROR_MEMORY_MAP_FAILED {
        "memory map failed"@
    } else if code == ERROR_LAYER_NOT_PRESENT {
        "layer not present"@
    } else if code == ERROR_EXTENSION_NOT_PRESENT {
        "extension not present"@
    } else if code == ERROR_FEATURE_NOT_PRESENT {
        "feature not present"@
    } else if code == ERROR_INCOMPATIBLE_DRIVER {
        "incompatible driver"@
    } else if code == ERROR_TOO_MANY_OBJECTS {
        "too many objects"@
    } else if code == ERROR_FORMAT_NOT_SUPPORTED {
        "format not supported"@
    } else if code == ERROR_SURFACE_LOST_KHR {
        "surface lost (KHR)"@
    } else if code == ERROR_NATIVE_WINDOW_IN_USE_KHR {
        "native window in use (KHR)"@
    } else if code == SUBOPTIMAL_KHR {
        "suboptimal (KHR)"@
    } else if code == ERROR_OUT_OF_DATE_KHR {
        "out of date (KHR)"@
    } else if code == ERROR_INCOMPATIBLE_DISPLAY_KHR {
        "incompatible display (KHR)"@
    } else if code == ERROR_VALIDATION_FAILED_EXT {
        "validation failed (EXT)"@
    } else {
        "unknown"@
    }
}

/// A tagged native status code.
///
/// Every driver call site checks its status; a non-success status from a
/// bootstrap step is fatal to the whole bootstrap and is reported through
/// this type.
#[derive(Clone, PartialEq, Eq, Structural, Debug)]
pub struct Error(pub i32);

impl Error {
    /// The code's well-known failure category, exactly as `spec_category`
    /// classifies it.
    pub fn description(&self) -> (r: &'static str)
        ensures
            r@ == spec_category(self.0),
    {
        if self.0 == SUCCESS {
            "success"
        } else if self.0 == NOT_READY {
            "not ready"
        } else if self.0 == TIMEOUT {
            "timeout"
        } else if self.0 == EVENT_SET {
            "event_set"
        } else if self.0 == EVENT_RESET {
            "event_reset"
        } else if self.0 == INCOMPLETE {
            "incomplete"
        } else if self.0 == ERROR_OUT_OF_HOST_MEMORY {
            "out of host memory"
        } else if self.0 == ERROR_OUT_OF_DEVICE_MEMORY {
            "out of device memory"
        } else if self.0 == ERROR_INITIALIZATION_FAILED {
            "initialization failed"
        } else if self.0 == ERROR_DEVICE_LOST {
            "device lost"
        } else if self.0 == ERROR_MEMORY_MAP_FAILED {
            "memory map failed"
        } else if self.0 == ERROR_LAYER_NOT_PRESENT {
            "layer not present"
        } else if self.0 == ERROR_EXTENSION_NOT_PRESENT {
            "extension not present"
        } else if self.0 == ERROR_FEATURE_NOT_PRESENT {
            "feature not present"
        } else if self.0 == ERROR_INCOMPATIBLE_DRIVER {
            "incompatible driver"
        } else if self.0 == ERROR_TOO_MANY_OBJECTS {
            "too many objects"
        } else if self.0 == ERROR_FORMAT_NOT_SUPPORTED {
            "format not supported"
        } else if self.0 == ERROR_SURFACE_LOST_KHR {
            "surface lost (KHR)"
        } else if self.0 == ERROR_NATIVE_WINDOW_IN_USE_KHR {
            "native window in use (KHR)"
        } else if self.0 == SUBOPTIMAL_KHR {
            "suboptimal (KHR)"
        } else if self.0 == ERROR_OUT_OF_DATE_KHR {
            "out of date (KHR)"
        } else if self.0 == ERROR_INCOMPATIBLE_DISPLAY_KHR {
            "incompatible display (KHR)"
        } else if self.0 == ERROR_VALIDATION_FAILED_EXT {
            "validation failed (EXT)"
        } else {
            "unknown"
        }
    }
}

} // verus!
