//! Backend bootstrap and frame-lifecycle coordination for a native graphics
//! driver.
//!
//! The library covers the decision logic of the bootstrap protocol: building
//! the instance-creation request, classifying native status codes, accepting
//! or rejecting each step of the driver conversation, and capturing immutable
//! per-device capability snapshots.  The raw driver calls themselves (dynamic
//! library loading, symbol resolution, the native entry points) are performed
//! by an unverified shell that hands their outcomes to [`backend::create`] as
//! plain values.
//!
//! The frame lifecycle lives in [`canvas`]: a coordinator that owns an output
//! window, a device, a factory and a renderer, and drives the per-frame
//! submit / swap / bookkeeping / cleanup / reset cycle in that fixed order.

pub mod backend;
pub mod canvas;
pub mod enumerate;
pub mod instance;
pub mod loader;
pub mod sim;
pub mod status;

pub use instance::ApplicationInfo;
pub use status::Error;
