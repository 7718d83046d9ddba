//! The backend capability interface.
//!
//! A vendor backend is a [`Platform`]: it has a stable name and can be
//! activated into a [`Detection`] handle that answers the three device
//! queries. The registry in the crate root iterates backends through these
//! traits alone.

use vstd::prelude::*;

use crate::aggregate::all_quantities_one;
use crate::model::{Device, GpuApiInfo};
use crate::GpuDetectionError;

verus! {

/// Configuration handed to every backend at activation.
pub struct Flags {
    /// Permit best-effort, heuristically derived properties.
    pub unstable: bool,
    /// This backend was marked mandatory.
    pub force: bool,
}

/// A vendor backend that can be activated into a detection handle.
pub trait Platform: Sized {
    /// The handle type a successful activation produces.
    type Handle: Detection;

    /// The backend's stable name, as force-marking refers to it.
    fn name(&self) -> (r: &str);

    /// Establishes a session with the vendor library.
    fn init(&self, flags: Flags) -> (r: Result<Self::Handle, GpuDetectionError>);
}

/// An activated backend handle.
///
/// Handles must tolerate concurrent read-only use; any serialization of a
/// non-reentrant vendor session happens inside the backend.
pub trait Detection: Sized + Send + Sync {
    /// Fills or overwrites the fields this backend knows in the shared
    /// accumulator.
    fn detect_api(&self, api: &mut GpuApiInfo) -> (r: Result<(), GpuDetectionError>);

    /// Enumerates this backend's devices; every record counts one card.
    fn devices(&self) -> (r: Result<Vec<Device>, GpuDetectionError>)
        ensures
            r matches Ok(v) ==> all_quantities_one(v@),
    ;

    /// Looks a single device up by its stable unique identifier.
    fn device_by_uuid(&self, uuid: &str) -> (r: Result<Option<Device>, GpuDetectionError>);
}

} // verus!
