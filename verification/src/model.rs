//! Vendor-neutral GPU data model.
//!
//! Every backend normalizes its device properties into these types; the
//! aggregation pass and the detection service work on them alone.

use vstd::prelude::*;

verus! {

/// CUDA-specific attributes of a single device.
#[derive(Clone, Debug)]
pub struct DeviceCuda {
    /// True when the device is usable through CUDA.
    pub enabled: bool,
    /// Number of CUDA cores.
    pub cores: u32,
    /// CUDA compute capability, e.g. `"8.6"`.
    pub caps: String,
}

/// Per-domain maximum clock readings in MHz.
#[derive(Clone, Debug)]
pub struct DeviceClocks {
    /// Graphics clock domain.
    pub graphics_mhz: u32,
    /// Memory clock domain.
    pub memory_mhz: u32,
    /// Streaming-multiprocessor (core) clock domain.
    pub sm_mhz: u32,
    /// Video encoder/decoder clock domain; absent on backends that do not
    /// expose it.
    pub video_mhz: Option<u32>,
}

/// Memory properties of a single device.
#[derive(Clone, Debug)]
pub struct DeviceMemory {
    /// Estimated peak memory bandwidth in GiB/s; only reported when
    /// best-effort probing is enabled.
    pub bandwidth_gib: Option<u32>,
    /// Total physical device memory in bytes.
    pub total_bytes: u64,
}

/// One group of physically identical devices.
///
/// Two records describe the same hardware configuration exactly when their
/// identity tuples (every field but `quantity`) agree; see [`same_identity`].
#[derive(Clone, Debug)]
pub struct Device {
    /// Product name, e.g. `Tesla C2070`.
    pub model: String,
    /// CUDA-specific attributes, absent on non-CUDA backends.
    pub cuda: Option<DeviceCuda>,
    /// Clock readings.
    pub clocks: DeviceClocks,
    /// Memory properties.
    pub memory: DeviceMemory,
    /// Number of cards with this identity.
    pub quantity: usize,
}

/// Information about an installed CUDA runtime and driver.
#[derive(Clone, Debug)]
pub struct Cuda {
    /// CUDA version, e.g. `"12.2"`.
    pub version: String,
    /// Installed driver version, when the backend reports one.
    pub driver_version: Option<String>,
}

/// Driver and SDK metadata accumulated across all backends.
#[derive(Clone, Debug)]
pub struct GpuApiInfo {
    /// CUDA API information; absent when no CUDA backend reported it.
    pub cuda: Option<Cuda>,
}

impl Default for GpuApiInfo {
    /// An accumulator with no API reported yet.
    fn default() -> (r: Self)
        ensures
            r.cuda is None,
    {
        GpuApiInfo { cuda: None }
    }
}

/// The combined detection result: API metadata and the grouped device list.
#[derive(Clone, Debug)]
pub struct Gpu {
    /// Available SDKs and device drivers.
    pub api: GpuApiInfo,
    /// Grouped devices, in backend order, then first-seen order.
    pub device: Vec<Device>,
}

impl Default for Gpu {
    /// A result with no API reported and no devices.
    fn default() -> (r: Self)
        ensures
            r.api.cuda is None,
            r.device@.len() == 0,
    {
        Gpu { api: GpuApiInfo::default(), device: Vec::new() }
    }
}

/// Mathematical equality of the optional CUDA attributes, with the
/// capability string compared by its characters.
pub open spec fn cuda_identity_eq(a: Option<DeviceCuda>, b: Option<DeviceCuda>) -> bool {
    match (a, b) {
        (Option::None, Option::None) => true,
        (Option::Some(x), Option::Some(y)) => {
            &&& x.enabled == y.enabled
            &&& x.cores == y.cores
            &&& x.caps@ == y.caps@
        },
        _ => false,
    }
}

/// Mathematical equality of two clock readings.
pub open spec fn clocks_eq(a: DeviceClocks, b: DeviceClocks) -> bool {
    &&& a.graphics_mhz == b.graphics_mhz
    &&& a.memory_mhz == b.memory_mhz
    &&& a.sm_mhz == b.sm_mhz
    &&& a.video_mhz == b.video_mhz
}

/// Mathematical equality of two memory descriptions.
pub open spec fn memory_eq(a: DeviceMemory, b: DeviceMemory) -> bool {
    &&& a.bandwidth_gib == b.bandwidth_gib
    &&& a.total_bytes == b.total_bytes
}

/// Two records represent the same hardware configuration: the identity tuple
/// (model, CUDA attributes, clocks, memory) agrees field by field, while
/// `quantity` is deliberately ignored.
pub open spec fn same_identity(a: Device, b: Device) -> bool {
    &&& a.model@ == b.model@
    &&& cuda_identity_eq(a.cuda, b.cuda)
    &&& clocks_eq(a.clocks, b.clocks)
    &&& memory_eq(a.memory, b.memory)
}

/// Decides [`cuda_identity_eq`] on the optional CUDA attributes.
pub fn eq_cuda_opt(a: &Option<DeviceCuda>, b: &Option<DeviceCuda>) -> (r: bool)
    ensures
        r == cuda_identity_eq(*a, *b),
{
    match (a, b) {
        (Option::None, Option::None) => true,
        (Option::Some(x), Option::Some(y)) => {
            x.enabled == y.enabled && x.cores == y.cores && x.caps == y.caps
        },
        _ => false,
    }
}

/// Decides [`clocks_eq`] on two clock readings.
pub fn eq_clocks(a: &DeviceClocks, b: &DeviceClocks) -> (r: bool)
    ensures
        r == clocks_eq(*a, *b),
{
    let video_eq = match (a.video_mhz, b.video_mhz) {
        (Option::None, Option::None) => true,
        (Option::Some(x), Option::Some(y)) => x == y,
        _ => false,
    };
    a.graphics_mhz == b.graphics_mhz && a.memory_mhz == b.memory_mhz && a.sm_mhz == b.sm_mhz
        && video_eq
}

/// Decides [`memory_eq`] on two memory descriptions.
pub fn eq_memory(a: &DeviceMemory, b: &DeviceMemory) -> (r: bool)
    ensures
        r == memory_eq(*a, *b),
{
    let bandwidth_eq = match (a.bandwidth_gib, b.bandwidth_gib) {
        (Option::None, Option::None) => true,
        (Option::Some(x), Option::Some(y)) => x == y,
        _ => false,
    };
    bandwidth_eq && a.total_bytes == b.total_bytes
}

/// Decides [`same_identity`]: do two records describe the same hardware?
pub fn eq_identity(a: &Device, b: &Device) -> (r: bool)
    ensures
        r == same_identity(*a, *b),
{
    a.model == b.model && eq_cuda_opt(&a.cuda, &b.cuda) && eq_clocks(&a.clocks, &b.clocks)
        && eq_memory(&a.memory, &b.memory)
}

} // verus!
