//! The CUDA backend, built on the NVIDIA Management Library through the
//! `nvml-wrapper` crate.
//!
//! Every call into the vendor library goes through a small trusted wrapper;
//! everything the backend decides or computes on the returned plain values is
//! verified here.

use vstd::prelude::*;
use vstd::string::StringExecFns;

use nvml_wrapper::error::NvmlError;
use nvml_wrapper::Device as NvDevice;
use nvml_wrapper::Nvml;

use crate::model::{Cuda, Device, DeviceClocks, DeviceCuda, DeviceMemory, GpuApiInfo};
use crate::platform::{Detection, Flags, Platform};
use crate::GpuDetectionError;

verus! {

/// The NVML session type of `nvml-wrapper`.
#[verifier::external_type_specification]
#[verifier::external_body]
pub struct ExNvml(Nvml);

/// The per-device handle type of `nvml-wrapper`.
#[verifier::external_type_specification]
#[verifier::external_body]
pub struct ExNvmlDevice<'nvml>(NvDevice<'nvml>);

/// The error type of `nvml-wrapper`.
#[verifier::external_type_specification]
#[verifier::external_body]
pub struct ExNvmlError(NvmlError);

/// Relies on `Nvml::init`: opens the default NVML library.
#[verifier::external_body]
fn nvml_try_init() -> (r: Result<Nvml, NvmlError>) {
    Nvml::init()
}

/// Relies on `NvmlBuilder::init`: opens NVML from an explicit library name.
/// On systems without a development environment only the versioned runtime
/// file `libnvidia-ml.so.1` may be present, so that name is tried.
#[verifier::external_body]
fn nvml_init_versioned_lib() -> (r: Result<Nvml, NvmlError>) {
    Nvml::builder().lib_path("libnvidia-ml.so.1".as_ref()).init()
}

/// Relies on the variant layout of `NvmlError`: tells `LibraryNotFound`
/// apart from every other variant.
#[verifier::external_body]
fn nvml_is_library_not_found(e: &NvmlError) -> (r: bool) {
    match e {
        NvmlError::LibraryNotFound => true,
        _ => false,
    }
}

/// Relies on the variant layout of `NvmlError`: tells `NotFound` apart from
/// every other variant.
#[verifier::external_body]
fn nvml_is_not_found(e: &NvmlError) -> (r: bool) {
    match e {
        NvmlError::NotFound => true,
        _ => false,
    }
}

/// Relies on the variant layout of `NvmlError`: moves the dynamic-loading
/// failure out of `LibloadingError`; any other variant is handed back.
#[verifier::external_body]
fn nvml_into_libloading(e: NvmlError) -> (r: Result<libloading::Error, NvmlError>) {
    match e {
        NvmlError::LibloadingError(inner) => Ok(inner),
        other => Err(other),
    }
}

/// Relies on the `Display` impl of `NvmlError` for the error text.
#[verifier::external_body]
fn nvml_error_message(e: &NvmlError) -> (r: String) {
    e.to_string()
}

/// Relies on `Nvml::device_count`: the number of devices NVML can see.
#[verifier::external_body]
fn nvml_device_count(nvml: &Nvml) -> (r: Result<u32, NvmlError>) {
    nvml.device_count()
}

/// Relies on `Nvml::device_by_index`: the handle for one enumerated device.
#[verifier::external_body]
fn nvml_device_by_index<'n>(nvml: &'n Nvml, index: u32) -> (r: Result<
    NvDevice<'n>,
    NvmlError,
>) {
    nvml.device_by_index(index)
}

/// Relies on `Nvml::device_by_uuid`: the handle for the device with the
/// given UUID, or `NotFound`.
#[verifier::external_body]
fn nvml_device_by_uuid<'n>(nvml: &'n Nvml, uuid: &str) -> (r: Result<
    NvDevice<'n>,
    NvmlError,
>) {
    nvml.device_by_uuid(uuid)
}

/// Relies on `Nvml::sys_driver_version`: the installed driver version text.
#[verifier::external_body]
fn nvml_sys_driver_version(nvml: &Nvml) -> (r: Result<String, NvmlError>) {
    nvml.sys_driver_version()
}

/// Relies on `Nvml::sys_cuda_driver_version`: the packed CUDA driver
/// version number.
#[verifier::external_body]
fn nvml_sys_cuda_driver_version(nvml: &Nvml) -> (r: Result<i32, NvmlError>) {
    nvml.sys_cuda_driver_version()
}

/// Relies on `nvml_wrapper::cuda_driver_version_major`: the thousands of the
/// packed version number.
pub assume_specification [ nvml_wrapper::cuda_driver_version_major ](version: i32) -> (r: i32)
    ensures
        version >= 0 ==> r == version as int / 1000,
;

/// Relies on `nvml_wrapper::cuda_driver_version_minor`: the tens digit pair
/// of the packed version number.
pub assume_specification [ nvml_wrapper::cuda_driver_version_minor ](version: i32) -> (r: i32)
    ensures
        version >= 0 ==> r == (version as int % 1000) / 10,
;

/// Relies on `Device::name`: the device's product name.
#[verifier::external_body]
fn nvml_device_name(dev: &NvDevice<'_>) -> (r: Result<String, NvmlError>) {
    dev.name()
}

/// Relies on `Device::num_cores`: the device's CUDA core count.
#[verifier::external_body]
fn nvml_device_num_cores(dev: &NvDevice<'_>) -> (r: Result<u32, NvmlError>) {
    dev.num_cores()
}

/// Relies on `Device::cuda_compute_capability`: the major and minor
/// capability numbers, handed out as a pair.
#[verifier::external_body]
fn nvml_device_compute_capability(dev: &NvDevice<'_>) -> (r: Result<
    (i32, i32),
    NvmlError,
>) {
    dev.cuda_compute_capability().map(|c| (c.major, c.minor))
}

/// Relies on `Device::max_clock_info` for the graphics clock domain.
#[verifier::external_body]
fn nvml_max_clock_graphics(dev: &NvDevice<'_>) -> (r: Result<u32, NvmlError>) {
    dev.max_clock_info(nvml_wrapper::enum_wrappers::device::Clock::Graphics)
}

/// Relies on `Device::max_clock_info` for the memory clock domain.
#[verifier::external_body]
fn nvml_max_clock_memory(dev: &NvDevice<'_>) -> (r: Result<u32, NvmlError>) {
    dev.max_clock_info(nvml_wrapper::enum_wrappers::device::Clock::Memory)
}

/// Relies on `Device::max_clock_info` for the streaming-multiprocessor
/// clock domain.
#[verifier::external_body]
fn nvml_max_clock_sm(dev: &NvDevice<'_>) -> (r: Result<u32, NvmlError>) {
    dev.max_clock_info(nvml_wrapper::enum_wrappers::device::Clock::SM)
}

/// Relies on `Device::max_clock_info` for the video encoder/decoder clock
/// domain.
#[verifier::external_body]
fn nvml_max_clock_video(dev: &NvDevice<'_>) -> (r: Result<u32, NvmlError>) {
    dev.max_clock_info(nvml_wrapper::enum_wrappers::device::Clock::Video)
}

/// Relies on `Device::memory_info`: the total installed memory in bytes.
#[verifier::external_body]
fn nvml_device_total_memory(dev: &NvDevice<'_>) -> (r: Result<u64, NvmlError>) {
    dev.memory_info().map(|m| m.total)
}

/// Relies on `Device::memory_bus_width`: the memory bus width in bits.
#[verifier::external_body]
fn nvml_device_memory_bus_width(dev: &NvDevice<'_>) -> (r: Result<u32, NvmlError>) {
    dev.memory_bus_width()
}

/// The decimal rendering of two numbers joined by a dot, e.g. `"8.6"`.
pub uninterp spec fn dotted_decimal(major: int, minor: int) -> Seq<char>;

/// Relies on the `format!` macro of std for the decimal rendering of the two
/// numbers; the result depends on the arguments alone.
#[verifier::external_body]
fn dotted_pair(major: i32, minor: i32) -> (r: String)
    ensures
        r@ == dotted_decimal(major as int, minor as int),
{
    format!("{}.{}", major, minor)
}

/// The estimated peak memory transfer rate in GiB/s: memory clock times bus
/// width times the DDR data rate of 2, scaled from bits-per-MHz to GiB/s.
pub open spec fn bandwidth_estimate(clock: int, width: int) -> int {
    clock * width * 2 / 8000
}

/// Computes [`bandwidth_estimate`], reporting nothing when the estimate
/// cannot be represented.
pub fn bandwidth_gib(max_memory_clock: u32, memory_bus_width: u32) -> (r: Option<u32>)
    ensures
        bandwidth_estimate(max_memory_clock as int, memory_bus_width as int) <= u32::MAX ==> r
            == Some(bandwidth_estimate(max_memory_clock as int, memory_bus_width as int) as u32),
        bandwidth_estimate(max_memory_clock as int, memory_bus_width as int) > u32::MAX ==> r
            is None,
{
    proof {
        assert(max_memory_clock as int * memory_bus_width as int * 2 < 0x2_0000_0000_0000_0000)
            by (nonlinear_arith)
            requires
                max_memory_clock <= 0xffff_ffffu32,
                memory_bus_width <= 0xffff_ffffu32,
        ;
        assert(max_memory_clock as int * memory_bus_width as int >= 0) by (nonlinear_arith);
    }
    let rate: u128 = max_memory_clock as u128 * memory_bus_width as u128 * 2;
    let estimate: u128 = rate / 8000;
    if estimate <= u32::MAX as u128 {
        Some(estimate as u32)
    } else {
        None
    }
}

/// The CUDA backend: activation through NVML.
pub struct CudaPlatform;

/// An activated NVML session together with the activation flags.
pub struct CudaDetection {
    /// The flags the backend was activated with.
    pub flags: Flags,
    /// The NVML session.
    pub nvml: Nvml,
}

/// The CUDA backend's registry entry.
pub fn platform() -> (r: CudaPlatform) {
    CudaPlatform
}

/// Maps an NVML activation failure to the library's error: a failure to load
/// the driver library is fatal only when the backend was forced, and is
/// otherwise read as "backend not present".
fn map_activation_error(e: NvmlError, force: bool) -> (r: GpuDetectionError)
    ensures
        !force ==> !(r is LibloadingError),
        force ==> !(r is NotFound),
        r is LibloadingError || r is NotFound || r is Unknown,
{
    match nvml_into_libloading(e) {
        Ok(load_error) => {
            if force {
                GpuDetectionError::LibloadingError(load_error)
            } else {
                GpuDetectionError::NotFound
            }
        },
        Err(other) => GpuDetectionError::Unknown(nvml_error_message(&other)),
    }
}

impl Platform for CudaPlatform {
    type Handle = CudaDetection;

    fn name(&self) -> (r: &str)
        ensures
            r@ == "cuda"@,
    {
        "cuda"
    }

    fn init(&self, flags: Flags) -> (r: Result<CudaDetection, GpuDetectionError>)
        ensures
            r matches Ok(h) ==> h.flags.unstable == flags.unstable && h.flags.force
                == flags.force,
            r matches Err(e) ==> {
                &&& e is LibloadingError || e is NotFound || e is Unknown
                &&& !flags.force ==> !(e is LibloadingError)
                &&& flags.force ==> !(e is NotFound)
            },
    {
        let first_try = nvml_try_init();
        let nvml = match first_try {
            Ok(nvml) => nvml,
            Err(e) => {
                if nvml_is_library_not_found(&e) {
                    match nvml_init_versioned_lib() {
                        Ok(nvml) => nvml,
                        Err(e2) => {
                            return Err(map_activation_error(e2, flags.force));
                        },
                    }
                } else {
                    return Err(map_activation_error(e, flags.force));
                }
            },
        };
        Ok(CudaDetection { flags, nvml })
    }
}

impl CudaDetection {
    /// The CUDA version as `"major.minor"`, decoded from the packed driver
    /// version number.
    fn cuda_version(&self) -> (r: Result<String, NvmlError>)
        ensures
            r matches Ok(s) ==> exists|major: int, minor: int| s@ == dotted_decimal(major, minor),
    {
        let version = match nvml_sys_cuda_driver_version(&self.nvml) {
            Ok(v) => v,
            Err(e) => {
                return Err(e);
            },
        };
        let major = nvml_wrapper::cuda_driver_version_major(version);
        let minor = nvml_wrapper::cuda_driver_version_minor(version);
        Ok(dotted_pair(major, minor))
    }
}

/// Reads one device's normalized record from its NVML handle; the record
/// counts a single card.
fn device_info(dev: &NvDevice<'_>, flags: &Flags) -> (r: Result<Device, NvmlError>)
    ensures
        r matches Ok(d) ==> {
            &&& d.quantity == 1
            &&& d.cuda matches Some(c) && c.enabled
            &&& d.clocks.video_mhz is Some
            &&& flags.unstable || d.memory.bandwidth_gib is None
        },
{
    let model = nvml_device_name(dev)?;
    let cuda = Some(cuda_attributes(dev)?);
    let clocks = clocks(dev)?;
    let memory = memory(dev, flags)?;
    Ok(Device { model, cuda, clocks, memory, quantity: 1 })
}

/// Reads the CUDA-specific attributes of one device; a device this backend
/// enumerates is always CUDA-enabled, and its capability text is a
/// dotted-decimal pair.
fn cuda_attributes(dev: &NvDevice<'_>) -> (r: Result<DeviceCuda, NvmlError>)
    ensures
        r matches Ok(c) ==> c.enabled && exists|major: int, minor: int| c.caps@ == dotted_decimal(
            major,
            minor,
        ),
{
    let cores = nvml_device_num_cores(dev)?;
    let (major, minor) = nvml_device_compute_capability(dev)?;
    let caps = dotted_pair(major, minor);
    Ok(DeviceCuda { enabled: true, cores, caps })
}

/// Reads the four clock domains of one device; CUDA devices always expose a
/// video clock.
fn clocks(dev: &NvDevice<'_>) -> (r: Result<DeviceClocks, NvmlError>)
    ensures
        r matches Ok(c) ==> c.video_mhz is Some,
{
    let graphics_mhz = nvml_max_clock_graphics(dev)?;
    let memory_mhz = nvml_max_clock_memory(dev)?;
    let sm_mhz = nvml_max_clock_sm(dev)?;
    let video_mhz = Some(nvml_max_clock_video(dev)?);
    Ok(DeviceClocks { graphics_mhz, memory_mhz, sm_mhz, video_mhz })
}

/// Reads one device's memory properties; the bandwidth estimate is only
/// probed when best-effort properties were enabled.
fn memory(dev: &NvDevice<'_>, flags: &Flags) -> (r: Result<DeviceMemory, NvmlError>)
    ensures
        r matches Ok(m) ==> flags.unstable || m.bandwidth_gib is None,
{
    let total_bytes = nvml_device_total_memory(dev)?;
    let bandwidth_gib = if flags.unstable {
        let width = nvml_device_memory_bus_width(dev)?;
        let clock = nvml_max_clock_memory(dev)?;
        bandwidth_gib(clock, width)
    } else {
        None
    };
    Ok(DeviceMemory { bandwidth_gib, total_bytes })
}

impl Detection for CudaDetection {
    fn detect_api(&self, api: &mut GpuApiInfo) -> (r: Result<(), GpuDetectionError>)
        ensures
            r matches Ok(_) ==> (final (api).cuda matches Some(c) && exists|major: int, minor: int|
                c.version@ == dotted_decimal(major, minor)),
            r matches Err(e) ==> *final (api) == *old(api) && e is GpuInfoAccessError,
    {
        let version = match self.cuda_version() {
            Ok(v) => v,
            Err(e) => {
                return Err(GpuDetectionError::GpuInfoAccessError(nvml_error_message(&e)));
            },
        };
        let driver_version = match nvml_sys_driver_version(&self.nvml) {
            Ok(v) => Some(v),
            Err(_) => None,
        };
        api.cuda = Some(Cuda { version, driver_version });
        Ok(())
    }

    fn devices(&self) -> (r: Result<Vec<Device>, GpuDetectionError>)
        ensures
            r matches Ok(v) ==> forall|i: int|
                0 <= i < v@.len() ==> {
                    &&& (#[trigger] v@[i]).cuda is Some
                    &&& v@[i].clocks.video_mhz is Some
                    &&& self.flags.unstable || v@[i].memory.bandwidth_gib is None
                },
            r matches Err(e) ==> e is Unknown || e is GpuAccessError,
    {
        let count = match nvml_device_count(&self.nvml) {
            Ok(c) => c,
            Err(e) => {
                return Err(
                    GpuDetectionError::Unknown(
                        "Failed to get device count. Err ".to_owned().concat(
                            nvml_error_message(&e).as_str(),
                        ),
                    ),
                );
            },
        };
        let mut devices: Vec<Device> = Vec::new();
        let mut index: u32 = 0;
        while index < count
            invariant
                crate::aggregate::all_quantities_one(devices@),
                forall|i: int|
                    0 <= i < devices@.len() ==> {
                        &&& (#[trigger] devices@[i]).cuda is Some
                        &&& devices@[i].clocks.video_mhz is Some
                        &&& self.flags.unstable || devices@[i].memory.bandwidth_gib is None
                    },
            decreases count - index,
        {
            let dev = match nvml_device_by_index(&self.nvml, index) {
                Ok(d) => d,
                Err(e) => {
                    return Err(GpuDetectionError::GpuAccessError(nvml_error_message(&e)));
                },
            };
            let info = match device_info(&dev, &self.flags) {
                Ok(d) => d,
                Err(e) => {
                    return Err(GpuDetectionError::GpuAccessError(nvml_error_message(&e)));
                },
            };
            devices.push(info);
            index = index + 1;
        }
        Ok(devices)
    }

    fn device_by_uuid(&self, uuid: &str) -> (r: Result<Option<Device>, GpuDetectionError>)
        ensures
            r matches Ok(Some(d)) ==> {
                &&& d.quantity == 1
                &&& d.cuda is Some
                &&& d.clocks.video_mhz is Some
                &&& self.flags.unstable || d.memory.bandwidth_gib is None
            },
            r matches Err(e) ==> e is GpuAccessError || e is GpuInfoAccessError,
    {
        let dev = match nvml_device_by_uuid(&self.nvml, uuid) {
            Ok(d) => d,
            Err(e) => {
                if nvml_is_not_found(&e) {
                    return Ok(None);
                }
                return Err(GpuDetectionError::GpuAccessError(nvml_error_message(&e)));
            },
        };
        match device_info(&dev, &self.flags) {
            Ok(d) => Ok(Some(d)),
            Err(e) => Err(GpuDetectionError::GpuInfoAccessError(nvml_error_message(&e))),
        }
    }
}

} // verus!
