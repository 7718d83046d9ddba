//! GPU device detection and grouping.
//!
//! The crate enumerates GPU devices across vendor backends, normalizes their
//! properties into the vendor-neutral model of [`model`], and merges
//! consecutive identical records into counted groups. Backends are
//! registered with [`GpuDetectionBuilder`]; the activated handles form a
//! [`GpuDetection`] service answering "detect all" and "find by identifier".

pub mod aggregate;
pub mod amd;
pub mod cuda;
pub mod model;
pub mod platform;

pub use model::Gpu;

use vstd::prelude::*;
use vstd::string::StringExecFns;

use crate::aggregate::{aggregate, all_quantities_one, spec_aggregate};
use crate::amd::AmdError;
use crate::model::{Device, GpuApiInfo};
use crate::platform::{Detection, Flags, Platform};

verus! {

/// The dynamic-loading error type of the `libloading` crate, reported when a
/// vendor driver library cannot be opened.
#[verifier::external_type_specification]
#[verifier::external_body]
pub struct ExLibloadingError(libloading::Error);

/// Everything that can go wrong while activating backends or querying them.
#[derive(Debug)]
pub enum GpuDetectionError {
    /// Failed to load a GPU driver library.
    LibloadingError(libloading::Error),
    /// Failed to attach to a device.
    GpuAccessError(String),
    /// A device was reachable but reading its properties failed.
    GpuInfoAccessError(String),
    /// Any other driver error.
    Unknown(String),
    /// A required driver was not found, or no backend knew an identifier.
    NotFound,
    /// An AMD driver error.
    AmdError(AmdError),
}

/// Relies on the `Display` impl of `libloading::Error` for the error text.
#[verifier::external_body]
fn libloading_message(e: &libloading::Error) -> (r: String) {
    e.to_string()
}

impl GpuDetectionError {
    /// A human-readable description of the failure.
    pub fn message(&self) -> (r: String)
        ensures
            match *self {
                GpuDetectionError::LibloadingError(_) => exists|rest: Seq<char>|
                    r@ == "libloading error occurred: "@ + rest,
                GpuDetectionError::GpuAccessError(s) => r@ == "Failed to access GPU error: "@
                    + s@,
                GpuDetectionError::GpuInfoAccessError(s) => r@
                    == "Failed to access GPU info error: "@ + s@,
                GpuDetectionError::Unknown(s) => r@ == "NVML error occurred: "@ + s@,
                GpuDetectionError::NotFound => r@ == "Driver not found"@,
                GpuDetectionError::AmdError(a) => r@ == a.message@,
            },
    {
        match self {
            GpuDetectionError::LibloadingError(e) => {
                let text = libloading_message(e);
                let r = "libloading error occurred: ".to_owned().concat(text.as_str());
                proof {
                    assert(r@ == "libloading error occurred: "@ + text@);
                }
                r
            },
            GpuDetectionError::GpuAccessError(s) => "Failed to access GPU error: ".to_owned()
                .concat(s.as_str()),
            GpuDetectionError::GpuInfoAccessError(s) => {
                "Failed to access GPU info error: ".to_owned().concat(s.as_str())
            },
            GpuDetectionError::Unknown(s) => "NVML error occurred: ".to_owned().concat(s.as_str()),
            GpuDetectionError::NotFound => "Driver not found".to_owned(),
            GpuDetectionError::AmdError(a) => a.message.clone(),
        }
    }
}

/// A sequence of names holds one whose characters are `name`.
pub open spec fn names_contain(names: Seq<String>, name: Seq<char>) -> bool {
    exists|i: int| 0 <= i < names.len() && #[trigger] names[i]@ == name
}

/// The names joined by a comma and a space.
pub open spec fn joined_names(names: Seq<String>) -> Seq<char>
    decreases names.len(),
{
    if names.len() == 0 {
        Seq::<char>::empty()
    } else if names.len() == 1 {
        names[0]@
    } else {
        joined_names(names.drop_last()) + ", "@ + names.last()@
    }
}

/// The text of the error `init` fails with: the fixed prefix, then every
/// missing forced backend's name.
pub open spec fn missing_text(names: Seq<String>) -> Seq<char> {
    "missing forced platforms: "@ + joined_names(names)
}

/// Builds [`missing_text`] for the given names.
fn missing_message(names: &Vec<String>) -> (r: String)
    ensures
        r@ == missing_text(names@),
{
    let mut msg: String = "missing forced platforms: ".to_owned();
    let mut i: usize = 0;
    while i < names.len()
        invariant
            0 <= i <= names@.len(),
            msg@ == "missing forced platforms: "@ + joined_names(names@.take(i as int)),
        decreases names@.len() - i,
    {
        proof {
            assert(names@.take(i + 1).drop_last() =~= names@.take(i as int));
            assert(names@.take(i + 1).last() == names@[i as int]);
        }
        if i > 0 {
            msg = msg.concat(", ");
        }
        msg = msg.concat(names[i].as_str());
        i = i + 1;
    }
    proof {
        assert(names@.take(names@.len() as int) =~= names@);
    }
    msg
}

/// The entry is the backend's name itself, or the name followed by a colon
/// and the activation error's text.
pub open spec fn entry_names(name: Seq<char>, entry: Seq<char>) -> bool {
    entry == name || exists|rest: Seq<char>| entry == name + ": "@ + rest
}

/// The entry names one of the forced backends.
pub open spec fn entry_names_forced(force: Seq<String>, entry: Seq<char>) -> bool {
    exists|i: int| 0 <= i < force.len() && entry_names(#[trigger] force[i]@, entry)
}

/// The text naming a forced backend that failed to activate: the backend's
/// name, then the activation error, so the cause travels with its context.
fn forced_entry(name: &str, e: &GpuDetectionError) -> (r: String)
    ensures
        exists|rest: Seq<char>| r@ == name@ + ": "@ + rest,
{
    let text = e.message();
    let entry = name.to_owned().concat(": ").concat(text.as_str());
    proof {
        assert(entry@ == name@ + ": "@ + text@);
    }
    entry
}

/// Removes the first entry reading `name` from `names`; reports whether one
/// was there.
fn remove_name(names: &mut Vec<String>, name: &str) -> (r: bool)
    ensures
        r == names_contain(old(names)@, name@),
        !r ==> final (names)@ == old(names)@,
        r ==> exists|j: int|
            {
                &&& 0 <= j < old(names)@.len()
                &&& #[trigger] old(names)@[j]@ == name@
                &&& final (names)@ == old(names)@.remove(j)
            },
{
    let key = name.to_owned();
    let mut i: usize = 0;
    while i < names.len()
        invariant
            0 <= i <= names@.len(),
            names@ == old(names)@,
            forall|k: int| 0 <= k < i ==> #[trigger] names@[k]@ != name@,
            key@ == name@,
        decreases names@.len() - i,
    {
        if names[i] == key {
            let ghost j = i as int;
            names.remove(i);
            proof {
                assert(old(names)@[j]@ == name@);
                assert(names@ == old(names)@.remove(j));
            }
            return true;
        }
        i = i + 1;
    }
    proof {
        assert(!names_contain(old(names)@, name@)) by {
            assert(forall|k: int| 0 <= k < old(names)@.len() ==> #[trigger] old(names)@[k]@ != name@);
        }
    }
    false
}

/// Initializes the device-discovery backends: holds the ordered backend
/// list, the force marks and the probing flag, and activates everything on
/// [`Self::init`].
pub struct GpuDetectionBuilder<P: Platform> {
    /// Names of backends whose absence must fail `init`.
    pub force: Vec<String>,
    /// Pass best-effort property probing on to every backend.
    pub unstable: bool,
    /// The known backends, in registration order.
    pub platforms: Vec<P>,
}

/// The device-detection service: the backend handles that activated, in
/// order.
pub struct GpuDetection<D: Detection> {
    /// Activated backend handles.
    pub detections: Vec<D>,
}

impl<P: Platform> GpuDetectionBuilder<P> {
    /// A builder over the given backends with nothing configured.
    pub fn new(platforms: Vec<P>) -> (r: Self)
        ensures
            r.platforms == platforms,
            r.force@ == Seq::<String>::empty(),
            !r.unstable,
    {
        GpuDetectionBuilder { force: Vec::new(), unstable: false, platforms }
    }

    /// Marks the CUDA backend as mandatory: queries about devices will fail
    /// if the NVIDIA management library is not available.
    pub fn force_cuda(self) -> (r: Self)
        ensures
            names_contain(r.force@, "cuda"@),
            names_contain(self.force@, "cuda"@) ==> r.force@ == self.force@,
            !names_contain(self.force@, "cuda"@) ==> {
                &&& r.force@.len() == self.force@.len() + 1
                &&& r.force@.take(self.force@.len() as int) == self.force@
                &&& r.force@.last()@ == "cuda"@
            },
            r.unstable == self.unstable,
            r.platforms == self.platforms,
    {
        let mut this = self;
        let mut i: usize = 0;
        let key: String = "cuda".to_owned();
        while i < this.force.len()
            invariant
                0 <= i <= this.force@.len(),
                forall|k: int| 0 <= k < i ==> #[trigger] this.force@[k]@ != "cuda"@,
                key@ == "cuda"@,
                this == self,
            decreases this.force@.len() - i,
        {
            if this.force[i] == key {
                return this;
            }
            i = i + 1;
        }
        this.force.push(key);
        proof {
            assert(this.force@[this.force@.len() - 1]@ == "cuda"@);
            assert(this.force@.take(self.force@.len() as int) =~= self.force@);
        }
        this
    }

    /// Permits backends to report properties about which we are not certain,
    /// such as an estimated memory bandwidth.
    pub fn unstable_props(self) -> (r: Self)
        ensures
            r.unstable,
            r.force@ == self.force@,
            r.platforms == self.platforms,
    {
        let mut this = self;
        this.unstable = true;
        this
    }

    /// Activates the backends in registration order.
    ///
    /// An unforced backend that fails to activate is silently skipped; a
    /// forced backend that fails, or a forced name no backend carries, makes
    /// the whole call fail with one error naming every missing forced
    /// backend — a failed activation together with its error text.
    pub fn init(self) -> (r: Result<GpuDetection<P::Handle>, GpuDetectionError>)
        ensures
            self.force@.len() == 0 ==> r matches Ok(_),
            r matches Ok(d) ==> d.detections@.len() <= self.platforms@.len(),
            self.platforms@.len() == 0 && self.force@.len() > 0 ==> (r matches Err(e)
                && e matches GpuDetectionError::GpuAccessError(m) && m@ == missing_text(
                self.force@,
            )),
            r matches Err(e) ==> {
                &&& self.force@.len() > 0
                &&& e matches GpuDetectionError::GpuAccessError(m) && exists|miss: Seq<String>|
                    {
                        &&& miss.len() > 0
                        &&& m@ == missing_text(miss)
                        &&& forall|k: int|
                            0 <= k < miss.len() ==> entry_names_forced(
                                self.force@,
                                #[trigger] miss[k]@,
                            )
                    }
            },
    {
        let GpuDetectionBuilder { mut force, unstable, platforms } = self;
        let mut detections: Vec<P::Handle> = Vec::new();
        let mut missing: Vec<String> = Vec::new();
        let mut i: usize = 0;
        while i < platforms.len()
            invariant
                0 <= i <= platforms@.len(),
                platforms@ == self.platforms@,
                detections@.len() <= i,
                forall|k: int|
                    0 <= k < missing@.len() ==> entry_names_forced(
                        self.force@,
                        #[trigger] missing@[k]@,
                    ),
                forall|k: int|
                    0 <= k < force@.len() ==> names_contain(self.force@, #[trigger] force@[k]@),
                self.force@.len() == 0 ==> missing@.len() == 0 && force@.len() == 0,
                self.platforms@.len() == 0 ==> missing@.len() == 0 && force@ == self.force@,
            decreases platforms@.len() - i,
        {
            let platform = &platforms[i];
            let name = platform.name();
            let ghost pool = force@;
            let forced = remove_name(&mut force, name);
            match platform.init(Flags { unstable, force: forced }) {
                Ok(handle) => detections.push(handle),
                Err(activation_error) => {
                    if forced {
                        let entry = forced_entry(name, &activation_error);
                        proof {
                            let j = choose|j: int|
                                0 <= j < pool.len() && #[trigger] pool[j]@ == name@;
                            assert(names_contain(self.force@, pool[j]@));
                            let fi = choose|fi: int|
                                0 <= fi < self.force@.len() && #[trigger] self.force@[fi]@
                                    == name@;
                            let rest = choose|rest: Seq<char>|
                                entry@ == name@ + ": "@ + rest;
                            assert(entry@ == self.force@[fi]@ + ": "@ + rest);
                            assert(entry_names(self.force@[fi]@, entry@));
                            assert(entry_names_forced(self.force@, entry@));
                        }
                        missing.push(entry);
                    }
                    // an unforced backend that fails to activate is treated
                    // as not present on this host
                },
            }
            i = i + 1;
        }
        let ghost leftover = force@;
        let ghost noted = missing@;
        missing.append(&mut force);
        proof {
            assert forall|k: int|
                0 <= k < missing@.len() implies entry_names_forced(
                self.force@,
                #[trigger] missing@[k]@,
            ) by {
                if k < noted.len() {
                    assert(missing@[k] == noted[k]);
                } else {
                    assert(missing@[k] == leftover[k - noted.len()]);
                    assert(names_contain(self.force@, leftover[k - noted.len()]@));
                    let fi = choose|fi: int|
                        0 <= fi < self.force@.len() && #[trigger] self.force@[fi]@ == missing@[k]@;
                    assert(entry_names(self.force@[fi]@, missing@[k]@));
                }
            }
            if platforms@.len() == 0 {
                assert(missing@ =~= self.force@);
            }
        }
        if missing.len() > 0 {
            Err(GpuDetectionError::GpuAccessError(missing_message(&missing)))
        } else {
            Ok(GpuDetection { detections })
        }
    }
}

impl Default for GpuDetectionBuilder<crate::cuda::CudaPlatform> {
    /// The standard registry: the CUDA backend, nothing forced, no
    /// best-effort probing.
    fn default() -> (r: Self)
        ensures
            r.force@.len() == 0,
            !r.unstable,
            r.platforms@.len() == 1,
    {
        GpuDetectionBuilder::new(vec![crate::cuda::platform()])
    }
}

/// The merged outputs of every backend's raw list, in backend order.
pub open spec fn flatten_aggregates(raw: Seq<Seq<Device>>) -> Seq<Device>
    decreases raw.len(),
{
    if raw.len() == 0 {
        Seq::<Device>::empty()
    } else {
        flatten_aggregates(raw.drop_last()) + spec_aggregate(raw.last())
    }
}

impl<D: Detection> GpuDetection<D> {
    /// Detects all available GPUs.
    ///
    /// Asks every backend for its API metadata and its raw device list, in
    /// order, and merges each list; one failing backend call aborts the whole
    /// pass. On success the device sequence is exactly the concatenation of
    /// the per-backend merges.
    pub fn detect(&self) -> (r: Result<Gpu, GpuDetectionError>)
        ensures
            self.detections@.len() == 0 ==> (r matches Ok(g) && g.device@.len() == 0
                && g.api.cuda is None),
            r matches Ok(g) ==> exists|raw: Seq<Seq<Device>>|
                {
                    &&& raw.len() == self.detections@.len()
                    &&& forall|k: int| 0 <= k < raw.len() ==> all_quantities_one(#[trigger] raw[k])
                    &&& g.device@ == flatten_aggregates(raw)
                },
    {
        let mut api = GpuApiInfo::default();
        let mut device: Vec<Device> = Vec::new();
        let ghost mut raw: Seq<Seq<Device>> = Seq::empty();
        let mut i: usize = 0;
        while i < self.detections.len()
            invariant
                0 <= i <= self.detections@.len(),
                raw.len() == i,
                forall|k: int| 0 <= k < raw.len() ==> all_quantities_one(#[trigger] raw[k]),
                device@ == flatten_aggregates(raw),
                self.detections@.len() == 0 ==> api.cuda is None,
            decreases self.detections@.len() - i,
        {
            let detector = &self.detections[i];
            match detector.detect_api(&mut api) {
                Ok(_) => (),
                Err(e) => {
                    return Err(e);
                },
            }
            let devs = match detector.devices() {
                Ok(v) => v,
                Err(e) => {
                    return Err(e);
                },
            };
            let ghost prev_raw = raw;
            proof {
                raw = raw.push(devs@);
                assert(raw.drop_last() =~= prev_raw);
            }
            let mut merged = aggregate(devs);
            device.append(&mut merged);
            i = i + 1;
        }
        Ok(Gpu { api, device })
    }

    /// Finds a single device by its unique identifier.
    ///
    /// Backends are tried in order; the first positive match wins. A backend
    /// error is remembered but does not stop the search; if nothing matched,
    /// the last error is surfaced, or a not-found condition when no backend
    /// erred.
    pub fn search_by_uuid(&self, uuid: &str) -> (r: Result<Device, GpuDetectionError>)
        ensures
            self.detections@.len() == 0 ==> (r matches Err(e) && e is NotFound),
            r matches Ok(_) ==> self.detections@.len() > 0,
    {
        let mut last_err: Option<GpuDetectionError> = None;
        let mut i: usize = 0;
        while i < self.detections.len()
            invariant
                0 <= i <= self.detections@.len(),
                self.detections@.len() == 0 ==> last_err is None,
            decreases self.detections@.len() - i,
        {
            match self.detections[i].device_by_uuid(uuid) {
                Ok(Some(device)) => {
                    return Ok(device);
                },
                Err(e) => {
                    last_err = Some(e);
                },
                Ok(None) => (),
            }
            i = i + 1;
        }
        match last_err {
            Some(e) => Err(e),
            None => Err(GpuDetectionError::NotFound),
        }
    }
}

} // verus!
