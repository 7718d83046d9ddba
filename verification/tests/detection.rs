use gpu_detection::model::{Device, DeviceClocks, DeviceMemory, GpuApiInfo};
use gpu_detection::platform::{Detection, Flags, Platform};
use gpu_detection::{GpuDetectionBuilder, GpuDetectionError};

#[derive(Clone)]
struct ScriptedBackend {
    name: &'static str,
    fail_activation: bool,
    devices: Vec<Device>,
    fail_devices: bool,
    uuid_match: Option<Device>,
    fail_uuid: bool,
}

impl ScriptedBackend {
    fn healthy(name: &'static str, devices: Vec<Device>) -> Self {
        ScriptedBackend {
            name,
            fail_activation: false,
            devices,
            fail_devices: false,
            uuid_match: None,
            fail_uuid: false,
        }
    }
}

impl Platform for ScriptedBackend {
    type Handle = ScriptedBackend;

    fn name(&self) -> &str {
        self.name
    }

    fn init(&self, _flags: Flags) -> Result<ScriptedBackend, GpuDetectionError> {
        if self.fail_activation {
            Err(GpuDetectionError::Unknown("activation failed".to_string()))
        } else {
            Ok(self.clone())
        }
    }
}

impl Detection for ScriptedBackend {
    fn detect_api(&self, _api: &mut GpuApiInfo) -> Result<(), GpuDetectionError> {
        Ok(())
    }

    fn devices(&self) -> Result<Vec<Device>, GpuDetectionError> {
        if self.fail_devices {
            Err(GpuDetectionError::GpuInfoAccessError("query failed".to_string()))
        } else {
            Ok(self.devices.clone())
        }
    }

    fn device_by_uuid(&self, uuid: &str) -> Result<Option<Device>, GpuDetectionError> {
        if self.fail_uuid {
            return Err(GpuDetectionError::GpuAccessError("lookup failed".to_string()));
        }
        match &self.uuid_match {
            Some(d) if uuid == d.model.as_str() => Ok(Some(d.clone())),
            _ => Ok(None),
        }
    }
}

fn card(model: &str) -> Device {
    Device {
        model: model.to_string(),
        cuda: None,
        clocks: DeviceClocks {
            graphics_mhz: 1200,
            memory_mhz: 1600,
            sm_mhz: 1200,
            video_mhz: None,
        },
        memory: DeviceMemory {
            bandwidth_gib: None,
            total_bytes: 16 * 1024 * 1024 * 1024,
        },
        quantity: 1,
    }
}

#[test]
fn forced_backend_failure_fails_init_naming_it() {
    let mut backend = ScriptedBackend::healthy("x", vec![]);
    backend.fail_activation = true;

    let mut builder = GpuDetectionBuilder::new(vec![backend]);
    builder.force.push("x".to_string());
    let err = builder.init().err().expect("init must fail");
    match err {
        GpuDetectionError::GpuAccessError(msg) => {
            // the failed forced backend is named, with its activation error
            assert_eq!(
                msg,
                "missing forced platforms: x: NVML error occurred: activation failed"
            );
        }
        other => panic!("unexpected error: {:?}", other),
    }
}

#[test]
fn unforced_backend_failure_is_skipped() {
    let mut failing = ScriptedBackend::healthy("x", vec![]);
    failing.fail_activation = true;
    let healthy = ScriptedBackend::healthy("y", vec![card("A")]);

    let service = GpuDetectionBuilder::new(vec![failing, healthy])
        .init()
        .expect("unforced failure must be skipped");
    let gpu = service.detect().expect("detection");
    assert_eq!(gpu.device.len(), 1);
    assert_eq!(gpu.device[0].model, "A");
}

#[test]
fn forcing_an_unknown_backend_name_fails_init() {
    let healthy = ScriptedBackend::healthy("y", vec![]);
    let mut builder = GpuDetectionBuilder::new(vec![healthy]);
    builder.force.push("x".to_string());
    builder.force.push("z".to_string());
    let err = builder.init().err().expect("init must fail");
    match err {
        GpuDetectionError::GpuAccessError(msg) => {
            assert_eq!(msg, "missing forced platforms: x, z");
        }
        other => panic!("unexpected error: {:?}", other),
    }
}

#[test]
fn detect_all_short_circuits_on_error() {
    let first = ScriptedBackend::healthy("one", vec![card("A")]);
    let mut second = ScriptedBackend::healthy("two", vec![card("B")]);
    second.fail_devices = true;
    let third = ScriptedBackend::healthy("three", vec![card("C")]);

    let service = GpuDetectionBuilder::new(vec![first, second, third])
        .init()
        .expect("activation");
    let err = service.detect().err().expect("backend two must abort the pass");
    match err {
        GpuDetectionError::GpuInfoAccessError(msg) => assert_eq!(msg, "query failed"),
        other => panic!("unexpected error: {:?}", other),
    }
}

#[test]
fn detect_concatenates_backends_in_order() {
    let first = ScriptedBackend::healthy("one", vec![card("A"), card("A")]);
    let second = ScriptedBackend::healthy("two", vec![card("B"), card("A")]);

    let service = GpuDetectionBuilder::new(vec![first, second])
        .init()
        .expect("activation");
    let gpu = service.detect().expect("detection");
    let models: Vec<&str> = gpu.device.iter().map(|d| d.model.as_str()).collect();
    let quantities: Vec<usize> = gpu.device.iter().map(|d| d.quantity).collect();
    assert_eq!(models, vec!["A", "B", "A"]);
    assert_eq!(quantities, vec![2, 1, 1]);
}

#[test]
fn find_by_id_falls_back_past_an_erring_backend() {
    let mut first = ScriptedBackend::healthy("one", vec![]);
    first.fail_uuid = true;
    let mut second = ScriptedBackend::healthy("two", vec![]);
    second.uuid_match = Some(card("wanted"));

    let service = GpuDetectionBuilder::new(vec![first, second])
        .init()
        .expect("activation");
    let found = service.search_by_uuid("wanted").expect("second backend matches");
    assert_eq!(found.model, "wanted");
}

#[test]
fn find_by_id_surfaces_last_error_when_nothing_matches() {
    let mut first = ScriptedBackend::healthy("one", vec![]);
    first.fail_uuid = true;
    let second = ScriptedBackend::healthy("two", vec![]);

    let service = GpuDetectionBuilder::new(vec![first, second])
        .init()
        .expect("activation");
    let err = service.search_by_uuid("missing").err().expect("no match");
    match err {
        GpuDetectionError::GpuAccessError(msg) => assert_eq!(msg, "lookup failed"),
        other => panic!("unexpected error: {:?}", other),
    }
}

#[test]
fn find_by_id_reports_not_found_without_errors() {
    let first = ScriptedBackend::healthy("one", vec![]);
    let service = GpuDetectionBuilder::new(vec![first]).init().expect("activation");
    let err = service.search_by_uuid("missing").err().expect("no match");
    assert!(matches!(err, GpuDetectionError::NotFound));
}

#[test]
fn force_cuda_marks_once() {
    let builder = GpuDetectionBuilder::new(Vec::<ScriptedBackend>::new())
        .force_cuda()
        .force_cuda();
    assert_eq!(builder.force.len(), 1);
    assert_eq!(builder.force[0], "cuda");
}

#[test]
fn unstable_props_sets_the_flag() {
    let builder = GpuDetectionBuilder::new(Vec::<ScriptedBackend>::new()).unstable_props();
    assert!(builder.unstable);
}

#[test]
fn error_messages() {
    let e = GpuDetectionError::GpuAccessError("z".to_string());
    assert_eq!(e.message(), "Failed to access GPU error: z");
    let e = GpuDetectionError::GpuInfoAccessError("z".to_string());
    assert_eq!(e.message(), "Failed to access GPU info error: z");
    let e = GpuDetectionError::Unknown("z".to_string());
    assert_eq!(e.message(), "NVML error occurred: z");
    assert_eq!(GpuDetectionError::NotFound.message(), "Driver not found");
}

#[test]
fn default_registry_skips_missing_cuda_driver() {
    // on a host without the NVIDIA management library the unforced CUDA
    // backend is silently absent
    let service = GpuDetectionBuilder::default().init().expect("nothing forced");
    let gpu = service.detect().expect("empty detection");
    assert!(gpu.device.is_empty());
    assert!(gpu.api.cuda.is_none());
}
