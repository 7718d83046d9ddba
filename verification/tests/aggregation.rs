use gpu_detection::aggregate::aggregate;
use gpu_detection::cuda::bandwidth_gib;
use gpu_detection::amd::{max_supported_mhz, pcie_id_matches};
use gpu_detection::model::{Device, DeviceClocks, DeviceCuda, DeviceMemory, GpuApiInfo};
use gpu_detection::platform::{Detection, Flags, Platform};
use gpu_detection::{GpuDetectionBuilder, GpuDetectionError};

#[derive(Clone)]
struct TestPlatformDetection {
    devices: Vec<Device>,
}

impl Platform for TestPlatformDetection {
    type Handle = TestPlatformDetection;

    fn name(&self) -> &str {
        "test"
    }

    fn init(&self, _flags: Flags) -> Result<TestPlatformDetection, GpuDetectionError> {
        Ok(self.clone())
    }
}

impl Detection for TestPlatformDetection {
    fn detect_api(&self, _api: &mut GpuApiInfo) -> Result<(), GpuDetectionError> {
        Ok(())
    }

    fn devices(&self) -> Result<Vec<Device>, GpuDetectionError> {
        Ok(self.devices.clone())
    }

    fn device_by_uuid(&self, _uuid: &str) -> Result<Option<Device>, GpuDetectionError> {
        Ok(None)
    }
}

fn rtx3090() -> Device {
    Device {
        model: "NVIDIA GeForce RTX 3090".to_string(),
        cuda: Some(DeviceCuda {
            enabled: true,
            cores: 10496,
            caps: "8.6".to_string(),
        }),
        clocks: DeviceClocks {
            graphics_mhz: 2100,
            memory_mhz: 9751,
            sm_mhz: 2100,
            video_mhz: Some(1950),
        },
        memory: DeviceMemory {
            bandwidth_gib: Some(936),
            total_bytes: 24 * 1024 * 1024 * 1024,
        },
        quantity: 1,
    }
}

fn other_card(model: &str) -> Device {
    Device {
        model: model.to_string(),
        cuda: None,
        clocks: DeviceClocks {
            graphics_mhz: 1000,
            memory_mhz: 2000,
            sm_mhz: 1000,
            video_mhz: None,
        },
        memory: DeviceMemory {
            bandwidth_gib: None,
            total_bytes: 8 * 1024 * 1024 * 1024,
        },
        quantity: 1,
    }
}

#[test]
fn test_aggregation() {
    let gpu = rtx3090();
    let platform = TestPlatformDetection {
        devices: vec![gpu.clone(), gpu.clone()],
    };

    let b = GpuDetectionBuilder::new(vec![platform]);
    let gpu = b
        .init()
        .expect("failed to initialize")
        .detect()
        .expect("mock detection");

    assert_eq!(gpu.device.len(), 1);
    let dev = gpu.device.first().unwrap();
    assert_eq!(dev.quantity, 2);
}

#[test]
fn consecutive_runs_are_counted() {
    // two runs: X X then Y, merged to X(2), Y(1)
    let x = rtx3090();
    let y = other_card("Y");
    let merged = aggregate(vec![x.clone(), x.clone(), y.clone()]);
    assert_eq!(merged.len(), 2);
    assert_eq!(merged[0].model, x.model);
    assert_eq!(merged[0].quantity, 2);
    assert_eq!(merged[1].model, y.model);
    assert_eq!(merged[1].quantity, 1);
    let total: usize = merged.iter().map(|d| d.quantity).sum();
    assert_eq!(total, 3);
}

#[test]
fn non_consecutive_duplicates_stay_apart() {
    let a = other_card("A");
    let b = other_card("B");
    let merged = aggregate(vec![a.clone(), b.clone(), a.clone()]);
    assert_eq!(merged.len(), 3);
    assert_eq!(merged[0].model, "A");
    assert_eq!(merged[0].quantity, 1);
    assert_eq!(merged[1].model, "B");
    assert_eq!(merged[1].quantity, 1);
    assert_eq!(merged[2].model, "A");
    assert_eq!(merged[2].quantity, 1);
}

#[test]
fn empty_input_aggregates_to_empty_output() {
    let merged = aggregate(Vec::new());
    assert!(merged.is_empty());
}

#[test]
fn differing_video_clock_is_a_different_identity() {
    let a = other_card("A");
    let mut b = other_card("A");
    b.clocks.video_mhz = Some(100);
    let merged = aggregate(vec![a, b]);
    assert_eq!(merged.len(), 2);
}

#[test]
fn differing_memory_is_a_different_identity() {
    let a = other_card("A");
    let mut b = other_card("A");
    b.memory.total_bytes += 1;
    let merged = aggregate(vec![a, b]);
    assert_eq!(merged.len(), 2);
}

#[test]
fn bandwidth_formula_exact_value() {
    // RTX 3090: 9751 MHz memory clock on a 384-bit bus
    assert_eq!(bandwidth_gib(9751, 384), Some(936));
    assert_eq!(bandwidth_gib(0, 384), Some(0));
    // an unrepresentable estimate reports nothing
    assert_eq!(bandwidth_gib(u32::MAX, u32::MAX), None);
}

#[test]
fn max_supported_frequency_selection() {
    assert_eq!(max_supported_mhz(&vec![500, u64::MAX, 1500]), 1500);
    assert_eq!(max_supported_mhz(&vec![]), 0);
    assert_eq!(max_supported_mhz(&vec![u64::MAX]), 0);
    assert_eq!(max_supported_mhz(&vec![7, 7]), 7);
}

#[test]
fn pcie_id_rendering() {
    assert!(pcie_id_matches(0x1234, "0000000000001234"));
    assert!(pcie_id_matches(u64::MAX, "ffffffffffffffff"));
    assert!(pcie_id_matches(0, "0000000000000000"));
    assert!(!pcie_id_matches(0x1234, "1234"));
    assert!(!pcie_id_matches(0x12ab, "00000000000012AB"));
}

#[test]
fn cuda_version_number_decoding() {
    assert_eq!(nvml_wrapper::cuda_driver_version_major(12020), 12);
    assert_eq!(nvml_wrapper::cuda_driver_version_minor(12020), 2);
}
