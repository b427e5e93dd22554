use modelrun::compute_device;
use modelrun::compute_device::DeviceKind;
use modelrun::errors::ModelError;

#[test]
fn lenient_resolution_falls_back_to_cpu() {
    // This build carries no accelerator backend, so the probe fails and the
    // lenient path must hand back a CPU handle without raising.
    let handle = compute_device::resolve(false).expect("lenient resolution never fails");
    assert_eq!(handle.kind, DeviceKind::Cpu);
    assert!(handle.device.is_cpu());
}

#[test]
fn strict_resolution_reports_device_unavailable() {
    let r = compute_device::resolve(true);
    assert!(matches!(r, Err(ModelError::DeviceUnavailable)));
}

#[test]
fn plain_get_returns_a_usable_handle() {
    let handle = compute_device::get();
    assert_eq!(handle.kind, DeviceKind::Cpu);
}
