//! Compute-device resolution with graceful CPU fallback.
//!
//! The accelerator backend is probed at run time; whether the probe's failure
//! is fatal is the caller's choice. Lenient resolution always yields a usable
//! handle, strict resolution refuses to fall back silently.

use vstd::prelude::*;

use crate::errors::ModelError;

verus! {

#[verifier::external_type_specification]
#[verifier::external_body]
pub struct ExDevice(candle_core::Device);

/// Which backend a resolved handle is bound to.
#[derive(Debug, Clone, Copy, PartialEq, Eq, Structural)]
pub enum DeviceKind {
    /// The general-purpose processor backend: always available.
    Cpu,
    /// A hardware accelerator backend that initialized successfully.
    Accelerator,
}

/// A resolved compute device: the backend kind, and the opaque context the
/// numeric backend needs to place tensors on it.
pub struct DeviceHandle {
    pub kind: DeviceKind,
    pub device: candle_core::Device,
}

/// Whether a device value is the processor backend rather than an
/// accelerator.
pub uninterp spec fn device_is_cpu(d: candle_core::Device) -> bool;

/// Relies on candle_core::Device::is_cpu: true exactly of the processor
/// backend.
pub assume_specification[ candle_core::Device::is_cpu ](d: &candle_core::Device) -> (r: bool)
    ensures
        r == device_is_cpu(*d),
;

/// Relies on candle_core::Device::new_cuda: `Some` exactly when the CUDA
/// backend — never the processor backend — initialized for the given
/// ordinal; nothing more can be promised of a host-dependent probe.
#[verifier::external_body]
fn cuda_device(ordinal: usize) -> (r: Option<candle_core::Device>)
    ensures
        r matches Some(d) ==> !device_is_cpu(d),
{
    candle_core::Device::new_cuda(ordinal).ok()
}

/// Relies on candle_core::Device::new_metal: `Some` exactly when the Metal
/// backend — never the processor backend — initialized for the given
/// ordinal.
#[verifier::external_body]
fn metal_device(ordinal: usize) -> (r: Option<candle_core::Device>)
    ensures
        r matches Some(d) ==> !device_is_cpu(d),
{
    candle_core::Device::new_metal(ordinal).ok()
}

/// Relies on candle_core::Device::Cpu: the processor backend needs no
/// initialization and is always available.
#[verifier::external_body]
fn cpu_device() -> (r: candle_core::Device)
    ensures
        device_is_cpu(r),
{
    candle_core::Device::Cpu
}

/// Turns the accelerator probe's finding into the resolved handle.
///
/// An accelerator that initialized is always used. Without one, lenient
/// resolution falls back to the CPU and never fails, while strict resolution
/// fails with `DeviceUnavailable` and never falls back silently.
pub fn resolve_with(accel: Option<candle_core::Device>, strict: bool) -> (r: Result<
    DeviceHandle,
    ModelError,
>)
    ensures
        accel matches Some(d) ==> r is Ok && r.unwrap().kind == DeviceKind::Accelerator
            && r.unwrap().device == d,
        accel is None && !strict ==> r is Ok && r.unwrap().kind == DeviceKind::Cpu
            && device_is_cpu(r.unwrap().device),
        accel is None && strict ==> r == Err::<DeviceHandle, ModelError>(
            ModelError::DeviceUnavailable,
        ),
{
    match accel {
        Some(d) => Ok(DeviceHandle { kind: DeviceKind::Accelerator, device: d }),
        None => {
            if strict {
                Err(ModelError::DeviceUnavailable)
            } else {
                Ok(DeviceHandle { kind: DeviceKind::Cpu, device: cpu_device() })
            }
        },
    }
}

/// Chooses a compute device, trying the accelerator backends first.
///
/// Lenient resolution (`strict` false) always succeeds: when no accelerator
/// initializes it returns a handle backed by the processor device instead.
/// Strict resolution never falls back: it succeeds only with an accelerator
/// handle, and propagates the failure as `DeviceUnavailable` and nothing
/// else.
pub fn resolve(strict: bool) -> (r: Result<DeviceHandle, ModelError>)
    ensures
        !strict ==> r is Ok,
        r matches Ok(h) ==> (h.kind == DeviceKind::Cpu <==> device_is_cpu(h.device)),
        strict && r is Ok ==> r.unwrap().kind == DeviceKind::Accelerator,
        r is Err ==> strict && r == Err::<DeviceHandle, ModelError>(ModelError::DeviceUnavailable),
{
    let accel = match cuda_device(0) {
        Some(d) => Some(d),
        None => metal_device(0),
    };
    resolve_with(accel, strict)
}

/// Lenient resolution, as the plain entry point uses it: some usable
/// device, never a failure, and the handle is marked `Cpu` exactly when it
/// is backed by the processor device — the fallback taken when no
/// accelerator initialized.
pub fn get() -> (h: DeviceHandle)
    ensures
        h.kind == DeviceKind::Cpu <==> device_is_cpu(h.device),
{
    match resolve(false) {
        Ok(h) => h,
        Err(_) => vstd::pervasive::unreached(),
    }
}

} // verus!
