//! Failure taxonomy shared by every component of the session.
use vstd::prelude::*;

verus! {

/// A capability table obtained from the runtime.
#[derive(Clone, Copy, Debug, PartialEq, Eq, Structural)]
pub enum Capability {
    Overlay,
    System,
    Input,
}

/// A native operation whose status code is checked.
#[derive(Clone, Copy, Debug, PartialEq, Eq, Structural)]
pub enum NativeOp {
    CreateOverlay,
    ShowOverlay,
    HideOverlay,
    SetOverlayWidthInMeters,
    SetOverlayTextureBounds,
    SetOverlayTransformTrackedDeviceRelative,
    GetOverlayTransformAbsolute,
    SetOverlayTransformAbsolute,
    SetOverlayFromFile,
    SetOverlayRaw,
    GetOverlayTransformType,
    GetOverlayTransformTrackedDeviceRelative,
}

/// The GPU step that failed.
#[derive(Clone, Copy, Debug, PartialEq, Eq, Structural)]
pub enum GpuStep {
    /// No device was created for this session.
    Device,
    /// Creating the writable texture failed.
    Allocate,
    /// Mapping the texture for CPU write failed.
    MapForWrite,
}

/// A caller-supplied value whose content is checked before any native call.
#[derive(Clone, Copy, Debug, PartialEq, Eq, Structural)]
pub enum Argument {
    OverlayKey,
    OverlayName,
    FilePath,
    ActionName,
    RaySource,
    RayDirection,
    Matrix,
}

#[derive(Clone, Copy, Debug, PartialEq, Eq, Structural)]
pub enum OverlayError {
    /// No head-mounted display is present.
    DeviceNotFound,
    /// The runtime rejected initialization with this status.
    RuntimeInitFailed(u32),
    /// A mandatory capability table could not be obtained.
    InterfaceUnavailable(Capability),
    /// An interface version override holds an embedded zero byte.
    InvalidConfiguration(Capability),
    /// A device index at or above the tracked-device limit.
    InvalidDeviceIndex(u32),
    /// A negative overlay handle, or one that does not fit an `i64`.
    InvalidOverlayHandle,
    /// A pixel buffer whose length is not `width * height * 4`.
    BufferSizeMismatch { expected: usize, actual: usize },
    /// `width * height * 4` does not fit the address space.
    DimensionOverflow,
    GpuResourceError(GpuStep),
    /// The compositor refused the imported texture with this status.
    CompositorRejectedTexture(u32),
    /// A native call returned a status other than success.
    NativeOperationFailed(NativeOp, u32),
    /// An argument of the wrong length (`actual` elements where `expected` are needed).
    InvalidArgumentLength { argument: Argument, expected: usize, actual: usize },
    /// A string argument holds an embedded zero byte.
    EmbeddedNul(Argument),
}

} // verus!
