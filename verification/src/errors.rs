//! The error taxonomy of the rendering core.
//!
//! Setup failures are fatal at startup; swap-chain failures are fatal at
//! startup and recoverable by retry on resize; target and pipeline build
//! failures are fatal; per-frame failures are reported to the caller and the
//! frame is skipped.

use vstd::prelude::*;

verus! {

/// Failures while selecting an adapter and opening the logical device.
#[derive(Clone, Copy, Debug, PartialEq, Eq, Structural)]
pub enum SetupError {
    /// No adapter exposes a queue family with both graphics and presentation.
    NoSuitableAdapter,
    /// The device-open call was rejected.
    DeviceOpenFailed,
}

/// Failures while negotiating or creating the swap chain.
#[derive(Clone, Copy, Debug, PartialEq, Eq, Structural)]
pub enum SwapChainError {
    /// The surface reported no supported present mode.
    NoPresentMode,
    /// The surface reported no supported composite-alpha mode.
    NoCompositeAlpha,
    /// The surface imposed a preferred-format list, but the list is empty.
    NoFormat,
    /// The surface does not support color-attachment usage.
    SurfaceDoesNotSupportColor,
}

/// Failures while creating the renderer at startup.
#[derive(Clone, Copy, Debug, PartialEq, Eq, Structural)]
pub enum CreateError {
    /// Adapter or device selection failed.
    Setup(SetupError),
    /// Swap-chain negotiation failed.
    SwapChain(SwapChainError),
}

/// Failure while deriving the render targets from the swap-chain images.
#[derive(Clone, Copy, Debug, PartialEq, Eq, Structural)]
pub enum TargetError {
    /// An image view or framebuffer creation failed; the whole batch was
    /// aborted and everything already created in it was released.
    TargetCreationFailed,
}

/// Failures while building the graphics pipeline.
#[derive(Clone, Copy, Debug, PartialEq, Eq, Structural)]
pub enum PipelineError {
    /// The shading collaborator rejected the vertex shader source.
    VertexCompileFailed,
    /// The shading collaborator rejected the fragment shader source.
    FragmentCompileFailed,
    /// A shader module could not be created from a compiled binary.
    ShaderModuleFailed,
    /// The (empty) descriptor set layout could not be created.
    DescriptorSetLayoutFailed,
    /// The pipeline layout could not be created.
    PipelineLayoutFailed,
    /// The graphics pipeline object could not be created.
    PipelineCreationFailed,
}

/// Per-frame failures. These are reported to the caller and the frame is
/// skipped; the render loop continues.
#[derive(Clone, Copy, Debug, PartialEq, Eq, Structural)]
pub enum FrameError {
    /// A fence wait exceeded its configured bound. Distinct from losing the
    /// device: the caller may simply retry.
    FenceTimeout,
    /// The GPU device was lost while waiting on a fence.
    DeviceLost,
    /// Presenting the acquired image failed outright.
    PresentFailed,
}

} // verus!
