//! States, events and actions of the initialization protocol.
//!
//! The aggregate is a tagged state: every stage of the bring-up sequence is
//! its own variant carrying exactly the data that stage has established, so
//! that an illegal combination — a swap chain without a device, a probed
//! quality level without a fence — is unrepresentable rather than merely
//! unchecked.

use crate::desc::CommandListType;
use crate::desc::CommandQueueDesc;
use crate::desc::DescriptorHeapDesc;
use crate::desc::FeatureLevel;
use crate::desc::PixelFormat;
use crate::desc::SwapChainDesc;
use crate::desc::FENCE_INITIAL_VALUE;
use crate::desc::spec_dsv_heap_desc;
use crate::desc::spec_rtv_heap_desc;
use crate::desc::spec_swapchain_desc;
use vstd::prelude::*;

verus! {

/// Immutable configuration the sequence is run with: the initial surface
/// size in pixels (both strictly positive), whether the validation layer is
/// activated before device creation, and whether 4x multisampling is
/// requested for the swap chain.
#[derive(Clone, Copy, PartialEq, Eq, Structural, Debug)]
pub struct InitConfig {
    pub width: u32,
    pub height: u32,
    pub debug_layer: bool,
    pub msaa_4x_enabled: bool,
}

impl InitConfig {
    /// The platform collaborator hands in a surface with positive extent.
    pub open spec fn wf(self) -> bool {
        self.width > 0 && self.height > 0
    }
}

/// How the device was obtained: from real hardware, or from the software
/// (WARP) fallback adapter after the hardware attempt failed.
#[derive(Clone, Copy, PartialEq, Eq, Structural, Debug)]
pub enum DeviceKind {
    Hardware,
    Warp,
}

/// The three driver-reported descriptor byte strides, one per heap kind.
/// Captured once after device creation and immutable for the device's life.
#[derive(Clone, Copy, PartialEq, Eq, Structural, Debug)]
pub struct DescriptorSizes {
    pub cbv_srv_uav: u32,
    pub rtv: u32,
    pub dsv: u32,
}

/// Outcome of the device-acquisition stage: which adapter the device came
/// from. The handle itself stays with the platform shim.
#[derive(Clone, Copy, PartialEq, Eq, Structural, Debug)]
pub struct DeviceBundle {
    pub kind: DeviceKind,
}

/// Everything the capability-probing stages established: the device, its
/// descriptor strides, the fence counter, and the 4x multisampling quality
/// level count (strictly positive once probing succeeded).
#[derive(Clone, Copy, PartialEq, Eq, Structural, Debug)]
pub struct GpuCaps {
    pub device: DeviceBundle,
    pub descriptor_sizes: DescriptorSizes,
    pub fence_value: u64,
    pub msaa_quality: u32,
}

/// The fully provisioned context: capabilities plus the exact descriptions
/// the swap chain and the two descriptor heaps were created with. This is
/// the only data a reader outside the sequence can ever observe.
#[derive(Clone, Copy, PartialEq, Eq, Structural, Debug)]
pub struct ReadyContext {
    pub device: DeviceBundle,
    pub descriptor_sizes: DescriptorSizes,
    pub fence_value: u64,
    pub msaa_quality: u32,
    pub swapchain: SwapChainDesc,
    pub rtv_heap: DescriptorHeapDesc,
    pub dsv_heap: DescriptorHeapDesc,
}

/// The stages of the bring-up sequence, in order. `Failed` is terminal and
/// absorbing: once any stage fails, the aggregate is unusable and only a
/// full re-construction may try again.
#[derive(Clone, Copy, PartialEq, Eq, Structural, Debug)]
pub enum InitState {
    /// Freshly constructed; nothing acquired.
    Empty,
    /// The validation layer is active (only with `debug_layer` set, and
    /// always before any device exists).
    DebugReady,
    /// The graphics factory exists; the hardware device attempt is next.
    FactoryReady,
    /// The hardware attempt failed; the single software-adapter retry is
    /// next.
    FallbackPending,
    /// A device exists.
    DeviceReady { device: DeviceBundle },
    /// The fence exists (counter at its initial value) and the descriptor
    /// strides are captured.
    FenceReady { device: DeviceBundle, descriptor_sizes: DescriptorSizes, fence_value: u64 },
    /// The multisampling probe returned a positive quality level count.
    Probed { caps: GpuCaps },
    /// Queue, allocator and command list exist; the list is still open
    /// (recording) and must be closed before anything else happens.
    ListOpen { caps: GpuCaps },
    /// The command list is closed; command submission is fully provisioned.
    CommandReady { caps: GpuCaps },
    /// The swap chain exists, created with exactly the stored description.
    SurfaceReady { caps: GpuCaps, swapchain: SwapChainDesc },
    /// Fully operational.
    Ready { context: ReadyContext },
    /// Cleanly failed; absorbing.
    Failed,
    /// A resize was requested while ready; the fence wait that protects the
    /// old presentation buffers is next.
    ResizeFencePending { context: ReadyContext, width: u32, height: u32 },
    /// No GPU work references the old buffers any more; re-creating the
    /// swap chain at the new size is next.
    ResizeSurfacePending { context: ReadyContext, width: u32, height: u32 },
    /// The swap chain exists at the new size; re-creating the descriptor
    /// heaps is next.
    ResizeHeapsPending { context: ReadyContext, swapchain: SwapChainDesc },
}

impl InitState {
    /// States from which the machine will never request another call.
    pub open spec fn is_settled(self) -> bool {
        self is Ready || self is Failed
    }
}

/// The native calls the machine asks the platform shim to perform. Every
/// argument the native boundary needs to be exact is carried here as a
/// plain value.
#[derive(Clone, Copy, PartialEq, Eq, Structural, Debug)]
pub enum Action {
    /// Activate the validation layer (before any device creation).
    EnableDebugLayer,
    /// Create the graphics factory.
    CreateFactory,
    /// Create a device of the given kind at the given minimum capability
    /// tier.
    CreateDevice { kind: DeviceKind, feature_level: FeatureLevel },
    /// Create the fence at `initial_value` and read the three descriptor
    /// strides.
    CreateFenceAndQuerySizes { initial_value: u64 },
    /// Ask the driver how many quality levels it supports for
    /// `sample_count` samples in `format`.
    ProbeMsaaQuality { format: PixelFormat, sample_count: u32 },
    /// Create the command queue from `queue_desc`, plus an allocator and a
    /// command list of `list_type` bound to that allocator.
    CreateCommandObjects { queue_desc: CommandQueueDesc, list_type: CommandListType },
    /// Close the freshly created command list so that the first reset finds
    /// it closed.
    CloseCommandList,
    /// Create the swap chain from `desc`, bound to the command queue.
    CreateSwapChain { desc: SwapChainDesc },
    /// Create the render-target-view and depth-stencil-view heaps from the
    /// two descriptions.
    CreateDescriptorHeaps { rtv: DescriptorHeapDesc, dsv: DescriptorHeapDesc },
    /// Block until the fence counter has reached `value`, so that no
    /// in-flight GPU work references the old swap-chain buffers.
    WaitForFence { value: u64 },
}

/// What the platform shim reports back after performing an action, plus the
/// one inbound request (resize) the window collaborator can raise.
#[derive(Clone, Copy, PartialEq, Eq, Structural, Debug)]
pub enum Event {
    /// The validation layer is active.
    DebugLayerEnabled,
    /// The factory exists.
    FactoryCreated,
    /// The requested device was created.
    DeviceCreated,
    /// The fence exists and the strides were read.
    SizesAndFenceCaptured { sizes: DescriptorSizes },
    /// The driver reported this many quality levels.
    MsaaQualityProbed { quality: u32 },
    /// Queue, allocator and command list exist (the list open).
    CommandObjectsCreated,
    /// The command list is closed.
    CommandListClosed,
    /// The swap chain exists.
    SwapChainCreated,
    /// Both descriptor heaps exist.
    HeapsCreated,
    /// The requested call failed.
    CallFailed,
    /// The window collaborator requests the surface at a new size.
    ResizeRequested { width: u32, height: u32 },
    /// The fence wait completed; no GPU work references the old buffers.
    FenceWaitCompleted,
}

impl GpuCaps {
    /// What capability probing guarantees: a strictly positive quality
    /// level count (a zero report halts the sequence before this record
    /// exists) and a fence still at its initial value.
    pub open spec fn wf(self) -> bool {
        self.msaa_quality > 0 && self.fence_value == FENCE_INITIAL_VALUE
    }
}

/// A swap chain the sequence is allowed to have created: positive extent,
/// and exactly the description the builder produces for that extent, the
/// configured multisampling, and the given quality level count.
pub open spec fn swapchain_wf(cfg: InitConfig, sc: SwapChainDesc, msaa_quality: u32) -> bool {
    &&& sc.buffer_desc.width > 0
    &&& sc.buffer_desc.height > 0
    &&& sc == spec_swapchain_desc(
        sc.buffer_desc.width,
        sc.buffer_desc.height,
        cfg.msaa_4x_enabled,
        msaa_quality,
    )
}

/// A context the sequence is allowed to report as ready: positive probed
/// quality, fence at its initial value, a well-formed swap chain, a
/// render-target heap sized exactly to the swap chain's buffer count, and a
/// depth-stencil heap of exactly one descriptor.
pub open spec fn context_wf(cfg: InitConfig, ctx: ReadyContext) -> bool {
    &&& ctx.msaa_quality > 0
    &&& ctx.fence_value == FENCE_INITIAL_VALUE
    &&& swapchain_wf(cfg, ctx.swapchain, ctx.msaa_quality)
    &&& ctx.rtv_heap == spec_rtv_heap_desc(ctx.swapchain.buffer_count)
    &&& ctx.dsv_heap == spec_dsv_heap_desc()
}

/// The per-stage invariant of the aggregate: each variant's payload is what
/// the completed stages could actually have produced.
pub open spec fn state_inv(cfg: InitConfig, s: InitState) -> bool {
    match s {
        InitState::Empty => true,
        InitState::DebugReady => true,
        InitState::FactoryReady => true,
        InitState::FallbackPending => true,
        InitState::DeviceReady { .. } => true,
        InitState::FenceReady { fence_value, .. } => fence_value == FENCE_INITIAL_VALUE,
        InitState::Probed { caps } => caps.wf(),
        InitState::ListOpen { caps } => caps.wf(),
        InitState::CommandReady { caps } => caps.wf(),
        InitState::SurfaceReady { caps, swapchain } => caps.wf() && swapchain_wf(
            cfg,
            swapchain,
            caps.msaa_quality,
        ),
        InitState::Ready { context } => context_wf(cfg, context),
        InitState::Failed => true,
        InitState::ResizeFencePending { context, width, height } => context_wf(cfg, context)
            && width > 0 && height > 0,
        InitState::ResizeSurfacePending { context, width, height } => context_wf(cfg, context)
            && width > 0 && height > 0,
        InitState::ResizeHeapsPending { context, swapchain } => context_wf(cfg, context)
            && swapchain_wf(cfg, swapchain, context.msaa_quality),
    }
}

} // verus!
