//! Fixed wire-protocol values handed to the graphics driver.
//!
//! The driver boundary is a fixed protocol: an 8-bit-per-channel RGBA back
//! buffer, double buffering, a 60 Hz refresh-rate hint, flip-discard
//! presentation, and graphics-capable ("direct") command submission. The
//! types here are the plain-value descriptions of that protocol, and the
//! builder functions pin down every field of every description the
//! initialization sequence sends across the boundary.

use vstd::prelude::*;

verus! {

/// Number of back buffers in the swap chain: double buffering.
pub const SWAP_CHAIN_BUFFER_COUNT: u32 = 2;

/// Sample count requested when 4x multisampling is enabled.
pub const MSAA_SAMPLE_COUNT: u32 = 4;

/// Refresh-rate hint handed to the driver: 60 Hz as a 60/1 rational.
/// The actual refresh rate is display-negotiated.
pub const REFRESH_RATE_NUMERATOR: u32 = 60;

/// Denominator of the refresh-rate hint.
pub const REFRESH_RATE_DENOMINATOR: u32 = 1;

/// A depth-stencil heap always holds exactly one descriptor.
pub const DSV_DESCRIPTOR_COUNT: u32 = 1;

/// Initial value of the CPU/GPU synchronization fence.
pub const FENCE_INITIAL_VALUE: u64 = 0;

/// Pixel format of the back buffer. The protocol fixes one format:
/// 8 bits per channel RGBA, normalized.
#[derive(Clone, Copy, PartialEq, Eq, Structural, Debug)]
pub enum PixelFormat {
    Rgba8Unorm,
}

/// Minimum device capability tier requested at device creation. Both the
/// hardware attempt and the software fallback ask for the same tier.
#[derive(Clone, Copy, PartialEq, Eq, Structural, Debug)]
pub enum FeatureLevel {
    Level11_0,
}

/// How rendered frames reach the display. The protocol fixes flip-discard.
#[derive(Clone, Copy, PartialEq, Eq, Structural, Debug)]
pub enum SwapEffect {
    FlipDiscard,
}

/// Scan-line ordering of the display mode; left to the driver.
#[derive(Clone, Copy, PartialEq, Eq, Structural, Debug)]
pub enum ScanlineOrdering {
    Unspecified,
}

/// Scaling of the display mode; left to the driver.
#[derive(Clone, Copy, PartialEq, Eq, Structural, Debug)]
pub enum ScalingMode {
    Unspecified,
}

/// What the swap-chain buffers are used for: render-target output only.
#[derive(Clone, Copy, PartialEq, Eq, Structural, Debug)]
pub enum BufferUsage {
    RenderTargetOutput,
}

/// Kind of command submission: the graphics-capable ("direct") kind.
#[derive(Clone, Copy, PartialEq, Eq, Structural, Debug)]
pub enum CommandListType {
    Direct,
}

/// The two descriptor heap kinds the initialization sequence allocates,
/// both non-shader-visible.
#[derive(Clone, Copy, PartialEq, Eq, Structural, Debug)]
pub enum DescriptorHeapKind {
    RenderTargetView,
    DepthStencilView,
}

/// Refresh rate as a rational number of Hz.
#[derive(Clone, Copy, PartialEq, Eq, Structural, Debug)]
pub struct RefreshRate {
    pub numerator: u32,
    pub denominator: u32,
}

/// Display-mode description of the swap-chain buffers.
#[derive(Clone, Copy, PartialEq, Eq, Structural, Debug)]
pub struct ModeDesc {
    pub width: u32,
    pub height: u32,
    pub refresh_rate: RefreshRate,
    pub format: PixelFormat,
    pub scanline_ordering: ScanlineOrdering,
    pub scaling: ScalingMode,
}

/// Multisampling selection: how many samples per pixel, and which
/// driver-reported quality index to use.
#[derive(Clone, Copy, PartialEq, Eq, Structural, Debug)]
pub struct SampleDesc {
    pub count: u32,
    pub quality: u32,
}

/// Full swap-chain description handed to the driver.
#[derive(Clone, Copy, PartialEq, Eq, Structural, Debug)]
pub struct SwapChainDesc {
    pub buffer_desc: ModeDesc,
    pub sample_desc: SampleDesc,
    pub buffer_usage: BufferUsage,
    pub buffer_count: u32,
    pub windowed: bool,
    pub swap_effect: SwapEffect,
    pub allow_mode_switch: bool,
}

/// Command-queue description: the queue kind, with no special flags.
#[derive(Clone, Copy, PartialEq, Eq, Structural, Debug)]
pub struct CommandQueueDesc {
    pub list_type: CommandListType,
}

/// Descriptor-heap description: kind, capacity, and visibility.
#[derive(Clone, Copy, PartialEq, Eq, Structural, Debug)]
pub struct DescriptorHeapDesc {
    pub kind: DescriptorHeapKind,
    pub num_descriptors: u32,
    pub shader_visible: bool,
}

/// The multisampling selection for a given configuration: 4x at quality
/// index `msaa_quality - 1` when multisampling is enabled (the driver
/// reports the number of quality levels, so the highest usable index is one
/// less than that count), and plain 1x at quality 0 otherwise.
pub open spec fn spec_sample_desc(msaa_enabled: bool, msaa_quality: u32) -> SampleDesc {
    if msaa_enabled {
        SampleDesc { count: MSAA_SAMPLE_COUNT, quality: (msaa_quality - 1) as u32 }
    } else {
        SampleDesc { count: 1, quality: 0 }
    }
}

/// Builds the multisampling selection.
///
/// With multisampling enabled the quality index is exactly one less than the
/// driver-reported level count; disabled, the selection is 1x/0 whatever the
/// reported count was.
pub fn sample_desc(msaa_enabled: bool, msaa_quality: u32) -> (d: SampleDesc)
    requires
        msaa_enabled ==> msaa_quality > 0,
    ensures
        d == spec_sample_desc(msaa_enabled, msaa_quality),
        msaa_enabled ==> d.count == MSAA_SAMPLE_COUNT && d.quality == msaa_quality - 1,
        !msaa_enabled ==> d.count == 1 && d.quality == 0,
{
    if msaa_enabled {
        SampleDesc { count: MSAA_SAMPLE_COUNT, quality: msaa_quality - 1 }
    } else {
        SampleDesc { count: 1, quality: 0 }
    }
}

/// The display-mode description for a surface of the given size: the fixed
/// back-buffer format, the 60/1 refresh hint, and driver-chosen ordering and
/// scaling.
pub open spec fn spec_mode_desc(width: u32, height: u32) -> ModeDesc {
    ModeDesc {
        width,
        height,
        refresh_rate: RefreshRate {
            numerator: REFRESH_RATE_NUMERATOR,
            denominator: REFRESH_RATE_DENOMINATOR,
        },
        format: PixelFormat::Rgba8Unorm,
        scanline_ordering: ScanlineOrdering::Unspecified,
        scaling: ScalingMode::Unspecified,
    }
}

/// The full swap-chain description for a surface of the given size and
/// multisampling configuration: double buffered, render-target output,
/// windowed, flip-discard, mode switches allowed.
pub open spec fn spec_swapchain_desc(
    width: u32,
    height: u32,
    msaa_enabled: bool,
    msaa_quality: u32,
) -> SwapChainDesc {
    SwapChainDesc {
        buffer_desc: spec_mode_desc(width, height),
        sample_desc: spec_sample_desc(msaa_enabled, msaa_quality),
        buffer_usage: BufferUsage::RenderTargetOutput,
        buffer_count: SWAP_CHAIN_BUFFER_COUNT,
        windowed: true,
        swap_effect: SwapEffect::FlipDiscard,
        allow_mode_switch: true,
    }
}

/// Builds the swap-chain description.
///
/// Every field is pinned: the buffer description carries the requested size,
/// the fixed format and the 60/1 refresh hint; the sample description follows
/// the multisampling configuration; buffering, usage, presentation mode and
/// flags are the fixed protocol values.
pub fn swapchain_desc(
    width: u32,
    height: u32,
    msaa_enabled: bool,
    msaa_quality: u32,
) -> (d: SwapChainDesc)
    requires
        msaa_enabled ==> msaa_quality > 0,
    ensures
        d == spec_swapchain_desc(width, height, msaa_enabled, msaa_quality),
        d.buffer_desc == spec_mode_desc(width, height),
        d.sample_desc == spec_sample_desc(msaa_enabled, msaa_quality),
        d.buffer_count == SWAP_CHAIN_BUFFER_COUNT,
        d.windowed,
        d.allow_mode_switch,
{
    SwapChainDesc {
        buffer_desc: ModeDesc {
            width,
            height,
            refresh_rate: RefreshRate {
                numerator: REFRESH_RATE_NUMERATOR,
                denominator: REFRESH_RATE_DENOMINATOR,
            },
            format: PixelFormat::Rgba8Unorm,
            scanline_ordering: ScanlineOrdering::Unspecified,
            scaling: ScalingMode::Unspecified,
        },
        sample_desc: sample_desc(msaa_enabled, msaa_quality),
        buffer_usage: BufferUsage::RenderTargetOutput,
        buffer_count: SWAP_CHAIN_BUFFER_COUNT,
        windowed: true,
        swap_effect: SwapEffect::FlipDiscard,
        allow_mode_switch: true,
    }
}

/// The command-queue description: a direct (graphics-capable) queue.
pub open spec fn spec_command_queue_desc() -> CommandQueueDesc {
    CommandQueueDesc { list_type: CommandListType::Direct }
}

/// Builds the command-queue description for the one queue the sequence
/// creates: the direct kind, no flags.
pub fn command_queue_desc() -> (d: CommandQueueDesc)
    ensures
        d == spec_command_queue_desc(),
        d.list_type is Direct,
{
    CommandQueueDesc { list_type: CommandListType::Direct }
}

/// The render-target-view heap description: one descriptor per swap-chain
/// buffer, not shader-visible.
pub open spec fn spec_rtv_heap_desc(buffer_count: u32) -> DescriptorHeapDesc {
    DescriptorHeapDesc {
        kind: DescriptorHeapKind::RenderTargetView,
        num_descriptors: buffer_count,
        shader_visible: false,
    }
}

/// Builds the render-target-view heap description.
///
/// Capacity equals the swap-chain buffer count exactly: a smaller heap makes
/// later view creation illegal, a larger one silently wastes slots.
pub fn rtv_heap_desc(buffer_count: u32) -> (d: DescriptorHeapDesc)
    ensures
        d == spec_rtv_heap_desc(buffer_count),
        d.kind is RenderTargetView,
        d.num_descriptors == buffer_count,
        !d.shader_visible,
{
    DescriptorHeapDesc {
        kind: DescriptorHeapKind::RenderTargetView,
        num_descriptors: buffer_count,
        shader_visible: false,
    }
}

/// The depth-stencil-view heap description: exactly one descriptor,
/// not shader-visible.
pub open spec fn spec_dsv_heap_desc() -> DescriptorHeapDesc {
    DescriptorHeapDesc {
        kind: DescriptorHeapKind::DepthStencilView,
        num_descriptors: DSV_DESCRIPTOR_COUNT,
        shader_visible: false,
    }
}

/// Builds the depth-stencil-view heap description. Its capacity is one,
/// independent of the buffering configuration.
pub fn dsv_heap_desc() -> (d: DescriptorHeapDesc)
    ensures
        d == spec_dsv_heap_desc(),
        d.kind is DepthStencilView,
        d.num_descriptors == DSV_DESCRIPTOR_COUNT,
        !d.shader_visible,
{
    DescriptorHeapDesc {
        kind: DescriptorHeapKind::DepthStencilView,
        num_descriptors: DSV_DESCRIPTOR_COUNT,
        shader_visible: false,
    }
}

} // verus!
