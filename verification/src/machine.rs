//! The initialization state machine and its aggregate owner.
//!
//! [`spec_step`] is the complete transition relation of the bring-up
//! sequence: what each stage's outcome does to the aggregate, including the
//! single hardware-to-software fallback, the mandatory halt on an
//! unsupported multisampling probe, and the resize path that re-runs only
//! the presentation and heap stages after a fence wait. [`spec_next_action`]
//! says which native call each state is waiting for. [`Graphics`] owns the
//! state and exposes the executable interface the platform shim drives.

use crate::desc::CommandListType;
use crate::desc::FeatureLevel;
use crate::desc::PixelFormat;
use crate::desc::FENCE_INITIAL_VALUE;
use crate::desc::MSAA_SAMPLE_COUNT;
use crate::desc::SWAP_CHAIN_BUFFER_COUNT;
use crate::desc::command_queue_desc;
use crate::desc::dsv_heap_desc;
use crate::desc::rtv_heap_desc;
use crate::desc::spec_command_queue_desc;
use crate::desc::spec_dsv_heap_desc;
use crate::desc::spec_rtv_heap_desc;
use crate::desc::spec_swapchain_desc;
use crate::desc::swapchain_desc;
use crate::state::Action;
use crate::state::DeviceBundle;
use crate::state::DeviceKind;
use crate::state::Event;
use crate::state::GpuCaps;
use crate::state::InitConfig;
use crate::state::InitState;
use crate::state::ReadyContext;
use crate::state::state_inv;
use vstd::prelude::*;

verus! {

/// The native call the machine is waiting to have performed in state `s`,
/// or `None` when the sequence has settled (fully ready or cleanly failed).
pub open spec fn spec_next_action(cfg: InitConfig, s: InitState) -> Option<Action> {
    match s {
        InitState::Empty => Some(
            if cfg.debug_layer {
                Action::EnableDebugLayer
            } else {
                Action::CreateFactory
            },
        ),
        InitState::DebugReady => Some(Action::CreateFactory),
        InitState::FactoryReady => Some(
            Action::CreateDevice {
                kind: DeviceKind::Hardware,
                feature_level: FeatureLevel::Level11_0,
            },
        ),
        InitState::FallbackPending => Some(
            Action::CreateDevice { kind: DeviceKind::Warp, feature_level: FeatureLevel::Level11_0 },
        ),
        InitState::DeviceReady { .. } => Some(
            Action::CreateFenceAndQuerySizes { initial_value: FENCE_INITIAL_VALUE },
        ),
        InitState::FenceReady { .. } => Some(
            Action::ProbeMsaaQuality {
                format: PixelFormat::Rgba8Unorm,
                sample_count: MSAA_SAMPLE_COUNT,
            },
        ),
        InitState::Probed { .. } => Some(
            Action::CreateCommandObjects {
                queue_desc: spec_command_queue_desc(),
                list_type: CommandListType::Direct,
            },
        ),
        InitState::ListOpen { .. } => Some(Action::CloseCommandList),
        InitState::CommandReady { caps } => Some(
            Action::CreateSwapChain {
                desc: spec_swapchain_desc(
                    cfg.width,
                    cfg.height,
                    cfg.msaa_4x_enabled,
                    caps.msaa_quality,
                ),
            },
        ),
        InitState::SurfaceReady { .. } => Some(
            Action::CreateDescriptorHeaps {
                rtv: spec_rtv_heap_desc(SWAP_CHAIN_BUFFER_COUNT),
                dsv: spec_dsv_heap_desc(),
            },
        ),
        InitState::Ready { .. } => None,
        InitState::Failed => None,
        InitState::ResizeFencePending { context, .. } => Some(
            Action::WaitForFence { value: context.fence_value },
        ),
        InitState::ResizeSurfacePending { context, width, height } => Some(
            Action::CreateSwapChain {
                desc: spec_swapchain_desc(
                    width,
                    height,
                    cfg.msaa_4x_enabled,
                    context.msaa_quality,
                ),
            },
        ),
        InitState::ResizeHeapsPending { swapchain, .. } => Some(
            Action::CreateDescriptorHeaps {
                rtv: spec_rtv_heap_desc(swapchain.buffer_count),
                dsv: spec_dsv_heap_desc(),
            },
        ),
    }
}

/// The complete transition relation of the sequence.
///
/// Expected outcomes advance to the next stage; `CallFailed` while the
/// hardware device attempt is outstanding enters the single software
/// fallback; every other failure, a zero multisampling quality report, and
/// any out-of-protocol event are fatal. `Failed` absorbs everything, and
/// `Ready` reacts only to a resize request with positive extent.
pub open spec fn spec_step(cfg: InitConfig, s: InitState, e: Event) -> InitState {
    match s {
        InitState::Empty => match e {
            Event::DebugLayerEnabled => if cfg.debug_layer {
                InitState::DebugReady
            } else {
                InitState::Failed
            },
            Event::FactoryCreated => if !cfg.debug_layer {
                InitState::FactoryReady
            } else {
                InitState::Failed
            },
            _ => InitState::Failed,
        },
        InitState::DebugReady => match e {
            Event::FactoryCreated => InitState::FactoryReady,
            _ => InitState::Failed,
        },
        InitState::FactoryReady => match e {
            Event::DeviceCreated => InitState::DeviceReady {
                device: DeviceBundle { kind: DeviceKind::Hardware },
            },
            Event::CallFailed => InitState::FallbackPending,
            _ => InitState::Failed,
        },
        InitState::FallbackPending => match e {
            Event::DeviceCreated => InitState::DeviceReady {
                device: DeviceBundle { kind: DeviceKind::Warp },
            },
            _ => InitState::Failed,
        },
        InitState::DeviceReady { device } => match e {
            Event::SizesAndFenceCaptured { sizes } => InitState::FenceReady {
                device,
                descriptor_sizes: sizes,
                fence_value: FENCE_INITIAL_VALUE,
            },
            _ => InitState::Failed,
        },
        InitState::FenceReady { device, descriptor_sizes, fence_value } => match e {
            Event::MsaaQualityProbed { quality } => if quality > 0 {
                InitState::Probed {
                    caps: GpuCaps { device, descriptor_sizes, fence_value, msaa_quality: quality },
                }
            } else {
                InitState::Failed
            },
            _ => InitState::Failed,
        },
        InitState::Probed { caps } => match e {
            Event::CommandObjectsCreated => InitState::ListOpen { caps },
            _ => InitState::Failed,
        },
        InitState::ListOpen { caps } => match e {
            Event::CommandListClosed => InitState::CommandReady { caps },
            _ => InitState::Failed,
        },
        InitState::CommandReady { caps } => match e {
            Event::SwapChainCreated => InitState::SurfaceReady {
                caps,
                swapchain: spec_swapchain_desc(
                    cfg.width,
                    cfg.height,
                    cfg.msaa_4x_enabled,
                    caps.msaa_quality,
                ),
            },
            _ => InitState::Failed,
        },
        InitState::SurfaceReady { caps, swapchain } => match e {
            Event::HeapsCreated => InitState::Ready {
                context: ReadyContext {
                    device: caps.device,
                    descriptor_sizes: caps.descriptor_sizes,
                    fence_value: caps.fence_value,
                    msaa_quality: caps.msaa_quality,
                    swapchain,
                    rtv_heap: spec_rtv_heap_desc(swapchain.buffer_count),
                    dsv_heap: spec_dsv_heap_desc(),
                },
            },
            _ => InitState::Failed,
        },
        InitState::Ready { context } => match e {
            Event::ResizeRequested { width, height } => if width > 0 && height > 0 {
                InitState::ResizeFencePending { context, width, height }
            } else {
                InitState::Ready { context }
            },
            _ => InitState::Ready { context },
        },
        InitState::Failed => InitState::Failed,
        InitState::ResizeFencePending { context, width, height } => match e {
            Event::FenceWaitCompleted => InitState::ResizeSurfacePending { context, width, height },
            _ => InitState::Failed,
        },
        InitState::ResizeSurfacePending { context, width, height } => match e {
            Event::SwapChainCreated => InitState::ResizeHeapsPending {
                context,
                swapchain: spec_swapchain_desc(
                    width,
                    height,
                    cfg.msaa_4x_enabled,
                    context.msaa_quality,
                ),
            },
            _ => InitState::Failed,
        },
        InitState::ResizeHeapsPending { context, swapchain } => match e {
            Event::HeapsCreated => InitState::Ready {
                context: ReadyContext {
                    device: context.device,
                    descriptor_sizes: context.descriptor_sizes,
                    fence_value: context.fence_value,
                    msaa_quality: context.msaa_quality,
                    swapchain,
                    rtv_heap: spec_rtv_heap_desc(swapchain.buffer_count),
                    dsv_heap: spec_dsv_heap_desc(),
                },
            },
            _ => InitState::Failed,
        },
    }
}

/// The state reached by folding `events`, in order, from `s0`.
pub open spec fn run_from(cfg: InitConfig, s0: InitState, events: Seq<Event>) -> InitState
    decreases events.len(),
{
    if events.len() == 0 {
        s0
    } else {
        spec_step(cfg, run_from(cfg, s0, events.drop_last()), events.last())
    }
}

/// The state reached by folding `events` from a freshly constructed
/// aggregate.
pub open spec fn run(cfg: InitConfig, events: Seq<Event>) -> InitState {
    run_from(cfg, InitState::Empty, events)
}

/// Performs one transition of the sequence.
pub fn step(cfg: InitConfig, s: InitState, e: Event) -> (t: InitState)
    requires
        cfg.wf(),
        state_inv(cfg, s),
    ensures
        t == spec_step(cfg, s, e),
{
    match s {
        InitState::Empty => match e {
            Event::DebugLayerEnabled => if cfg.debug_layer {
                InitState::DebugReady
            } else {
                InitState::Failed
            },
            Event::FactoryCreated => if !cfg.debug_layer {
                InitState::FactoryReady
            } else {
                InitState::Failed
            },
            _ => InitState::Failed,
        },
        InitState::DebugReady => match e {
            Event::FactoryCreated => InitState::FactoryReady,
            _ => InitState::Failed,
        },
        InitState::FactoryReady => match e {
            Event::DeviceCreated => InitState::DeviceReady {
                device: DeviceBundle { kind: DeviceKind::Hardware },
            },
            Event::CallFailed => InitState::FallbackPending,
            _ => InitState::Failed,
        },
        InitState::FallbackPending => match e {
            Event::DeviceCreated => InitState::DeviceReady {
                device: DeviceBundle { kind: DeviceKind::Warp },
            },
            _ => InitState::Failed,
        },
        InitState::DeviceReady { device } => match e {
            Event::SizesAndFenceCaptured { sizes } => InitState::FenceReady {
                device,
                descriptor_sizes: sizes,
                fence_value: FENCE_INITIAL_VALUE,
            },
            _ => InitState::Failed,
        },
        InitState::FenceReady { device, descriptor_sizes, fence_value } => match e {
            Event::MsaaQualityProbed { quality } => if quality > 0 {
                InitState::Probed {
                    caps: GpuCaps { device, descriptor_sizes, fence_value, msaa_quality: quality },
                }
            } else {
                InitState::Failed
            },
            _ => InitState::Failed,
        },
        InitState::Probed { caps } => match e {
            Event::CommandObjectsCreated => InitState::ListOpen { caps },
            _ => InitState::Failed,
        },
        InitState::ListOpen { caps } => match e {
            Event::CommandListClosed => InitState::CommandReady { caps },
            _ => InitState::Failed,
        },
        InitState::CommandReady { caps } => match e {
            Event::SwapChainCreated => InitState::SurfaceReady {
                caps,
                swapchain: swapchain_desc(
                    cfg.width,
                    cfg.height,
                    cfg.msaa_4x_enabled,
                    caps.msaa_quality,
                ),
            },
            _ => InitState::Failed,
        },
        InitState::SurfaceReady { caps, swapchain } => match e {
            Event::HeapsCreated => InitState::Ready {
                context: ReadyContext {
                    device: caps.device,
                    descriptor_sizes: caps.descriptor_sizes,
                    fence_value: caps.fence_value,
                    msaa_quality: caps.msaa_quality,
                    swapchain,
                    rtv_heap: rtv_heap_desc(swapchain.buffer_count),
                    dsv_heap: dsv_heap_desc(),
                },
            },
            _ => InitState::Failed,
        },
        InitState::Ready { context } => match e {
            Event::ResizeRequested { width, height } => if width > 0 && height > 0 {
                InitState::ResizeFencePending { context, width, height }
            } else {
                InitState::Ready { context }
            },
            _ => InitState::Ready { context },
        },
        InitState::Failed => InitState::Failed,
        InitState::ResizeFencePending { context, width, height } => match e {
            Event::FenceWaitCompleted => InitState::ResizeSurfacePending { context, width, height },
            _ => InitState::Failed,
        },
        InitState::ResizeSurfacePending { context, width, height } => match e {
            Event::SwapChainCreated => InitState::ResizeHeapsPending {
                context,
                swapchain: swapchain_desc(
                    width,
                    height,
                    cfg.msaa_4x_enabled,
                    context.msaa_quality,
                ),
            },
            _ => InitState::Failed,
        },
        InitState::ResizeHeapsPending { context, swapchain } => match e {
            Event::HeapsCreated => InitState::Ready {
                context: ReadyContext {
                    device: context.device,
                    descriptor_sizes: context.descriptor_sizes,
                    fence_value: context.fence_value,
                    msaa_quality: context.msaa_quality,
                    swapchain,
                    rtv_heap: rtv_heap_desc(swapchain.buffer_count),
                    dsv_heap: dsv_heap_desc(),
                },
            },
            _ => InitState::Failed,
        },
    }
}

/// The aggregate owner of the bring-up sequence: the configuration it was
/// constructed with, and the current protocol state. Nothing of the
/// provisioned resources is observable until the sequence is fully ready.
pub struct Graphics {
    config: InitConfig,
    state: InitState,
}

impl Graphics {
    /// The configuration this aggregate was constructed with.
    pub closed spec fn config(self) -> InitConfig {
        self.config
    }

    /// The current protocol state.
    pub closed spec fn state(self) -> InitState {
        self.state
    }

    /// Validity of the aggregate: a well-formed configuration, and a state
    /// whose contents satisfy the stage invariants.
    pub open spec fn wf(self) -> bool {
        self.config().wf() && state_inv(self.config(), self.state())
    }

    /// Constructs an empty aggregate for the given configuration. Nothing
    /// is acquired yet.
    pub fn new(config: InitConfig) -> (g: Graphics)
        requires
            config.wf(),
        ensures
            g.config() == config,
            g.state() == InitState::Empty,
            g.wf(),
    {
        Graphics { config, state: InitState::Empty }
    }

    /// The native call the aggregate is waiting for, or `None` once it has
    /// settled in `Ready` or `Failed`.
    pub fn next_action(&self) -> (a: Option<Action>)
        requires
            self.wf(),
        ensures
            a == spec_next_action(self.config(), self.state()),
            a is None <==> self.state().is_settled(),
    {
        let cfg = self.config;
        match self.state {
            InitState::Empty => Some(
                if cfg.debug_layer {
                    Action::EnableDebugLayer
                } else {
                    Action::CreateFactory
                },
            ),
            InitState::DebugReady => Some(Action::CreateFactory),
            InitState::FactoryReady => Some(
                Action::CreateDevice {
                    kind: DeviceKind::Hardware,
                    feature_level: FeatureLevel::Level11_0,
                },
            ),
            InitState::FallbackPending => Some(
                Action::CreateDevice {
                    kind: DeviceKind::Warp,
                    feature_level: FeatureLevel::Level11_0,
                },
            ),
            InitState::DeviceReady { .. } => Some(
                Action::CreateFenceAndQuerySizes { initial_value: FENCE_INITIAL_VALUE },
            ),
            InitState::FenceReady { .. } => Some(
                Action::ProbeMsaaQuality {
                    format: PixelFormat::Rgba8Unorm,
                    sample_count: MSAA_SAMPLE_COUNT,
                },
            ),
            InitState::Probed { .. } => Some(
                Action::CreateCommandObjects {
                    queue_desc: command_queue_desc(),
                    list_type: CommandListType::Direct,
                },
            ),
            InitState::ListOpen { .. } => Some(Action::CloseCommandList),
            InitState::CommandReady { caps } => Some(
                Action::CreateSwapChain {
                    desc: swapchain_desc(
                        cfg.width,
                        cfg.height,
                        cfg.msaa_4x_enabled,
                        caps.msaa_quality,
                    ),
                },
            ),
            InitState::SurfaceReady { .. } => Some(
                Action::CreateDescriptorHeaps {
                    rtv: rtv_heap_desc(SWAP_CHAIN_BUFFER_COUNT),
                    dsv: dsv_heap_desc(),
                },
            ),
            InitState::Ready { .. } => None,
            InitState::Failed => None,
            InitState::ResizeFencePending { context, .. } => Some(
                Action::WaitForFence { value: context.fence_value },
            ),
            InitState::ResizeSurfacePending { context, width, height } => Some(
                Action::CreateSwapChain {
                    desc: swapchain_desc(
                        width,
                        height,
                        cfg.msaa_4x_enabled,
                        context.msaa_quality,
                    ),
                },
            ),
            InitState::ResizeHeapsPending { swapchain, .. } => Some(
                Action::CreateDescriptorHeaps {
                    rtv: rtv_heap_desc(swapchain.buffer_count),
                    dsv: dsv_heap_desc(),
                },
            ),
        }
    }

    /// Feeds one outcome (or inbound resize request) into the sequence.
    pub fn handle_event(&mut self, e: Event)
        requires
            old(self).wf(),
        ensures
            final(self).config() == old(self).config(),
            final(self).state() == spec_step(old(self).config(), old(self).state(), e),
            final(self).wf(),
    {
        proof {
            crate::props::lemma_step_preserves_inv(self.config, self.state, e);
        }
        self.state = step(self.config, self.state, e);
    }

    /// Runs the whole sequence against a transcript of outcomes, one per
    /// requested call, and reports whether the aggregate ended fully ready.
    ///
    /// The aggregate ends in the state the transcript drives it to; a
    /// transcript out of protocol order drives it to `Failed`.
    pub fn init(&mut self, responses: &Vec<Event>) -> (ok: bool)
        requires
            old(self).wf(),
        ensures
            final(self).config() == old(self).config(),
            final(self).state() == run_from(
                old(self).config(),
                old(self).state(),
                responses@,
            ),
            final(self).wf(),
            ok <==> final(self).state() is Ready,
    {
        let ghost cfg = self.config;
        let ghost s0 = self.state;
        let mut i: usize = 0;
        while i < responses.len()
            invariant
                i <= responses.len(),
                self.config == cfg,
                self.state == run_from(cfg, s0, responses@.take(i as int)),
                self.wf(),
            decreases responses.len() - i,
        {
            let e = responses[i];
            self.handle_event(e);
            proof {
                assert(responses@.take(i as int + 1).drop_last() =~= responses@.take(i as int));
                assert(responses@.take(i as int + 1).last() == responses@[i as int]);
            }
            i = i + 1;
        }
        proof {
            assert(responses@.take(responses@.len() as int) =~= responses@);
        }
        self.is_ready()
    }

    /// Whether the aggregate is fully operational.
    pub fn is_ready(&self) -> (b: bool)
        ensures
            b <==> self.state() is Ready,
    {
        match self.state {
            InitState::Ready { .. } => true,
            _ => false,
        }
    }

    /// Whether the aggregate has failed and must be discarded.
    pub fn is_failed(&self) -> (b: bool)
        ensures
            b <==> self.state() is Failed,
    {
        match self.state {
            InitState::Failed => true,
            _ => false,
        }
    }

    /// The provisioned context, observable exactly when the sequence is
    /// fully ready; before completion (and after failure) there is nothing
    /// to read.
    pub fn ready_context(&self) -> (c: Option<ReadyContext>)
        ensures
            c matches Some(ctx) ==> self.state() == (InitState::Ready { context: ctx }),
            c is Some <==> self.state() is Ready,
    {
        match self.state {
            InitState::Ready { context } => Some(context),
            _ => None,
        }
    }
}

} // verus!
