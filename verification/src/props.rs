//! The laws of the initialization protocol.
//!
//! Each proof function here states, over the transition relation itself, one
//! of the guarantees the sequence is designed around: the aggregate settles
//! only fully ready or cleanly failed; the software fallback is attempted at
//! most once, and exactly when the hardware attempt fails; a zero
//! multisampling report halts everything before a swap chain can be
//! requested; the command list is closed before command submission counts as
//! provisioned; and a resize waits on the fence before the swap chain is
//! re-created.

use crate::desc::DSV_DESCRIPTOR_COUNT;
use crate::desc::FENCE_INITIAL_VALUE;
use crate::desc::SWAP_CHAIN_BUFFER_COUNT;
use crate::machine::run;
use crate::machine::run_from;
use crate::machine::spec_next_action;
use crate::machine::spec_step;
use crate::state::Action;
use crate::state::Event;
use crate::state::InitConfig;
use crate::state::InitState;
use crate::state::ReadyContext;
use crate::state::context_wf;
use crate::state::state_inv;
use vstd::prelude::*;

verus! {

/// One transition keeps the stage invariants: whatever outcome the platform
/// reports, the new state's payload is again something the completed stages
/// could have produced.
pub proof fn lemma_step_preserves_inv(cfg: InitConfig, s: InitState, e: Event)
    requires
        cfg.wf(),
        state_inv(cfg, s),
    ensures
        state_inv(cfg, spec_step(cfg, s, e)),
{
}

/// A whole run keeps the stage invariants.
pub proof fn lemma_run_preserves_inv(cfg: InitConfig, s0: InitState, events: Seq<Event>)
    requires
        cfg.wf(),
        state_inv(cfg, s0),
    ensures
        state_inv(cfg, run_from(cfg, s0, events)),
    decreases events.len(),
{
    if events.len() > 0 {
        lemma_run_preserves_inv(cfg, s0, events.drop_last());
        lemma_step_preserves_inv(cfg, run_from(cfg, s0, events.drop_last()), events.last());
    }
}

/// The sequence stops asking for work exactly in its two end states: the
/// aggregate is fully ready or cleanly failed, never anything partial.
pub proof fn lemma_settles_only_ready_or_failed(cfg: InitConfig, s: InitState)
    ensures
        spec_next_action(cfg, s) is None <==> (s is Ready || s is Failed),
{
}

/// Failure is absorbing: a failed aggregate stays failed whatever arrives,
/// so no stage of a failed sequence is ever re-entered.
pub proof fn lemma_failed_absorbs(cfg: InitConfig, e: Event)
    ensures
        spec_step(cfg, InitState::Failed, e) == InitState::Failed,
{
}

/// A ready aggregate changes only for a resize request with positive
/// extent; every other event leaves it untouched.
pub proof fn lemma_ready_stable_except_resize(cfg: InitConfig, ctx: ReadyContext, e: Event)
    ensures
        (!(e matches Event::ResizeRequested { width, height } && width > 0 && height > 0)
            ==> spec_step(cfg, InitState::Ready { context: ctx }, e) == (InitState::Ready {
                context: ctx,
            })),
{
}

/// Whatever a run reaches as ready is complete: positive probed quality, a
/// fence at its initial value, the exact swap-chain description for the
/// configuration, and heaps sized exactly to the buffering.
pub proof fn lemma_ready_context_complete(cfg: InitConfig, events: Seq<Event>)
    requires
        cfg.wf(),
    ensures
        (run(cfg, events) matches InitState::Ready { context } ==> context_wf(cfg, context)),
{
    lemma_run_preserves_inv(cfg, InitState::Empty, events);
}

/// What completeness of a ready context pins down, spelled out: the
/// render-target heap holds one descriptor per swap-chain buffer (of which
/// there are exactly two), the depth-stencil heap exactly one, and the
/// fence still shows its initial value.
pub proof fn lemma_ready_heap_capacities(cfg: InitConfig, ctx: ReadyContext)
    requires
        context_wf(cfg, ctx),
    ensures
        ctx.swapchain.buffer_count == SWAP_CHAIN_BUFFER_COUNT,
        ctx.rtv_heap.num_descriptors == ctx.swapchain.buffer_count,
        ctx.dsv_heap.num_descriptors == DSV_DESCRIPTOR_COUNT,
        ctx.fence_value == FENCE_INITIAL_VALUE,
        ctx.msaa_quality > 0,
{
}

/// With the validation layer configured, it is activated before any device
/// can be created: the layer is requested only from the very first state,
/// and the stage that requests devices is reachable only through the
/// layer's acknowledgement.
pub proof fn lemma_debug_layer_precedes_device(cfg: InitConfig, s: InitState, e: Event)
    requires
        cfg.debug_layer,
    ensures
        spec_next_action(cfg, s) == Some(Action::EnableDebugLayer) <==> s is Empty,
        spec_step(cfg, s, e) is FactoryReady ==> s is DebugReady,
        (spec_next_action(cfg, s) matches Some(Action::CreateDevice { .. }) ==> (
        s is FactoryReady || s is FallbackPending)),
{
}

/// A failed hardware attempt enters the fallback stage, and the machine
/// then asks for exactly one software-adapter device, at the same
/// capability tier as the hardware attempt.
pub proof fn lemma_hardware_failure_enters_fallback(cfg: InitConfig)
    ensures
        spec_step(cfg, InitState::FactoryReady, Event::CallFailed) == InitState::FallbackPending,
        (spec_next_action(cfg, InitState::FactoryReady) matches Some(Action::CreateDevice {
            kind,
            feature_level,
        }) && kind is Hardware),
        (spec_next_action(cfg, InitState::FallbackPending) matches Some(Action::CreateDevice {
            kind,
            feature_level,
        }) && kind is Warp),
        spec_next_action(cfg, InitState::FactoryReady)->Some_0->CreateDevice_feature_level
            == spec_next_action(cfg, InitState::FallbackPending)->Some_0->CreateDevice_feature_level,
{
}

/// The fallback stage is entered only by a failed hardware attempt: no
/// other state and no other outcome leads to it.
pub proof fn lemma_fallback_only_after_hardware_failure(cfg: InitConfig, s: InitState, e: Event)
    ensures
        spec_step(cfg, s, e) is FallbackPending <==> (s is FactoryReady && e is CallFailed),
{
}

/// Where a state stands relative to the fallback: before it, at it, or
/// past it. The sequence only ever moves forward through these.
pub open spec fn fallback_phase(s: InitState) -> nat {
    match s {
        InitState::Empty => 0,
        InitState::DebugReady => 0,
        InitState::FactoryReady => 0,
        InitState::FallbackPending => 1,
        _ => 2,
    }
}

/// The fallback phase never moves backward, and the fallback stage itself
/// is always left immediately: its one attempt either yields a device or
/// fails the sequence.
pub proof fn lemma_fallback_phase_monotone(cfg: InitConfig, s: InitState, e: Event)
    ensures
        fallback_phase(spec_step(cfg, s, e)) >= fallback_phase(s),
        s is FallbackPending ==> fallback_phase(spec_step(cfg, s, e)) == 2,
{
}

/// How many software-adapter attempts a run has performed: one for each
/// point at which the machine stood in the fallback stage (and hence asked
/// for the software device) when the next outcome arrived.
pub open spec fn warp_attempts(cfg: InitConfig, events: Seq<Event>) -> nat
    decreases events.len(),
{
    if events.len() == 0 {
        0
    } else {
        warp_attempts(cfg, events.drop_last()) + if run(
            cfg,
            events.drop_last(),
        ) is FallbackPending {
            1nat
        } else {
            0nat
        }
    }
}

proof fn lemma_warp_attempts_aux(cfg: InitConfig, events: Seq<Event>)
    ensures
        warp_attempts(cfg, events) <= 1,
        warp_attempts(cfg, events) == 1 ==> fallback_phase(run(cfg, events)) == 2,
    decreases events.len(),
{
    if events.len() > 0 {
        let prev = events.drop_last();
        lemma_warp_attempts_aux(cfg, prev);
        lemma_fallback_phase_monotone(cfg, run(cfg, prev), events.last());
    }
}

/// However a run goes — hardware succeeding, failing once, or the
/// transcript violating the protocol — the software fallback is attempted
/// at most once.
pub proof fn lemma_warp_attempted_at_most_once(cfg: InitConfig, events: Seq<Event>)
    ensures
        warp_attempts(cfg, events) <= 1,
{
    lemma_warp_attempts_aux(cfg, events);
}

/// A zero quality report from the multisampling probe halts the sequence on
/// the spot: the aggregate fails and never requests another call, so in
/// particular no swap-chain creation is ever attempted after it.
pub proof fn lemma_msaa_zero_halts(cfg: InitConfig, s: InitState)
    requires
        s is FenceReady,
    ensures
        spec_step(cfg, s, Event::MsaaQualityProbed { quality: 0 }) is Failed,
        spec_next_action(cfg, spec_step(cfg, s, Event::MsaaQualityProbed { quality: 0 })) is None,
{
}

/// A swap chain is only ever requested with a strictly positive probed
/// quality level count in hand, and with exactly the description the
/// builder produces for it — at first creation from the configured surface
/// size, at a resize from the requested one.
pub proof fn lemma_swapchain_requested_only_after_probe(cfg: InitConfig, s: InitState)
    requires
        state_inv(cfg, s),
    ensures
        (spec_next_action(cfg, s) matches Some(Action::CreateSwapChain { desc }) ==> {
            ||| s matches InitState::CommandReady { caps } && caps.msaa_quality > 0
                && desc == crate::desc::spec_swapchain_desc(
                    cfg.width,
                    cfg.height,
                    cfg.msaa_4x_enabled,
                    caps.msaa_quality,
                )
            ||| s matches InitState::ResizeSurfacePending { context, width, height }
                && context.msaa_quality > 0 && desc == crate::desc::spec_swapchain_desc(
                    width,
                    height,
                    cfg.msaa_4x_enabled,
                    context.msaa_quality,
                )
        }),
{
}

/// Command submission counts as provisioned only once the freshly created
/// list has been closed: the only way into `CommandReady` is the close
/// acknowledgement, and the machine asks for the close as the one action of
/// the open-list stage.
pub proof fn lemma_command_ready_only_after_close(cfg: InitConfig, s: InitState, e: Event)
    ensures
        spec_step(cfg, s, e) is CommandReady <==> (s is ListOpen && e is CommandListClosed),
        s is ListOpen ==> spec_next_action(cfg, s) == Some(Action::CloseCommandList),
{
}

/// A resize re-creates the swap chain only after the fence wait has
/// confirmed that no in-flight GPU work references the old buffers: the
/// only way into the re-creation stage is the wait's completion, and the
/// wait is on the context's own fence value.
pub proof fn lemma_resize_waits_before_recreating(cfg: InitConfig, s: InitState, e: Event)
    ensures
        spec_step(cfg, s, e) is ResizeSurfacePending <==> (s is ResizeFencePending
            && e is FenceWaitCompleted),
        (s matches InitState::ResizeFencePending { context, .. } ==> spec_next_action(cfg, s)
            == Some(Action::WaitForFence { value: context.fence_value })),
{
}

} // verus!
