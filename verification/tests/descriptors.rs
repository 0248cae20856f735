use d3d12_init::desc::dsv_heap_desc;
use d3d12_init::desc::rtv_heap_desc;
use d3d12_init::desc::sample_desc;
use d3d12_init::desc::swapchain_desc;
use d3d12_init::desc::BufferUsage;
use d3d12_init::desc::DescriptorHeapKind;
use d3d12_init::desc::PixelFormat;
use d3d12_init::desc::SwapEffect;
use d3d12_init::machine::Graphics;
use d3d12_init::state::Action;
use d3d12_init::state::DescriptorSizes;
use d3d12_init::state::Event;
use d3d12_init::state::InitConfig;

fn strides() -> DescriptorSizes {
    DescriptorSizes { cbv_srv_uav: 32, rtv: 32, dsv: 8 }
}

#[test]
fn test_sample_desc_msaa_enabled_uses_quality_minus_one() {
    let d = sample_desc(true, 8);
    assert_eq!(d.count, 4);
    assert_eq!(d.quality, 7);
    let d = sample_desc(true, 1);
    assert_eq!(d.count, 4);
    assert_eq!(d.quality, 0);
}

#[test]
fn test_sample_desc_msaa_disabled_ignores_quality() {
    let d = sample_desc(false, 8);
    assert_eq!(d.count, 1);
    assert_eq!(d.quality, 0);
    let d = sample_desc(false, 1);
    assert_eq!(d.count, 1);
    assert_eq!(d.quality, 0);
}

#[test]
fn test_swapchain_desc_fixed_protocol_fields() {
    let d = swapchain_desc(1024, 768, false, 1);
    assert_eq!(d.buffer_desc.width, 1024);
    assert_eq!(d.buffer_desc.height, 768);
    assert_eq!(d.buffer_desc.refresh_rate.numerator, 60);
    assert_eq!(d.buffer_desc.refresh_rate.denominator, 1);
    assert_eq!(d.buffer_desc.format, PixelFormat::Rgba8Unorm);
    assert_eq!(d.sample_desc.count, 1);
    assert_eq!(d.sample_desc.quality, 0);
    assert_eq!(d.buffer_usage, BufferUsage::RenderTargetOutput);
    assert_eq!(d.buffer_count, 2);
    assert!(d.windowed);
    assert_eq!(d.swap_effect, SwapEffect::FlipDiscard);
    assert!(d.allow_mode_switch);
}

#[test]
fn test_heap_descs_exact_capacities() {
    let rtv = rtv_heap_desc(2);
    assert_eq!(rtv.kind, DescriptorHeapKind::RenderTargetView);
    assert_eq!(rtv.num_descriptors, 2);
    assert!(!rtv.shader_visible);
    let dsv = dsv_heap_desc();
    assert_eq!(dsv.kind, DescriptorHeapKind::DepthStencilView);
    assert_eq!(dsv.num_descriptors, 1);
    assert!(!dsv.shader_visible);
}

#[test]
fn test_msaa_probe_zero_halts_before_swapchain() {
    let cfg = InitConfig { width: 800, height: 600, debug_layer: false, msaa_4x_enabled: true };
    let mut g = Graphics::new(cfg);
    let events = vec![
        Event::FactoryCreated,
        Event::DeviceCreated,
        Event::SizesAndFenceCaptured { sizes: strides() },
        Event::MsaaQualityProbed { quality: 0 },
    ];
    assert!(!g.init(&events));
    assert!(g.is_failed());
    assert!(g.next_action().is_none());
}

#[test]
fn test_msaa_probe_requests_four_samples() {
    let cfg = InitConfig { width: 800, height: 600, debug_layer: false, msaa_4x_enabled: true };
    let mut g = Graphics::new(cfg);
    g.handle_event(Event::FactoryCreated);
    g.handle_event(Event::DeviceCreated);
    g.handle_event(Event::SizesAndFenceCaptured { sizes: strides() });
    match g.next_action() {
        Some(Action::ProbeMsaaQuality { format, sample_count }) => {
            assert_eq!(format, PixelFormat::Rgba8Unorm);
            assert_eq!(sample_count, 4);
        }
        other => panic!("expected the multisampling probe, got {:?}", other),
    }
}

#[test]
fn test_msaa_enabled_swapchain_uses_probed_quality() {
    let cfg = InitConfig { width: 800, height: 600, debug_layer: false, msaa_4x_enabled: true };
    let mut g = Graphics::new(cfg);
    let events = vec![
        Event::FactoryCreated,
        Event::DeviceCreated,
        Event::SizesAndFenceCaptured { sizes: strides() },
        Event::MsaaQualityProbed { quality: 8 },
        Event::CommandObjectsCreated,
        Event::CommandListClosed,
        Event::SwapChainCreated,
        Event::HeapsCreated,
    ];
    assert!(g.init(&events));
    let ctx = g.ready_context().unwrap();
    assert_eq!(ctx.msaa_quality, 8);
    assert_eq!(ctx.swapchain.sample_desc.count, 4);
    assert_eq!(ctx.swapchain.sample_desc.quality, 7);
}

#[test]
fn test_command_list_closed_before_swapchain_requested() {
    let cfg = InitConfig { width: 800, height: 600, debug_layer: false, msaa_4x_enabled: false };
    let mut g = Graphics::new(cfg);
    g.handle_event(Event::FactoryCreated);
    g.handle_event(Event::DeviceCreated);
    g.handle_event(Event::SizesAndFenceCaptured { sizes: strides() });
    g.handle_event(Event::MsaaQualityProbed { quality: 4 });
    g.handle_event(Event::CommandObjectsCreated);
    assert_eq!(g.next_action(), Some(Action::CloseCommandList));
    g.handle_event(Event::CommandListClosed);
    let asks_for_swapchain = matches!(g.next_action(), Some(Action::CreateSwapChain { .. }));
    assert!(asks_for_swapchain);
}

#[test]
fn test_ready_heaps_match_buffering() {
    let cfg = InitConfig { width: 800, height: 600, debug_layer: false, msaa_4x_enabled: false };
    let mut g = Graphics::new(cfg);
    let events = vec![
        Event::FactoryCreated,
        Event::DeviceCreated,
        Event::SizesAndFenceCaptured { sizes: strides() },
        Event::MsaaQualityProbed { quality: 4 },
        Event::CommandObjectsCreated,
        Event::CommandListClosed,
        Event::SwapChainCreated,
        Event::HeapsCreated,
    ];
    assert!(g.init(&events));
    let ctx = g.ready_context().unwrap();
    assert_eq!(ctx.rtv_heap.num_descriptors, ctx.swapchain.buffer_count);
    assert_eq!(ctx.dsv_heap.num_descriptors, 1);
}
