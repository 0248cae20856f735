use d3d12_init::machine::Graphics;
use d3d12_init::state::Action;
use d3d12_init::state::DescriptorSizes;
use d3d12_init::state::Event;
use d3d12_init::state::InitConfig;

fn ready_graphics() -> Graphics {
    let cfg = InitConfig { width: 800, height: 600, debug_layer: false, msaa_4x_enabled: false };
    let mut g = Graphics::new(cfg);
    let events = vec![
        Event::FactoryCreated,
        Event::DeviceCreated,
        Event::SizesAndFenceCaptured {
            sizes: DescriptorSizes { cbv_srv_uav: 32, rtv: 32, dsv: 8 },
        },
        Event::MsaaQualityProbed { quality: 4 },
        Event::CommandObjectsCreated,
        Event::CommandListClosed,
        Event::SwapChainCreated,
        Event::HeapsCreated,
    ];
    assert!(g.init(&events));
    g
}

#[test]
fn test_resize_waits_on_fence_before_recreating() {
    let mut g = ready_graphics();
    g.handle_event(Event::ResizeRequested { width: 1024, height: 768 });
    assert_eq!(g.next_action(), Some(Action::WaitForFence { value: 0 }));
    g.handle_event(Event::FenceWaitCompleted);
    match g.next_action() {
        Some(Action::CreateSwapChain { desc }) => {
            assert_eq!(desc.buffer_desc.width, 1024);
            assert_eq!(desc.buffer_desc.height, 768);
            assert_eq!(desc.buffer_count, 2);
        }
        other => panic!("expected swap-chain re-creation, got {:?}", other),
    }
    g.handle_event(Event::SwapChainCreated);
    match g.next_action() {
        Some(Action::CreateDescriptorHeaps { rtv, dsv }) => {
            assert_eq!(rtv.num_descriptors, 2);
            assert_eq!(dsv.num_descriptors, 1);
        }
        other => panic!("expected heap re-creation, got {:?}", other),
    }
    g.handle_event(Event::HeapsCreated);
    assert!(g.is_ready());
    let ctx = g.ready_context().unwrap();
    assert_eq!(ctx.swapchain.buffer_desc.width, 1024);
    assert_eq!(ctx.swapchain.buffer_desc.height, 768);
    assert_eq!(ctx.rtv_heap.num_descriptors, 2);
}

#[test]
fn test_resize_with_zero_extent_is_ignored() {
    let mut g = ready_graphics();
    let before = g.ready_context().unwrap();
    g.handle_event(Event::ResizeRequested { width: 0, height: 768 });
    assert!(g.is_ready());
    assert!(g.next_action().is_none());
    assert_eq!(g.ready_context().unwrap(), before);
}

#[test]
fn test_resize_failure_is_fatal() {
    let mut g = ready_graphics();
    g.handle_event(Event::ResizeRequested { width: 1024, height: 768 });
    g.handle_event(Event::FenceWaitCompleted);
    g.handle_event(Event::CallFailed);
    assert!(g.is_failed());
    assert!(g.ready_context().is_none());
}

#[test]
fn test_ready_ignores_stray_outcomes() {
    let mut g = ready_graphics();
    let before = g.ready_context().unwrap();
    g.handle_event(Event::FactoryCreated);
    assert!(g.is_ready());
    assert_eq!(g.ready_context().unwrap(), before);
}
