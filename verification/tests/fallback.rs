use d3d12_init::desc::FeatureLevel;
use d3d12_init::machine::Graphics;
use d3d12_init::state::Action;
use d3d12_init::state::DescriptorSizes;
use d3d12_init::state::DeviceKind;
use d3d12_init::state::Event;
use d3d12_init::state::InitConfig;

fn config() -> InitConfig {
    InitConfig { width: 800, height: 600, debug_layer: false, msaa_4x_enabled: false }
}

fn strides() -> DescriptorSizes {
    DescriptorSizes { cbv_srv_uav: 32, rtv: 32, dsv: 8 }
}

#[test]
fn test_hardware_failure_triggers_one_warp_attempt() {
    let mut g = Graphics::new(config());
    g.handle_event(Event::FactoryCreated);
    assert_eq!(
        g.next_action(),
        Some(Action::CreateDevice {
            kind: DeviceKind::Hardware,
            feature_level: FeatureLevel::Level11_0,
        })
    );
    g.handle_event(Event::CallFailed);
    assert_eq!(
        g.next_action(),
        Some(Action::CreateDevice {
            kind: DeviceKind::Warp,
            feature_level: FeatureLevel::Level11_0,
        })
    );
    g.handle_event(Event::DeviceCreated);
    let rest = vec![
        Event::SizesAndFenceCaptured { sizes: strides() },
        Event::MsaaQualityProbed { quality: 4 },
        Event::CommandObjectsCreated,
        Event::CommandListClosed,
        Event::SwapChainCreated,
        Event::HeapsCreated,
    ];
    assert!(g.init(&rest));
    let ctx = g.ready_context().expect("warp path must end ready");
    assert_eq!(ctx.device.kind, DeviceKind::Warp);
}

#[test]
fn test_warp_failure_is_fatal_with_no_further_attempt() {
    let mut g = Graphics::new(config());
    g.handle_event(Event::FactoryCreated);
    g.handle_event(Event::CallFailed);
    g.handle_event(Event::CallFailed);
    assert!(g.is_failed());
    assert!(g.next_action().is_none());
}

#[test]
fn test_successful_hardware_path_never_asks_for_warp() {
    let mut g = Graphics::new(config());
    let events = vec![
        Event::FactoryCreated,
        Event::DeviceCreated,
        Event::SizesAndFenceCaptured { sizes: strides() },
        Event::MsaaQualityProbed { quality: 4 },
        Event::CommandObjectsCreated,
        Event::CommandListClosed,
        Event::SwapChainCreated,
        Event::HeapsCreated,
    ];
    for e in events {
        let warp_asked = matches!(
            g.next_action(),
            Some(Action::CreateDevice { kind: DeviceKind::Warp, .. })
        );
        assert!(!warp_asked);
        g.handle_event(e);
    }
    assert!(g.is_ready());
    assert_eq!(g.ready_context().unwrap().device.kind, DeviceKind::Hardware);
}
