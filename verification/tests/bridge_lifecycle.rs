use uibackend::bridge::{
    AdapterCallback, ForeignPlatform, ForeignWindowAdapter, PlatformCallback, RendererRef,
};
use uibackend::registry::{PlatformRegistry, SetPlatformError};

fn renderer_ref() -> RendererRef {
    RendererRef { data: 0x1000, vtable: 0x2000 }
}

#[test]
fn construct_and_destroy_releases_exactly_once() {
    let adapter = ForeignWindowAdapter::new(7, renderer_ref());
    let calls = adapter.destroy();
    assert_eq!(calls, vec![AdapterCallback::Release]);
}

#[test]
fn lifecycle_invokes_each_callback_once_in_order() {
    let mut adapter = ForeignWindowAdapter::new(7, renderer_ref());
    adapter.show();
    adapter.hide_surface();
    adapter.request_redraw();
    let calls = adapter.destroy();
    assert_eq!(
        calls,
        vec![
            AdapterCallback::Show,
            AdapterCallback::Hide,
            AdapterCallback::RequestRedraw,
            AdapterCallback::Release,
        ]
    );
    assert_eq!(
        calls.iter().filter(|c| **c == AdapterCallback::Release).count(),
        1
    );
}

#[test]
fn renderer_accessor_is_stable_and_recorded() {
    let mut adapter = ForeignWindowAdapter::new(9, renderer_ref());
    let first = adapter.renderer();
    let second = adapter.renderer();
    assert_eq!(first, renderer_ref());
    assert_eq!(second, renderer_ref());
    let calls = adapter.destroy();
    assert_eq!(
        calls,
        vec![
            AdapterCallback::GetRendererRef,
            AdapterCallback::GetRendererRef,
            AdapterCallback::Release,
        ]
    );
}

#[test]
fn context_is_kept_and_never_copied() {
    let adapter = ForeignWindowAdapter::new(0xdead, renderer_ref());
    assert_eq!(adapter.context, 0xdead);
    adapter.destroy();
}

#[test]
fn platform_factory_hands_out_fresh_serials() {
    let mut platform = ForeignPlatform::new(1);
    let first = platform.create_window_adapter();
    let second = platform.create_window_adapter();
    assert_eq!(first, 0);
    assert_eq!(second, 1);
    assert_ne!(first, second);
    let calls = platform.destroy();
    assert_eq!(
        calls,
        vec![
            PlatformCallback::WindowFactory,
            PlatformCallback::WindowFactory,
            PlatformCallback::Release,
        ]
    );
}

#[test]
fn platform_destroy_releases_exactly_once() {
    let platform = ForeignPlatform::new(3);
    let calls = platform.destroy();
    assert_eq!(calls, vec![PlatformCallback::Release]);
}

#[test]
fn second_registration_fails_and_keeps_the_first() {
    let mut registry: PlatformRegistry<u64> = PlatformRegistry::new();
    assert!(!registry.is_registered());
    assert_eq!(registry.register(41), Ok(()));
    assert!(registry.is_registered());
    assert_eq!(registry.register(99), Err(SetPlatformError::AlreadySet));
    assert_eq!(registry.platform(), Some(&41));
}

#[test]
fn registry_reports_nothing_before_registration() {
    let registry: PlatformRegistry<u32> = PlatformRegistry::new();
    assert_eq!(registry.platform(), None);
}
