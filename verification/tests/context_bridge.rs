use libdecor::bridge::BindingStack;
use libdecor::context::{dispatch_ok, timeout_to_native, Context, Registry, Request};
use libdecor::error::{Error, ErrorKind};

#[test]
fn engine_is_available() {
    assert!(libdecor::is_lib_available());
}

#[test]
fn error_routed_to_matching_context_only() {
    let mut registry = Registry::new();
    let _first = Context::new(10, 111, &mut registry);
    let second = Context::new(20, 222, &mut registry);

    // a native error signal names handle 20: only the second context's
    // registered callback may fire
    let routed = registry.lookup(20);
    assert_eq!(routed, Some(222));
    assert_ne!(routed, Some(111));
    assert_eq!(registry.lookup(30), None);

    // the message round-trips byte for byte from the native signal
    let raw_message = String::from("xdg_wm_base is not supported");
    let kind = ErrorKind::from_raw(0).unwrap();
    let request = Request::Error(Error::new(kind, raw_message));
    match request {
        Request::Error(e) => {
            assert_eq!(e.message(), "xdg_wm_base is not supported");
            assert!(matches!(e.kind(), ErrorKind::CompositorIncompatible));
        }
        _ => unreachable!(),
    }

    // releasing the second context removes exactly its entry
    second.release(&mut registry);
    assert_eq!(registry.lookup(20), None);
    assert_eq!(registry.lookup(10), Some(111));
}

#[test]
fn decorate_null_handle_means_no_frame() {
    let mut registry = Registry::new();
    let context = Context::new(5, 50, &mut registry);
    // the engine rejected the surface: nothing was created, nothing to
    // release
    assert!(context.decorate(0, 77).is_none());
    let frame = context.decorate(12, 77).unwrap();
    assert_eq!(frame.context_handle, 5);
    assert_eq!(frame.callback_cell, 77);
}

#[test]
fn registry_tracks_live_handles() {
    let mut registry = Registry::new();
    assert!(!registry.contains(1));
    registry.register(1, 10);
    registry.register(2, 20);
    assert!(registry.contains(1) && registry.contains(2));
    registry.unregister(1);
    assert!(!registry.contains(1));
    assert!(registry.contains(2));
    // removing an absent handle changes nothing
    registry.unregister(1);
    assert_eq!(registry.lookup(2), Some(20));
}

#[test]
fn binding_visible_only_within_extent() {
    let mut bindings = BindingStack::new();
    assert_eq!(bindings.current(), None);
    assert_eq!(bindings.depth(), 0);

    // bind a value for the extent of one call
    bindings.enter(0x1000);
    assert_eq!(bindings.current(), Some(0x1000));

    // a re-entrant dispatch nests: the inner binding shadows the outer
    bindings.enter(0x2000);
    assert_eq!(bindings.current(), Some(0x2000));
    assert_eq!(bindings.depth(), 2);

    // the inner call returns: its own token comes back, the outer
    // binding is active again
    assert_eq!(bindings.exit(), 0x2000);
    assert_eq!(bindings.current(), Some(0x1000));

    // the outer call returns: reading afterwards finds no binding, which
    // the embedding must treat as fatal misuse
    assert_eq!(bindings.exit(), 0x1000);
    assert_eq!(bindings.current(), None);
}

#[test]
fn dispatch_status_translation() {
    assert!(dispatch_ok(0));
    assert!(dispatch_ok(5));
    assert!(!dispatch_ok(-1));
    assert_eq!(timeout_to_native(None), 0);
    assert_eq!(timeout_to_native(Some(16)), 16);
    assert_eq!(timeout_to_native(Some(0)), 0);
}
