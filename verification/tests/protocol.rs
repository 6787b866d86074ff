use libdecor::config::{Configuration, State};
use libdecor::context::{Context, Registry};
use libdecor::edge::ResizeEdge;
use libdecor::flags::{Capabilities, Capability, WindowState, WindowStateFlag};
use libdecor::frame::{FrameIntent, FrameRef, Phase};

#[test]
fn capability_sequence_net_effect() {
    let mut fr = FrameRef::new(3);
    // a fresh frame offers every capability
    assert!(fr.has_capability(Capabilities::from_flag(Capability::Close)));
    fr.unset_capabilities(Capabilities::all());
    assert!(!fr.has_capability(Capabilities::all()));

    let mv = Capabilities::from_flag(Capability::Move);
    let rs = Capabilities::from_flag(Capability::Resize);
    fr.set_capabilities(mv);
    // adding an already-set capability is a no-op
    fr.set_capabilities(mv);
    fr.set_capabilities(rs);
    // removing an absent capability is a no-op
    fr.unset_capabilities(Capabilities::from_flag(Capability::Close));
    assert!(fr.has_capability(mv));
    assert!(fr.has_capability(rs));
    assert!(!fr.has_capability(Capabilities::from_flag(Capability::Minimize)));
    assert_eq!(fr.capabilities().bits(), 3);

    // setting one capability does not clear any other
    fr.set_capabilities(Capabilities::from_flag(Capability::Fullscreen));
    assert!(fr.has_capability(mv) && fr.has_capability(rs));
    assert_eq!(fr.capabilities().bits(), 11);
}

#[test]
fn popup_grabs_balanced_at_teardown() {
    let mut fr = FrameRef::new(5);
    fr.popup_grab(String::from("seat-0"));
    fr.popup_grab(String::from("seat-1"));
    assert!(fr.has_grab(&String::from("seat-0")));
    assert!(fr.has_grab(&String::from("seat-1")));
    assert!(fr.has_outstanding_grabs());
    // a dismiss-popup for seat-1: unmap and ungrab exactly that seat
    fr.popup_ungrab(&String::from("seat-1"));
    assert!(!fr.has_grab(&String::from("seat-1")));
    assert!(fr.has_grab(&String::from("seat-0")));
    fr.popup_ungrab(&String::from("seat-0"));
    // teardown: every grab was matched by exactly one ungrab
    assert!(!fr.has_outstanding_grabs());
}

#[test]
fn configuration_size_present_is_positive() {
    let cfg = Configuration::new(Some((800, 600)), None);
    let size = cfg.content_size().unwrap();
    assert!(size.0 > 0 && size.1 > 0);
    assert_eq!(size, (800, 600));
    assert_eq!(cfg.window_state(), None);
}

#[test]
fn configuration_absent_size_uses_fallback() {
    let cfg = Configuration::new(None, None);
    assert_eq!(cfg.content_size(), None);
    assert_eq!(cfg.content_size_or(640, 480), (640, 480));
    let sized = Configuration::new(Some((1024, 768)), None);
    assert_eq!(sized.content_size_or(640, 480), (1024, 768));
}

#[test]
fn commit_applies_window_state_to_floating() {
    let mut fr = FrameRef::new(9);
    fr.map();
    let maximized = WindowState::from_flag(WindowStateFlag::Maximized);
    let cfg = Configuration::new(Some((500, 400)), Some(maximized));
    let st = State::new(500, 400);
    fr.commit(&st, Some(&cfg));
    // MAXIMIZED set: not floating
    assert!(!fr.is_floating());

    // a configuration without a window state keeps the applied state
    let cfg2 = Configuration::new(Some((500, 400)), None);
    fr.commit(&State::new(500, 400), Some(&cfg2));
    assert!(!fr.is_floating());

    // an ACTIVE-only state floats again
    let active = WindowState::from_flag(WindowStateFlag::Active);
    let cfg3 = Configuration::new(None, Some(active));
    fr.commit(&State::new(500, 400), Some(&cfg3));
    assert!(fr.is_floating());
}

#[test]
fn end_to_end_configure_commit_cycle() {
    let mut registry = Registry::new();
    let context = Context::new(7, 100, &mut registry);
    let frame = context.decorate(11, 200).expect("engine accepted the surface");
    let mut fr = frame.frame_ref;
    assert_eq!(fr.phase(), Phase::Unmapped);
    fr.set_app_id(String::from("example-app"));
    fr.set_title(String::from("example"));
    fr.map();
    assert_eq!(fr.phase(), Phase::AwaitingConfigure);

    // first configure: size (800, 600), no window state
    let cfg = Configuration::new(Some((800, 600)), None);
    let (w, h) = cfg.content_size_or(250, 250);
    assert_eq!((w, h), (800, 600));
    fr.commit(&State::new(w, h), Some(&cfg));
    assert_eq!(fr.phase(), Phase::Configured);
    assert!(fr.is_floating());
    assert_eq!(fr.content_size(), Some((800, 600)));

    // second configure: MAXIMIZED and no size; the previous floating
    // size is reused as the fallback
    let maximized = WindowState::from_flag(WindowStateFlag::Maximized);
    let cfg2 = Configuration::new(None, Some(maximized));
    let (fw, fh) = fr.content_size().unwrap();
    let (w2, h2) = cfg2.content_size_or(fw, fh);
    assert_eq!((w2, h2), (800, 600));
    fr.commit(&State::new(w2, h2), Some(&cfg2));
    assert!(!fr.is_floating());
    assert_eq!(fr.content_size(), Some((800, 600)));
}

#[test]
fn spontaneous_commit_while_floating() {
    let mut fr = FrameRef::new(4);
    fr.map();
    let cfg = Configuration::new(Some((300, 200)), None);
    fr.commit(&State::new(300, 200), Some(&cfg));
    assert!(fr.is_floating());
    // application-driven resize while floating: no configuration
    fr.commit(&State::new(320, 220), None);
    assert_eq!(fr.content_size(), Some((320, 220)));
    assert!(fr.is_floating());
}

#[test]
fn mutating_requests_queue_intents() {
    let mut fr = FrameRef::new(6);
    fr.set_maximized();
    fr.unset_maximized();
    fr.set_fullscreen(Some(44));
    fr.unset_fullscreen();
    fr.set_minimized();
    fr._move(21, 900);
    fr.resize(21, 901, ResizeEdge::BottomRight);
    fr.show_window_menu(21, 902, 10, 20);
    let intents = fr.take_intents();
    assert_eq!(
        intents,
        vec![
            FrameIntent::Maximize,
            FrameIntent::UnsetMaximize,
            FrameIntent::Fullscreen { output: Some(44) },
            FrameIntent::UnsetFullscreen,
            FrameIntent::Minimize,
            FrameIntent::InteractiveMove { seat: 21, serial: 900 },
            FrameIntent::InteractiveResize { seat: 21, serial: 901, edge: ResizeEdge::BottomRight },
            FrameIntent::ShowWindowMenu { seat: 21, serial: 902, x: 10, y: 20 },
        ]
    );
    assert!(fr.take_intents().is_empty());
}

#[test]
fn frame_state_queries() {
    let mut fr = FrameRef::new(8);
    assert!(fr.is_visible());
    fr.set_visibility(false);
    assert!(!fr.is_visible());
    fr.set_title(String::from("window title"));
    assert_eq!(fr.title(), "window title");
    fr.set_min_content_size(100, 100);
    fr.set_max_content_size(1000, 1000);
    let parent = FrameRef::new(2);
    fr.set_parent(&parent);
    fr.close();
    assert_eq!(fr.phase(), Phase::Closed);
}

#[test]
fn state_holds_its_size() {
    let st = State::new(640, 480);
    assert_eq!(st.width(), 640);
    assert_eq!(st.height(), 480);
}
