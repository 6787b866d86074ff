use libdecor::edge::ResizeEdge;
use libdecor::error::{Error, ErrorKind};
use libdecor::flags::{Capabilities, Capability, WindowState, WindowStateFlag};

#[test]
fn capability_bits_round_trip() {
    let all = Capabilities::all();
    assert_eq!(all.bits(), 31);
    let decoded = Capabilities::from_bits(21).unwrap();
    assert_eq!(decoded.bits(), 21);
    assert!(decoded.has(Capability::Move));
    assert!(!decoded.has(Capability::Resize));
    assert!(decoded.has(Capability::Minimize));
    assert!(!decoded.has(Capability::Fullscreen));
    assert!(decoded.has(Capability::Close));
    assert!(Capabilities::from_bits(37).is_none());
    assert!(Capabilities::from_bits(32).is_none());
}

#[test]
fn capability_flag_bits_are_protocol_exact() {
    assert_eq!(Capabilities::from_flag(Capability::Move).bits(), 1);
    assert_eq!(Capabilities::from_flag(Capability::Resize).bits(), 2);
    assert_eq!(Capabilities::from_flag(Capability::Minimize).bits(), 4);
    assert_eq!(Capabilities::from_flag(Capability::Fullscreen).bits(), 8);
    assert_eq!(Capabilities::from_flag(Capability::Close).bits(), 16);
}

#[test]
fn capability_set_operations() {
    let mv = Capabilities::from_flag(Capability::Move);
    let rs = Capabilities::from_flag(Capability::Resize);
    let both = mv.union(rs);
    assert_eq!(both.bits(), 3);
    assert!(both.has(Capability::Move) && both.has(Capability::Resize));
    let only_move = both.difference(rs);
    assert_eq!(only_move.bits(), 1);
    assert!(both.intersects(&mv));
    assert!(!only_move.intersects(&rs));
    assert!(Capabilities::empty().is_empty());
    assert!(!both.is_empty());
}

#[test]
fn window_state_bits_round_trip() {
    let ws = WindowState::from_bits(127).unwrap();
    assert_eq!(ws.bits(), 127);
    assert!(WindowState::from_bits(128).is_none());
    assert_eq!(WindowState::from_flag(WindowStateFlag::Active).bits(), 1);
    assert_eq!(WindowState::from_flag(WindowStateFlag::Maximized).bits(), 2);
    assert_eq!(WindowState::from_flag(WindowStateFlag::Fullscreen).bits(), 4);
    assert_eq!(WindowState::from_flag(WindowStateFlag::TiledLeft).bits(), 8);
    assert_eq!(WindowState::from_flag(WindowStateFlag::TiledRight).bits(), 16);
    assert_eq!(WindowState::from_flag(WindowStateFlag::TiledTop).bits(), 32);
    assert_eq!(WindowState::from_flag(WindowStateFlag::TiledBottom).bits(), 64);
}

#[test]
fn active_alone_does_not_constrain() {
    let active = WindowState::from_flag(WindowStateFlag::Active);
    assert!(!active.is_constrained());
    assert!(WindowState::empty().is_empty());
    assert!(!WindowState::empty().is_constrained());
    let max = WindowState::from_flag(WindowStateFlag::Maximized);
    assert!(max.is_constrained());
    assert!(WindowState::from_flag(WindowStateFlag::Fullscreen).is_constrained());
    assert!(WindowState::from_flag(WindowStateFlag::TiledLeft).is_constrained());
    assert!(WindowState::from_flag(WindowStateFlag::TiledBottom).is_constrained());
    let active_max = active.union(max);
    assert!(active_max.is_constrained());
    assert!(active_max.has(WindowStateFlag::Active));
}

#[test]
fn resize_edge_round_trip() {
    let edges = [
        ResizeEdge::NoEdge,
        ResizeEdge::Top,
        ResizeEdge::Bottom,
        ResizeEdge::Left,
        ResizeEdge::TopLeft,
        ResizeEdge::BottomLeft,
        ResizeEdge::Right,
        ResizeEdge::TopRight,
        ResizeEdge::BottomRight,
    ];
    for (i, e) in edges.iter().enumerate() {
        assert_eq!(e.to_raw(), i as u32);
        assert_eq!(ResizeEdge::from_raw(i as u32), Some(*e));
    }
    assert_eq!(ResizeEdge::from_raw(9), None);
    assert_eq!(ResizeEdge::from_raw(u32::MAX), None);
}

#[test]
fn error_kind_codes() {
    assert!(matches!(
        ErrorKind::from_raw(0),
        Some(ErrorKind::CompositorIncompatible)
    ));
    assert!(matches!(
        ErrorKind::from_raw(1),
        Some(ErrorKind::InvalidFrameConfiguration)
    ));
    assert!(ErrorKind::from_raw(2).is_none());
    assert_eq!(ErrorKind::CompositorIncompatible.to_raw(), 0);
    assert_eq!(ErrorKind::InvalidFrameConfiguration.to_raw(), 1);
}

#[test]
fn error_keeps_message_and_kind() {
    let err = Error::new(
        ErrorKind::InvalidFrameConfiguration,
        String::from("min_size larger than max_size"),
    );
    assert_eq!(err.message(), "min_size larger than max_size");
    assert!(matches!(err.kind(), ErrorKind::InvalidFrameConfiguration));
}
