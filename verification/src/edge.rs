//! Resize edges: the nine positions an interactive resize can start from.
//!
//! The values cross the native boundary as integers, so the encoding is
//! fixed and proved to round-trip.

use vstd::prelude::*;

verus! {

/// Edge or corner of a window that an interactive resize drags, or none.
#[derive(Clone, Copy, PartialEq, Eq, Structural, Debug)]
pub enum ResizeEdge {
    /// No edge: the compositor picks.
    NoEdge,
    /// The top edge.
    Top,
    /// The bottom edge.
    Bottom,
    /// The left edge.
    Left,
    /// The top-left corner.
    TopLeft,
    /// The bottom-left corner.
    BottomLeft,
    /// The right edge.
    Right,
    /// The top-right corner.
    TopRight,
    /// The bottom-right corner.
    BottomRight,
}

/// Wire encoding of a resize edge.
pub open spec fn edge_code(e: ResizeEdge) -> u32 {
    match e {
        ResizeEdge::NoEdge => 0,
        ResizeEdge::Top => 1,
        ResizeEdge::Bottom => 2,
        ResizeEdge::Left => 3,
        ResizeEdge::TopLeft => 4,
        ResizeEdge::BottomLeft => 5,
        ResizeEdge::Right => 6,
        ResizeEdge::TopRight => 7,
        ResizeEdge::BottomRight => 8,
    }
}

impl ResizeEdge {
    /// Encode for the native boundary.
    pub fn to_raw(self) -> (r: u32)
        ensures
            r == edge_code(self),
    {
        match self {
            ResizeEdge::NoEdge => 0,
            ResizeEdge::Top => 1,
            ResizeEdge::Bottom => 2,
            ResizeEdge::Left => 3,
            ResizeEdge::TopLeft => 4,
            ResizeEdge::BottomLeft => 5,
            ResizeEdge::Right => 6,
            ResizeEdge::TopRight => 7,
            ResizeEdge::BottomRight => 8,
        }
    }

    /// Decode a wire value; fails exactly on values outside the nine
    /// defined codes.
    pub fn from_raw(raw: u32) -> (r: Option<ResizeEdge>)
        ensures
            raw <= 8 ==> (r matches Some(e) && edge_code(e) == raw),
            raw > 8 ==> r is None,
    {
        match raw {
            0 => Some(ResizeEdge::NoEdge),
            1 => Some(ResizeEdge::Top),
            2 => Some(ResizeEdge::Bottom),
            3 => Some(ResizeEdge::Left),
            4 => Some(ResizeEdge::TopLeft),
            5 => Some(ResizeEdge::BottomLeft),
            6 => Some(ResizeEdge::Right),
            7 => Some(ResizeEdge::TopRight),
            8 => Some(ResizeEdge::BottomRight),
            _ => None,
        }
    }
}

/// Law: decoding an encoded edge gives the edge back.
pub proof fn lemma_edge_roundtrip(e: ResizeEdge)
    ensures
        edge_code(e) <= 8,
        forall|f: ResizeEdge| edge_code(f) == edge_code(e) ==> f == e,
{
}

} // verus!
