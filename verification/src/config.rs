use vstd::prelude::*;

verus! {

/// Shared handle to the host application. The host side is reference counted;
/// here it is identified by a stable key that the embedder assigns, so that
/// several surfaces can name the same application.
#[derive(Clone, Copy, PartialEq, Eq, Structural, Debug)]
pub struct AppHandle {
    pub id: u64,
}

/// An edge of the output that a surface can be pinned to or offset from.
#[derive(Clone, Copy, PartialEq, Eq, Structural, Debug)]
pub enum Edge {
    Top,
    Bottom,
    Left,
    Right,
}

/// A signed pixel distance from one edge. Entries for the same edge are
/// applied in insertion order, so the last one wins.
#[derive(Clone, Copy, PartialEq, Eq, Structural, Debug)]
pub struct EdgeMargin {
    pub edge: Edge,
    pub offset: i32,
}

/// Whether the surface is pinned to one edge; edges never mentioned keep the
/// host default.
#[derive(Clone, Copy, PartialEq, Eq, Structural, Debug)]
pub struct EdgeAnchor {
    pub edge: Edge,
    pub pinned: bool,
}

/// Direction in which a bar lays its segments out.
#[derive(Clone, Copy, PartialEq, Eq, Structural, Debug)]
pub enum Orientation {
    Horizontal,
    Vertical,
}

/// Compositor layer a surface is placed on: `Top` for persistent bars,
/// `Overlay` for transient plates rendered above ordinary surfaces.
#[derive(Clone, Copy, PartialEq, Eq, Structural, Debug)]
pub enum Layer {
    Top,
    Overlay,
}

} // verus!
