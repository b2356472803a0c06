//! The host's drawing primitives, as values: each composed drawing is the list of
//! primitive calls that the host is to make, in order, on one canvas.
use vstd::prelude::*;

verus! {

/// A colour by its red, green and blue channels, 0 to 255 each.
pub type Color = (u8, u8, u8);

pub const BLACK: Color = (0, 0, 0);
pub const DARK_GRAY: Color = (64, 64, 64);
pub const LIGHT_GRAY: Color = (200, 200, 200);
pub const WHITE: Color = (255, 255, 255);
pub const RED: Color = (255, 0, 0);
pub const GREEN: Color = (0, 255, 0);
pub const BLUE: Color = (0, 0, 255);
pub const MAGENTA: Color = (255, 0, 255);
pub const YELLOW: Color = (255, 255, 0);
pub const CYAN: Color = (0, 255, 255);

// The ten-colour categorical cycle.
pub const TAB_BLUE: Color = (31, 119, 180);
pub const TAB_ORANGE: Color = (255, 127, 14);
pub const TAB_GREEN: Color = (44, 160, 44);
pub const TAB_RED: Color = (214, 39, 40);
pub const TAB_PURPLE: Color = (148, 103, 189);
pub const TAB_BROWN: Color = (140, 86, 75);
pub const TAB_PINK: Color = (227, 119, 194);
pub const TAB_GRAY: Color = (127, 127, 127);
pub const TAB_OLIVE: Color = (188, 189, 34);
pub const TAB_CYAN: Color = (23, 190, 207);

/// A point in canvas pixel space; `N` is the host's coordinate type.
#[derive(Debug, Clone, Copy, PartialEq)]
pub struct Point<N> {
    pub x: N,
    pub y: N,
}

/// A rectangle as it reaches the composer: upright, drawn with the host's own
/// rectangle primitives, or turned, given by its four corners in drawing order.
#[derive(Debug, Clone, Copy, PartialEq)]
pub enum Rect<N> {
    Upright { x: N, y: N, width: N, height: N },
    Turned { corners: [Point<N>; 4] },
}

/// A triangle by its vertices: the tip, then the two corners of its base.
#[derive(Debug, Clone, Copy, PartialEq)]
pub struct Triangle<N> {
    pub tip: Point<N>,
    pub base1: Point<N>,
    pub base2: Point<N>,
}

impl<N> Triangle<N> {
    /// The vertices in drawing order: tip, first base corner, second base corner.
    pub open spec fn vertices(self) -> Seq<Point<N>> {
        seq![self.tip, self.base1, self.base2]
    }
}

/// One call of a host drawing primitive on the canvas being drawn.
#[derive(Debug, Clone, PartialEq)]
pub enum HostCall<N> {
    BeginPath,
    MoveTo(N, N),
    LineTo(N, N),
    /// A whole circle added to the path: the arc about `(x, y)` with the given
    /// radius from angle 0 to a full turn.
    Circle(N, N, N),
    Fill,
    Stroke,
    /// The host's own filled rectangle `(x, y, width, height)`; builds no path.
    FillRect(N, N, N, N),
    /// The host's own outlined rectangle `(x, y, width, height)`; builds no path.
    StrokeRect(N, N, N, N),
    /// Fill colour by red, green and blue channel, fully opaque.
    SetFillColor(u8, u8, u8),
    /// Stroke colour by red, green and blue channel, fully opaque.
    SetStrokeColor(u8, u8, u8),
    SetLineWidth(N),
    SetFont(String),
    /// Text drawn at `(x, y)` in the fill colour and the current font.
    FillText(String, N, N),
}

/// The calls that begin a path at the first of `points` and draw a line to each
/// of the others in turn.
pub open spec fn path_through<N>(points: Seq<Point<N>>) -> Seq<HostCall<N>>
    recommends
        points.len() >= 1,
{
    seq![HostCall::BeginPath, HostCall::MoveTo(points[0].x, points[0].y)] + Seq::new(
        (points.len() - 1) as nat,
        |i: int| HostCall::LineTo(points[i + 1].x, points[i + 1].y),
    )
}

/// The calls that trace the closed polygon with vertices `points`: the path
/// through them and back to the first.
pub open spec fn closed_path_through<N>(points: Seq<Point<N>>) -> Seq<HostCall<N>>
    recommends
        points.len() >= 1,
{
    path_through(points.push(points[0]))
}

/// Appends to `calls` the closed path through `points`.
pub fn push_closed_path<N: Copy>(calls: &mut Vec<HostCall<N>>, points: &[Point<N>])
    requires
        points@.len() >= 1,
    ensures
        final(calls)@ == old(calls)@ + closed_path_through(points@),
{
    let ghost start = calls@;
    let ghost closed = points@.push(points@[0]);
    calls.push(HostCall::BeginPath);
    calls.push(HostCall::MoveTo(points[0].x, points[0].y));
    let mut i: usize = 1;
    while i < points.len()
        invariant
            1 <= i <= points@.len(),
            closed == points@.push(points@[0]),
            calls@ == start + path_through(closed.subrange(0, i as int)),
        decreases points@.len() - i,
    {
        calls.push(HostCall::LineTo(points[i].x, points[i].y));
        proof {
            assert(path_through(closed.subrange(0, i + 1)) =~= path_through(
                closed.subrange(0, i as int),
            ).push(HostCall::LineTo(points@[i as int].x, points@[i as int].y)));
        }
        i = i + 1;
    }
    calls.push(HostCall::LineTo(points[0].x, points[0].y));
    proof {
        assert(closed.subrange(0, points@.len() as int + 1) =~= closed);
        assert(path_through(closed) =~= path_through(
            closed.subrange(0, points@.len() as int),
        ).push(HostCall::LineTo(points@[0].x, points@[0].y)));
    }
}

} // verus!
