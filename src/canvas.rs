//! Canvas handles: identity, registration, and the shapes composed from the
//! host's primitives.
use vstd::prelude::*;
use vstd::string::StringSliceAdditionalSpecFns;

use crate::host::{closed_path_through, path_through, push_closed_path};

pub use crate::host::{
    Color, HostCall, Point, Rect, Triangle, BLACK, BLUE, CYAN, DARK_GRAY, GREEN, LIGHT_GRAY,
    MAGENTA, RED, TAB_BLUE, TAB_BROWN, TAB_CYAN, TAB_GRAY, TAB_GREEN, TAB_OLIVE, TAB_ORANGE, TAB_PINK,
    TAB_PURPLE, TAB_RED, WHITE, YELLOW,
};
pub use crate::input::{KeyCode, MouseButton};
pub use crate::registry::{CanvasSet, EventRegistry};

verus! {

/// The id of the canvas whose host element name has UTF-8 bytes `name`: the
/// djb2 hash, `h * 33 + byte` from 5381 on, taken modulo 2^32.
pub open spec fn canvas_id_of(name: Seq<u8>) -> u32
    decreases name.len(),
{
    if name.len() == 0 {
        5381
    } else {
        ((canvas_id_of(name.drop_last()) as int * 33 + name.last() as int) % 0x1_0000_0000) as u32
    }
}

/// Sets the fill colour.
pub open spec fn fill_style<N>(color: Color) -> Seq<HostCall<N>> {
    seq![HostCall::SetFillColor(color.0, color.1, color.2)]
}

/// Sets the stroke colour and the line width.
pub open spec fn stroke_style<N>(color: Color, line_width: N) -> Seq<HostCall<N>> {
    seq![HostCall::SetStrokeColor(color.0, color.1, color.2), HostCall::SetLineWidth(line_width)]
}

/// A straight line from `from` to `to`.
pub open spec fn line_calls<N>(from: Point<N>, to: Point<N>, line_width: N, color: Color) -> Seq<
    HostCall<N>,
> {
    stroke_style(color, line_width) + path_through(seq![from, to]) + seq![HostCall::Stroke]
}

/// A filled triangle.
pub open spec fn filled_triangle_calls<N>(triangle: Triangle<N>, color: Color) -> Seq<
    HostCall<N>,
> {
    fill_style(color) + closed_path_through(triangle.vertices()) + seq![HostCall::Fill]
}

/// The points of a curve, the i-th at `(xs[i], ys[i])`.
pub open spec fn curve_points<N>(xs: Seq<N>, ys: Seq<N>) -> Seq<Point<N>> {
    Seq::new(xs.len(), |i: int| Point { x: xs[i], y: ys[i] })
}

/// Why a curve was not drawn.
#[derive(Debug, Clone, Copy, PartialEq, Eq, Structural)]
pub enum CurveError {
    /// The coordinate lists differ in length.
    MismatchedLengths { x_len: usize, y_len: usize },
    /// Fewer than two points.
    TooFewPoints { len: usize },
}

/// A handle on one host canvas, known by its id.
#[derive(Debug, Clone, Copy, PartialEq, Eq, Structural)]
pub struct Canvas {
    id: u32,
}

impl View for Canvas {
    type V = u32;

    /// The canvas id.
    closed spec fn view(&self) -> u32 {
        self.id
    }
}

impl Canvas {
    /// The handle on the canvas with id `id`.
    pub(crate) fn with_id(id: u32) -> (r: Canvas)
        ensures
            r@ == id,
    {
        Canvas { id }
    }

    /// The handle on the canvas whose host element is called `name`. The id is
    /// the hash of the name's bytes. When `registered` does not yet hold that id,
    /// it is added, and the second part of the result is `true`: the host's
    /// one-time registration of `name` under that id is then due.
    pub fn from_element(name: &str, registered: &mut CanvasSet) -> (r: (Canvas, bool))
        requires
            old(registered).wf(),
        ensures
            r.0@ == canvas_id_of(name.spec_bytes()),
            r.1 == !old(registered)@.contains(canvas_id_of(name.spec_bytes())),
            final(registered).wf(),
            final(registered)@ == old(registered)@.insert(canvas_id_of(name.spec_bytes())),
    {
        let bytes = name.as_bytes();
        let mut canvas_id: u32 = 5381;
        let mut i: usize = 0;
        while i < bytes.len()
            invariant
                i <= bytes@.len(),
                bytes@ == name.spec_bytes(),
                canvas_id == canvas_id_of(bytes@.subrange(0, i as int)),
            decreases bytes@.len() - i,
        {
            proof {
                let prefix = bytes@.subrange(0, i + 1);
                assert(prefix.drop_last() =~= bytes@.subrange(0, i as int));
                vstd::arithmetic::div_mod::lemma_add_mod_noop(
                    canvas_id as int * 33,
                    bytes@[i as int] as int,
                    0x1_0000_0000,
                );
                vstd::arithmetic::div_mod::lemma_mod_twice(canvas_id as int * 33, 0x1_0000_0000);
            }
            canvas_id = canvas_id.wrapping_mul(33).wrapping_add(bytes[i] as u32);
            i = i + 1;
        }
        proof {
            assert(bytes@.subrange(0, bytes@.len() as int) =~= bytes@);
        }
        let first = registered.insert(canvas_id);
        (Canvas { id: canvas_id }, first)
    }

    /// Makes `event_handler` the one handler of this canvas in `registry`; the
    /// handler it had before, if any, is dropped.
    pub fn register_handler<H>(&self, registry: &mut EventRegistry<H>, event_handler: H)
        ensures
            final(registry)@ == old(registry)@.insert(self@, event_handler),
    {
        registry.register(self.id, event_handler);
    }

    /// Draws `rect` filled with `color`. An upright rectangle goes to the host's
    /// own rectangle fill, with no path; a turned one is traced as a closed path
    /// through its corners and filled.
    pub fn fill_rect<N: Copy>(&self, rect: Rect<N>, color: Color) -> (r: Vec<HostCall<N>>)
        ensures
            r@ == fill_style::<N>(color) + match rect {
                Rect::Upright { x, y, width, height } => seq![
                    HostCall::FillRect(x, y, width, height),
                ],
                Rect::Turned { corners } => closed_path_through(corners@) + seq![HostCall::Fill],
            },
    {
        let mut calls: Vec<HostCall<N>> = Vec::new();
        self.set_fill_style(&mut calls, color);
        match rect {
            Rect::Upright { x, y, width, height } => {
                calls.push(HostCall::FillRect(x, y, width, height));
            },
            Rect::Turned { corners } => {
                self.draw_rect_path(&mut calls, &corners);
                calls.push(HostCall::Fill);
            },
        }
        calls
    }

    /// Draws the outline of `rect` in `color`, `line_width` wide. An upright
    /// rectangle goes to the host's own rectangle outline, with no path; a turned
    /// one is traced as a closed path through its corners and stroked.
    pub fn stroke_rect<N: Copy>(&self, rect: Rect<N>, line_width: N, color: Color) -> (r: Vec<
        HostCall<N>,
    >)
        ensures
            r@ == stroke_style(color, line_width) + match rect {
                Rect::Upright { x, y, width, height } => seq![
                    HostCall::StrokeRect(x, y, width, height),
                ],
                Rect::Turned { corners } => closed_path_through(corners@) + seq![HostCall::Stroke],
            },
    {
        let mut calls: Vec<HostCall<N>> = Vec::new();
        self.set_stroke_style(&mut calls, color, line_width);
        match rect {
            Rect::Upright { x, y, width, height } => {
                calls.push(HostCall::StrokeRect(x, y, width, height));
            },
            Rect::Turned { corners } => {
                self.draw_rect_path(&mut calls, &corners);
                calls.push(HostCall::Stroke);
            },
        }
        calls
    }

    /// Draws a filled circle about `(x, y)`.
    pub fn fill_circle<N: Copy>(&self, x: N, y: N, radius: N, color: Color) -> (r: Vec<
        HostCall<N>,
    >)
        ensures
            r@ == fill_style::<N>(color) + seq![
                HostCall::BeginPath,
                HostCall::Circle(x, y, radius),
                HostCall::Fill,
            ],
    {
        let mut calls: Vec<HostCall<N>> = Vec::new();
        self.set_fill_style(&mut calls, color);
        self.draw_circle_path(&mut calls, x, y, radius);
        calls.push(HostCall::Fill);
        calls
    }

    /// Draws the outline of a circle about `(x, y)`.
    pub fn stroke_circle<N: Copy>(&self, x: N, y: N, radius: N, line_width: N, color: Color) -> (r:
        Vec<HostCall<N>>)
        ensures
            r@ == stroke_style(color, line_width) + seq![
                HostCall::BeginPath,
                HostCall::Circle(x, y, radius),
                HostCall::Stroke,
            ],
    {
        let mut calls: Vec<HostCall<N>> = Vec::new();
        self.set_stroke_style(&mut calls, color, line_width);
        self.draw_circle_path(&mut calls, x, y, radius);
        calls.push(HostCall::Stroke);
        calls
    }

    /// Draws a straight line from `from` to `to`.
    pub fn draw_line<N: Copy>(&self, from: Point<N>, to: Point<N>, line_width: N, color: Color) -> (r:
        Vec<HostCall<N>>)
        ensures
            r@ == line_calls(from, to, line_width, color),
    {
        let mut calls: Vec<HostCall<N>> = Vec::new();
        self.set_stroke_style(&mut calls, color, line_width);
        calls.push(HostCall::BeginPath);
        calls.push(HostCall::MoveTo(from.x, from.y));
        calls.push(HostCall::LineTo(to.x, to.y));
        calls.push(HostCall::Stroke);
        proof {
            assert(calls@ =~= line_calls(from, to, line_width, color));
        }
        calls
    }

    /// Draws `text` at `(x, y)` in `font` and `color`. The font stays set on
    /// the host for later text.
    pub fn draw_text<N: Copy>(&self, text: &str, x: N, y: N, font: &str, color: Color) -> (r: Vec<
        HostCall<N>,
    >)
        ensures
            r@.len() == 3,
            r@[0] == HostCall::<N>::SetFillColor(color.0, color.1, color.2),
            r@[1] matches HostCall::SetFont(f) && f@ == font@,
            r@[2] matches HostCall::FillText(t, tx, ty) && t@ == text@ && tx == x && ty == y,
    {
        let mut calls: Vec<HostCall<N>> = Vec::new();
        self.set_fill_style(&mut calls, color);
        calls.push(HostCall::SetFont(font.to_owned()));
        calls.push(HostCall::FillText(text.to_owned(), x, y));
        calls
    }

    /// Draws `triangle` filled with `color`.
    pub fn fill_triangle<N: Copy>(&self, triangle: Triangle<N>, color: Color) -> (r: Vec<
        HostCall<N>,
    >)
        ensures
            r@ == filled_triangle_calls(triangle, color),
    {
        let mut calls: Vec<HostCall<N>> = Vec::new();
        self.set_fill_style(&mut calls, color);
        self.draw_triangle_path(&mut calls, &triangle);
        calls.push(HostCall::Fill);
        calls
    }

    /// Draws the outline of `triangle`.
    pub fn stroke_triangle<N: Copy>(
        &self,
        triangle: Triangle<N>,
        line_width: N,
        color: Color,
    ) -> (r: Vec<HostCall<N>>)
        ensures
            r@ == stroke_style(color, line_width) + closed_path_through(triangle.vertices())
                + seq![HostCall::Stroke],
    {
        let mut calls: Vec<HostCall<N>> = Vec::new();
        self.set_stroke_style(&mut calls, color, line_width);
        self.draw_triangle_path(&mut calls, &triangle);
        calls.push(HostCall::Stroke);
        calls
    }

    /// Draws an arrow from `from` to `to`: the line, then `head` filled. A
    /// `head` of `None` marks an arrow shorter than its line width, of which
    /// nothing is drawn.
    pub fn draw_arrow<N: Copy>(
        &self,
        from: Point<N>,
        to: Point<N>,
        line_width: N,
        head: Option<Triangle<N>>,
        color: Color,
    ) -> (r: Vec<HostCall<N>>)
        ensures
            match head {
                None => r@ == Seq::<HostCall<N>>::empty(),
                Some(triangle) => r@ == line_calls(from, to, line_width, color)
                    + filled_triangle_calls(triangle, color),
            },
    {
        match head {
            None => Vec::new(),
            Some(triangle) => {
                let mut calls = self.draw_line(from, to, line_width, color);
                let mut tip = self.fill_triangle(triangle, color);
                calls.append(&mut tip);
                calls
            },
        }
    }

    /// Draws the curve through the points `(x_points[i], y_points[i])` in order,
    /// as one stroked path. Unless both lists have one length of at least two,
    /// nothing is drawn and the error says why.
    pub fn stroke_curve<N: Copy>(
        &self,
        x_points: &[N],
        y_points: &[N],
        line_width: N,
        color: Color,
    ) -> (r: Result<Vec<HostCall<N>>, CurveError>)
        ensures
            x_points@.len() != y_points@.len() ==> r == Err::<Vec<HostCall<N>>, CurveError>(
                CurveError::MismatchedLengths { x_len: x_points@.len() as usize, y_len: y_points@.len() as usize },
            ),
            x_points@.len() == y_points@.len() < 2 ==> r == Err::<Vec<HostCall<N>>, CurveError>(
                CurveError::TooFewPoints { len: x_points@.len() as usize },
            ),
            x_points@.len() == y_points@.len() >= 2 ==> (r matches Ok(calls) && calls@
                == stroke_style(color, line_width) + path_through(
                curve_points(x_points@, y_points@),
            ) + seq![HostCall::Stroke]),
    {
        if x_points.len() != y_points.len() {
            return Err(CurveError::MismatchedLengths { x_len: x_points.len(), y_len: y_points.len() });
        }
        if x_points.len() < 2 {
            return Err(CurveError::TooFewPoints { len: x_points.len() });
        }
        let ghost points = curve_points(x_points@, y_points@);
        let mut calls: Vec<HostCall<N>> = Vec::new();
        self.set_stroke_style(&mut calls, color, line_width);
        let ghost start = calls@;
        calls.push(HostCall::BeginPath);
        calls.push(HostCall::MoveTo(x_points[0], y_points[0]));
        let mut i: usize = 1;
        while i < x_points.len()
            invariant
                1 <= i <= x_points@.len(),
                x_points@.len() == y_points@.len(),
                points == curve_points(x_points@, y_points@),
                calls@ == start + path_through(points.subrange(0, i as int)),
            decreases x_points@.len() - i,
        {
            calls.push(HostCall::LineTo(x_points[i], y_points[i]));
            proof {
                assert(path_through(points.subrange(0, i + 1)) =~= path_through(
                    points.subrange(0, i as int),
                ).push(HostCall::LineTo(x_points@[i as int], y_points@[i as int])));
            }
            i = i + 1;
        }
        calls.push(HostCall::Stroke);
        proof {
            assert(points.subrange(0, x_points@.len() as int) =~= points);
        }
        Ok(calls)
    }

    fn set_fill_style<N>(&self, calls: &mut Vec<HostCall<N>>, color: Color)
        ensures
            final(calls)@ == old(calls)@ + fill_style::<N>(color),
    {
        calls.push(HostCall::SetFillColor(color.0, color.1, color.2));
        proof {
            assert(calls@ =~= old(calls)@ + fill_style::<N>(color));
        }
    }

    fn set_stroke_style<N>(&self, calls: &mut Vec<HostCall<N>>, color: Color, line_width: N)
        ensures
            final(calls)@ == old(calls)@ + stroke_style(color, line_width),
    {
        calls.push(HostCall::SetStrokeColor(color.0, color.1, color.2));
        calls.push(HostCall::SetLineWidth(line_width));
        proof {
            assert(calls@ =~= old(calls)@ + stroke_style(color, line_width));
        }
    }

    fn draw_rect_path<N: Copy>(&self, calls: &mut Vec<HostCall<N>>, corners: &[Point<N>; 4])
        ensures
            final(calls)@ == old(calls)@ + closed_path_through(corners@),
    {
        push_closed_path(calls, corners.as_slice());
    }

    fn draw_circle_path<N>(&self, calls: &mut Vec<HostCall<N>>, x: N, y: N, radius: N)
        ensures
            final(calls)@ == old(calls)@ + seq![HostCall::BeginPath, HostCall::Circle(x, y, radius)],
    {
        calls.push(HostCall::BeginPath);
        calls.push(HostCall::Circle(x, y, radius));
        proof {
            assert(calls@ =~= old(calls)@ + seq![HostCall::BeginPath, HostCall::Circle(x, y, radius)]);
        }
    }

    fn draw_triangle_path<N: Copy>(&self, calls: &mut Vec<HostCall<N>>, triangle: &Triangle<N>)
        ensures
            final(calls)@ == old(calls)@ + closed_path_through(triangle.vertices()),
    {
        let vertices: [Point<N>; 3] = [triangle.tip, triangle.base1, triangle.base2];
        proof {
            assert(vertices@ =~= triangle.vertices());
        }
        push_closed_path(calls, vertices.as_slice());
    }

    /// The id of this canvas.
    pub fn id(&self) -> (r: u32)
        ensures
            r == self@,
    {
        self.id
    }
}

/// Two handles asked for by one name agree, and only the first request finds the
/// host registration due: once the id is in the set, a second request finds it
/// there and leaves the set as it is.
pub proof fn lemma_from_element_idempotent(registered: Set<u32>, name: Seq<u8>)
    ensures
        ({
            let id = canvas_id_of(name);
            let after_first = registered.insert(id);
            &&& after_first.contains(id)
            &&& after_first.insert(id) == after_first
        }),
{
    let id = canvas_id_of(name);
    assert(registered.insert(id).insert(id) =~= registered.insert(id));
}

} // verus!
