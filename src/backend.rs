use vstd::prelude::*;
use crate::color::{conv_color, native_of, PremultipliedColor, RgbaColor};
use crate::path::{build_path, path_of, PathOp};

verus! {

/// The rasterizer's pixel buffer, carried through opaquely.
#[verifier::external_type_specification]
#[verifier::external_body]
#[verifier::reject_recursive_types(Backing)]
pub struct ExDrawTarget<Backing>(raqote::DrawTarget<Backing>);

/// The width a raqote surface was made with; it never changes afterwards.
pub uninterp spec fn surface_width(dt: raqote::DrawTarget) -> i32;

/// The height a raqote surface was made with; it never changes afterwards.
pub uninterp spec fn surface_height(dt: raqote::DrawTarget) -> i32;

/// Relies on raqote's `DrawTarget::width`: it returns the stored width.
#[verifier::external_body]
fn target_width(dt: &raqote::DrawTarget) -> (r: i32)
    ensures
        r == surface_width(*dt),
{
    dt.width()
}

/// Relies on raqote's `DrawTarget::height`: it returns the stored height.
#[verifier::external_body]
fn target_height(dt: &raqote::DrawTarget) -> (r: i32)
    ensures
        r == surface_height(*dt),
{
    dt.height()
}

/// The single failure kind of the backend.
#[derive(Clone, Copy, Debug, PartialEq, Eq, Structural)]
pub struct RaqoteError;

impl RaqoteError {
    /// The error's text, as its `Debug` form prints it.
    pub fn message(&self) -> (r: String)
        ensures
            r@ == "RaqoteError"@,
    {
        String::from_str("RaqoteError")
    }
}

/// How a shape is painted: its colour and the width of its outline.
#[derive(Clone, Copy, Debug, PartialEq, Eq, Structural)]
pub struct Style {
    pub color: RgbaColor,
    pub stroke_width: u32,
}

impl Style {
    pub open spec fn wf(self) -> bool {
        self.color.wf()
    }
}

/// One call against the rasterizer's surface.
#[derive(Clone, Debug)]
pub enum DrawCommand {
    /// Fill the axis-aligned rectangle with origin `(x, y)` and the given size.
    FillRect { x: i32, y: i32, width: u32, height: u32, source: PremultipliedColor },
    /// Stroke the path with an outline of the given width.
    Stroke { path: Vec<PathOp>, source: PremultipliedColor, width: u32 },
    /// Fill the region the path encloses.
    Fill { path: Vec<PathOp>, source: PremultipliedColor },
}

/// The mathematical value of a [`DrawCommand`].
pub ghost enum CommandView {
    FillRect { x: int, y: int, width: nat, height: nat, source: PremultipliedColor },
    Stroke { path: Seq<PathOp>, source: PremultipliedColor, width: nat },
    Fill { path: Seq<PathOp>, source: PremultipliedColor },
}

impl View for DrawCommand {
    type V = CommandView;

    open spec fn view(&self) -> CommandView {
        match self {
            DrawCommand::FillRect { x, y, width, height, source } => CommandView::FillRect {
                x: *x as int,
                y: *y as int,
                width: *width as nat,
                height: *height as nat,
                source: *source,
            },
            DrawCommand::Stroke { path, source, width } => CommandView::Stroke {
                path: path@,
                source: *source,
                width: *width as nat,
            },
            DrawCommand::Fill { path, source } => CommandView::Fill { path: path@, source: *source },
        }
    }
}

/// The distance between two coordinates.
pub open spec fn span(a: i32, b: i32) -> nat {
    if a <= b {
        (b - a) as nat
    } else {
        (a - b) as nat
    }
}

pub open spec fn min_i32(a: i32, b: i32) -> i32 {
    if a <= b {
        a
    } else {
        b
    }
}

/// The fill of the rectangle spanned by two opposite corners.
pub open spec fn filled_rect(p: (i32, i32), q: (i32, i32), source: PremultipliedColor) -> CommandView {
    CommandView::FillRect {
        x: min_i32(p.0, q.0) as int,
        y: min_i32(p.1, q.1) as int,
        width: span(p.0, q.0),
        height: span(p.1, q.1),
        source,
    }
}

/// The filled area of a rectangle depends neither on the order of the two
/// corners nor on which of its two diagonals they lie on.
pub proof fn lemma_fill_rect_corner_order(p: (i32, i32), q: (i32, i32), source: PremultipliedColor)
    ensures
        filled_rect(p, q, source) == filled_rect(q, p, source),
        filled_rect(p, q, source) == filled_rect((p.0, q.1), (q.0, p.1), source),
        filled_rect(p, q, source) == filled_rect((q.0, p.1), (p.0, q.1), source),
{
}

/// The outline of the rectangle spanned by two opposite corners: its four
/// corners from `p` round to `p` again.
pub open spec fn rect_outline(p: (i32, i32), q: (i32, i32)) -> Seq<PathOp> {
    seq![
        PathOp::MoveTo(p.0, p.1),
        PathOp::LineTo(q.0, p.1),
        PathOp::LineTo(q.0, q.1),
        PathOp::LineTo(p.0, q.1),
        PathOp::LineTo(p.0, p.1),
    ]
}

/// The full circle around `center`.
pub open spec fn circle_path(center: (i32, i32), radius: u32) -> Seq<PathOp> {
    seq![PathOp::Arc { x: center.0, y: center.1, radius }]
}

/// The outline of a shape in the given style.
pub open spec fn stroked(path: Seq<PathOp>, style: Style) -> CommandView {
    CommandView::Stroke { path, source: native_of(style.color), width: style.stroke_width as nat }
}

/// The interior of a shape in the style's colour.
pub open spec fn filled(path: Seq<PathOp>, style: Style) -> CommandView {
    CommandView::Fill { path, source: native_of(style.color) }
}

fn span_exec(a: i32, b: i32) -> (r: u32)
    ensures
        r as nat == span(a, b),
{
    if a <= b {
        (b as i64 - a as i64) as u32
    } else {
        (a as i64 - b as i64) as u32
    }
}

/// A drawing backend bound to a surface of fixed size.
pub struct RaqoteBackend {
    width: u32,
    height: u32,
}

impl RaqoteBackend {
    /// The size captured when the backend was made.
    pub closed spec fn size(&self) -> (u32, u32) {
        (self.width, self.height)
    }

    /// Binds a backend to a surface, capturing its size once. Binding always
    /// succeeds; each side is taken `as u32`, as the size query reports it.
    pub fn new(dt: &raqote::DrawTarget) -> (r: Result<RaqoteBackend, RaqoteError>)
        ensures
            r matches Ok(b) && b.size() == (surface_width(*dt) as u32, surface_height(*dt) as u32),
    {
        let width = target_width(dt);
        let height = target_height(dt);
        RaqoteBackend::from_size(width, height)
    }

    /// A backend for a surface of the given size; binding always succeeds.
    pub fn from_size(width: i32, height: i32) -> (r: Result<RaqoteBackend, RaqoteError>)
        ensures
            r matches Ok(b) && b.size() == (width as u32, height as u32),
    {
        Ok(RaqoteBackend { width: width as u32, height: height as u32 })
    }

    pub fn get_size(&self) -> (r: (u32, u32))
        ensures
            r == self.size(),
    {
        (self.width, self.height)
    }

    /// Nothing to stage: the surface is always ready.
    pub fn ensure_prepared(&mut self) -> (r: Result<(), RaqoteError>)
        ensures
            r is Ok,
            *final(self) == *old(self),
    {
        Ok(())
    }

    /// Nothing to flush: drawing is visible on the surface at once.
    pub fn present(&mut self) -> (r: Result<(), RaqoteError>)
        ensures
            r is Ok,
            *final(self) == *old(self),
    {
        Ok(())
    }

    /// A single pixel: a 1×1 rectangle at the point.
    pub fn draw_pixel(&self, point: (i32, i32), color: RgbaColor) -> (r: DrawCommand)
        requires
            color.wf(),
        ensures
            r@ == (CommandView::FillRect {
                x: point.0 as int,
                y: point.1 as int,
                width: 1,
                height: 1,
                source: native_of(color),
            }),
    {
        DrawCommand::FillRect { x: point.0, y: point.1, width: 1, height: 1, source: conv_color(&color) }
    }

    /// A segment between two points, stroked in the style.
    pub fn draw_line(&self, from: (i32, i32), to: (i32, i32), style: &Style) -> (r: DrawCommand)
        requires
            style.wf(),
        ensures
            r@ == stroked(seq![PathOp::MoveTo(from.0, from.1), PathOp::LineTo(to.0, to.1)], *style),
    {
        let mut path: Vec<PathOp> = Vec::new();
        path.push(PathOp::MoveTo(from.0, from.1));
        path.push(PathOp::LineTo(to.0, to.1));
        assert(path@ =~= seq![PathOp::MoveTo(from.0, from.1), PathOp::LineTo(to.0, to.1)]);
        DrawCommand::Stroke { path, source: conv_color(&style.color), width: style.stroke_width }
    }

    /// The rectangle spanned by two opposite corners, filled or outlined.
    pub fn draw_rect(&self, upper_left: (i32, i32), bottom_right: (i32, i32), style: &Style, fill: bool) -> (r: DrawCommand)
        requires
            style.wf(),
        ensures
            fill ==> r@ == filled_rect(upper_left, bottom_right, native_of(style.color)),
            !fill ==> r@ == stroked(rect_outline(upper_left, bottom_right), *style),
    {
        let source = conv_color(&style.color);
        if fill {
            let x = if upper_left.0 <= bottom_right.0 { upper_left.0 } else { bottom_right.0 };
            let y = if upper_left.1 <= bottom_right.1 { upper_left.1 } else { bottom_right.1 };
            DrawCommand::FillRect {
                x,
                y,
                width: span_exec(upper_left.0, bottom_right.0),
                height: span_exec(upper_left.1, bottom_right.1),
                source,
            }
        } else {
            let mut path: Vec<PathOp> = Vec::new();
            path.push(PathOp::MoveTo(upper_left.0, upper_left.1));
            path.push(PathOp::LineTo(bottom_right.0, upper_left.1));
            path.push(PathOp::LineTo(bottom_right.0, bottom_right.1));
            path.push(PathOp::LineTo(upper_left.0, bottom_right.1));
            path.push(PathOp::LineTo(upper_left.0, upper_left.1));
            assert(path@ =~= rect_outline(upper_left, bottom_right));
            DrawCommand::Stroke { path, source, width: style.stroke_width }
        }
    }

    /// The open polyline through the points in order, stroked in the style.
    pub fn draw_path(&self, path: &Vec<(i32, i32)>, style: &Style) -> (r: DrawCommand)
        requires
            style.wf(),
        ensures
            r@ == stroked(path_of(path@, false), *style),
    {
        DrawCommand::Stroke {
            path: build_path(path, false),
            source: conv_color(&style.color),
            width: style.stroke_width,
        }
    }

    /// The full circle around `center`, filled or outlined.
    pub fn draw_circle(&self, center: (i32, i32), radius: u32, style: &Style, fill: bool) -> (r: DrawCommand)
        requires
            style.wf(),
        ensures
            fill ==> r@ == filled(circle_path(center, radius), *style),
            !fill ==> r@ == stroked(circle_path(center, radius), *style),
    {
        let mut path: Vec<PathOp> = Vec::new();
        path.push(PathOp::Arc { x: center.0, y: center.1, radius });
        assert(path@ =~= circle_path(center, radius));
        let source = conv_color(&style.color);
        if fill {
            DrawCommand::Fill { path, source }
        } else {
            DrawCommand::Stroke { path, source, width: style.stroke_width }
        }
    }

    /// The polygon through the vertices in order, closed, filled in the
    /// style's colour; the stroke width plays no part.
    pub fn fill_polygon(&self, vert: &Vec<(i32, i32)>, style: &Style) -> (r: DrawCommand)
        requires
            style.wf(),
        ensures
            r@ == filled(path_of(vert@, true), *style),
    {
        DrawCommand::Fill { path: build_path(vert, true), source: conv_color(&style.color) }
    }
}

} // verus!
