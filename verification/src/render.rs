//! The scene renderer: a visitor that walks a picture tree and turns it
//! into an ordered list of drawing-device commands, scoping the ambient
//! draw color to each `Colored` subtree.
//!
//! The renderer targets an abstract drawing device: it emits commands
//! rather than calling a graphics API, so the command sequence of a frame
//! is specified exactly and the color-scoping discipline is proved rather
//! than round-tripped through device state.

use vstd::prelude::*;
use crate::picture::{Color, Picture, Point, Points, color_to_rgba, point, rgba_spec};
use crate::scalar::{
    ONE_BITS, TWO_PI_BITS, cos_bits, div_bits, mul_bits, of_int_bits, scalar_cos, scalar_div,
    scalar_mul, scalar_of_int, scalar_sin, sin_bits,
};

verus! {

broadcast use vstd::std_specs::vec::group_vec_axioms;

/// An `(r, g, b, a)` quadruple of single-precision bit patterns.
pub type Rgba = (u32, u32, u32, u32);

/// The ambient draw color a fresh device starts with: opaque white.
pub open spec fn white() -> Rgba {
    (ONE_BITS, ONE_BITS, ONE_BITS, ONE_BITS)
}

/// The number of rim segments used to tessellate a circle.
pub const CIRCLE_POINTS: usize = 50;

/// One command against the drawing device. A frame is an ordered list of
/// these; the device executes them in order.
pub enum DeviceOp {
    /// Set the color the target is cleared to.
    SetClearColor(u32, u32, u32, u32),

    /// Clear the target to the configured clear color.
    Clear,

    /// Upload a vertex list to the device's vertex buffer.
    UploadVertices(Points),

    /// Draw the first `n` uploaded vertices as a triangle fan.
    DrawTriangleFan(usize),

    /// Draw the first `n` uploaded vertices as a connected line strip.
    DrawLineStrip(usize),

    /// Set the ambient draw color.
    SetUniformColor(u32, u32, u32, u32),

    /// Present the finished frame.
    Present,

    /// An explicit signal that a picture variant has no rendering path
    /// yet; the device is expected to report it rather than draw.
    Unsupported,
}

/// The mathematical form of a device command, used by specifications.
pub enum OpView {
    SetClearColor(Rgba),
    Clear,
    UploadVertices(Seq<Point>),
    DrawTriangleFan(int),
    DrawLineStrip(int),
    SetUniformColor(Rgba),
    Present,
    Unsupported,
}

impl View for DeviceOp {
    type V = OpView;

    open spec fn view(&self) -> OpView {
        match self {
            DeviceOp::SetClearColor(r, g, b, a) => OpView::SetClearColor((*r, *g, *b, *a)),
            DeviceOp::Clear => OpView::Clear,
            DeviceOp::UploadVertices(pts) => OpView::UploadVertices(pts@),
            DeviceOp::DrawTriangleFan(n) => OpView::DrawTriangleFan(*n as int),
            DeviceOp::DrawLineStrip(n) => OpView::DrawLineStrip(*n as int),
            DeviceOp::SetUniformColor(r, g, b, a) => OpView::SetUniformColor((*r, *g, *b, *a)),
            DeviceOp::Present => OpView::Present,
            DeviceOp::Unsupported => OpView::Unsupported,
        }
    }
}

/// The views of a command list, in order.
pub open spec fn op_views(ops: Seq<DeviceOp>) -> Seq<OpView> {
    ops.map_values(|op: DeviceOp| op@)
}

/// The rim vertex at index `k` of a circle tessellated into `n_points`
/// segments: the angle is the fraction `k / n_points` of a full turn, and
/// the vertex is `(radius * cos(angle), radius * sin(angle))`.
pub open spec fn circle_rim_point(radius: u32, n_points: int, k: int) -> Point {
    Point {
        x: mul_bits(
            radius,
            cos_bits(mul_bits(div_bits(of_int_bits(k), of_int_bits(n_points)), TWO_PI_BITS)),
        ),
        y: mul_bits(
            radius,
            sin_bits(mul_bits(div_bits(of_int_bits(k), of_int_bits(n_points)), TWO_PI_BITS)),
        ),
    }
}

/// The triangle-fan vertex list of a tessellated circle: the center
/// `(0, 0)`, then `n_points + 1` rim vertices walking the circle
/// counter-clockwise from angle zero to a full turn inclusive.
pub open spec fn circle_fan_spec(radius: u32, n_points: int) -> Seq<Point> {
    Seq::new(
        (n_points + 2) as nat,
        |i: int|
            if i == 0 {
                Point { x: 0, y: 0 }
            } else {
                circle_rim_point(radius, n_points, i - 1)
            },
    )
}

/// Tessellate a circle into a triangle-fan vertex list: the center
/// `(0, 0)` followed by `n_points + 1` rim vertices, `n_points + 2`
/// vertices in all.
pub fn circle_to_polygon(radius: u32, n_points: usize) -> (pts: Points)
    requires
        n_points < usize::MAX - 1,
    ensures
        pts@ == circle_fan_spec(radius, n_points as int),
        pts@.len() == n_points + 2,
        pts@[0] == (Point { x: 0u32, y: 0u32 }),
{
    let mut pts: Points = Vec::new();

    // The center is just at zero.
    pts.push(point(0, 0));

    let end: usize = n_points + 1;
    for i in 0..end
        invariant
            end == n_points + 1,
            pts@.len() == i + 1,
            pts@[0] == (Point { x: 0u32, y: 0u32 }),
            forall|k: int|
                0 <= k < i ==> #[trigger] pts@[k + 1] == circle_rim_point(
                    radius,
                    n_points as int,
                    k,
                ),
    {
        let f: u32 = scalar_div(scalar_of_int(i), scalar_of_int(n_points));
        let angle: u32 = scalar_mul(f, TWO_PI_BITS);
        let x: u32 = scalar_mul(radius, scalar_cos(angle));
        let y: u32 = scalar_mul(radius, scalar_sin(angle));
        pts.push(point(x, y));
    }

    proof {
        let model = circle_fan_spec(radius, n_points as int);
        assert forall|j: int| 0 <= j < pts@.len() implies pts@[j] == model[j] by {
            if j > 0 {
                assert(pts@[(j - 1) + 1] == circle_rim_point(radius, n_points as int, j - 1));
            }
        }
        assert(pts@ =~= model);
    }
    pts
}

/// The device commands that render one picture node under the ambient
/// draw color `c`: the model of the renderer's recursive visit.
pub open spec fn node_ops(p: Picture, c: Rgba) -> Seq<OpView>
    decreases p,
{
    match p {
        Picture::Blank => Seq::empty(),
        Picture::Polygon(pts) => seq![
            OpView::UploadVertices(pts@),
            OpView::DrawTriangleFan(pts@.len() as int),
        ],
        Picture::Circle(radius) => seq![
            OpView::UploadVertices(circle_fan_spec(radius, CIRCLE_POINTS as int)),
            OpView::DrawTriangleFan(CIRCLE_POINTS as int + 2),
        ],
        Picture::Line(pts) => seq![
            OpView::UploadVertices(pts@),
            OpView::DrawLineStrip(pts@.len() as int),
        ],
        Picture::Colored(color, pic) => seq![OpView::SetUniformColor(rgba_spec(color))]
            + node_ops(*pic, rgba_spec(color)) + seq![OpView::SetUniformColor(c)],
        Picture::Pictures(pics) => pics_ops(pics@, c),
        Picture::Text(_) | Picture::Bitmap(_, _, _, _) | Picture::Arc(_, _, _)
            | Picture::ThickArc(_, _, _, _) | Picture::ThickCircle(_, _)
            | Picture::Translate(_, _, _) | Picture::Rotate(_, _) | Picture::Scale(_, _, _) => seq![
            OpView::Unsupported,
        ],
    }
}

/// The device commands that render a list of sibling pictures in order.
pub open spec fn pics_ops(pics: Seq<Picture>, c: Rgba) -> Seq<OpView>
    decreases pics,
{
    if pics.len() == 0 {
        Seq::empty()
    } else {
        pics_ops(pics.drop_last(), c) + node_ops(pics.last(), c)
    }
}

/// The device commands of one whole frame: clear to the background color,
/// render the picture under the initial ambient color (opaque white), and
/// present.
pub open spec fn frame_ops(p: Picture, background: Color) -> Seq<OpView> {
    seq![OpView::SetClearColor(rgba_spec(background)), OpView::Clear] + node_ops(p, white())
        + seq![OpView::Present]
}

/// The scene renderer. It holds the background color a frame is cleared
/// to; each `draw` interprets one picture tree into device commands.
pub struct Renderer {
    /// The color the frame is cleared to.
    pub background: Color,
}

impl Renderer {
    /// Create a renderer that clears each frame to `background`.
    pub fn new(background: Color) -> (r: Renderer)
        ensures
            r.background == background,
    {
        Renderer { background }
    }

    /// Render one node: appends to `ops` exactly the commands of
    /// `node_ops`, with the ambient draw color `c` in effect.
    fn render_node(&self, picture: &Picture, c: Rgba, ops: &mut Vec<DeviceOp>)
        ensures
            op_views(final(ops)@) == op_views(old(ops)@) + node_ops(*picture, c),
        decreases *picture,
    {
        match picture {
            // Simplest possible picture: nothing.
            Picture::Blank => {
                proof {
                    assert(op_views(ops@) =~= op_views(ops@) + node_ops(*picture, c));
                }
            },
            // Shapes.
            Picture::Polygon(pts) => {
                let n: usize = pts.len();
                ops.push(DeviceOp::UploadVertices(clone_points(pts)));
                ops.push(DeviceOp::DrawTriangleFan(n));
                proof {
                    assert(op_views(ops@) =~= op_views(old(ops)@) + node_ops(*picture, c));
                }
            },
            Picture::Circle(radius) => {
                let pts = circle_to_polygon(*radius, CIRCLE_POINTS);
                let n: usize = pts.len();
                ops.push(DeviceOp::UploadVertices(pts));
                ops.push(DeviceOp::DrawTriangleFan(n));
                proof {
                    assert(op_views(ops@) =~= op_views(old(ops)@) + node_ops(*picture, c));
                }
            },
            // Lines.
            Picture::Line(pts) => {
                let n: usize = pts.len();
                ops.push(DeviceOp::UploadVertices(clone_points(pts)));
                ops.push(DeviceOp::DrawLineStrip(n));
                proof {
                    assert(op_views(ops@) =~= op_views(old(ops)@) + node_ops(*picture, c));
                }
            },
            // Color scoping: push the new ambient color, render the
            // subtree, then restore the previous ambient color.
            Picture::Colored(color, pic) => {
                let (r, g, b, a) = color_to_rgba(*color);
                ops.push(DeviceOp::SetUniformColor(r, g, b, a));
                proof {
                    assert(op_views(ops@) =~= op_views(old(ops)@) + seq![
                        OpView::SetUniformColor(rgba_spec(*color)),
                    ]);
                }
                let ghost v1: Seq<OpView> = op_views(ops@);
                self.render_node(&**pic, (r, g, b, a), ops);
                let ghost v2: Seq<OpView> = op_views(ops@);
                ops.push(DeviceOp::SetUniformColor(c.0, c.1, c.2, c.3));
                proof {
                    assert(op_views(ops@) =~= v2 + seq![OpView::SetUniformColor(c)]);
                    assert(v2 == v1 + node_ops(**pic, rgba_spec(*color)));
                    assert(op_views(ops@) =~= op_views(old(ops)@) + node_ops(*picture, c));
                }
            },
            // Combine many pictures. Draw them in the order they appear.
            Picture::Pictures(pics) => {
                let ghost v0: Seq<OpView> = op_views(ops@);
                let n: usize = pics.len();
                for i in 0..n
                    invariant
                        n == pics@.len(),
                        *picture == Picture::Pictures(*pics),
                        op_views(ops@) == v0 + pics_ops(pics@.take(i as int), c),
                {
                    proof {
                        assert(decreases_to!(*picture => (*picture)->Pictures_0));
                        assert((*picture)->Pictures_0 == *pics);
                        assert(decreases_to!(*pics => pics@[i as int]));
                        assert(decreases_to!(*picture => pics@[i as int]));
                    }
                    self.render_node(&pics[i], c, ops);
                    proof {
                        let k: int = i as int;
                        assert(pics@.take(k + 1).drop_last() =~= pics@.take(k));
                        assert(pics@.take(k + 1).last() == pics@[k]);
                        assert(op_views(ops@) =~= v0 + pics_ops(pics@.take(k + 1), c));
                    }
                }
                proof {
                    assert(pics@.take(n as int) =~= pics@);
                    assert(op_views(ops@) =~= op_views(old(ops)@) + node_ops(*picture, c));
                }
            },
            // Recognized but unhandled variants: an explicit, observable
            // signal rather than a silent no-op.
            Picture::Text(_) | Picture::Bitmap(_, _, _, _) | Picture::Arc(_, _, _)
                | Picture::ThickArc(_, _, _, _) | Picture::ThickCircle(_, _)
                | Picture::Translate(_, _, _) | Picture::Rotate(_, _)
                | Picture::Scale(_, _, _) => {
                ops.push(DeviceOp::Unsupported);
                proof {
                    assert(op_views(ops@) =~= op_views(old(ops)@) + node_ops(*picture, c));
                }
            },
        }
    }

    /// Render one full frame: clear the target to the background color,
    /// render the picture, and present. Returns exactly the commands of
    /// `frame_ops`.
    pub fn draw(&self, picture: &Picture) -> (ops: Vec<DeviceOp>)
        ensures
            op_views(ops@) == frame_ops(*picture, self.background),
    {
        let mut ops: Vec<DeviceOp> = Vec::new();
        let (r, g, b, a) = color_to_rgba(self.background);
        ops.push(DeviceOp::SetClearColor(r, g, b, a));
        ops.push(DeviceOp::Clear);
        proof {
            assert(op_views(ops@) =~= seq![
                OpView::SetClearColor(rgba_spec(self.background)),
                OpView::Clear,
            ]);
        }
        let ghost v1: Seq<OpView> = op_views(ops@);
        self.render_node(picture, (ONE_BITS, ONE_BITS, ONE_BITS, ONE_BITS), &mut ops);
        let ghost v2: Seq<OpView> = op_views(ops@);
        ops.push(DeviceOp::Present);
        proof {
            assert(v2 == v1 + node_ops(*picture, white()));
            assert(op_views(ops@) =~= v2 + seq![OpView::Present]);
            assert(op_views(ops@) =~= frame_ops(*picture, self.background));
        }
        ops
    }
}

/// Copy a vertex list, element for element.
fn clone_points(pts: &Points) -> (r: Points)
    ensures
        r@ == pts@,
{
    let mut r: Points = Vec::new();
    let n: usize = pts.len();
    for i in 0..n
        invariant
            n == pts@.len(),
            r@ == pts@.take(i as int),
    {
        r.push(pts[i]);
        proof {
            assert(r@ =~= pts@.take(i as int + 1));
        }
    }
    proof {
        assert(pts@.take(n as int) =~= pts@);
    }
    r
}

/// The ambient draw color after a device executes `ops` in order,
/// starting from the color `c`: the last `SetUniformColor` wins.
pub open spec fn ambient_after(ops: Seq<OpView>, c: Rgba) -> Rgba
    decreases ops.len(),
{
    if ops.len() == 0 {
        c
    } else {
        match ops.last() {
            OpView::SetUniformColor(x) => x,
            _ => ambient_after(ops.drop_last(), c),
        }
    }
}

/// Executing two command lists in sequence composes their effect on the
/// ambient draw color.
pub proof fn lemma_ambient_concat(a: Seq<OpView>, b: Seq<OpView>, c: Rgba)
    ensures
        ambient_after(a + b, c) == ambient_after(b, ambient_after(a, c)),
    decreases b.len(),
{
    if b.len() == 0 {
        assert(a + b =~= a);
    } else {
        assert((a + b).drop_last() =~= a + b.drop_last());
        lemma_ambient_concat(a, b.drop_last(), c);
    }
}

/// A command list that never sets the ambient draw color leaves it as it
/// was.
pub proof fn lemma_ambient_unset(ops: Seq<OpView>, c: Rgba)
    requires
        forall|i: int| 0 <= i < ops.len() ==> !(#[trigger] ops[i] is SetUniformColor),
    ensures
        ambient_after(ops, c) == c,
    decreases ops.len(),
{
    if ops.len() != 0 {
        lemma_ambient_unset(ops.drop_last(), c);
    }
}

/// Color scoping never leaks: rendering any picture under any ambient
/// draw color leaves the ambient color exactly as it was, so siblings and
/// ancestors that render afterwards are unaffected.
pub proof fn lemma_color_restored(p: Picture, c: Rgba)
    ensures
        ambient_after(node_ops(p, c), c) == c,
    decreases p,
{
    match p {
        Picture::Colored(color, pic) => {
            let inner = seq![OpView::SetUniformColor(rgba_spec(color))] + node_ops(
                *pic,
                rgba_spec(color),
            );
            let close = seq![OpView::SetUniformColor(c)];
            lemma_ambient_concat(inner, close, c);
        },
        Picture::Pictures(pics) => {
            lemma_pics_color_restored(pics@, c);
        },
        _ => {
            lemma_ambient_unset(node_ops(p, c), c);
        },
    }
}

/// Color scoping never leaks across the children of a composite: after
/// rendering them all in order, the ambient draw color is unchanged.
pub proof fn lemma_pics_color_restored(pics: Seq<Picture>, c: Rgba)
    ensures
        ambient_after(pics_ops(pics, c), c) == c,
    decreases pics,
{
    if pics.len() != 0 {
        lemma_pics_color_restored(pics.drop_last(), c);
        lemma_color_restored(pics.last(), c);
        lemma_ambient_concat(pics_ops(pics.drop_last(), c), node_ops(pics.last(), c), c);
    }
}

/// The children of a composite are independent: when child `i` starts to
/// render, the ambient draw color is exactly the color the composite
/// itself started with, whatever its earlier siblings did.
pub proof fn lemma_sibling_isolation(pics: Seq<Picture>, c: Rgba, i: int)
    requires
        0 <= i <= pics.len(),
    ensures
        ambient_after(pics_ops(pics.take(i), c), c) == c,
{
    lemma_pics_color_restored(pics.take(i), c);
}

/// After one full frame the ambient draw color is back to the initial
/// opaque white: a frame never leaks color state into the frames that
/// follow it.
pub proof fn lemma_frame_color_restored(p: Picture, background: Color)
    ensures
        ambient_after(frame_ops(p, background), white()) == white(),
{
    let pre = seq![OpView::SetClearColor(rgba_spec(background)), OpView::Clear];
    let mid = node_ops(p, white());
    let post = seq![OpView::Present];
    lemma_ambient_concat(pre + mid, post, white());
    lemma_ambient_concat(pre, mid, white());
    lemma_ambient_unset(pre, white());
    lemma_color_restored(p, white());
    lemma_ambient_unset(post, ambient_after(pre + mid, white()));
}

/// The number of draw calls (triangle fans and line strips) a command
/// list issues against the device.
pub open spec fn draw_calls(ops: Seq<OpView>) -> int
    decreases ops.len(),
{
    if ops.len() == 0 {
        0
    } else {
        (match ops.last() {
            OpView::DrawTriangleFan(_) | OpView::DrawLineStrip(_) => 1int,
            _ => 0int,
        }) + draw_calls(ops.drop_last())
    }
}

/// A blank picture produces no device commands at all, in particular zero
/// draw calls.
pub proof fn lemma_blank_draws_nothing(c: Rgba)
    ensures
        node_ops(Picture::Blank, c) == Seq::<OpView>::empty(),
        draw_calls(node_ops(Picture::Blank, c)) == 0,
{
}

} // verus!
