//! The picture scene-graph: points, colors, and the immutable picture tree.

use vstd::prelude::*;
use crate::scalar::ONE_BITS;

verus! {

/// A point in 2D space. Each coordinate is the bit pattern of an IEEE-754
/// single-precision value.
#[derive(Clone, Copy, PartialEq, Eq, Structural, Debug)]
pub struct Point {
    pub x: u32,
    pub y: u32,
}

/// A list of points, in drawing order.
pub type Points = Vec<Point>;

/// Placeholder for raw bitmap data; the `Bitmap` picture is unimplemented.
pub type BitmapData = bool;

/// A color used for drawing pictures. Numeric channels are bit patterns of
/// IEEE-754 single-precision values, conceptually in `[0, 1]`; out-of-range
/// values pass through unchanged.
#[derive(Clone, Copy, PartialEq, Eq, Structural, Debug)]
pub enum Color {
    Black,
    Blue,
    Green,
    Red,
    White,
    RGB(u32, u32, u32),
    RGBA(u32, u32, u32, u32),
}

/// An immutable tree describing what to draw.
pub enum Picture {
    /// A blank picture, with nothing in it.
    Blank,

    /// A convex polygon filled with a solid color.
    Polygon(Points),

    /// A line along an arbitrary path.
    Line(Points),

    /// A circle with the given radius.
    Circle(u32),

    /// A circle with the given thickness and radius. If the thickness is 0
    /// then this is equivalent to Circle.
    ThickCircle(u32, u32),

    /// A circular arc drawn counter-clockwise between two angles (in
    /// degrees) at the given radius.
    Arc(u32, u32, u32),

    /// A circular arc drawn counter-clockwise between two angles (in
    /// degrees), with the given radius and thickness. If the thickness is 0
    /// then this is equivalent to Arc.
    ThickArc(u32, u32, u32, u32),

    /// Some text to draw with a vector font.
    Text(String),

    /// A bitmap image with a width, height and some 32-bit RGBA bitmap data.
    ///
    /// The boolean flag controls whether the renderer may cache the data
    /// between frames for speed.
    Bitmap(u32, u32, BitmapData, bool),

    /// A picture drawn with this color.
    Colored(Color, Box<Picture>),

    /// A picture translated by the given x and y coordinates.
    Translate(u32, u32, Box<Picture>),

    /// A picture rotated clockwise by the given angle (in degrees).
    Rotate(u32, Box<Picture>),

    /// A picture scaled by the given x and y factors.
    Scale(u32, u32, Box<Picture>),

    /// A picture consisting of several others.
    Pictures(Vec<Picture>),
}

/// Build a point from two coordinate bit patterns.
pub fn point(x: u32, y: u32) -> (r: Point)
    ensures
        r == (Point { x, y }),
{
    Point { x, y }
}

/// The `(r, g, b, a)` channels denoted by a color: one case per variant,
/// with the alpha channel defaulting to `1.0` for the three-channel form.
pub open spec fn rgba_spec(color: Color) -> (u32, u32, u32, u32) {
    match color {
        Color::RGBA(r, g, b, a) => (r, g, b, a),
        Color::RGB(r, g, b) => (r, g, b, ONE_BITS),
        Color::Black => (0u32, 0u32, 0u32, ONE_BITS),
        Color::Blue => (0u32, 0u32, ONE_BITS, ONE_BITS),
        Color::Green => (0u32, ONE_BITS, 0u32, ONE_BITS),
        Color::Red => (ONE_BITS, 0u32, 0u32, ONE_BITS),
        Color::White => (ONE_BITS, ONE_BITS, ONE_BITS, ONE_BITS),
    }
}

/// Convert a color to its `(r, g, b, a)` channels. Total and exact: numeric
/// channels pass through bit-for-bit unchanged.
pub fn color_to_rgba(color: Color) -> (r: (u32, u32, u32, u32))
    ensures
        r == rgba_spec(color),
{
    match color {
        Color::RGBA(r, g, b, a) => (r, g, b, a),
        Color::RGB(r, g, b) => (r, g, b, ONE_BITS),
        Color::Black => (0, 0, 0, ONE_BITS),
        Color::Blue => (0, 0, ONE_BITS, ONE_BITS),
        Color::Green => (0, ONE_BITS, 0, ONE_BITS),
        Color::Red => (ONE_BITS, 0, 0, ONE_BITS),
        Color::White => (ONE_BITS, ONE_BITS, ONE_BITS, ONE_BITS),
    }
}

} // verus!
