//! Colors, and the two ways a stroke can be painted: with one color, or with
//! a color computed at each point.

use crate::geometry::{Pos2, Rect};
use std::sync::Arc;
use vstd::prelude::*;
use vstd::std_specs::cmp::PartialEqSpecImpl;

verus! {

/// A 32-bit color: red, green, blue with premultiplied alpha, and alpha.
#[derive(Clone, Copy, Debug, PartialEq, Eq, Structural, Hash)]
pub struct Color32 {
    pub r: u8,
    pub g: u8,
    pub b: u8,
    pub a: u8,
}

impl Color32 {
    /// The color with the given channels, alpha already multiplied in.
    pub fn from_rgba_premultiplied(r: u8, g: u8, b: u8, a: u8) -> (c: Color32)
        ensures
            c == (Color32 { r, g, b, a }),
    {
        Color32 { r, g, b, a }
    }

    /// The opaque color with the given channels.
    pub fn from_rgb(r: u8, g: u8, b: u8) -> (c: Color32)
        ensures
            c == (Color32 { r, g, b, a: 255 }),
    {
        Color32 { r, g, b, a: 255 }
    }

    /// The four channels in the order red, green, blue, alpha.
    pub fn to_array(self) -> (channels: [u8; 4])
        ensures
            channels@ == seq![self.r, self.g, self.b, self.a],
    {
        [self.r, self.g, self.b, self.a]
    }

    /// Fully transparent: all four channels zero.
    pub open spec fn spec_transparent() -> Color32 {
        Color32 { r: 0, g: 0, b: 0, a: 0 }
    }

    /// Fully transparent: all four channels zero.
    #[verifier::when_used_as_spec(spec_transparent)]
    pub fn transparent() -> (c: Color32)
        ensures
            c == Self::spec_transparent(),
    {
        Color32 { r: 0, g: 0, b: 0, a: 0 }
    }

    /// Is this the fully transparent color?
    pub fn is_transparent(self) -> (r: bool)
        ensures
            r == (self == Self::spec_transparent()),
    {
        self.r == 0 && self.g == 0 && self.b == 0 && self.a == 0
    }
}

/// A paint that depends on position: a function from the bounding rectangle
/// of a path and a point to the color at that point. It is shared by
/// reference count and may be called from several threads at once.
///
/// The library stores and hands on such a function; it never looks inside.
#[verifier::external_body]
pub struct PaintFn {
    callback: Arc<dyn Fn(Rect, Pos2) -> Color32 + Send + Sync>,
}

/// May `paint`, asked for the color at `pos` on a path whose bounding
/// rectangle is `rect`, give `color`? This is a relation, not a function to
/// the color: a paint need not give the same color twice.
pub uninterp spec fn paint_gives(paint: PaintFn, rect: Rect, pos: Pos2, color: Color32) -> bool;

impl PaintFn {
    /// Wraps `std::sync::Arc::new` around the function. The function must
    /// accept every rectangle and point, since the paint may be asked for any.
    /// The contract claims that the paint gives the colors that the function
    /// may return, and no others: the paint is that function.
    #[verifier::external_body]
    pub(crate) fn new(
        callback: impl Fn(Rect, Pos2) -> Color32 + Send + Sync + 'static,
    ) -> (paint: PaintFn)
        requires
            forall|rect: Rect, pos: Pos2| call_requires(callback, (rect, pos)),
        ensures
            forall|rect: Rect, pos: Pos2, color: Color32| #[trigger]
                paint_gives(paint, rect, pos, color) <==> call_ensures(
                    callback,
                    (rect, pos),
                    color,
                ),
    {
        PaintFn { callback: Arc::new(callback) }
    }

    /// Calls the stored function, as `std::ops::Fn::call` does. The contract
    /// claims that the color returned is one that the paint gives at that
    /// rectangle and point.
    #[verifier::external_body]
    pub(crate) fn call(&self, rect: Rect, pos: Pos2) -> (color: Color32)
        ensures
            paint_gives(*self, rect, pos, color),
    {
        (self.callback)(rect, pos)
    }
}

impl Clone for PaintFn {
    /// Wraps `std::sync::Arc::clone`: the copy shares the function of the
    /// value it was made from, which is what the contract claims.
    #[verifier::external_body]
    fn clone(&self) -> (p: Self)
        ensures
            p == *self,
    {
        PaintFn { callback: Arc::clone(&self.callback) }
    }
}

/// How a stroke gets its color.
pub enum ColorMode {
    /// One color for the whole stroke.
    Solid(Color32),
    /// A color computed at each point from the path's bounding rectangle and
    /// the point.
    UV(PaintFn),
}

impl ColorMode {
    /// The solid, fully transparent mode.
    pub open spec fn spec_transparent() -> ColorMode {
        ColorMode::Solid(Color32::spec_transparent())
    }

    /// The solid, fully transparent mode.
    #[verifier::when_used_as_spec(spec_transparent)]
    pub fn transparent() -> (m: ColorMode)
        ensures
            m == Self::spec_transparent(),
    {
        ColorMode::Solid(Color32::transparent())
    }

    /// Is this the solid, fully transparent mode? A computed paint never is.
    pub fn is_transparent(&self) -> (r: bool)
        ensures
            r == (*self == Self::spec_transparent()),
    {
        match self {
            ColorMode::Solid(c) => c.is_transparent(),
            ColorMode::UV(_) => false,
        }
    }

    /// What `==` means on color modes: two solid modes of the same color are
    /// equal; a computed paint equals nothing, not even itself.
    pub open spec fn spec_eq(&self, other: &ColorMode) -> bool {
        match (*self, *other) {
            (ColorMode::Solid(a), ColorMode::Solid(b)) => a == b,
            _ => false,
        }
    }

    /// The color at `pos` on a path whose bounding rectangle is `rect`: the
    /// one color of a solid mode, or what the paint function returns.
    pub fn color_at(&self, rect: Rect, pos: Pos2) -> (c: Color32)
        ensures
            self matches ColorMode::Solid(solid) ==> c == solid,
            self matches ColorMode::UV(paint) ==> paint_gives(*paint, rect, pos, c),
    {
        match self {
            ColorMode::Solid(c) => *c,
            ColorMode::UV(paint) => paint.call(rect, pos),
        }
    }
}

impl Clone for ColorMode {
    fn clone(&self) -> (m: Self)
        ensures
            m == *self,
    {
        match self {
            ColorMode::Solid(c) => ColorMode::Solid(*c),
            ColorMode::UV(paint) => ColorMode::UV(paint.clone()),
        }
    }
}

impl PartialEq for ColorMode {
    /// Two solid modes of the same color are equal. A computed paint equals
    /// nothing, not even itself: functions are not compared.
    fn eq(&self, other: &Self) -> (r: bool) {
        match (self, other) {
            (ColorMode::Solid(a), ColorMode::Solid(b)) => *a == *b,
            _ => false,
        }
    }
}

impl PartialEqSpecImpl for ColorMode {
    open spec fn obeys_eq_spec() -> bool {
        true
    }

    open spec fn eq_spec(&self, other: &Self) -> bool {
        self.spec_eq(other)
    }
}

} // verus!
