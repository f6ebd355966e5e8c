//! How a line is drawn: its width and color, the shape of its ends and
//! corners, and on which side of a shape's boundary it lies.

use crate::color::{paint_gives, Color32, ColorMode, PaintFn};
use crate::geometry::{Pos2, Rect};
use crate::hashing::feed;
use crate::scalar::{lemma_hash_key_canonical, Scalar, ScalarKey, ScalarValue};
use std::hash::{Hash, Hasher};
use vstd::prelude::*;
use vstd::std_specs::cmp::PartialEqSpecImpl;
use vstd::std_specs::convert::FromSpecImpl;

verus! {

/// The bit pattern of 4.0, the miter limit of a stroke that sets none.
pub const DEFAULT_MITER_LIMIT_BITS: u32 = 0x4080_0000;

/// How the end of a line is rendered.
#[derive(Clone, Copy, Debug, PartialEq, Eq, Structural, Hash)]
pub enum LineCap {
    /// Cut off at the end point.
    Butt,
    /// A half disc around the end point, of half the line's width.
    Round,
    /// Cut off half the line's width beyond the end point.
    Square,
}

/// How two segments of a line join.
#[derive(Clone, Copy, Debug, PartialEq, Eq, Structural, Hash)]
pub enum LineJoin {
    /// A sharp corner, cut flat where it would exceed the miter limit.
    Miter,
    /// A rounded corner.
    Round,
    /// A flat corner.
    Bevel,
}

/// Where a stroke lies relative to the boundary of the shape it outlines.
#[derive(Clone, Copy, Debug, PartialEq, Eq, Structural, Hash)]
pub enum StrokeKind {
    /// Entirely inside the shape.
    Inside,
    /// On the boundary, half inside and half outside.
    Middle,
    /// Entirely outside the shape.
    Outside,
}

impl Default for LineCap {
    fn default() -> (cap: Self)
        ensures
            cap == LineCap::Butt,
    {
        LineCap::Butt
    }
}

impl Default for LineJoin {
    fn default() -> (join: Self)
        ensures
            join == LineJoin::Miter,
    {
        LineJoin::Miter
    }
}

/// The width and the one color of a line.
#[derive(Clone, Copy, Debug)]
pub struct Stroke {
    pub width: Scalar,
    pub color: Color32,
    pub cap: LineCap,
    pub join: LineJoin,
    pub miter_limit: Scalar,
}

/// What a [`Stroke`] contributes to a hash.
#[derive(Clone, Copy, Debug, PartialEq, Eq, Structural, Hash)]
pub struct StrokeKey {
    pub width: ScalarKey,
    pub color: Color32,
    pub cap: LineCap,
    pub join: LineJoin,
    pub miter_limit: ScalarKey,
}

impl Stroke {
    /// The stroke that draws nothing: width zero, transparent, butt caps,
    /// miter joins, miter limit 4.
    pub open spec fn spec_none() -> Stroke {
        Stroke {
            width: Scalar { bits: 0 },
            color: Color32::spec_transparent(),
            cap: LineCap::Butt,
            join: LineJoin::Miter,
            miter_limit: Scalar { bits: DEFAULT_MITER_LIMIT_BITS },
        }
    }

    /// The stroke that draws nothing: width zero, transparent, butt caps,
    /// miter joins, miter limit 4.
    #[verifier::when_used_as_spec(spec_none)]
    pub fn none() -> (stroke: Stroke)
        ensures
            stroke == Self::spec_none(),
    {
        Stroke {
            width: Scalar { bits: 0 },
            color: Color32::transparent(),
            cap: LineCap::Butt,
            join: LineJoin::Miter,
            miter_limit: Scalar { bits: DEFAULT_MITER_LIMIT_BITS },
        }
    }

    /// A stroke of the given width and color, with butt caps, miter joins and
    /// miter limit 4.
    pub open spec fn spec_new(width: Scalar, color: Color32) -> Stroke {
        Stroke {
            width,
            color,
            cap: LineCap::Butt,
            join: LineJoin::Miter,
            miter_limit: Scalar { bits: DEFAULT_MITER_LIMIT_BITS },
        }
    }

    /// A stroke of the given width and color, with butt caps, miter joins and
    /// miter limit 4.
    #[verifier::when_used_as_spec(spec_new)]
    pub fn new(width: Scalar, color: Color32) -> (stroke: Stroke)
        ensures
            stroke == Self::spec_new(width, color),
    {
        Stroke {
            width,
            color,
            cap: LineCap::Butt,
            join: LineJoin::Miter,
            miter_limit: Scalar { bits: DEFAULT_MITER_LIMIT_BITS },
        }
    }

    /// A stroke is empty when its width is not above zero or its color is
    /// fully transparent. A width that is not a number is not "not above
    /// zero".
    pub open spec fn spec_is_empty(&self) -> bool {
        self.width@.le(ScalarValue::zero()) || self.color == Color32::spec_transparent()
    }

    /// Does this stroke draw nothing?
    #[verifier::when_used_as_spec(spec_is_empty)]
    pub fn is_empty(&self) -> (r: bool)
        ensures
            r == self.spec_is_empty(),
    {
        self.width.le_zero() || self.color.is_transparent()
    }

    /// The same stroke with another cap.
    pub fn with_line_cap(self, cap: LineCap) -> (stroke: Stroke)
        ensures
            stroke == (Stroke { cap, ..self }),
    {
        Stroke { cap, ..self }
    }

    /// The same stroke with another join.
    pub fn with_line_join(self, join: LineJoin) -> (stroke: Stroke)
        ensures
            stroke == (Stroke { join, ..self }),
    {
        Stroke { join, ..self }
    }

    /// The same stroke with another miter limit.
    pub fn with_miter_limit(self, miter_limit: Scalar) -> (stroke: Stroke)
        ensures
            stroke == (Stroke { miter_limit, ..self }),
    {
        Stroke { miter_limit, ..self }
    }

    /// What `==` means on strokes: field by field, the two numbers as numbers
    /// compare.
    pub open spec fn spec_eq(&self, other: &Stroke) -> bool {
        &&& self.width@.float_eq(other.width@)
        &&& self.color == other.color
        &&& self.cap == other.cap
        &&& self.join == other.join
        &&& self.miter_limit@.float_eq(other.miter_limit@)
    }

    /// The key of this stroke: its fields, the two numbers by their own keys.
    pub open spec fn spec_hash_key(&self) -> StrokeKey {
        StrokeKey {
            width: self.width.spec_hash_key(),
            color: self.color,
            cap: self.cap,
            join: self.join,
            miter_limit: self.miter_limit.spec_hash_key(),
        }
    }

    /// The key under which this stroke is hashed, so that strokes that
    /// compare equal hash alike.
    pub fn hash_key(&self) -> (key: StrokeKey)
        ensures
            key == self.spec_hash_key(),
    {
        StrokeKey {
            width: self.width.hash_key(),
            color: self.color,
            cap: self.cap,
            join: self.join,
            miter_limit: self.miter_limit.hash_key(),
        }
    }
}

impl Default for Stroke {
    /// Every field at its own default: as [`Stroke::none`], but with a miter
    /// limit of zero.
    fn default() -> (stroke: Self)
        ensures
            stroke == (Stroke { miter_limit: Scalar { bits: 0 }, ..Stroke::spec_none() }),
    {
        Stroke {
            width: Scalar { bits: 0 },
            color: Color32::transparent(),
            cap: LineCap::Butt,
            join: LineJoin::Miter,
            miter_limit: Scalar { bits: 0 },
        }
    }
}

impl PartialEq for Stroke {
    /// Field by field, the two numbers as numbers compare.
    fn eq(&self, other: &Self) -> (r: bool) {
        self.width == other.width && self.color == other.color && self.cap == other.cap
            && self.join == other.join && self.miter_limit == other.miter_limit
    }
}

impl PartialEqSpecImpl for Stroke {
    open spec fn obeys_eq_spec() -> bool {
        true
    }

    open spec fn eq_spec(&self, other: &Self) -> bool {
        self.spec_eq(other)
    }
}

impl Hash for Stroke {
    /// Hashes the stroke's key, and nothing else.
    fn hash<H: Hasher>(&self, state: &mut H) {
        let key = self.hash_key();
        feed(&key, state)
    }
}

impl From<(Scalar, Color32)> for Stroke {
    /// As [`Stroke::new`] on the pair's width and color.
    fn from(pair: (Scalar, Color32)) -> (stroke: Self) {
        Stroke::new(pair.0, pair.1)
    }
}

impl FromSpecImpl<(Scalar, Color32)> for Stroke {
    open spec fn obeys_from_spec() -> bool {
        true
    }

    open spec fn from_spec(pair: (Scalar, Color32)) -> Self {
        Stroke::spec_new(pair.0, pair.1)
    }
}

/// The width and the paint of a path: one color, or a color computed at each
/// point.
pub struct PathStroke {
    pub width: Scalar,
    pub color: ColorMode,
    pub kind: StrokeKind,
    pub cap: LineCap,
    pub join: LineJoin,
    pub miter_limit: Scalar,
}

/// What a [`PathStroke`] contributes to a hash: everything but its paint.
#[derive(Clone, Copy, Debug, PartialEq, Eq, Structural, Hash)]
pub struct PathStrokeKey {
    pub width: ScalarKey,
    pub kind: StrokeKind,
    pub cap: LineCap,
    pub join: LineJoin,
    pub miter_limit: ScalarKey,
}

impl PathStroke {
    /// The path stroke that draws nothing: width zero, solid transparent, on
    /// the boundary, butt caps, miter joins, miter limit 4.
    pub open spec fn spec_none() -> PathStroke {
        PathStroke {
            width: Scalar { bits: 0 },
            color: ColorMode::spec_transparent(),
            kind: StrokeKind::Middle,
            cap: LineCap::Butt,
            join: LineJoin::Miter,
            miter_limit: Scalar { bits: DEFAULT_MITER_LIMIT_BITS },
        }
    }

    /// The path stroke that draws nothing: width zero, solid transparent, on
    /// the boundary, butt caps, miter joins, miter limit 4.
    #[verifier::when_used_as_spec(spec_none)]
    pub fn none() -> (stroke: PathStroke)
        ensures
            stroke == Self::spec_none(),
    {
        PathStroke {
            width: Scalar { bits: 0 },
            color: ColorMode::transparent(),
            kind: StrokeKind::Middle,
            cap: LineCap::Butt,
            join: LineJoin::Miter,
            miter_limit: Scalar { bits: DEFAULT_MITER_LIMIT_BITS },
        }
    }

    /// A path stroke of the given width and one color, on the boundary, with
    /// butt caps, miter joins and miter limit 4.
    pub open spec fn spec_new(width: Scalar, color: Color32) -> PathStroke {
        PathStroke {
            width,
            color: ColorMode::Solid(color),
            kind: StrokeKind::Middle,
            cap: LineCap::Butt,
            join: LineJoin::Miter,
            miter_limit: Scalar { bits: DEFAULT_MITER_LIMIT_BITS },
        }
    }

    /// What a stroke becomes as a path stroke. An empty stroke becomes exactly
    /// [`PathStroke::none`], whatever width, cap, join or miter limit it had.
    /// Any other stroke keeps its width, cap, join and miter limit, is painted
    /// with its one color, and lies on the boundary.
    pub open spec fn spec_from_stroke(stroke: Stroke) -> PathStroke {
        if stroke.spec_is_empty() {
            PathStroke::spec_none()
        } else {
            PathStroke {
                width: stroke.width,
                color: ColorMode::Solid(stroke.color),
                kind: StrokeKind::Middle,
                cap: stroke.cap,
                join: stroke.join,
                miter_limit: stroke.miter_limit,
            }
        }
    }

    /// What `==` means on path strokes: field by field, the two numbers as
    /// numbers compare, the paints as color modes compare. A stroke with a
    /// computed paint therefore equals nothing.
    pub open spec fn spec_eq(&self, other: &PathStroke) -> bool {
        &&& self.width@.float_eq(other.width@)
        &&& self.color.spec_eq(&other.color)
        &&& self.kind == other.kind
        &&& self.cap == other.cap
        &&& self.join == other.join
        &&& self.miter_limit@.float_eq(other.miter_limit@)
    }

    /// A path stroke of the given width and one color, on the boundary, with
    /// butt caps, miter joins and miter limit 4.
    #[verifier::when_used_as_spec(spec_new)]
    pub fn new(width: Scalar, color: Color32) -> (stroke: PathStroke)
        ensures
            stroke == Self::spec_new(width, color),
    {
        PathStroke {
            width,
            color: ColorMode::Solid(color),
            kind: StrokeKind::Middle,
            cap: LineCap::Butt,
            join: LineJoin::Miter,
            miter_limit: Scalar { bits: DEFAULT_MITER_LIMIT_BITS },
        }
    }

    /// A path stroke of the given width whose color at each point is computed
    /// by `callback` from the path's bounding rectangle and the point; on the
    /// boundary, with butt caps, miter joins and miter limit 4.
    ///
    /// `callback` must accept every rectangle and point. It is stored, not
    /// called: the stroke's paint gives the colors that `callback` may return,
    /// and no others.
    pub fn new_uv(
        width: Scalar,
        callback: impl Fn(Rect, Pos2) -> Color32 + Send + Sync + 'static,
    ) -> (stroke: PathStroke)
        requires
            forall|rect: Rect, pos: Pos2| call_requires(callback, (rect, pos)),
        ensures
            stroke.color matches ColorMode::UV(paint) && (forall|
                rect: Rect,
                pos: Pos2,
                color: Color32,
            | #[trigger]
                paint_gives(paint, rect, pos, color) <==> call_ensures(
                    callback,
                    (rect, pos),
                    color,
                )),
            stroke.width == width,
            stroke.kind == StrokeKind::Middle,
            stroke.cap == LineCap::Butt,
            stroke.join == LineJoin::Miter,
            stroke.miter_limit == (Scalar { bits: DEFAULT_MITER_LIMIT_BITS }),
    {
        PathStroke {
            width,
            color: ColorMode::UV(PaintFn::new(callback)),
            kind: StrokeKind::Middle,
            cap: LineCap::Butt,
            join: LineJoin::Miter,
            miter_limit: Scalar { bits: DEFAULT_MITER_LIMIT_BITS },
        }
    }

    /// The same stroke placed as `kind` says.
    pub fn with_kind(self, kind: StrokeKind) -> (stroke: PathStroke)
        ensures
            stroke == (PathStroke { kind, ..self }),
    {
        PathStroke { kind, ..self }
    }

    /// The same stroke placed on the boundary, half inside and half outside.
    pub fn middle(self) -> (stroke: PathStroke)
        ensures
            stroke == (PathStroke { kind: StrokeKind::Middle, ..self }),
    {
        PathStroke { kind: StrokeKind::Middle, ..self }
    }

    /// The same stroke placed entirely outside the shape.
    pub fn outside(self) -> (stroke: PathStroke)
        ensures
            stroke == (PathStroke { kind: StrokeKind::Outside, ..self }),
    {
        PathStroke { kind: StrokeKind::Outside, ..self }
    }

    /// The same stroke placed entirely inside the shape.
    pub fn inside(self) -> (stroke: PathStroke)
        ensures
            stroke == (PathStroke { kind: StrokeKind::Inside, ..self }),
    {
        PathStroke { kind: StrokeKind::Inside, ..self }
    }

    /// The same stroke with another cap.
    pub fn with_line_cap(self, cap: LineCap) -> (stroke: PathStroke)
        ensures
            stroke == (PathStroke { cap, ..self }),
    {
        PathStroke { cap, ..self }
    }

    /// The same stroke with another join.
    pub fn with_line_join(self, join: LineJoin) -> (stroke: PathStroke)
        ensures
            stroke == (PathStroke { join, ..self }),
    {
        PathStroke { join, ..self }
    }

    /// The same stroke with another miter limit.
    pub fn with_miter_limit(self, miter_limit: Scalar) -> (stroke: PathStroke)
        ensures
            stroke == (PathStroke { miter_limit, ..self }),
    {
        PathStroke { miter_limit, ..self }
    }

    /// A path stroke is empty when its width is not above zero or its paint is
    /// the solid, fully transparent color. A computed paint is never taken for
    /// transparent: what it returns is not known without calling it.
    pub open spec fn spec_is_empty(&self) -> bool {
        self.width@.le(ScalarValue::zero()) || self.color == ColorMode::spec_transparent()
    }

    /// Does this stroke draw nothing?
    #[verifier::when_used_as_spec(spec_is_empty)]
    pub fn is_empty(&self) -> (r: bool)
        ensures
            r == self.spec_is_empty(),
    {
        self.width.le_zero() || self.color.is_transparent()
    }

    /// The key of this stroke: its width, kind, cap, join and miter limit, the
    /// two numbers by their own keys. The paint has no part in it.
    pub open spec fn spec_hash_key(&self) -> PathStrokeKey {
        PathStrokeKey {
            width: self.width.spec_hash_key(),
            kind: self.kind,
            cap: self.cap,
            join: self.join,
            miter_limit: self.miter_limit.spec_hash_key(),
        }
    }

    /// The key under which this stroke is hashed.
    pub fn hash_key(&self) -> (key: PathStrokeKey)
        ensures
            key == self.spec_hash_key(),
    {
        PathStrokeKey {
            width: self.width.hash_key(),
            kind: self.kind,
            cap: self.cap,
            join: self.join,
            miter_limit: self.miter_limit.hash_key(),
        }
    }
}

impl Default for PathStroke {
    /// The same as [`PathStroke::none`].
    fn default() -> (stroke: Self)
        ensures
            stroke == PathStroke::spec_none(),
    {
        PathStroke::none()
    }
}

impl Clone for PathStroke {
    fn clone(&self) -> (stroke: Self)
        ensures
            stroke == *self,
    {
        PathStroke {
            width: self.width,
            color: self.color.clone(),
            kind: self.kind,
            cap: self.cap,
            join: self.join,
            miter_limit: self.miter_limit,
        }
    }
}

impl PartialEq for PathStroke {
    /// Field by field, the two numbers as numbers compare. A stroke with a
    /// computed paint equals nothing.
    fn eq(&self, other: &Self) -> (r: bool) {
        self.width == other.width && self.color == other.color && self.kind == other.kind
            && self.cap == other.cap && self.join == other.join && self.miter_limit
            == other.miter_limit
    }
}

impl PartialEqSpecImpl for PathStroke {
    open spec fn obeys_eq_spec() -> bool {
        true
    }

    open spec fn eq_spec(&self, other: &Self) -> bool {
        self.spec_eq(other)
    }
}

impl Hash for PathStroke {
    /// Hashes the stroke's key, and nothing else: the paint is left out.
    fn hash<H: Hasher>(&self, state: &mut H) {
        let key = self.hash_key();
        feed(&key, state)
    }
}

impl From<(Scalar, Color32)> for PathStroke {
    /// As [`PathStroke::new`] on the pair's width and color.
    fn from(pair: (Scalar, Color32)) -> (stroke: Self) {
        PathStroke::new(pair.0, pair.1)
    }
}

impl FromSpecImpl<(Scalar, Color32)> for PathStroke {
    open spec fn obeys_from_spec() -> bool {
        true
    }

    open spec fn from_spec(pair: (Scalar, Color32)) -> Self {
        PathStroke::spec_new(pair.0, pair.1)
    }
}

impl From<Stroke> for PathStroke {
    /// An empty stroke becomes exactly [`PathStroke::none`], whatever width,
    /// cap, join or miter limit it had: the stroke's color also feathers the
    /// edge of a fill, so a stroke that draws nothing must not carry any.
    /// Any other stroke keeps its width, cap, join and miter limit, is painted
    /// with its one color, and lies on the boundary.
    fn from(stroke: Stroke) -> (path_stroke: Self) {
        if stroke.is_empty() {
            PathStroke::none()
        } else {
            PathStroke {
                width: stroke.width,
                color: ColorMode::Solid(stroke.color),
                kind: StrokeKind::Middle,
                cap: stroke.cap,
                join: stroke.join,
                miter_limit: stroke.miter_limit,
            }
        }
    }
}

impl FromSpecImpl<Stroke> for PathStroke {
    open spec fn obeys_from_spec() -> bool {
        true
    }

    open spec fn from_spec(stroke: Stroke) -> Self {
        PathStroke::spec_from_stroke(stroke)
    }
}

/// Strokes that compare equal have the same hash key.
pub proof fn lemma_equal_strokes_hash_alike(a: Stroke, b: Stroke)
    requires
        a.spec_eq(&b),
    ensures
        a.spec_hash_key() == b.spec_hash_key(),
{
    lemma_hash_key_canonical(a.width, b.width);
    lemma_hash_key_canonical(a.miter_limit, b.miter_limit);
}

/// Path strokes whose widths and miter limits compare equal and whose kind,
/// cap and join are the same have the same hash key, whatever their paints.
pub proof fn lemma_hash_ignores_paint(a: PathStroke, b: PathStroke)
    requires
        a.width@.float_eq(b.width@),
        a.kind == b.kind,
        a.cap == b.cap,
        a.join == b.join,
        a.miter_limit@.float_eq(b.miter_limit@),
    ensures
        a.spec_hash_key() == b.spec_hash_key(),
{
    lemma_hash_key_canonical(a.width, b.width);
    lemma_hash_key_canonical(a.miter_limit, b.miter_limit);
}

/// A path stroke with a computed paint is empty only by its width.
pub proof fn lemma_computed_paint_empty_by_width(stroke: PathStroke)
    requires
        stroke.color is UV,
    ensures
        stroke.spec_is_empty() <==> stroke.width@.le(ScalarValue::zero()),
{
}

/// An empty stroke becomes the path stroke that draws nothing.
pub proof fn lemma_empty_stroke_becomes_none(stroke: Stroke)
    requires
        stroke.spec_is_empty(),
    ensures
        PathStroke::spec_from_stroke(stroke) == PathStroke::spec_none(),
        PathStroke::spec_from_stroke(stroke).spec_is_empty(),
{
}

} // verus!
