//! An elliptical arc with its fill and stroke, and the decisions taken when
//! it is turned into a polyline.
//!
//! The arithmetic on coordinates (angles, lengths, sample points, bounds) is
//! the caller's; what is decided about its results is decided here.

use crate::color::Color32;
use crate::geometry::{PairKey, Pos2, Vec2};
use crate::hashing::feed;
use crate::scalar::{
    lemma_ceil_units_monotone, lemma_ceil_units_zero, lemma_hash_key_canonical, Scalar,
    ScalarKey, ScalarValue,
};
use crate::stroke::{PathStroke, PathStrokeKey};
use std::hash::{Hash, Hasher};
use vstd::prelude::*;
use vstd::std_specs::cmp::PartialEqSpecImpl;

verus! {

/// The bit pattern of 0.1, the tolerance of a flattening that names none.
pub const DEFAULT_TOLERANCE_BITS: u32 = 0x3dcc_cccd;

/// An arc of an ellipse, from `start` to `end` around `center`.
///
/// `start_angle` is given once, when the arc is made, and is not brought up
/// to date when `start` or `center` is changed afterwards. `large_arc` and
/// `sweep` are carried for renderers that want them; flattening always walks
/// the arc by increasing angle and does not read them.
pub struct ArcShape {
    pub center: Pos2,
    pub start: Pos2,
    pub end: Pos2,
    pub radii: Vec2,
    pub x_rotation: Scalar,
    pub large_arc: bool,
    pub sweep: bool,
    pub start_angle: Scalar,
    pub fill: Color32,
    pub stroke: PathStroke,
}

/// What an [`ArcShape`] contributes to a hash: every number by its own key,
/// the stroke by its key, and so without the stroke's paint.
#[derive(Clone, Copy, Debug, PartialEq, Eq, Structural, Hash)]
pub struct ArcShapeKey {
    pub center: PairKey,
    pub start: PairKey,
    pub end: PairKey,
    pub radii: PairKey,
    pub x_rotation: ScalarKey,
    pub large_arc: bool,
    pub sweep: bool,
    pub start_angle: ScalarKey,
    pub fill: Color32,
    pub stroke: PathStrokeKey,
}

impl ArcShape {
    /// An arc with the given parts. `start_angle` is the angle of `start` as
    /// seen from `center`, which the caller has computed.
    pub fn new(
        center: Pos2,
        start: Pos2,
        end: Pos2,
        radii: Vec2,
        x_rotation: Scalar,
        large_arc: bool,
        sweep: bool,
        start_angle: Scalar,
        fill: Color32,
        stroke: PathStroke,
    ) -> (arc: ArcShape)
        ensures
            arc == (ArcShape {
                center,
                start,
                end,
                radii,
                x_rotation,
                large_arc,
                sweep,
                start_angle,
                fill,
                stroke,
            }),
    {
        ArcShape {
            center,
            start,
            end,
            radii,
            x_rotation,
            large_arc,
            sweep,
            start_angle,
            fill,
            stroke,
        }
    }

    /// The arc with every point at the origin, every number positive zero,
    /// both flags off, a transparent fill and the stroke that draws nothing.
    pub open spec fn spec_default() -> ArcShape {
        ArcShape {
            center: Pos2::spec_zero(),
            start: Pos2::spec_zero(),
            end: Pos2::spec_zero(),
            radii: Vec2::spec_zero(),
            x_rotation: Scalar { bits: 0 },
            large_arc: false,
            sweep: false,
            start_angle: Scalar { bits: 0 },
            fill: Color32::spec_transparent(),
            stroke: PathStroke::spec_none(),
        }
    }

    /// What `==` means on arcs: field by field, numbers as numbers compare
    /// and the strokes as path strokes compare.
    pub open spec fn spec_eq(&self, other: &ArcShape) -> bool {
        &&& self.center.spec_eq(&other.center)
        &&& self.start.spec_eq(&other.start)
        &&& self.end.spec_eq(&other.end)
        &&& self.radii.spec_eq(&other.radii)
        &&& self.x_rotation@.float_eq(other.x_rotation@)
        &&& self.large_arc == other.large_arc
        &&& self.sweep == other.sweep
        &&& self.start_angle@.float_eq(other.start_angle@)
        &&& self.fill == other.fill
        &&& self.stroke.spec_eq(&other.stroke)
    }

    /// The key of this arc: see [`ArcShapeKey`].
    pub open spec fn spec_hash_key(&self) -> ArcShapeKey {
        ArcShapeKey {
            center: self.center.spec_hash_key(),
            start: self.start.spec_hash_key(),
            end: self.end.spec_hash_key(),
            radii: self.radii.spec_hash_key(),
            x_rotation: self.x_rotation.spec_hash_key(),
            large_arc: self.large_arc,
            sweep: self.sweep,
            start_angle: self.start_angle.spec_hash_key(),
            fill: self.fill,
            stroke: self.stroke.spec_hash_key(),
        }
    }

    /// The key under which this arc is hashed, so that arcs that compare
    /// equal hash alike.
    pub fn hash_key(&self) -> (key: ArcShapeKey)
        ensures
            key == self.spec_hash_key(),
    {
        ArcShapeKey {
            center: self.center.hash_key(),
            start: self.start.hash_key(),
            end: self.end.hash_key(),
            radii: self.radii.hash_key(),
            x_rotation: self.x_rotation.hash_key(),
            large_arc: self.large_arc,
            sweep: self.sweep,
            start_angle: self.start_angle.hash_key(),
            fill: self.fill,
            stroke: self.stroke.hash_key(),
        }
    }

    /// Puts in place what a similarity transform has made of the arc: both
    /// end points, the radii and the width of the stroke. The center is not
    /// among them and stays where it was, as do the start angle and all else;
    /// a caller that wants the center moved moves it.
    pub fn set_transformed(&mut self, start: Pos2, end: Pos2, radii: Vec2, stroke_width: Scalar)
        ensures
            *final(self) == (ArcShape {
                start,
                end,
                radii,
                stroke: PathStroke { width: stroke_width, ..old(self).stroke },
                ..*old(self)
            }),
    {
        self.start = start;
        self.end = end;
        self.radii = radii;
        self.stroke.width = stroke_width;
    }
}

impl Default for ArcShape {
    fn default() -> (arc: Self)
        ensures
            arc == ArcShape::spec_default(),
    {
        ArcShape {
            center: Pos2::zero(),
            start: Pos2::zero(),
            end: Pos2::zero(),
            radii: Vec2::zero(),
            x_rotation: Scalar { bits: 0 },
            large_arc: false,
            sweep: false,
            start_angle: Scalar { bits: 0 },
            fill: Color32::transparent(),
            stroke: PathStroke::none(),
        }
    }
}

impl Clone for ArcShape {
    fn clone(&self) -> (arc: Self)
        ensures
            arc == *self,
    {
        ArcShape {
            center: self.center,
            start: self.start,
            end: self.end,
            radii: self.radii,
            x_rotation: self.x_rotation,
            large_arc: self.large_arc,
            sweep: self.sweep,
            start_angle: self.start_angle,
            fill: self.fill,
            stroke: self.stroke.clone(),
        }
    }
}

impl PartialEq for ArcShape {
    /// Field by field, numbers as numbers compare. An arc whose stroke has a
    /// computed paint equals nothing.
    fn eq(&self, other: &Self) -> (r: bool) {
        self.center == other.center && self.start == other.start && self.end == other.end
            && self.radii == other.radii && self.x_rotation == other.x_rotation
            && self.large_arc == other.large_arc && self.sweep == other.sweep
            && self.start_angle == other.start_angle && self.fill == other.fill
            && self.stroke == other.stroke
    }
}

impl Hash for ArcShape {
    /// Hashes the arc's key, and nothing else.
    fn hash<H: Hasher>(&self, state: &mut H) {
        let key = self.hash_key();
        feed(&key, state)
    }
}

impl PartialEqSpecImpl for ArcShape {
    open spec fn obeys_eq_spec() -> bool {
        true
    }

    open spec fn eq_spec(&self, other: &Self) -> bool {
        self.spec_eq(other)
    }
}

/// One sample of an arc: the parameter `index / of` between 0, the start of
/// the arc, and 1, its end.
#[derive(Clone, Copy, Debug, PartialEq, Eq, Structural)]
pub struct Parameter {
    pub index: usize,
    pub of: usize,
}

impl Parameter {
    /// A parameter is a fraction between 0 and 1 with a denominator that is
    /// not zero.
    pub open spec fn wf(self) -> bool {
        1 <= self.of && self.index <= self.of
    }

    /// Is this the start of the arc, parameter 0?
    pub open spec fn is_start(self) -> bool {
        self.index == 0
    }

    /// Is this the end of the arc, parameter 1?
    pub open spec fn is_end(self) -> bool {
        self.index == self.of
    }
}

/// The `i`-th of the samples of an arc flattened into `num_segments`
/// segments. With no segment at all the one sample is the start of the arc.
pub open spec fn spec_parameter(i: int, num_segments: usize) -> Parameter {
    Parameter {
        index: i as usize,
        of: if num_segments == 0 {
            1
        } else {
            num_segments
        },
    }
}

/// The tolerance of a flattening: the one asked for, or 0.1 where none is.
pub fn tolerance_or_default(tolerance: Option<Scalar>) -> (t: Scalar)
    ensures
        t == match tolerance {
            Some(given) => given,
            None => Scalar { bits: DEFAULT_TOLERANCE_BITS },
        },
{
    match tolerance {
        Some(given) => given,
        None => Scalar { bits: DEFAULT_TOLERANCE_BITS },
    }
}

/// Must a full turn be added to the difference `raw` of the end angle and the
/// start angle to bring it into the range from zero to a full turn? It must
/// when the difference is below zero.
pub fn needs_full_turn(raw: Scalar) -> (r: bool)
    ensures
        r == raw@.lt(ScalarValue::zero()),
{
    raw.lt_zero()
}

/// The number of segments of a flattening, from the length of the arc divided
/// by the tolerance: the least whole number that is not below that ratio.
/// A ratio that is not a number or not above zero gives no segment.
pub fn segment_count(length_over_tolerance: Scalar) -> (n: usize)
    ensures
        n == length_over_tolerance@.ceil_to_usize(),
{
    length_over_tolerance.ceil_to_usize()
}

/// The parameters at which an arc flattened into `num_segments` segments is
/// sampled: one more than there are segments, evenly spaced from the start of
/// the arc to its end. No parameter has a zero denominator: with no segment,
/// the one sample is the start.
pub fn sample_parameters(num_segments: usize) -> (parameters: Vec<Parameter>)
    requires
        num_segments < usize::MAX,
    ensures
        parameters@.len() == num_segments + 1,
        forall|i: int|
            0 <= i <= num_segments ==> #[trigger] parameters@[i] == spec_parameter(
                i,
                num_segments,
            ),
{
    let of: usize = if num_segments == 0 {
        1
    } else {
        num_segments
    };
    let mut parameters: Vec<Parameter> = Vec::new();
    let mut index: usize = 0;
    while index < num_segments
        invariant
            index <= num_segments,
            of == spec_parameter(0, num_segments).of,
            parameters@.len() == index,
            forall|i: int|
                0 <= i < index ==> #[trigger] parameters@[i] == spec_parameter(i, num_segments),
        decreases num_segments - index,
    {
        parameters.push(Parameter { index, of });
        index = index + 1;
    }
    parameters.push(Parameter { index, of });
    parameters
}

/// The samples of a flattening begin at the start of the arc; each is a
/// fraction between 0 and 1; and where there is a segment at all they end at
/// the end of the arc.
pub proof fn lemma_samples_span_the_arc(num_segments: usize, i: int)
    requires
        0 <= i <= num_segments,
    ensures
        spec_parameter(i, num_segments).wf(),
        spec_parameter(0, num_segments).is_start(),
        num_segments > 0 ==> spec_parameter(num_segments as int, num_segments).is_end(),
{
}

/// A ratio of length to tolerance that is zero or not a number, as that of an
/// arc whose end angle is its start angle, gives no segment, and so a
/// flattening of one sample, the start of the arc.
pub proof fn lemma_degenerate_ratio_single_sample(length_over_tolerance: Scalar)
    requires
        length_over_tolerance@ == ScalarValue::zero() || length_over_tolerance@ is Nan,
    ensures
        length_over_tolerance@.ceil_to_usize() == 0,
        spec_parameter(0, length_over_tolerance@.ceil_to_usize()).is_start(),
{
    if length_over_tolerance@ == ScalarValue::zero() {
        lemma_ceil_units_zero();
    }
}

/// A larger ratio of length to tolerance never gives fewer segments.
pub proof fn lemma_segment_count_monotone(smaller: Scalar, larger: Scalar)
    requires
        smaller@.le(larger@),
    ensures
        smaller@.ceil_to_usize() <= larger@.ceil_to_usize(),
{
    match (smaller@, larger@) {
        (ScalarValue::Finite(j), ScalarValue::Finite(k)) => {
            lemma_ceil_units_monotone(j, k);
        },
        _ => {},
    }
}

/// Arcs that compare equal have the same hash key.
pub proof fn lemma_equal_arcs_hash_alike(a: ArcShape, b: ArcShape)
    requires
        a.spec_eq(&b),
    ensures
        a.spec_hash_key() == b.spec_hash_key(),
{
    lemma_hash_key_canonical(a.center.x, b.center.x);
    lemma_hash_key_canonical(a.center.y, b.center.y);
    lemma_hash_key_canonical(a.start.x, b.start.x);
    lemma_hash_key_canonical(a.start.y, b.start.y);
    lemma_hash_key_canonical(a.end.x, b.end.x);
    lemma_hash_key_canonical(a.end.y, b.end.y);
    lemma_hash_key_canonical(a.radii.x, b.radii.x);
    lemma_hash_key_canonical(a.radii.y, b.radii.y);
    lemma_hash_key_canonical(a.x_rotation, b.x_rotation);
    lemma_hash_key_canonical(a.start_angle, b.start_angle);
    lemma_hash_key_canonical(a.stroke.width, b.stroke.width);
    lemma_hash_key_canonical(a.stroke.miter_limit, b.stroke.miter_limit);
}

} // verus!
