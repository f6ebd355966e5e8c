use arc_stroke::stroke::DEFAULT_MITER_LIMIT_BITS;
use arc_stroke::{
    Color32, ColorMode, LineCap, LineJoin, PathStroke, Pos2, Rect, Scalar, Stroke, StrokeKind,
};
use std::collections::hash_map::DefaultHasher;
use std::hash::{Hash, Hasher};
use std::sync::atomic::{AtomicUsize, Ordering};
use std::sync::Arc;

fn num(x: f32) -> Scalar {
    Scalar::from_bits(x.to_bits())
}

fn val(s: Scalar) -> f32 {
    f32::from_bits(s.to_bits())
}

fn blue() -> Color32 {
    Color32::from_rgb(0, 0, 255)
}

fn red() -> Color32 {
    Color32::from_rgb(255, 0, 0)
}

fn hash_of<T: Hash>(value: &T) -> u64 {
    let mut hasher = DefaultHasher::new();
    value.hash(&mut hasher);
    hasher.finish()
}

fn is_none(stroke: &PathStroke) -> bool {
    stroke.width.to_bits() == 0
        && matches!(stroke.color, ColorMode::Solid(c) if c == Color32::transparent())
        && stroke.kind == StrokeKind::Middle
        && stroke.cap == LineCap::Butt
        && stroke.join == LineJoin::Miter
        && stroke.miter_limit.to_bits() == 4.0f32.to_bits()
}

#[test]
fn default_miter_limit_is_four() {
    assert_eq!(f32::from_bits(DEFAULT_MITER_LIMIT_BITS), 4.0);
}

#[test]
fn enum_defaults() {
    assert_eq!(LineCap::default(), LineCap::Butt);
    assert_eq!(LineJoin::default(), LineJoin::Miter);
}

#[test]
fn stroke_none_fields() {
    let none = Stroke::none();
    assert_eq!(val(none.width), 0.0);
    assert_eq!(none.width.to_bits(), 0);
    assert_eq!(none.color, Color32::transparent());
    assert_eq!(none.color.to_array(), [0, 0, 0, 0]);
    assert_eq!(none.cap, LineCap::Butt);
    assert_eq!(none.join, LineJoin::Miter);
    assert_eq!(val(none.miter_limit), 4.0);
    assert!(none.is_empty());
}

#[test]
fn stroke_default_has_zero_miter_limit() {
    let stroke = Stroke::default();
    assert_eq!(stroke.width.to_bits(), 0);
    assert_eq!(stroke.color, Color32::transparent());
    assert_eq!(stroke.cap, LineCap::Butt);
    assert_eq!(stroke.join, LineJoin::Miter);
    assert_eq!(stroke.miter_limit.to_bits(), 0);
    assert!(stroke != Stroke::none());
}

#[test]
fn stroke_new_defaults() {
    let stroke = Stroke::new(num(2.5), red());
    assert_eq!(val(stroke.width), 2.5);
    assert_eq!(stroke.color, red());
    assert_eq!(stroke.cap, LineCap::Butt);
    assert_eq!(stroke.join, LineJoin::Miter);
    assert_eq!(val(stroke.miter_limit), 4.0);
}

#[test]
fn stroke_builders_change_one_field() {
    let base = Stroke::new(num(2.5), red());
    let capped = base.with_line_cap(LineCap::Square);
    assert_eq!(capped.cap, LineCap::Square);
    assert_eq!(capped.join, base.join);
    assert_eq!(capped.width.to_bits(), base.width.to_bits());
    assert_eq!(capped.miter_limit.to_bits(), base.miter_limit.to_bits());
    assert_eq!(capped.color, base.color);
    let joined = base.with_line_join(LineJoin::Round);
    assert_eq!(joined.join, LineJoin::Round);
    assert_eq!(joined.cap, base.cap);
    let limited = base.with_miter_limit(num(10.0));
    assert_eq!(val(limited.miter_limit), 10.0);
    assert_eq!(limited.cap, base.cap);
    assert_eq!(limited.join, base.join);
    assert_eq!(val(base.miter_limit), 4.0);
}

#[test]
fn stroke_is_empty_iff_width_not_above_zero_or_transparent() {
    let widths = [
        0.0,
        -0.0,
        -1.0,
        f32::NEG_INFINITY,
        -f32::MIN_POSITIVE,
        f32::MIN_POSITIVE,
        0.1,
        1.0,
        8.0,
        f32::INFINITY,
        f32::NAN,
    ];
    let colors = [
        Color32::transparent(),
        blue(),
        Color32::from_rgba_premultiplied(0, 0, 0, 1),
        Color32::from_rgba_premultiplied(1, 0, 0, 0),
    ];
    for w in widths {
        for c in colors {
            let expected = w <= 0.0 || c.to_array() == [0, 0, 0, 0];
            assert_eq!(Stroke::new(num(w), c).is_empty(), expected, "{w:?} {c:?}");
            assert_eq!(PathStroke::new(num(w), c).is_empty(), expected, "{w:?} {c:?}");
        }
    }
}

#[test]
fn stroke_with_nan_width_is_not_empty() {
    assert!(!Stroke::new(num(f32::NAN), blue()).is_empty());
    assert!(Stroke::new(num(f32::NAN), Color32::transparent()).is_empty());
}

#[test]
fn stroke_equality_compares_numbers_as_numbers() {
    let a = Stroke::new(num(0.0), blue());
    let b = Stroke::new(num(-0.0), blue());
    assert!(a == b);
    assert_eq!(a.hash_key(), b.hash_key());
    let nan = Stroke::new(num(f32::NAN), blue());
    assert!(nan != nan);
    assert!(Stroke::new(num(1.0), blue()) != Stroke::new(num(1.0), red()));
    assert!(Stroke::new(num(1.0), blue()) != Stroke::new(num(2.0), blue()));
    assert!(
        Stroke::new(num(1.0), blue()) != Stroke::new(num(1.0), blue()).with_line_cap(LineCap::Round)
    );
    assert!(
        Stroke::new(num(1.0), blue())
            != Stroke::new(num(1.0), blue()).with_line_join(LineJoin::Bevel)
    );
    assert!(
        Stroke::new(num(1.0), blue()) != Stroke::new(num(1.0), blue()).with_miter_limit(num(2.0))
    );
    assert!(Stroke::new(num(1.0), blue()) == Stroke::new(num(1.0), blue()));
}

#[test]
fn stroke_hash_key_holds_every_field() {
    let base = Stroke::new(num(3.0), blue());
    assert_ne!(base.hash_key(), Stroke::new(num(4.0), blue()).hash_key());
    assert_ne!(base.hash_key(), Stroke::new(num(3.0), red()).hash_key());
    assert_ne!(base.hash_key(), base.with_line_cap(LineCap::Round).hash_key());
    assert_ne!(base.hash_key(), base.with_line_join(LineJoin::Round).hash_key());
    assert_ne!(base.hash_key(), base.with_miter_limit(num(1.0)).hash_key());
    assert_eq!(hash_of(&base), hash_of(&Stroke::new(num(3.0), blue())));
    assert_ne!(hash_of(&base), hash_of(&Stroke::new(num(4.0), blue())));
    assert_ne!(hash_of(&base), hash_of(&Stroke::new(num(3.0), red())));
    assert_eq!(hash_of(&base), hash_of(&base.hash_key()));
}

#[test]
fn stroke_from_pair() {
    let stroke = Stroke::from((num(3.0), red()));
    assert!(stroke == Stroke::new(num(3.0), red()));
    assert_eq!(val(stroke.miter_limit), 4.0);
    let path_stroke = PathStroke::from((num(3.0), red()));
    assert!(path_stroke == PathStroke::new(num(3.0), red()));
    assert_eq!(path_stroke.kind, StrokeKind::Middle);
}

#[test]
fn path_stroke_none_and_default() {
    assert!(is_none(&PathStroke::none()));
    assert!(is_none(&PathStroke::default()));
    assert!(PathStroke::none().is_empty());
}

#[test]
fn path_stroke_new_defaults() {
    let stroke = PathStroke::new(num(2.0), blue());
    assert_eq!(val(stroke.width), 2.0);
    assert!(matches!(stroke.color, ColorMode::Solid(c) if c == blue()));
    assert_eq!(stroke.kind, StrokeKind::Middle);
    assert_eq!(stroke.cap, LineCap::Butt);
    assert_eq!(stroke.join, LineJoin::Miter);
    assert_eq!(val(stroke.miter_limit), 4.0);
}

#[test]
fn path_stroke_builders_change_one_field() {
    let base = PathStroke::new(num(2.0), blue());
    assert_eq!(base.clone().with_kind(StrokeKind::Inside).kind, StrokeKind::Inside);
    assert_eq!(base.clone().inside().kind, StrokeKind::Inside);
    assert_eq!(base.clone().outside().kind, StrokeKind::Outside);
    assert_eq!(base.clone().outside().middle().kind, StrokeKind::Middle);
    let styled = base
        .clone()
        .with_line_cap(LineCap::Round)
        .with_line_join(LineJoin::Bevel)
        .with_miter_limit(num(7.0))
        .with_kind(StrokeKind::Outside);
    assert_eq!(styled.cap, LineCap::Round);
    assert_eq!(styled.join, LineJoin::Bevel);
    assert_eq!(val(styled.miter_limit), 7.0);
    assert_eq!(styled.kind, StrokeKind::Outside);
    assert_eq!(val(styled.width), 2.0);
    assert!(matches!(styled.color, ColorMode::Solid(c) if c == blue()));
    assert_eq!(base.cap, LineCap::Butt);
}

#[test]
fn empty_stroke_becomes_path_stroke_none() {
    let stale = Stroke::new(num(8.0), Color32::transparent())
        .with_line_cap(LineCap::Round)
        .with_line_join(LineJoin::Bevel)
        .with_miter_limit(num(9.0));
    assert!(stale.is_empty());
    assert!(is_none(&PathStroke::from(stale)));
    let thin = Stroke::new(num(0.0), blue()).with_line_cap(LineCap::Square);
    assert!(is_none(&PathStroke::from(thin)));
    let negative = Stroke::new(num(-3.0), red()).with_line_join(LineJoin::Round);
    assert!(is_none(&PathStroke::from(negative)));
    assert!(is_none(&PathStroke::from(Stroke::none())));
    assert!(is_none(&PathStroke::from(Stroke::default())));
}

#[test]
fn stroke_converted_to_path_stroke_keeps_its_style() {
    let stroke = Stroke::new(num(8.0), blue())
        .with_line_cap(LineCap::Round)
        .with_line_join(LineJoin::Bevel);
    let path_stroke = PathStroke::from(stroke);
    assert_eq!(val(path_stroke.width), 8.0);
    assert!(matches!(path_stroke.color, ColorMode::Solid(c) if c == blue()));
    assert_eq!(path_stroke.cap, LineCap::Round);
    assert_eq!(path_stroke.join, LineJoin::Bevel);
    assert_eq!(path_stroke.kind, StrokeKind::Middle);
    assert_eq!(val(path_stroke.miter_limit), 4.0);
}

#[test]
fn stroke_with_nan_width_keeps_its_style_as_path_stroke() {
    let stroke = Stroke::new(num(f32::NAN), blue()).with_line_cap(LineCap::Round);
    let path_stroke = PathStroke::from(stroke);
    assert!(val(path_stroke.width).is_nan());
    assert_eq!(path_stroke.cap, LineCap::Round);
}

#[test]
fn path_stroke_with_computed_paint() {
    let stroke = PathStroke::new_uv(num(3.0), |rect: Rect, pos: Pos2| {
        Color32::from_rgb(
            (pos.x.to_bits() & 0xff) as u8,
            (rect.max.y.to_bits() & 0xff) as u8,
            7,
        )
    });
    assert_eq!(val(stroke.width), 3.0);
    assert_eq!(stroke.kind, StrokeKind::Middle);
    assert_eq!(stroke.cap, LineCap::Butt);
    assert_eq!(stroke.join, LineJoin::Miter);
    assert_eq!(val(stroke.miter_limit), 4.0);
    assert!(matches!(stroke.color, ColorMode::UV(_)));
    let rect = Rect {
        min: Pos2::new(Scalar::from_bits(0), Scalar::from_bits(0)),
        max: Pos2::new(Scalar::from_bits(1), Scalar::from_bits(0x21)),
    };
    let pos = Pos2::new(Scalar::from_bits(0x1234), Scalar::from_bits(0));
    assert_eq!(stroke.color.color_at(rect, pos), Color32::from_rgb(0x34, 0x21, 7));
    let copy = stroke.clone();
    assert_eq!(copy.color.color_at(rect, pos), Color32::from_rgb(0x34, 0x21, 7));
    assert_eq!(val(copy.width), 3.0);
}

#[test]
fn solid_color_mode_gives_its_color_everywhere() {
    let mode = ColorMode::Solid(red());
    let rect = Rect { min: Pos2::zero(), max: Pos2::zero() };
    assert_eq!(mode.color_at(rect, Pos2::zero()), red());
    assert_eq!(mode.clone().color_at(rect, Pos2::new(num(3.0), num(4.0))), red());
}

#[test]
fn computed_paint_is_never_taken_for_transparent() {
    let invisible = PathStroke::new_uv(num(1.0), |_, _| Color32::transparent());
    assert!(!invisible.is_empty());
    assert!(!invisible.color.is_transparent());
    assert!(PathStroke::new_uv(num(0.0), |_, _| Color32::from_rgb(1, 2, 3)).is_empty());
    assert!(PathStroke::new_uv(num(-1.0), |_, _| Color32::from_rgb(1, 2, 3)).is_empty());
    assert!(ColorMode::transparent().is_transparent());
    assert!(!ColorMode::Solid(red()).is_transparent());
}

#[test]
fn computed_paint_equals_nothing() {
    let stroke = PathStroke::new_uv(num(1.0), |_, _| Color32::from_rgb(1, 2, 3));
    let copy = stroke.clone();
    assert!(stroke != copy);
    assert!(stroke.color != copy.color);
    assert!(stroke != PathStroke::new(num(1.0), Color32::from_rgb(1, 2, 3)));
    assert!(ColorMode::Solid(red()) == ColorMode::Solid(red()));
    assert!(ColorMode::Solid(red()) != ColorMode::Solid(blue()));
    assert!(PathStroke::new(num(1.0), red()) == PathStroke::new(num(1.0), red()));
    assert!(PathStroke::new(num(1.0), red()) != PathStroke::new(num(1.0), red()).inside());
}

#[test]
fn path_stroke_hash_ignores_the_paint() {
    let a = PathStroke::new_uv(num(2.0), |_, _| Color32::from_rgb(1, 2, 3))
        .with_line_cap(LineCap::Round)
        .outside();
    let b = PathStroke::new_uv(num(2.0), |_, _| Color32::from_rgb(9, 9, 9))
        .with_line_cap(LineCap::Round)
        .outside();
    let c = PathStroke::new(num(2.0), red()).with_line_cap(LineCap::Round).outside();
    assert_eq!(a.hash_key(), b.hash_key());
    assert_eq!(a.hash_key(), c.hash_key());
    assert_eq!(hash_of(&a), hash_of(&b));
    assert_eq!(hash_of(&a), hash_of(&c));
    let zero = PathStroke::new(num(0.0), red());
    let minus_zero = PathStroke::new_uv(num(-0.0), |_, _| Color32::from_rgb(1, 2, 3));
    assert_eq!(hash_of(&zero), hash_of(&minus_zero));
    let nan = PathStroke::new(num(1.0), red()).with_miter_limit(num(f32::NAN));
    let other_nan = PathStroke::new(num(1.0), blue()).with_miter_limit(num(-f32::NAN));
    assert_eq!(hash_of(&nan), hash_of(&other_nan));
}

#[test]
fn path_stroke_hash_key_holds_every_other_field() {
    let base = PathStroke::new(num(2.0), red());
    assert_ne!(base.hash_key(), PathStroke::new(num(3.0), red()).hash_key());
    assert_ne!(base.hash_key(), base.clone().inside().hash_key());
    assert_ne!(base.hash_key(), base.clone().with_line_cap(LineCap::Square).hash_key());
    assert_ne!(base.hash_key(), base.clone().with_line_join(LineJoin::Round).hash_key());
    assert_ne!(base.hash_key(), base.clone().with_miter_limit(num(1.0)).hash_key());
    assert_ne!(hash_of(&base), hash_of(&base.clone().inside()));
    assert_eq!(hash_of(&base), hash_of(&base.hash_key()));
}

#[test]
fn computed_paint_is_stored_and_not_called_until_asked() {
    let calls = Arc::new(AtomicUsize::new(0));
    let seen = Arc::clone(&calls);
    let stroke = PathStroke::new_uv(num(3.0), move |rect: Rect, pos: Pos2| {
        seen.fetch_add(1, Ordering::SeqCst);
        Color32::from_rgba_premultiplied(
            (rect.min.x.to_bits() & 0xff) as u8,
            (rect.max.x.to_bits() & 0xff) as u8,
            (pos.x.to_bits() & 0xff) as u8,
            (pos.y.to_bits() & 0xff) as u8,
        )
    });
    assert_eq!(calls.load(Ordering::SeqCst), 0);
    assert!(!stroke.is_empty());
    assert!(!stroke.color.is_transparent());
    let copy = stroke.clone();
    let _ = stroke.hash_key();
    assert!(stroke != copy);
    assert_eq!(calls.load(Ordering::SeqCst), 0);
    let rect = Rect {
        min: Pos2::new(Scalar::from_bits(0x11), Scalar::from_bits(0)),
        max: Pos2::new(Scalar::from_bits(0x22), Scalar::from_bits(0)),
    };
    let pos = Pos2::new(Scalar::from_bits(0x33), Scalar::from_bits(0x44));
    assert_eq!(
        stroke.color.color_at(rect, pos),
        Color32::from_rgba_premultiplied(0x11, 0x22, 0x33, 0x44)
    );
    assert_eq!(calls.load(Ordering::SeqCst), 1);
    assert_eq!(
        copy.color.color_at(rect, pos),
        Color32::from_rgba_premultiplied(0x11, 0x22, 0x33, 0x44)
    );
    assert_eq!(calls.load(Ordering::SeqCst), 2);
}

#[test]
fn computed_paint_with_width_not_above_zero_is_empty() {
    for w in [0.0, -0.0, -2.0, f32::NEG_INFINITY] {
        assert!(PathStroke::new_uv(num(w), |_, _| Color32::from_rgb(1, 2, 3)).is_empty());
    }
    for w in [0.5, 3.0, f32::INFINITY, f32::NAN] {
        assert!(!PathStroke::new_uv(num(w), |_, _| Color32::from_rgb(1, 2, 3)).is_empty());
    }
}
