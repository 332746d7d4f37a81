//! The small operations of the domain model: constant-property constructors,
//! defaults, keyframe helpers, color construction and the duration query.

use vstd::prelude::*;

use crate::model::{
    Animated, AnimatedV, Bezier, Easing, Fill, FillRule, FillV, KeyFrame, KeyFrameV, Model, Rgb,
    Transform, TransformV, Vector2D,
};

verus! {

/// The single keyframe that carries a constant (non-animated) value.
pub open spec fn kf_const_v<TV>(v: TV) -> KeyFrameV<TV> {
    KeyFrameV {
        start_value: v,
        end_value: v,
        start_frame: 0,
        end_frame: 0,
        easing_out: None,
        easing_in: None,
    }
}

/// A non-animated property holding one constant value.
pub open spec fn animated_const_v<TV>(v: TV) -> AnimatedV<TV> {
    AnimatedV { animated: false, keyframes: seq![kf_const_v(v)] }
}

/// Copies a list of fixed-point numbers.
pub fn dup_nums(v: &Vec<i64>) -> (r: Vec<i64>)
    ensures
        r@ == v@,
{
    let mut r: Vec<i64> = Vec::new();
    let n = v.len();
    for i in 0..n
        invariant
            n == v.len(),
            r@ == v@.take(i as int),
    {
        r.push(v[i]);
        proof {
            assert(v@.take(i + 1) =~= v@.take(i as int).push(v@[i as int]));
        }
    }
    proof {
        assert(v@.take(n as int) =~= v@);
    }
    r
}

/// Copies a list of 2D vectors.
pub fn dup_vec2s(v: &Vec<Vector2D>) -> (r: Vec<Vector2D>)
    ensures
        r@ == v@,
{
    let mut r: Vec<Vector2D> = Vec::new();
    let n = v.len();
    for i in 0..n
        invariant
            n == v.len(),
            r@ == v@.take(i as int),
    {
        r.push(v[i]);
        proof {
            assert(v@.take(i + 1) =~= v@.take(i as int).push(v@[i as int]));
        }
    }
    proof {
        assert(v@.take(n as int) =~= v@);
    }
    r
}

impl Easing {
    /// A value-preserving copy.
    pub fn duplicate(&self) -> (r: Easing)
        ensures
            r.deep_view() == self.deep_view(),
    {
        let r = Easing { x: dup_nums(&self.x), y: dup_nums(&self.y) };
        proof {
            assert(r.deep_view() =~= self.deep_view());
        }
        r
    }
}

/// Copies an optional easing.
pub fn dup_opt_easing(v: &Option<Easing>) -> (r: Option<Easing>)
    ensures
        r.deep_view() == v.deep_view(),
{
    match v {
        None => None,
        Some(e) => Some(e.duplicate()),
    }
}

impl Bezier {
    /// A value-preserving copy.
    pub fn duplicate(&self) -> (r: Bezier)
        ensures
            r.deep_view() == self.deep_view(),
    {
        let r = Bezier {
            closed: self.closed,
            verticies: dup_vec2s(&self.verticies),
            in_tangent: dup_vec2s(&self.in_tangent),
            out_tangent: dup_vec2s(&self.out_tangent),
        };
        proof {
            assert(r.deep_view() =~= self.deep_view());
        }
        r
    }
}

/// Copies a list of Bezier paths.
pub fn dup_beziers(v: &Vec<Bezier>) -> (r: Vec<Bezier>)
    ensures
        r.deep_view() == v.deep_view(),
{
    let mut r: Vec<Bezier> = Vec::new();
    let n = v.len();
    for i in 0..n
        invariant
            n == v.len(),
            r@.len() == i,
            forall|j: int| 0 <= j < i ==> #[trigger] r@[j].deep_view() == v@[j].deep_view(),
    {
        r.push(v[i].duplicate());
    }
    proof {
        assert(r.deep_view() =~= v.deep_view());
    }
    r
}

impl<T: Copy + DeepView> KeyFrame<T> {
    /// One keyframe carrying a constant value: identical start and end value,
    /// degenerate frame bounds, no easing.
    pub fn from_value(value: T) -> (r: KeyFrame<T>)
        ensures
            r.deep_view() == kf_const_v(value.deep_view()),
    {
        KeyFrame {
            start_value: value,
            end_value: value,
            start_frame: 0,
            end_frame: 0,
            easing_out: None,
            easing_in: None,
        }
    }
}

impl<T> KeyFrame<T> {
    /// The same interval carrying different start and end values.
    pub fn alter_value<U>(&self, start: U, end: U) -> (r: KeyFrame<U>)
        ensures
            r.start_value == start,
            r.end_value == end,
            r.start_frame == self.start_frame,
            r.end_frame == self.end_frame,
            r.easing_out.deep_view() == self.easing_out.deep_view(),
            r.easing_in.deep_view() == self.easing_in.deep_view(),
    {
        KeyFrame {
            start_value: start,
            end_value: end,
            start_frame: self.start_frame,
            end_frame: self.end_frame,
            easing_out: dup_opt_easing(&self.easing_out),
            easing_in: dup_opt_easing(&self.easing_in),
        }
    }
}

/// A non-animated fixed-point number property.
pub fn animated_const_num(v: i64) -> (r: Animated<i64>)
    ensures
        r.deep_view() == animated_const_v(v),
{
    let r = Animated { animated: false, keyframes: vec![KeyFrame::from_value(v)] };
    proof {
        assert(r.deep_view().keyframes =~= animated_const_v(v).keyframes);
        assert(r.deep_view() =~= animated_const_v(v));
    }
    r
}

/// A non-animated 2D vector property.
pub fn animated_const_vec2(x: i64, y: i64) -> (r: Animated<Vector2D>)
    ensures
        r.deep_view() == animated_const_v(Vector2D { x, y }),
{
    let r = Animated {
        animated: false,
        keyframes: vec![KeyFrame::from_value(Vector2D { x, y })],
    };
    proof {
        assert(r.deep_view().keyframes =~= animated_const_v(Vector2D { x, y }).keyframes);
        assert(r.deep_view() =~= animated_const_v(Vector2D { x, y }));
    }
    r
}

/// A non-animated color property.
pub fn animated_const_rgb(c: Rgb) -> (r: Animated<Rgb>)
    ensures
        r.deep_view() == animated_const_v(c),
{
    let r = Animated { animated: false, keyframes: vec![KeyFrame::from_value(c)] };
    proof {
        assert(r.deep_view().keyframes =~= animated_const_v(c).keyframes);
        assert(r.deep_view() =~= animated_const_v(c));
    }
    r
}

/// The default transform: no anchor, position or skew, full scale and
/// opacity (one hundred percent), no rotation.
pub open spec fn default_transform_v() -> TransformV {
    TransformV {
        anchor: None,
        position: None,
        scale: animated_const_v(Vector2D { x: 100000, y: 100000 }),
        rotation: animated_const_v(0i64),
        auto_orient: false,
        opacity: animated_const_v(100000i64),
        skew: None,
        skew_axis: None,
    }
}

impl Default for Transform {
    fn default() -> (r: Transform)
        ensures
            r.deep_view() == default_transform_v(),
    {
        let r = Transform {
            anchor: None,
            position: None,
            scale: animated_const_vec2(100000, 100000),
            rotation: animated_const_num(0),
            auto_orient: false,
            opacity: animated_const_num(100000),
            skew: None,
            skew_axis: None,
        };
        proof {
            assert(r.deep_view() =~= default_transform_v());
        }
        r
    }
}

impl Transform {
    /// Identity detection is not attempted; every transform reports `false`.
    pub fn is_identity(&self) -> (r: bool)
        ensures
            r == false,
    {
        false
    }
}

impl Rgb {
    /// A color from its three byte channels.
    pub fn new_u8(r: u8, g: u8, b: u8) -> (c: Rgb)
        ensures
            c == (Rgb { r, g, b }),
    {
        Rgb { r, g, b }
    }

    /// A color from three fixed-point channels in thousandths of full
    /// intensity: each channel is scaled to the byte range truncating, and
    /// values outside the unit range saturate.
    pub fn new_milli(r: i64, g: i64, b: i64) -> (c: Rgb)
        ensures
            c == (Rgb {
                r: channel_from_milli(r),
                g: channel_from_milli(g),
                b: channel_from_milli(b),
            }),
    {
        Rgb { r: channel_exec(r), g: channel_exec(g), b: channel_exec(b) }
    }
}

/// A fixed-point channel in thousandths scaled to a byte, truncating, with
/// saturation outside the unit range.
pub open spec fn channel_from_milli(m: i64) -> u8 {
    if m < 0 {
        0
    } else if m > 1000 {
        255
    } else {
        (m * 255 / 1000) as u8
    }
}

fn channel_exec(m: i64) -> (r: u8)
    ensures
        r == channel_from_milli(m),
{
    if m < 0 {
        0
    } else if m > 1000 {
        255
    } else {
        ((m as u64) * 255 / 1000) as u8
    }
}

impl Fill {
    /// A fully transparent black fill.
    pub fn transparent() -> (r: Fill)
        ensures
            r.deep_view() == (FillV {
                opacity: animated_const_v(0i64),
                color: animated_const_v(Rgb { r: 0, g: 0, b: 0 }),
                fill_rule: FillRule::NonZero,
            }),
    {
        let r = Fill {
            opacity: animated_const_num(0),
            color: animated_const_rgb(Rgb::new_u8(0, 0, 0)),
            fill_rule: FillRule::NonZero,
        };
        proof {
            assert(r.deep_view() =~= FillV {
                opacity: animated_const_v(0i64),
                color: animated_const_v(Rgb { r: 0, g: 0, b: 0 }),
                fill_rule: FillRule::NonZero,
            });
        }
        r
    }
}

/// The duration of a frame range in milliseconds: the frame count divided by
/// the frame rate, truncating.  `None` when the frame rate is not positive,
/// when the range is reversed, or when the result does not fit.
pub open spec fn spec_duration(ip: i64, op: i64, fr: i64) -> Option<i64> {
    if fr <= 0 || op < ip {
        None
    } else if (op - ip) * 1000 / (fr as int) > i64::MAX {
        None
    } else {
        Some(((op - ip) * 1000 / (fr as int)) as i64)
    }
}

impl Model {
    /// The duration of the document in milliseconds; `None` when the frame
    /// rate is not positive, the frame range is reversed, or the result
    /// overflows.
    pub fn duration(&self) -> (r: Option<i64>)
        ensures
            r == spec_duration(self.start_frame, self.end_frame, self.frame_rate),
    {
        if self.frame_rate <= 0 {
            return None;
        }
        if self.end_frame < self.start_frame {
            return None;
        }
        let diff: u128 = (self.end_frame as i128 - self.start_frame as i128) as u128;
        let ms: u128 = diff * 1000;
        let q: u128 = ms / (self.frame_rate as u128);
        if q > (i64::MAX as u128) {
            None
        } else {
            Some(q as i64)
        }
    }
}

} // verus!
