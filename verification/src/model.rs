//! The strict domain model that documents decode into, together with the
//! mathematical mirror of each type (`...V`) used by the contracts.
//!
//! Every field that the interchange format carries as a fractional number is
//! held as a fixed-point value in thousandths (`i64`), as in `crate::value`.

use vstd::prelude::*;

verus! {

/// Why a decode failed.  Decoding is all-or-nothing: the first violation is
/// reported and no partial document is produced.
#[derive(Debug, Clone, Copy, PartialEq, Eq, Structural)]
pub enum DecodeError {
    /// A required field is missing, or a field has the wrong shape.
    Schema,
    /// A shape tag or an enumerated option falls outside the closed set.
    UnknownDiscriminant,
    /// The animated flag is set but the keyframe list is empty, or a keyframe
    /// lacks its start value.
    MalformedKeyframes,
}

/// A 2D vector with fixed-point coordinates.
#[derive(Debug, Clone, Copy, PartialEq, Eq, Structural)]
pub struct Vector2D {
    pub x: i64,
    pub y: i64,
}

impl DeepView for Vector2D {
    type V = Vector2D;

    open spec fn deep_view(&self) -> Vector2D {
        *self
    }
}

/// An opaque color with an alpha channel.
#[derive(Debug, Clone, Copy, PartialEq, Eq, Structural)]
pub struct Rgba {
    pub r: u8,
    pub g: u8,
    pub b: u8,
    pub a: u8,
}

impl DeepView for Rgba {
    type V = Rgba;

    open spec fn deep_view(&self) -> Rgba {
        *self
    }
}

/// An opaque color.
#[derive(Debug, Clone, Copy, PartialEq, Eq, Structural)]
pub struct Rgb {
    pub r: u8,
    pub g: u8,
    pub b: u8,
}

impl DeepView for Rgb {
    type V = Rgb;

    open spec fn deep_view(&self) -> Rgb {
        *self
    }
}

#[derive(Debug, Clone, Copy, PartialEq, Eq, Structural)]
pub enum PolyStarType {
    Star,
    Polygon,
}

#[derive(Debug, Clone, Copy, PartialEq, Eq, Structural)]
pub enum FillRule {
    NonZero,
    EvenOdd,
}

#[derive(Debug, Clone, Copy, PartialEq, Eq, Structural)]
pub enum LineCap {
    Butt,
    Round,
    Square,
}

#[derive(Debug, Clone, Copy, PartialEq, Eq, Structural)]
pub enum LineJoin {
    Miter,
    Round,
    Bevel,
}

#[derive(Debug, Clone, Copy, PartialEq, Eq, Structural)]
pub enum StrokeDashType {
    Dash,
    Gap,
    Offset,
}

#[derive(Debug, Clone, Copy, PartialEq, Eq, Structural)]
pub enum GradientType {
    Linear,
    Radial,
}

#[derive(Debug, Clone, Copy, PartialEq, Eq, Structural)]
pub enum Composite {
    Above,
    Below,
}

#[derive(Debug, Clone, Copy, PartialEq, Eq, Structural)]
pub enum TrimMultipleShape {
    Individually,
    Simultaneously,
}

#[derive(Debug, Clone, Copy, PartialEq, Eq, Structural)]
pub enum ShapeDirection {
    Clockwise,
    CounterClockwise,
}

/// Merge-mode operators are not interpreted: the format's closed numeric
/// enumeration collapses to a single forward-compatible sentinel.
#[derive(Debug, Clone, Copy, PartialEq, Eq, Structural)]
pub enum MergeMode {
    Unsupported,
}

#[derive(Debug, Clone, Copy, PartialEq, Eq, Structural)]
pub enum FontPathOrigin {
    Local,
    CssUrl,
    ScriptUrl,
    FontUrl,
}

/// Cubic-Bezier easing handles; each axis is a list of fixed-point
/// coordinates, normalized from a bare number or an array.
#[derive(Debug)]
pub struct Easing {
    pub x: Vec<i64>,
    pub y: Vec<i64>,
}

/// The mathematical shape of an `Easing`.
#[verifier::ext_equal]
pub struct EasingV {
    pub x: Seq<i64>,
    pub y: Seq<i64>,
}

impl DeepView for Easing {
    type V = EasingV;

    open spec fn deep_view(&self) -> EasingV {
        EasingV { x: self.x@, y: self.y@ }
    }
}

/// One interpolation interval: a start value anchored at a start frame, with
/// the end value and end frame borrowed from the following keyframe.
#[derive(Debug)]
pub struct KeyFrame<T> {
    pub start_value: T,
    pub end_value: T,
    pub start_frame: i64,
    pub end_frame: i64,
    pub easing_out: Option<Easing>,
    pub easing_in: Option<Easing>,
}

/// The mathematical shape of a `KeyFrame`.
#[verifier::ext_equal]
pub struct KeyFrameV<TV> {
    pub start_value: TV,
    pub end_value: TV,
    pub start_frame: i64,
    pub end_frame: i64,
    pub easing_out: Option<EasingV>,
    pub easing_in: Option<EasingV>,
}

impl<T: DeepView> DeepView for KeyFrame<T> {
    type V = KeyFrameV<T::V>;

    open spec fn deep_view(&self) -> KeyFrameV<T::V> {
        KeyFrameV {
            start_value: self.start_value.deep_view(),
            end_value: self.end_value.deep_view(),
            start_frame: self.start_frame,
            end_frame: self.end_frame,
            easing_out: self.easing_out.deep_view(),
            easing_in: self.easing_in.deep_view(),
        }
    }
}

/// The animation container: a constant value, or an ordered non-empty list of
/// keyframes.
#[derive(Debug)]
pub struct Animated<T> {
    pub animated: bool,
    pub keyframes: Vec<KeyFrame<T>>,
}

/// The mathematical shape of an `Animated` property.
#[verifier::ext_equal]
pub struct AnimatedV<TV> {
    pub animated: bool,
    pub keyframes: Seq<KeyFrameV<TV>>,
}

impl<T: DeepView> DeepView for Animated<T> {
    type V = AnimatedV<T::V>;

    open spec fn deep_view(&self) -> AnimatedV<T::V> {
        AnimatedV { animated: self.animated, keyframes: self.keyframes.deep_view() }
    }
}

/// A cubic Bezier path: three coordinate lists of equal length plus a closed
/// flag.
#[derive(Debug)]
pub struct Bezier {
    pub closed: bool,
    pub verticies: Vec<Vector2D>,
    pub in_tangent: Vec<Vector2D>,
    pub out_tangent: Vec<Vector2D>,
}

/// The mathematical shape of a `Bezier`.
#[verifier::ext_equal]
pub struct BezierV {
    pub closed: bool,
    pub verticies: Seq<Vector2D>,
    pub in_tangent: Seq<Vector2D>,
    pub out_tangent: Seq<Vector2D>,
}

impl DeepView for Bezier {
    type V = BezierV;

    open spec fn deep_view(&self) -> BezierV {
        BezierV {
            closed: self.closed,
            verticies: self.verticies@,
            in_tangent: self.in_tangent@,
            out_tangent: self.out_tangent@,
        }
    }
}

/// A gradient's color stops; decoded from an animated-flag object whose list
/// holds textual colors.
#[derive(Debug)]
pub struct AnimatedColorList {
    pub animated: bool,
    pub colors: Vec<Rgba>,
}

/// The mathematical shape of an `AnimatedColorList`.
#[verifier::ext_equal]
pub struct AnimatedColorListV {
    pub animated: bool,
    pub colors: Seq<Rgba>,
}

impl DeepView for AnimatedColorList {
    type V = AnimatedColorListV;

    open spec fn deep_view(&self) -> AnimatedColorListV {
        AnimatedColorListV { animated: self.animated, colors: self.colors@ }
    }
}

/// One entry of a stroke's dash pattern.
#[derive(Debug)]
pub struct StrokeDash {
    pub length: Animated<i64>,
    pub ty: StrokeDashType,
}

/// The mathematical shape of a `StrokeDash`.
#[verifier::ext_equal]
pub struct StrokeDashV {
    pub length: AnimatedV<i64>,
    pub ty: StrokeDashType,
}

impl DeepView for StrokeDash {
    type V = StrokeDashV;

    open spec fn deep_view(&self) -> StrokeDashV {
        StrokeDashV { length: self.length.deep_view(), ty: self.ty }
    }
}

/// A layer or group transform.
#[derive(Debug)]
pub struct Transform {
    pub anchor: Option<Animated<Vector2D>>,
    pub position: Option<Animated<Vector2D>>,
    pub scale: Animated<Vector2D>,
    pub rotation: Animated<i64>,
    pub auto_orient: bool,
    pub opacity: Animated<i64>,
    pub skew: Option<Animated<Vector2D>>,
    pub skew_axis: Option<Animated<Vector2D>>,
}

/// The mathematical shape of a `Transform`.
#[verifier::ext_equal]
pub struct TransformV {
    pub anchor: Option<AnimatedV<Vector2D>>,
    pub position: Option<AnimatedV<Vector2D>>,
    pub scale: AnimatedV<Vector2D>,
    pub rotation: AnimatedV<i64>,
    pub auto_orient: bool,
    pub opacity: AnimatedV<i64>,
    pub skew: Option<AnimatedV<Vector2D>>,
    pub skew_axis: Option<AnimatedV<Vector2D>>,
}

impl DeepView for Transform {
    type V = TransformV;

    open spec fn deep_view(&self) -> TransformV {
        TransformV {
            anchor: self.anchor.deep_view(),
            position: self.position.deep_view(),
            scale: self.scale.deep_view(),
            rotation: self.rotation.deep_view(),
            auto_orient: self.auto_orient,
            opacity: self.opacity.deep_view(),
            skew: self.skew.deep_view(),
            skew_axis: self.skew_axis.deep_view(),
        }
    }
}

/// The transform variant owned by a repeater, with its own start and end
/// opacity.
#[derive(Debug)]
pub struct RepeaterTransform {
    pub anchor: Animated<Vector2D>,
    pub position: Animated<Vector2D>,
    pub scale: Animated<Vector2D>,
    pub rotation: Animated<i64>,
    pub start_opacity: Animated<i64>,
    pub end_opacity: Animated<i64>,
    pub skew: Option<Animated<Vector2D>>,
    pub skew_axis: Option<Animated<Vector2D>>,
}

/// The mathematical shape of a `RepeaterTransform`.
#[verifier::ext_equal]
pub struct RepeaterTransformV {
    pub anchor: AnimatedV<Vector2D>,
    pub position: AnimatedV<Vector2D>,
    pub scale: AnimatedV<Vector2D>,
    pub rotation: AnimatedV<i64>,
    pub start_opacity: AnimatedV<i64>,
    pub end_opacity: AnimatedV<i64>,
    pub skew: Option<AnimatedV<Vector2D>>,
    pub skew_axis: Option<AnimatedV<Vector2D>>,
}

impl DeepView for RepeaterTransform {
    type V = RepeaterTransformV;

    open spec fn deep_view(&self) -> RepeaterTransformV {
        RepeaterTransformV {
            anchor: self.anchor.deep_view(),
            position: self.position.deep_view(),
            scale: self.scale.deep_view(),
            rotation: self.rotation.deep_view(),
            start_opacity: self.start_opacity.deep_view(),
            end_opacity: self.end_opacity.deep_view(),
            skew: self.skew.deep_view(),
            skew_axis: self.skew_axis.deep_view(),
        }
    }
}

/// A solid fill.
#[derive(Debug)]
pub struct Fill {
    pub opacity: Animated<i64>,
    pub color: Animated<Rgb>,
    pub fill_rule: FillRule,
}

/// The mathematical shape of a `Fill`.
#[verifier::ext_equal]
pub struct FillV {
    pub opacity: AnimatedV<i64>,
    pub color: AnimatedV<Rgb>,
    pub fill_rule: FillRule,
}

impl DeepView for Fill {
    type V = FillV;

    open spec fn deep_view(&self) -> FillV {
        FillV {
            opacity: self.opacity.deep_view(),
            color: self.color.deep_view(),
            fill_rule: self.fill_rule,
        }
    }
}

/// A solid stroke.
#[derive(Debug)]
pub struct Stroke {
    pub line_cap: LineCap,
    pub line_join: LineJoin,
    pub miter_limit: i64,
    pub opacity: Animated<i64>,
    pub width: Animated<i64>,
    pub dashes: Vec<StrokeDash>,
    pub color: Animated<Rgb>,
}

/// The mathematical shape of a `Stroke`.
#[verifier::ext_equal]
pub struct StrokeV {
    pub line_cap: LineCap,
    pub line_join: LineJoin,
    pub miter_limit: i64,
    pub opacity: AnimatedV<i64>,
    pub width: AnimatedV<i64>,
    pub dashes: Seq<StrokeDashV>,
    pub color: AnimatedV<Rgb>,
}

impl DeepView for Stroke {
    type V = StrokeV;

    open spec fn deep_view(&self) -> StrokeV {
        StrokeV {
            line_cap: self.line_cap,
            line_join: self.line_join,
            miter_limit: self.miter_limit,
            opacity: self.opacity.deep_view(),
            width: self.width.deep_view(),
            dashes: self.dashes.deep_view(),
            color: self.color.deep_view(),
        }
    }
}

/// A rectangle shape.
#[derive(Debug)]
pub struct Rectangle {
    pub direction: ShapeDirection,
    pub position: Animated<Vector2D>,
    pub size: Animated<Vector2D>,
    pub radius: Animated<i64>,
}

/// The mathematical shape of a `Rectangle`.
#[verifier::ext_equal]
pub struct RectangleV {
    pub direction: ShapeDirection,
    pub position: AnimatedV<Vector2D>,
    pub size: AnimatedV<Vector2D>,
    pub radius: AnimatedV<i64>,
}

impl DeepView for Rectangle {
    type V = RectangleV;

    open spec fn deep_view(&self) -> RectangleV {
        RectangleV {
            direction: self.direction,
            position: self.position.deep_view(),
            size: self.size.deep_view(),
            radius: self.radius.deep_view(),
        }
    }
}

/// An ellipse shape.
#[derive(Debug)]
pub struct Ellipse {
    pub direction: ShapeDirection,
    pub position: Animated<Vector2D>,
    pub size: Animated<Vector2D>,
}

/// The mathematical shape of an `Ellipse`.
#[verifier::ext_equal]
pub struct EllipseV {
    pub direction: ShapeDirection,
    pub position: AnimatedV<Vector2D>,
    pub size: AnimatedV<Vector2D>,
}

impl DeepView for Ellipse {
    type V = EllipseV;

    open spec fn deep_view(&self) -> EllipseV {
        EllipseV {
            direction: self.direction,
            position: self.position.deep_view(),
            size: self.size.deep_view(),
        }
    }
}

/// A star or polygon shape.
#[derive(Debug)]
pub struct PolyStar {
    pub direction: ShapeDirection,
    pub position: Animated<Vector2D>,
    pub outer_radius: Animated<i64>,
    pub outer_roundness: Animated<i64>,
    pub inner_radius: Animated<i64>,
    pub inner_roundness: Animated<i64>,
    pub rotation: Animated<i64>,
    pub points: Animated<i64>,
    pub star_type: PolyStarType,
}

/// The mathematical shape of a `PolyStar`.
#[verifier::ext_equal]
pub struct PolyStarV {
    pub direction: ShapeDirection,
    pub position: AnimatedV<Vector2D>,
    pub outer_radius: AnimatedV<i64>,
    pub outer_roundness: AnimatedV<i64>,
    pub inner_radius: AnimatedV<i64>,
    pub inner_roundness: AnimatedV<i64>,
    pub rotation: AnimatedV<i64>,
    pub points: AnimatedV<i64>,
    pub star_type: PolyStarType,
}

impl DeepView for PolyStar {
    type V = PolyStarV;

    open spec fn deep_view(&self) -> PolyStarV {
        PolyStarV {
            direction: self.direction,
            position: self.position.deep_view(),
            outer_radius: self.outer_radius.deep_view(),
            outer_roundness: self.outer_roundness.deep_view(),
            inner_radius: self.inner_radius.deep_view(),
            inner_roundness: self.inner_roundness.deep_view(),
            rotation: self.rotation.deep_view(),
            points: self.points.deep_view(),
            star_type: self.star_type,
        }
    }
}

/// One element of the closed, tag-discriminated shape union.
#[derive(Debug)]
pub enum Shape {
    Rectangle(Rectangle),
    Ellipse(Ellipse),
    PolyStar(PolyStar),
    Path { d: Animated<Vec<Bezier>> },
    Fill(Fill),
    Stroke(Stroke),
    GradientFill {
        opacity: Animated<i64>,
        fill_rule: FillRule,
        start: Animated<Vector2D>,
        end: Animated<Vector2D>,
        gradient_ty: GradientType,
        colors: AnimatedColorList,
    },
    GradientStroke {
        line_cap: LineCap,
        line_join: LineJoin,
        miter_limit: i64,
        opacity: Animated<i64>,
        width: Animated<i64>,
        dashes: Vec<StrokeDash>,
        start: Animated<Vector2D>,
        end: Animated<Vector2D>,
        gradient_ty: GradientType,
        colors: AnimatedColorList,
    },
    Group { shapes: Vec<ShapeLayer> },
    Transform(Transform),
    Repeater {
        copies: Animated<i64>,
        offset: Animated<i64>,
        composite: Composite,
        transform: RepeaterTransform,
    },
    Trim {
        start: Animated<i64>,
        end: Animated<i64>,
        offset: Animated<i64>,
        multiple_shape: TrimMultipleShape,
    },
    RoundedCorners { radius: Animated<i64> },
    PuckerBloat { amount: Animated<i64> },
    Twist { angle: Animated<i64>, center: Animated<Vector2D> },
    Merge { mode: MergeMode },
    OffsetPath { amount: Animated<i64>, line_join: LineJoin, miter_limit: i64 },
    ZigZag { radius: Animated<i64>, distance: Animated<i64>, ridges: Animated<i64> },
}

/// A named, hideable wrapper pairing metadata with one shape.
#[derive(Debug)]
pub struct ShapeLayer {
    pub name: Option<String>,
    pub hidden: bool,
    pub id: u32,
    pub shape: Shape,
}

/// The mathematical shape of a `Shape`.
#[verifier::ext_equal]
pub enum ShapeV {
    Rectangle(RectangleV),
    Ellipse(EllipseV),
    PolyStar(PolyStarV),
    Path { d: AnimatedV<Seq<BezierV>> },
    Fill(FillV),
    Stroke(StrokeV),
    GradientFill {
        opacity: AnimatedV<i64>,
        fill_rule: FillRule,
        start: AnimatedV<Vector2D>,
        end: AnimatedV<Vector2D>,
        gradient_ty: GradientType,
        colors: AnimatedColorListV,
    },
    GradientStroke {
        line_cap: LineCap,
        line_join: LineJoin,
        miter_limit: i64,
        opacity: AnimatedV<i64>,
        width: AnimatedV<i64>,
        dashes: Seq<StrokeDashV>,
        start: AnimatedV<Vector2D>,
        end: AnimatedV<Vector2D>,
        gradient_ty: GradientType,
        colors: AnimatedColorListV,
    },
    Group { shapes: Seq<ShapeLayerV> },
    Transform(TransformV),
    Repeater {
        copies: AnimatedV<i64>,
        offset: AnimatedV<i64>,
        composite: Composite,
        transform: RepeaterTransformV,
    },
    Trim {
        start: AnimatedV<i64>,
        end: AnimatedV<i64>,
        offset: AnimatedV<i64>,
        multiple_shape: TrimMultipleShape,
    },
    RoundedCorners { radius: AnimatedV<i64> },
    PuckerBloat { amount: AnimatedV<i64> },
    Twist { angle: AnimatedV<i64>, center: AnimatedV<Vector2D> },
    Merge { mode: MergeMode },
    OffsetPath { amount: AnimatedV<i64>, line_join: LineJoin, miter_limit: i64 },
    ZigZag { radius: AnimatedV<i64>, distance: AnimatedV<i64>, ridges: AnimatedV<i64> },
}

/// The mathematical shape of a `ShapeLayer`.
#[verifier::ext_equal]
pub struct ShapeLayerV {
    pub name: Option<Seq<char>>,
    pub hidden: bool,
    pub id: u32,
    pub shape: ShapeV,
}

pub open spec fn shape_layers_dv(s: Seq<ShapeLayer>) -> Seq<ShapeLayerV>
    decreases s,
{
    if s.len() == 0 {
        Seq::empty()
    } else {
        seq![s[0].deep_view()] + shape_layers_dv(s.drop_first())
    }
}

impl DeepView for ShapeLayer {
    type V = ShapeLayerV;

    open spec fn deep_view(&self) -> ShapeLayerV
        decreases self,
    {
        ShapeLayerV {
            name: self.name.deep_view(),
            hidden: self.hidden,
            id: self.id,
            shape: self.shape.deep_view(),
        }
    }
}

impl DeepView for Shape {
    type V = ShapeV;

    open spec fn deep_view(&self) -> ShapeV
        decreases self,
    {
        match self {
            Shape::Rectangle(r) => ShapeV::Rectangle(r.deep_view()),
            Shape::Ellipse(e) => ShapeV::Ellipse(e.deep_view()),
            Shape::PolyStar(p) => ShapeV::PolyStar(p.deep_view()),
            Shape::Path { d } => ShapeV::Path { d: d.deep_view() },
            Shape::Fill(f) => ShapeV::Fill(f.deep_view()),
            Shape::Stroke(s) => ShapeV::Stroke(s.deep_view()),
            Shape::GradientFill { opacity, fill_rule, start, end, gradient_ty, colors } => {
                ShapeV::GradientFill {
                    opacity: opacity.deep_view(),
                    fill_rule: *fill_rule,
                    start: start.deep_view(),
                    end: end.deep_view(),
                    gradient_ty: *gradient_ty,
                    colors: colors.deep_view(),
                }
            },
            Shape::GradientStroke {
                line_cap,
                line_join,
                miter_limit,
                opacity,
                width,
                dashes,
                start,
                end,
                gradient_ty,
                colors,
            } => {
                ShapeV::GradientStroke {
                    line_cap: *line_cap,
                    line_join: *line_join,
                    miter_limit: *miter_limit,
                    opacity: opacity.deep_view(),
                    width: width.deep_view(),
                    dashes: dashes.deep_view(),
                    start: start.deep_view(),
                    end: end.deep_view(),
                    gradient_ty: *gradient_ty,
                    colors: colors.deep_view(),
                }
            },
            Shape::Group { shapes } => ShapeV::Group { shapes: shape_layers_dv(shapes@) },
            Shape::Transform(t) => ShapeV::Transform(t.deep_view()),
            Shape::Repeater { copies, offset, composite, transform } => {
                ShapeV::Repeater {
                    copies: copies.deep_view(),
                    offset: offset.deep_view(),
                    composite: *composite,
                    transform: transform.deep_view(),
                }
            },
            Shape::Trim { start, end, offset, multiple_shape } => {
                ShapeV::Trim {
                    start: start.deep_view(),
                    end: end.deep_view(),
                    offset: offset.deep_view(),
                    multiple_shape: *multiple_shape,
                }
            },
            Shape::RoundedCorners { radius } => {
                ShapeV::RoundedCorners { radius: radius.deep_view() }
            },
            Shape::PuckerBloat { amount } => ShapeV::PuckerBloat { amount: amount.deep_view() },
            Shape::Twist { angle, center } => {
                ShapeV::Twist { angle: angle.deep_view(), center: center.deep_view() }
            },
            Shape::Merge { mode } => ShapeV::Merge { mode: *mode },
            Shape::OffsetPath { amount, line_join, miter_limit } => {
                ShapeV::OffsetPath {
                    amount: amount.deep_view(),
                    line_join: *line_join,
                    miter_limit: *miter_limit,
                }
            },
            Shape::ZigZag { radius, distance, ridges } => {
                ShapeV::ZigZag {
                    radius: radius.deep_view(),
                    distance: distance.deep_view(),
                    ridges: ridges.deep_view(),
                }
            },
        }
    }
}

pub broadcast proof fn lemma_shape_layers_dv(s: Seq<ShapeLayer>)
    ensures
        (#[trigger] shape_layers_dv(s)).len() == s.len(),
        forall|i: int| 0 <= i < s.len() ==> shape_layers_dv(s)[i] == s[i].deep_view(),
    decreases s,
{
    if s.len() == 0 {
        assert(shape_layers_dv(s) =~= Seq::empty());
    } else {
        lemma_shape_layers_dv(s.drop_first());
        reveal_with_fuel(shape_layers_dv, 2);
        assert(shape_layers_dv(s) == seq![s[0].deep_view()] + shape_layers_dv(s.drop_first()));
        assert forall|i: int| 0 <= i < s.len() implies shape_layers_dv(s)[i] == s[i].deep_view() by {
            let hd = seq![s[0].deep_view()];
            let tl = shape_layers_dv(s.drop_first());
            if i > 0 {
                assert((hd + tl)[i] == tl[i - 1]);
                assert(s.drop_first()[i - 1] == s[i]);
            } else {
                assert((hd + tl)[0] == hd[0]);
            }
        }
    }
}

/// The root group of a shape layer's content.
#[derive(Debug)]
pub struct ShapeGroup {
    pub shapes: Vec<ShapeLayer>,
}

/// The mathematical shape of a `ShapeGroup`.
#[verifier::ext_equal]
pub struct ShapeGroupV {
    pub shapes: Seq<ShapeLayerV>,
}

impl DeepView for ShapeGroup {
    type V = ShapeGroupV;

    open spec fn deep_view(&self) -> ShapeGroupV {
        ShapeGroupV { shapes: shape_layers_dv(self.shapes@) }
    }
}

/// A reference to a precomposition asset by identifier; never resolved by the
/// decoder.
#[derive(Debug)]
pub struct PreCompositionRef {
    pub ref_id: String,
    pub width: u32,
    pub height: u32,
    pub time_remapping: Option<Animated<i64>>,
}

/// The mathematical shape of a `PreCompositionRef`.
#[verifier::ext_equal]
pub struct PreCompositionRefV {
    pub ref_id: Seq<char>,
    pub width: u32,
    pub height: u32,
    pub time_remapping: Option<AnimatedV<i64>>,
}

impl DeepView for PreCompositionRef {
    type V = PreCompositionRefV;

    open spec fn deep_view(&self) -> PreCompositionRefV {
        PreCompositionRefV {
            ref_id: self.ref_id@,
            width: self.width,
            height: self.height,
            time_remapping: self.time_remapping.deep_view(),
        }
    }
}

/// A layer's content, inferred from which family-specific keys are present.
#[derive(Debug)]
pub enum LayerContent {
    Precomposition(PreCompositionRef),
    SolidColor { color: Rgba, height: i64, width: i64 },
    Image,
    Empty,
    Shape(ShapeGroup),
    Text,
    Audio,
}

/// The mathematical shape of a `LayerContent`.
#[verifier::ext_equal]
pub enum LayerContentV {
    Precomposition(PreCompositionRefV),
    SolidColor { color: Rgba, height: i64, width: i64 },
    Image,
    Empty,
    Shape(ShapeGroupV),
    Text,
    Audio,
}

impl DeepView for LayerContent {
    type V = LayerContentV;

    open spec fn deep_view(&self) -> LayerContentV {
        match self {
            LayerContent::Precomposition(p) => LayerContentV::Precomposition(p.deep_view()),
            LayerContent::SolidColor { color, height, width } => {
                LayerContentV::SolidColor { color: *color, height: *height, width: *width }
            },
            LayerContent::Image => LayerContentV::Image,
            LayerContent::Empty => LayerContentV::Empty,
            LayerContent::Shape(g) => LayerContentV::Shape(g.deep_view()),
            LayerContent::Text => LayerContentV::Text,
            LayerContent::Audio => LayerContentV::Audio,
        }
    }
}

/// One timeline entry.
#[derive(Debug)]
pub struct Layer {
    pub is_3d: bool,
    pub hidden: bool,
    pub index: Option<u32>,
    pub parent_index: Option<u32>,
    pub id: u32,
    pub auto_orient: bool,
    pub start_frame: i64,
    pub end_frame: i64,
    pub start_time: i64,
    pub name: Option<String>,
    pub transform: Option<Transform>,
    pub content: LayerContent,
}

/// The mathematical shape of a `Layer`.
#[verifier::ext_equal]
pub struct LayerV {
    pub is_3d: bool,
    pub hidden: bool,
    pub index: Option<u32>,
    pub parent_index: Option<u32>,
    pub id: u32,
    pub auto_orient: bool,
    pub start_frame: i64,
    pub end_frame: i64,
    pub start_time: i64,
    pub name: Option<Seq<char>>,
    pub transform: Option<TransformV>,
    pub content: LayerContentV,
}

impl DeepView for Layer {
    type V = LayerV;

    open spec fn deep_view(&self) -> LayerV {
        LayerV {
            is_3d: self.is_3d,
            hidden: self.hidden,
            index: self.index,
            parent_index: self.parent_index,
            id: self.id,
            auto_orient: self.auto_orient,
            start_frame: self.start_frame,
            end_frame: self.end_frame,
            start_time: self.start_time,
            name: self.name.deep_view(),
            transform: self.transform.deep_view(),
            content: self.content.deep_view(),
        }
    }
}

/// A reusable sub-timeline asset, referenced by identifier.
#[derive(Debug)]
pub struct Precomposition {
    pub id: String,
    pub layers: Vec<Layer>,
    pub name: Option<String>,
    pub frame_rate: Option<i64>,
}

/// The mathematical shape of a `Precomposition`.
#[verifier::ext_equal]
pub struct PrecompositionV {
    pub id: Seq<char>,
    pub layers: Seq<LayerV>,
    pub name: Option<Seq<char>>,
    pub frame_rate: Option<i64>,
}

impl DeepView for Precomposition {
    type V = PrecompositionV;

    open spec fn deep_view(&self) -> PrecompositionV {
        PrecompositionV {
            id: self.id@,
            layers: self.layers.deep_view(),
            name: self.name.deep_view(),
            frame_rate: self.frame_rate,
        }
    }
}

/// An asset-list entry.
#[derive(Debug)]
pub enum Assets {
    Image,
    Sound,
    Precomposition(Precomposition),
}

/// One typeface descriptor.
#[derive(Debug)]
pub struct Font {
    pub ascent: Option<i64>,
    pub family: String,
    pub name: String,
    pub style: String,
    pub path: Option<String>,
    pub weight: Option<String>,
    pub origin: FontPathOrigin,
    pub class: Option<String>,
}

/// The mathematical shape of a `Font`.
#[verifier::ext_equal]
pub struct FontV {
    pub ascent: Option<i64>,
    pub family: Seq<char>,
    pub name: Seq<char>,
    pub style: Seq<char>,
    pub path: Option<Seq<char>>,
    pub weight: Option<Seq<char>>,
    pub origin: FontPathOrigin,
    pub class: Option<Seq<char>>,
}

impl DeepView for Font {
    type V = FontV;

    open spec fn deep_view(&self) -> FontV {
        FontV {
            ascent: self.ascent,
            family: self.family@,
            name: self.name@,
            style: self.style@,
            path: self.path.deep_view(),
            weight: self.weight.deep_view(),
            origin: self.origin,
            class: self.class.deep_view(),
        }
    }
}

/// The font list of a document.
#[derive(Debug)]
pub struct FontList {
    pub list: Vec<Font>,
}

/// The mathematical shape of a `FontList`.
#[verifier::ext_equal]
pub struct FontListV {
    pub list: Seq<FontV>,
}

impl DeepView for FontList {
    type V = FontListV;

    open spec fn deep_view(&self) -> FontListV {
        FontListV { list: self.list.deep_view() }
    }
}

/// The root document: frame range, frame rate, dimensions, layers, assets and
/// fonts.
#[derive(Debug)]
pub struct Model {
    pub name: Option<String>,
    pub version: Option<String>,
    pub start_frame: i64,
    pub end_frame: i64,
    pub frame_rate: i64,
    pub width: u32,
    pub height: u32,
    pub layers: Vec<Layer>,
    pub assets: Vec<Precomposition>,
    pub fonts: FontList,
}

/// The mathematical shape of a `Model`.
#[verifier::ext_equal]
pub struct ModelV {
    pub name: Option<Seq<char>>,
    pub version: Option<Seq<char>>,
    pub start_frame: i64,
    pub end_frame: i64,
    pub frame_rate: i64,
    pub width: u32,
    pub height: u32,
    pub layers: Seq<LayerV>,
    pub assets: Seq<PrecompositionV>,
    pub fonts: FontListV,
}

impl DeepView for Model {
    type V = ModelV;

    open spec fn deep_view(&self) -> ModelV {
        ModelV {
            name: self.name.deep_view(),
            version: self.version.deep_view(),
            start_frame: self.start_frame,
            end_frame: self.end_frame,
            frame_rate: self.frame_rate,
            width: self.width,
            height: self.height,
            layers: self.layers.deep_view(),
            assets: self.assets.deep_view(),
            fonts: self.fonts.deep_view(),
        }
    }
}

} // verus!
