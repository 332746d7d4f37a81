//! The small enumerated option fields, decoded from the format's closed
//! integer codes.  An out-of-range code fails decode with the
//! unknown-discriminant error; where the format documents a default, the
//! default applies only when the field is entirely absent.

use vstd::prelude::*;

use crate::model::{
    Composite, DecodeError, FillRule, FontPathOrigin, GradientType, LineCap, LineJoin,
    MergeMode, PolyStarType, ShapeDirection, StrokeDashType, TrimMultipleShape,
};
use crate::value::{Value, ValueV};

verus! {

pub open spec fn sdec_fill_rule(v: ValueV) -> Result<FillRule, DecodeError> {
    match v {
        ValueV::Num(n) => if n == 1000 { Ok(FillRule::NonZero) } else if n == 2000 { Ok(FillRule::EvenOdd) } else { Err(DecodeError::UnknownDiscriminant) },
        _ => Err(DecodeError::Schema),
    }
}

pub fn decode_fill_rule(v: &Value) -> (r: Result<FillRule, DecodeError>)
    ensures
        r == sdec_fill_rule(v.deep_view()),
{
    match v {
        Value::Num(n) => {
            let n = *n;
            if n == 1000 { Ok(FillRule::NonZero) } else if n == 2000 { Ok(FillRule::EvenOdd) } else { Err(DecodeError::UnknownDiscriminant) }
        },
        _ => Err(DecodeError::Schema),
    }
}

pub open spec fn senc_fill_rule(x: FillRule) -> ValueV {
    ValueV::Num(match x {
        FillRule::NonZero => 1000,
        FillRule::EvenOdd => 2000,
    })
}

pub fn encode_fill_rule(x: FillRule) -> (r: Value)
    ensures
        r.deep_view() == senc_fill_rule(x),
{
    Value::Num(match x {
        FillRule::NonZero => 1000,
        FillRule::EvenOdd => 2000,
    })
}

/// The field form: absent means `FillRule::NonZero`; a present but invalid
/// code still fails.
pub open spec fn sdec_fill_rule_field(o: Option<ValueV>) -> Result<FillRule, DecodeError> {
    match o {
        None => Ok(FillRule::NonZero),
        Some(v) => sdec_fill_rule(v),
    }
}

pub fn decode_fill_rule_field(o: Option<&Value>) -> (r: Result<FillRule, DecodeError>)
    ensures
        r == sdec_fill_rule_field(o.deep_view()),
{
    match o {
        None => Ok(FillRule::NonZero),
        Some(v) => decode_fill_rule(v),
    }
}

pub open spec fn sdec_shape_direction(v: ValueV) -> Result<ShapeDirection, DecodeError> {
    match v {
        ValueV::Num(n) => if n == 1000 { Ok(ShapeDirection::Clockwise) } else if n == 2000 { Ok(ShapeDirection::CounterClockwise) } else { Err(DecodeError::UnknownDiscriminant) },
        _ => Err(DecodeError::Schema),
    }
}

pub fn decode_shape_direction(v: &Value) -> (r: Result<ShapeDirection, DecodeError>)
    ensures
        r == sdec_shape_direction(v.deep_view()),
{
    match v {
        Value::Num(n) => {
            let n = *n;
            if n == 1000 { Ok(ShapeDirection::Clockwise) } else if n == 2000 { Ok(ShapeDirection::CounterClockwise) } else { Err(DecodeError::UnknownDiscriminant) }
        },
        _ => Err(DecodeError::Schema),
    }
}

pub open spec fn senc_shape_direction(x: ShapeDirection) -> ValueV {
    ValueV::Num(match x {
        ShapeDirection::Clockwise => 1000,
        ShapeDirection::CounterClockwise => 2000,
    })
}

pub fn encode_shape_direction(x: ShapeDirection) -> (r: Value)
    ensures
        r.deep_view() == senc_shape_direction(x),
{
    Value::Num(match x {
        ShapeDirection::Clockwise => 1000,
        ShapeDirection::CounterClockwise => 2000,
    })
}

/// The field form: absent means `ShapeDirection::Clockwise`; a present but invalid
/// code still fails.
pub open spec fn sdec_shape_direction_field(o: Option<ValueV>) -> Result<ShapeDirection, DecodeError> {
    match o {
        None => Ok(ShapeDirection::Clockwise),
        Some(v) => sdec_shape_direction(v),
    }
}

pub fn decode_shape_direction_field(o: Option<&Value>) -> (r: Result<ShapeDirection, DecodeError>)
    ensures
        r == sdec_shape_direction_field(o.deep_view()),
{
    match o {
        None => Ok(ShapeDirection::Clockwise),
        Some(v) => decode_shape_direction(v),
    }
}

pub open spec fn sdec_poly_star_type(v: ValueV) -> Result<PolyStarType, DecodeError> {
    match v {
        ValueV::Num(n) => if n == 1000 { Ok(PolyStarType::Star) } else if n == 2000 { Ok(PolyStarType::Polygon) } else { Err(DecodeError::UnknownDiscriminant) },
        _ => Err(DecodeError::Schema),
    }
}

pub fn decode_poly_star_type(v: &Value) -> (r: Result<PolyStarType, DecodeError>)
    ensures
        r == sdec_poly_star_type(v.deep_view()),
{
    match v {
        Value::Num(n) => {
            let n = *n;
            if n == 1000 { Ok(PolyStarType::Star) } else if n == 2000 { Ok(PolyStarType::Polygon) } else { Err(DecodeError::UnknownDiscriminant) }
        },
        _ => Err(DecodeError::Schema),
    }
}

pub open spec fn senc_poly_star_type(x: PolyStarType) -> ValueV {
    ValueV::Num(match x {
        PolyStarType::Star => 1000,
        PolyStarType::Polygon => 2000,
    })
}

pub fn encode_poly_star_type(x: PolyStarType) -> (r: Value)
    ensures
        r.deep_view() == senc_poly_star_type(x),
{
    Value::Num(match x {
        PolyStarType::Star => 1000,
        PolyStarType::Polygon => 2000,
    })
}

pub open spec fn sdec_line_cap(v: ValueV) -> Result<LineCap, DecodeError> {
    match v {
        ValueV::Num(n) => if n == 1000 { Ok(LineCap::Butt) } else if n == 2000 { Ok(LineCap::Round) } else if n == 3000 { Ok(LineCap::Square) } else { Err(DecodeError::UnknownDiscriminant) },
        _ => Err(DecodeError::Schema),
    }
}

pub fn decode_line_cap(v: &Value) -> (r: Result<LineCap, DecodeError>)
    ensures
        r == sdec_line_cap(v.deep_view()),
{
    match v {
        Value::Num(n) => {
            let n = *n;
            if n == 1000 { Ok(LineCap::Butt) } else if n == 2000 { Ok(LineCap::Round) } else if n == 3000 { Ok(LineCap::Square) } else { Err(DecodeError::UnknownDiscriminant) }
        },
        _ => Err(DecodeError::Schema),
    }
}

pub open spec fn senc_line_cap(x: LineCap) -> ValueV {
    ValueV::Num(match x {
        LineCap::Butt => 1000,
        LineCap::Round => 2000,
        LineCap::Square => 3000,
    })
}

pub fn encode_line_cap(x: LineCap) -> (r: Value)
    ensures
        r.deep_view() == senc_line_cap(x),
{
    Value::Num(match x {
        LineCap::Butt => 1000,
        LineCap::Round => 2000,
        LineCap::Square => 3000,
    })
}

pub open spec fn sdec_line_join(v: ValueV) -> Result<LineJoin, DecodeError> {
    match v {
        ValueV::Num(n) => if n == 1000 { Ok(LineJoin::Miter) } else if n == 2000 { Ok(LineJoin::Round) } else if n == 3000 { Ok(LineJoin::Bevel) } else { Err(DecodeError::UnknownDiscriminant) },
        _ => Err(DecodeError::Schema),
    }
}

pub fn decode_line_join(v: &Value) -> (r: Result<LineJoin, DecodeError>)
    ensures
        r == sdec_line_join(v.deep_view()),
{
    match v {
        Value::Num(n) => {
            let n = *n;
            if n == 1000 { Ok(LineJoin::Miter) } else if n == 2000 { Ok(LineJoin::Round) } else if n == 3000 { Ok(LineJoin::Bevel) } else { Err(DecodeError::UnknownDiscriminant) }
        },
        _ => Err(DecodeError::Schema),
    }
}

pub open spec fn senc_line_join(x: LineJoin) -> ValueV {
    ValueV::Num(match x {
        LineJoin::Miter => 1000,
        LineJoin::Round => 2000,
        LineJoin::Bevel => 3000,
    })
}

pub fn encode_line_join(x: LineJoin) -> (r: Value)
    ensures
        r.deep_view() == senc_line_join(x),
{
    Value::Num(match x {
        LineJoin::Miter => 1000,
        LineJoin::Round => 2000,
        LineJoin::Bevel => 3000,
    })
}

pub open spec fn sdec_gradient_type(v: ValueV) -> Result<GradientType, DecodeError> {
    match v {
        ValueV::Num(n) => if n == 1000 { Ok(GradientType::Linear) } else if n == 2000 { Ok(GradientType::Radial) } else { Err(DecodeError::UnknownDiscriminant) },
        _ => Err(DecodeError::Schema),
    }
}

pub fn decode_gradient_type(v: &Value) -> (r: Result<GradientType, DecodeError>)
    ensures
        r == sdec_gradient_type(v.deep_view()),
{
    match v {
        Value::Num(n) => {
            let n = *n;
            if n == 1000 { Ok(GradientType::Linear) } else if n == 2000 { Ok(GradientType::Radial) } else { Err(DecodeError::UnknownDiscriminant) }
        },
        _ => Err(DecodeError::Schema),
    }
}

pub open spec fn senc_gradient_type(x: GradientType) -> ValueV {
    ValueV::Num(match x {
        GradientType::Linear => 1000,
        GradientType::Radial => 2000,
    })
}

pub fn encode_gradient_type(x: GradientType) -> (r: Value)
    ensures
        r.deep_view() == senc_gradient_type(x),
{
    Value::Num(match x {
        GradientType::Linear => 1000,
        GradientType::Radial => 2000,
    })
}

pub open spec fn sdec_composite(v: ValueV) -> Result<Composite, DecodeError> {
    match v {
        ValueV::Num(n) => if n == 1000 { Ok(Composite::Above) } else if n == 2000 { Ok(Composite::Below) } else { Err(DecodeError::UnknownDiscriminant) },
        _ => Err(DecodeError::Schema),
    }
}

pub fn decode_composite(v: &Value) -> (r: Result<Composite, DecodeError>)
    ensures
        r == sdec_composite(v.deep_view()),
{
    match v {
        Value::Num(n) => {
            let n = *n;
            if n == 1000 { Ok(Composite::Above) } else if n == 2000 { Ok(Composite::Below) } else { Err(DecodeError::UnknownDiscriminant) }
        },
        _ => Err(DecodeError::Schema),
    }
}

pub open spec fn senc_composite(x: Composite) -> ValueV {
    ValueV::Num(match x {
        Composite::Above => 1000,
        Composite::Below => 2000,
    })
}

pub fn encode_composite(x: Composite) -> (r: Value)
    ensures
        r.deep_view() == senc_composite(x),
{
    Value::Num(match x {
        Composite::Above => 1000,
        Composite::Below => 2000,
    })
}

pub open spec fn sdec_trim_multiple_shape(v: ValueV) -> Result<TrimMultipleShape, DecodeError> {
    match v {
        ValueV::Num(n) => if n == 1000 { Ok(TrimMultipleShape::Individually) } else if n == 2000 { Ok(TrimMultipleShape::Simultaneously) } else { Err(DecodeError::UnknownDiscriminant) },
        _ => Err(DecodeError::Schema),
    }
}

pub fn decode_trim_multiple_shape(v: &Value) -> (r: Result<TrimMultipleShape, DecodeError>)
    ensures
        r == sdec_trim_multiple_shape(v.deep_view()),
{
    match v {
        Value::Num(n) => {
            let n = *n;
            if n == 1000 { Ok(TrimMultipleShape::Individually) } else if n == 2000 { Ok(TrimMultipleShape::Simultaneously) } else { Err(DecodeError::UnknownDiscriminant) }
        },
        _ => Err(DecodeError::Schema),
    }
}

pub open spec fn senc_trim_multiple_shape(x: TrimMultipleShape) -> ValueV {
    ValueV::Num(match x {
        TrimMultipleShape::Individually => 1000,
        TrimMultipleShape::Simultaneously => 2000,
    })
}

pub fn encode_trim_multiple_shape(x: TrimMultipleShape) -> (r: Value)
    ensures
        r.deep_view() == senc_trim_multiple_shape(x),
{
    Value::Num(match x {
        TrimMultipleShape::Individually => 1000,
        TrimMultipleShape::Simultaneously => 2000,
    })
}

pub open spec fn sdec_font_path_origin(v: ValueV) -> Result<FontPathOrigin, DecodeError> {
    match v {
        ValueV::Num(n) => if n == 0 { Ok(FontPathOrigin::Local) } else if n == 1000 { Ok(FontPathOrigin::CssUrl) } else if n == 2000 { Ok(FontPathOrigin::ScriptUrl) } else if n == 3000 { Ok(FontPathOrigin::FontUrl) } else { Err(DecodeError::UnknownDiscriminant) },
        _ => Err(DecodeError::Schema),
    }
}

pub fn decode_font_path_origin(v: &Value) -> (r: Result<FontPathOrigin, DecodeError>)
    ensures
        r == sdec_font_path_origin(v.deep_view()),
{
    match v {
        Value::Num(n) => {
            let n = *n;
            if n == 0 { Ok(FontPathOrigin::Local) } else if n == 1000 { Ok(FontPathOrigin::CssUrl) } else if n == 2000 { Ok(FontPathOrigin::ScriptUrl) } else if n == 3000 { Ok(FontPathOrigin::FontUrl) } else { Err(DecodeError::UnknownDiscriminant) }
        },
        _ => Err(DecodeError::Schema),
    }
}

pub open spec fn senc_font_path_origin(x: FontPathOrigin) -> ValueV {
    ValueV::Num(match x {
        FontPathOrigin::Local => 0,
        FontPathOrigin::CssUrl => 1000,
        FontPathOrigin::ScriptUrl => 2000,
        FontPathOrigin::FontUrl => 3000,
    })
}

pub fn encode_font_path_origin(x: FontPathOrigin) -> (r: Value)
    ensures
        r.deep_view() == senc_font_path_origin(x),
{
    Value::Num(match x {
        FontPathOrigin::Local => 0,
        FontPathOrigin::CssUrl => 1000,
        FontPathOrigin::ScriptUrl => 2000,
        FontPathOrigin::FontUrl => 3000,
    })
}

/// The field form: absent means `FontPathOrigin::Local`; a present but invalid
/// code still fails.
pub open spec fn sdec_font_path_origin_field(o: Option<ValueV>) -> Result<FontPathOrigin, DecodeError> {
    match o {
        None => Ok(FontPathOrigin::Local),
        Some(v) => sdec_font_path_origin(v),
    }
}

pub fn decode_font_path_origin_field(o: Option<&Value>) -> (r: Result<FontPathOrigin, DecodeError>)
    ensures
        r == sdec_font_path_origin_field(o.deep_view()),
{
    match o {
        None => Ok(FontPathOrigin::Local),
        Some(v) => decode_font_path_origin(v),
    }
}

/// Merge-mode codes are not interpreted: any numeric code collapses to the
/// forward-compatible sentinel; a non-numeric value is a schema violation.
pub open spec fn sdec_merge_mode(v: ValueV) -> Result<MergeMode, DecodeError> {
    match v {
        ValueV::Num(n) => Ok(MergeMode::Unsupported),
        _ => Err(DecodeError::Schema),
    }
}

pub fn decode_merge_mode(v: &Value) -> (r: Result<MergeMode, DecodeError>)
    ensures
        r == sdec_merge_mode(v.deep_view()),
{
    match v {
        Value::Num(_) => Ok(MergeMode::Unsupported),
        _ => Err(DecodeError::Schema),
    }
}

pub open spec fn senc_merge_mode(x: MergeMode) -> ValueV {
    ValueV::Num(1000)
}

pub fn encode_merge_mode(x: MergeMode) -> (r: Value)
    ensures
        r.deep_view() == senc_merge_mode(x),
{
    Value::Num(1000)
}

} // verus!
