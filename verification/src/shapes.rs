//! The shape layer: animated-field helpers, stroke dashes, gradient color
//! lists, transforms, and the tag-discriminated shape union itself.

use vstd::prelude::*;

use crate::anim::{
    decode_animated_beziers, decode_animated_num, decode_animated_rgb, decode_animated_vec2,
    dec_beziers_f, dec_num_f, dec_rgb_f, dec_vec2_f, enc_beziers_f, enc_num_f, enc_rgb_f,
    enc_vec2_f, encode_animated_beziers, encode_animated_num, encode_animated_rgb,
    encode_animated_vec2, sdec_animated_v, senc_animated_v,
};
use crate::color::{rgba_from_hex, rgba_hex};
use crate::enums::{
    decode_composite, decode_fill_rule, decode_fill_rule_field, decode_gradient_type,
    decode_line_cap, decode_line_join, decode_merge_mode, decode_poly_star_type,
    decode_shape_direction_field, decode_trim_multiple_shape, encode_composite,
    encode_fill_rule, encode_gradient_type, encode_line_cap, encode_line_join,
    encode_merge_mode, encode_poly_star_type, encode_shape_direction,
    encode_trim_multiple_shape, sdec_composite, sdec_fill_rule, sdec_fill_rule_field,
    sdec_gradient_type, sdec_line_cap, sdec_line_join, sdec_merge_mode, sdec_poly_star_type,
    sdec_shape_direction_field, sdec_trim_multiple_shape, senc_composite, senc_fill_rule,
    senc_gradient_type, senc_line_cap, senc_line_join, senc_merge_mode, senc_poly_star_type,
    senc_shape_direction, senc_trim_multiple_shape,
};
use crate::methods::animated_const_v;
use crate::model::{
    Composite, Ellipse, EllipseV, Fill, FillRule, FillV, GradientType, LineCap, LineJoin,
    MergeMode, PolyStar, PolyStarType, PolyStarV, Rectangle, RectangleV, Shape, ShapeLayer,
    ShapeLayerV, ShapeV, Stroke, StrokeV, TrimMultipleShape,
    Animated, AnimatedColorList, AnimatedColorListV, AnimatedV, Bezier, BezierV, DecodeError,
    Rgb, Rgba, RepeaterTransform, RepeaterTransformV, StrokeDash, StrokeDashType, StrokeDashV,
    Transform, TransformV, Vector2D,
};
use crate::prim::{
    decode_bool_flag, decode_req_num, field, get_field, res_v, sdec_bool_flag, sdec_req_num,
    sdec_str, senc_bool_int, encode_bool_int, sdec_opt_str, sdec_opt_bool,
};
use crate::model::shape_layers_dv;
use crate::value::{
    Entry, EntryV, Key, Value, ValueV, entries_dv, lemma_entries_dv, lemma_vals_dv, lookup,
    lookup_idx, vals_dv,
};
use vstd::string::StringExecFns;

verus! {

/// Compares a string value with an expected spelling.
pub fn str_eq_lit(s: &String, lit: &str) -> (r: bool)
    ensures
        r == (s@ == lit@),
{
    let owned: String = lit.to_owned();
    *s == owned
}

// ------------------------------------------------------------------
// Animated property fields
// ------------------------------------------------------------------
/// A required animated scalar field.
pub open spec fn sdec_anim_num_req(o: Option<ValueV>) -> Result<AnimatedV<i64>, DecodeError> {
    match o {
        None => Err(DecodeError::Schema),
        Some(v) => sdec_animated_v(v, dec_num_f()),
    }
}

pub fn decode_anim_num_req(o: Option<&Value>) -> (r: Result<Animated<i64>, DecodeError>)
    ensures
        res_v(r) == sdec_anim_num_req(o.deep_view()),
{
    match o {
        None => Err(DecodeError::Schema),
        Some(v) => decode_animated_num(v),
    }
}

/// An animated scalar field with a constant default when absent.
pub open spec fn sdec_anim_num_or(o: Option<ValueV>, d: i64) -> Result<
    AnimatedV<i64>,
    DecodeError,
> {
    match o {
        None => Ok(animated_const_v(d)),
        Some(v) => sdec_animated_v(v, dec_num_f()),
    }
}

pub fn decode_anim_num_or(o: Option<&Value>, d: i64) -> (r: Result<Animated<i64>, DecodeError>)
    ensures
        res_v(r) == sdec_anim_num_or(o.deep_view(), d),
{
    match o {
        None => Ok(crate::methods::animated_const_num(d)),
        Some(v) => decode_animated_num(v),
    }
}

/// An optional animated scalar field.
pub open spec fn sdec_opt_anim_num(o: Option<ValueV>) -> Result<
    Option<AnimatedV<i64>>,
    DecodeError,
> {
    match o {
        None => Ok(None),
        Some(v) => match sdec_animated_v(v, dec_num_f()) {
            Err(e) => Err(e),
            Ok(a) => Ok(Some(a)),
        },
    }
}

pub fn decode_opt_anim_num(o: Option<&Value>) -> (r: Result<Option<Animated<i64>>, DecodeError>)
    ensures
        res_v(r) == sdec_opt_anim_num(o.deep_view()),
{
    match o {
        None => Ok(None),
        Some(v) => match decode_animated_num(v) {
            Err(e) => Err(e),
            Ok(a) => Ok(Some(a)),
        },
    }
}

/// A required animated 2D vector field.
pub open spec fn sdec_anim_vec2_req(o: Option<ValueV>) -> Result<
    AnimatedV<Vector2D>,
    DecodeError,
> {
    match o {
        None => Err(DecodeError::Schema),
        Some(v) => sdec_animated_v(v, dec_vec2_f()),
    }
}

pub fn decode_anim_vec2_req(o: Option<&Value>) -> (r: Result<Animated<Vector2D>, DecodeError>)
    ensures
        res_v(r) == sdec_anim_vec2_req(o.deep_view()),
{
    match o {
        None => Err(DecodeError::Schema),
        Some(v) => decode_animated_vec2(v),
    }
}

/// An animated 2D vector field with a constant default when absent.
pub open spec fn sdec_anim_vec2_or(o: Option<ValueV>, x: i64, y: i64) -> Result<
    AnimatedV<Vector2D>,
    DecodeError,
> {
    match o {
        None => Ok(animated_const_v(Vector2D { x, y })),
        Some(v) => sdec_animated_v(v, dec_vec2_f()),
    }
}

pub fn decode_anim_vec2_or(o: Option<&Value>, x: i64, y: i64) -> (r: Result<
    Animated<Vector2D>,
    DecodeError,
>)
    ensures
        res_v(r) == sdec_anim_vec2_or(o.deep_view(), x, y),
{
    match o {
        None => Ok(crate::methods::animated_const_vec2(x, y)),
        Some(v) => decode_animated_vec2(v),
    }
}

/// An optional animated 2D vector field.
pub open spec fn sdec_opt_anim_vec2(o: Option<ValueV>) -> Result<
    Option<AnimatedV<Vector2D>>,
    DecodeError,
> {
    match o {
        None => Ok(None),
        Some(v) => match sdec_animated_v(v, dec_vec2_f()) {
            Err(e) => Err(e),
            Ok(a) => Ok(Some(a)),
        },
    }
}

pub fn decode_opt_anim_vec2(o: Option<&Value>) -> (r: Result<
    Option<Animated<Vector2D>>,
    DecodeError,
>)
    ensures
        res_v(r) == sdec_opt_anim_vec2(o.deep_view()),
{
    match o {
        None => Ok(None),
        Some(v) => match decode_animated_vec2(v) {
            Err(e) => Err(e),
            Ok(a) => Ok(Some(a)),
        },
    }
}

/// A required animated color field.
pub open spec fn sdec_anim_rgb_req(o: Option<ValueV>) -> Result<AnimatedV<Rgb>, DecodeError> {
    match o {
        None => Err(DecodeError::Schema),
        Some(v) => sdec_animated_v(v, dec_rgb_f()),
    }
}

pub fn decode_anim_rgb_req(o: Option<&Value>) -> (r: Result<Animated<Rgb>, DecodeError>)
    ensures
        res_v(r) == sdec_anim_rgb_req(o.deep_view()),
{
    match o {
        None => Err(DecodeError::Schema),
        Some(v) => decode_animated_rgb(v),
    }
}

// ------------------------------------------------------------------
// Stroke dashes
// ------------------------------------------------------------------
/// A dash entry's role, coded as a short string.
pub open spec fn sdec_stroke_dash_type(v: ValueV) -> Result<StrokeDashType, DecodeError> {
    match v {
        ValueV::Str(s) => if s == "d"@ {
            Ok(StrokeDashType::Dash)
        } else if s == "g"@ {
            Ok(StrokeDashType::Gap)
        } else if s == "o"@ {
            Ok(StrokeDashType::Offset)
        } else {
            Err(DecodeError::UnknownDiscriminant)
        },
        _ => Err(DecodeError::Schema),
    }
}

pub fn decode_stroke_dash_type(v: &Value) -> (r: Result<StrokeDashType, DecodeError>)
    ensures
        r == sdec_stroke_dash_type(v.deep_view()),
{
    match v {
        Value::Str(s) => {
            if str_eq_lit(s, "d") {
                Ok(StrokeDashType::Dash)
            } else if str_eq_lit(s, "g") {
                Ok(StrokeDashType::Gap)
            } else if str_eq_lit(s, "o") {
                Ok(StrokeDashType::Offset)
            } else {
                Err(DecodeError::UnknownDiscriminant)
            }
        },
        _ => Err(DecodeError::Schema),
    }
}

pub open spec fn senc_stroke_dash_type(t: StrokeDashType) -> ValueV {
    ValueV::Str(
        match t {
            StrokeDashType::Dash => "d"@,
            StrokeDashType::Gap => "g"@,
            StrokeDashType::Offset => "o"@,
        },
    )
}

pub fn encode_stroke_dash_type(t: StrokeDashType) -> (r: Value)
    ensures
        r.deep_view() == senc_stroke_dash_type(t),
{
    match t {
        StrokeDashType::Dash => Value::Str(String::from_str("d")),
        StrokeDashType::Gap => Value::Str(String::from_str("g")),
        StrokeDashType::Offset => Value::Str(String::from_str("o")),
    }
}

/// One dash entry: an animated length and a role.
pub open spec fn sdec_stroke_dash(v: ValueV) -> Result<StrokeDashV, DecodeError> {
    match v {
        ValueV::Obj(fs) => match sdec_anim_num_req(field(fs, Key::V)) {
            Err(e) => Err(e),
            Ok(length) => match field(fs, Key::N) {
                None => Err(DecodeError::Schema),
                Some(nv) => match sdec_stroke_dash_type(nv) {
                    Err(e) => Err(e),
                    Ok(ty) => Ok(StrokeDashV { length, ty }),
                },
            },
        },
        _ => Err(DecodeError::Schema),
    }
}

pub fn decode_stroke_dash(v: &Value) -> (r: Result<StrokeDash, DecodeError>)
    ensures
        res_v(r) == sdec_stroke_dash(v.deep_view()),
{
    match v {
        Value::Obj(fields) => {
            let length = match decode_anim_num_req(get_field(fields, Key::V)) {
                Ok(x) => x,
                Err(e) => {
                    return Err(e);
                },
            };
            let ty = match get_field(fields, Key::N) {
                None => {
                    return Err(DecodeError::Schema);
                },
                Some(nv) => match decode_stroke_dash_type(nv) {
                    Ok(x) => x,
                    Err(e) => {
                        return Err(e);
                    },
                },
            };
            let d = StrokeDash { length, ty };
            proof {
                assert(d.deep_view() =~= sdec_stroke_dash(v.deep_view())->Ok_0);
            }
            Ok(d)
        },
        _ => Err(DecodeError::Schema),
    }
}

pub open spec fn senc_stroke_dash(d: StrokeDashV) -> ValueV {
    ValueV::Obj(
        seq![
            EntryV { key: Key::V, val: senc_animated_v(d.length, enc_num_f()) },
            EntryV { key: Key::N, val: senc_stroke_dash_type(d.ty) },
        ],
    )
}

pub fn encode_stroke_dash(d: &StrokeDash) -> (r: Value)
    ensures
        r.deep_view() == senc_stroke_dash(d.deep_view()),
{
    let mut fields: Vec<Entry> = Vec::new();
    fields.push(Entry { key: Key::V, val: encode_animated_num(&d.length) });
    fields.push(Entry { key: Key::N, val: encode_stroke_dash_type(d.ty) });
    let ghost gfields = fields@;
    let r = Value::Obj(fields);
    proof {
        lemma_entries_dv(gfields);
        assert(r.deep_view() matches ValueV::Obj(s) && s =~= senc_stroke_dash(
            d.deep_view(),
        )->Obj_0);
    }
    r
}

/// A dash list, element by element; the first failure wins.
pub open spec fn sdec_dash_seq(items: Seq<ValueV>) -> Result<Seq<StrokeDashV>, DecodeError>
    decreases items.len(),
{
    if items.len() == 0 {
        Ok(Seq::empty())
    } else {
        match sdec_stroke_dash(items[0]) {
            Err(e) => Err(e),
            Ok(d) => match sdec_dash_seq(items.drop_first()) {
                Err(e) => Err(e),
                Ok(rest) => Ok(seq![d] + rest),
            },
        }
    }
}

#[verifier::rlimit(60)]
proof fn lemma_sdec_dash_seq_ok(items: Seq<ValueV>, pre: Seq<StrokeDashV>, i: int)
    requires
        0 <= i <= items.len(),
        pre.len() == i,
        forall|j: int| 0 <= j < i ==> sdec_stroke_dash(items[j]) == Ok::<
            StrokeDashV,
            DecodeError,
        >(pre[j]),
    ensures
        sdec_dash_seq(items) == match sdec_dash_seq(items.skip(i)) {
            Err(e) => Err::<Seq<StrokeDashV>, DecodeError>(e),
            Ok(rest) => Ok(pre + rest),
        },
    decreases i,
{
    if i == 0 {
        assert(items.skip(0) =~= items);
        match sdec_dash_seq(items) {
            Err(e) => {},
            Ok(rest) => {
                assert(pre + rest =~= rest);
            },
        }
    } else {
        lemma_sdec_dash_seq_ok(items, pre.take(i - 1), i - 1);
        assert(items.skip(i - 1).len() > 0);
        assert(items.skip(i - 1)[0] == items[i - 1]);
        assert(items.skip(i - 1).drop_first() =~= items.skip(i));
        assert(sdec_stroke_dash(items[i - 1]) == Ok::<StrokeDashV, DecodeError>(pre[i - 1]));
        match sdec_dash_seq(items.skip(i)) {
            Err(e) => {},
            Ok(rest) => {
                assert(pre.take(i - 1) + (seq![pre[i - 1]] + rest) =~= pre + rest);
            },
        }
    }
}

/// A dash-list field: absent means empty; present, it must be an array of
/// dash entries.
pub open spec fn sdec_dash_field(o: Option<ValueV>) -> Result<Seq<StrokeDashV>, DecodeError> {
    match o {
        None => Ok(Seq::empty()),
        Some(v) => match v {
            ValueV::Arr(items) => sdec_dash_seq(items),
            _ => Err(DecodeError::Schema),
        },
    }
}

fn decode_dash_items(items: &Vec<Value>) -> (r: Result<Vec<StrokeDash>, DecodeError>)
    ensures
        res_v(r) == sdec_dash_seq(vals_dv(items@)),
{
    proof {
        lemma_vals_dv(items@);
    }
    let ghost gitems = vals_dv(items@);
    let mut out: Vec<StrokeDash> = Vec::new();
    let n = items.len();
    for i in 0..n
        invariant
            n == items.len(),
            gitems == vals_dv(items@),
            gitems.len() == n,
            forall|j: int| 0 <= j < n ==> gitems[j] == items@[j].deep_view(),
            out@.len() == i,
            forall|j: int| 0 <= j < i ==> sdec_stroke_dash(gitems[j]) == Ok::<
                StrokeDashV,
                DecodeError,
            >(#[trigger] out@[j].deep_view()),
    {
        match decode_stroke_dash(&items[i]) {
            Ok(d) => {
                out.push(d);
            },
            Err(e) => {
                proof {
                    lemma_sdec_dash_seq_ok(gitems, out.deep_view(), i as int);
                    assert(gitems.skip(i as int).len() > 0);
                    assert(gitems.skip(i as int)[0] == gitems[i as int]);
                    assert(sdec_dash_seq(gitems.skip(i as int)) == Err::<
                        Seq<StrokeDashV>,
                        DecodeError,
                    >(e));
                }
                return Err(e);
            },
        }
    }
    proof {
        lemma_sdec_dash_seq_ok(gitems, out.deep_view(), n as int);
        assert(gitems.skip(n as int) =~= Seq::empty());
        assert(out.deep_view() + Seq::<StrokeDashV>::empty() =~= out.deep_view());
    }
    Ok(out)
}

pub fn decode_dash_field(o: Option<&Value>) -> (r: Result<Vec<StrokeDash>, DecodeError>)
    ensures
        res_v(r) == sdec_dash_field(o.deep_view()),
{
    match o {
        None => {
            let out: Vec<StrokeDash> = Vec::new();
            proof {
                assert(out.deep_view() =~= Seq::<StrokeDashV>::empty());
            }
            Ok(out)
        },
        Some(v) => match v {
            Value::Arr(items) => decode_dash_items(items),
            _ => Err(DecodeError::Schema),
        },
    }
}

/// The encoding of a dash list: always an array.
pub open spec fn senc_dash_list(ds: Seq<StrokeDashV>) -> ValueV {
    ValueV::Arr(Seq::new(ds.len(), |i: int| senc_stroke_dash(ds[i])))
}

pub fn encode_dash_list(ds: &Vec<StrokeDash>) -> (r: Value)
    ensures
        r.deep_view() == senc_dash_list(ds.deep_view()),
{
    let mut items: Vec<Value> = Vec::new();
    let n = ds.len();
    for i in 0..n
        invariant
            n == ds.len(),
            items@.len() == i,
            forall|j: int| 0 <= j < i ==> items@[j].deep_view() == senc_stroke_dash(
                #[trigger] ds@[j].deep_view(),
            ),
    {
        items.push(encode_stroke_dash(&ds[i]));
    }
    let ghost gitems = items@;
    let r = Value::Arr(items);
    proof {
        lemma_vals_dv(gitems);
        assert(r.deep_view() matches ValueV::Arr(s) && s =~= senc_dash_list(
            ds.deep_view(),
        )->Arr_0);
    }
    r
}

// ------------------------------------------------------------------
// Gradient color lists
// ------------------------------------------------------------------
/// A color-stop sequence: each element a textual color.
pub open spec fn sdec_rgba_seq(items: Seq<ValueV>) -> Result<Seq<Rgba>, DecodeError>
    decreases items.len(),
{
    if items.len() == 0 {
        Ok(Seq::empty())
    } else {
        match items[0] {
            ValueV::Str(s) => match rgba_from_hex(s) {
                None => Err(DecodeError::Schema),
                Some(c) => match sdec_rgba_seq(items.drop_first()) {
                    Err(e) => Err(e),
                    Ok(rest) => Ok(seq![c] + rest),
                },
            },
            _ => Err(DecodeError::Schema),
        }
    }
}

/// One color-stop element.
pub open spec fn sdec_rgba_item(v: ValueV) -> Result<Rgba, DecodeError> {
    match v {
        ValueV::Str(s) => match rgba_from_hex(s) {
            None => Err(DecodeError::Schema),
            Some(c) => Ok(c),
        },
        _ => Err(DecodeError::Schema),
    }
}

fn decode_rgba_item(v: &Value) -> (r: Result<Rgba, DecodeError>)
    ensures
        r == sdec_rgba_item(v.deep_view()),
{
    match v {
        Value::Str(s) => Rgba::from_str(s.as_str()),
        _ => Err(DecodeError::Schema),
    }
}

#[verifier::rlimit(60)]
proof fn lemma_sdec_rgba_seq_ok(items: Seq<ValueV>, pre: Seq<Rgba>, i: int)
    requires
        0 <= i <= items.len(),
        pre.len() == i,
        forall|j: int| 0 <= j < i ==> sdec_rgba_item(items[j]) == Ok::<Rgba, DecodeError>(pre[j]),
    ensures
        sdec_rgba_seq(items) == match sdec_rgba_seq(items.skip(i)) {
            Err(e) => Err::<Seq<Rgba>, DecodeError>(e),
            Ok(rest) => Ok(pre + rest),
        },
    decreases i,
{
    if i == 0 {
        assert(items.skip(0) =~= items);
        match sdec_rgba_seq(items) {
            Err(e) => {},
            Ok(rest) => {
                assert(pre + rest =~= rest);
            },
        }
    } else {
        lemma_sdec_rgba_seq_ok(items, pre.take(i - 1), i - 1);
        assert(items.skip(i - 1).len() > 0);
        assert(items.skip(i - 1)[0] == items[i - 1]);
        assert(items.skip(i - 1).drop_first() =~= items.skip(i));
        assert(sdec_rgba_item(items[i - 1]) == Ok::<Rgba, DecodeError>(pre[i - 1]));
        match sdec_rgba_seq(items.skip(i)) {
            Err(e) => {},
            Ok(rest) => {
                assert(pre.take(i - 1) + (seq![pre[i - 1]] + rest) =~= pre + rest);
            },
        }
    }
}

/// A gradient's color list: the animated flag and a list of textual colors.
pub open spec fn sdec_color_list(v: ValueV) -> Result<AnimatedColorListV, DecodeError> {
    match v {
        ValueV::Obj(fs) => match sdec_bool_flag(field(fs, Key::A)) {
            Err(e) => Err(e),
            Ok(animated) => match field(fs, Key::K) {
                None => Err(DecodeError::Schema),
                Some(kv) => match kv {
                    ValueV::Arr(items) => match sdec_rgba_seq(items) {
                        Err(e) => Err(e),
                        Ok(colors) => Ok(AnimatedColorListV { animated, colors }),
                    },
                    _ => Err(DecodeError::Schema),
                },
            },
        },
        _ => Err(DecodeError::Schema),
    }
}

fn decode_rgba_items(items: &Vec<Value>) -> (r: Result<Vec<Rgba>, DecodeError>)
    ensures
        res_v(r) == sdec_rgba_seq(vals_dv(items@)),
{
    proof {
        lemma_vals_dv(items@);
    }
    let ghost gitems = vals_dv(items@);
    let mut out: Vec<Rgba> = Vec::new();
    let n = items.len();
    for i in 0..n
        invariant
            n == items.len(),
            gitems == vals_dv(items@),
            gitems.len() == n,
            forall|j: int| 0 <= j < n ==> gitems[j] == items@[j].deep_view(),
            out@.len() == i,
            forall|j: int| 0 <= j < i ==> sdec_rgba_item(gitems[j]) == Ok::<Rgba, DecodeError>(
                out@[j],
            ),
    {
        match decode_rgba_item(&items[i]) {
            Ok(c) => {
                out.push(c);
            },
            Err(e) => {
                proof {
                    lemma_sdec_rgba_seq_ok(gitems, out@, i as int);
                    assert(gitems.skip(i as int).len() > 0);
                    assert(gitems.skip(i as int)[0] == gitems[i as int]);
                    assert(sdec_rgba_seq(gitems.skip(i as int)) == Err::<Seq<Rgba>, DecodeError>(
                        e,
                    ));
                }
                return Err(e);
            },
        }
    }
    proof {
        lemma_sdec_rgba_seq_ok(gitems, out@, n as int);
        assert(gitems.skip(n as int) =~= Seq::empty());
        assert(out@ + Seq::<Rgba>::empty() =~= out@);
        assert(out.deep_view() =~= out@);
    }
    Ok(out)
}

pub fn decode_color_list(v: &Value) -> (r: Result<AnimatedColorList, DecodeError>)
    ensures
        res_v(r) == sdec_color_list(v.deep_view()),
{
    match v {
        Value::Obj(fields) => {
            let animated = match decode_bool_flag(get_field(fields, Key::A)) {
                Ok(b) => b,
                Err(e) => {
                    return Err(e);
                },
            };
            let kv = match get_field(fields, Key::K) {
                None => {
                    return Err(DecodeError::Schema);
                },
                Some(x) => x,
            };
            match kv {
                Value::Arr(items) => match decode_rgba_items(items) {
                    Err(e) => Err(e),
                    Ok(colors) => {
                        let acl = AnimatedColorList { animated, colors };
                        proof {
                            assert(acl.deep_view() =~= sdec_color_list(v.deep_view())->Ok_0);
                        }
                        Ok(acl)
                    },
                },
                _ => Err(DecodeError::Schema),
            }
        },
        _ => Err(DecodeError::Schema),
    }
}

/// The encoding of a color list.
pub open spec fn senc_color_list(l: AnimatedColorListV) -> ValueV {
    ValueV::Obj(
        seq![
            EntryV { key: Key::A, val: senc_bool_int(l.animated) },
            EntryV {
                key: Key::K,
                val: ValueV::Arr(Seq::new(l.colors.len(), |i: int| ValueV::Str(rgba_hex(l.colors[i])))),
            },
        ],
    )
}

pub fn encode_color_list(l: &AnimatedColorList) -> (r: Value)
    ensures
        r.deep_view() == senc_color_list(l.deep_view()),
{
    let mut items: Vec<Value> = Vec::new();
    let n = l.colors.len();
    for i in 0..n
        invariant
            n == l.colors.len(),
            items@.len() == i,
            forall|j: int| 0 <= j < i ==> items@[j].deep_view() == ValueV::Str(
                rgba_hex(l.colors@[j]),
            ),
    {
        items.push(Value::Str(l.colors[i].to_string()));
    }
    let ghost gitems = items@;
    let karr = Value::Arr(items);
    proof {
        lemma_vals_dv(gitems);
    }
    let mut fields: Vec<Entry> = Vec::new();
    fields.push(Entry { key: Key::A, val: encode_bool_int(l.animated) });
    fields.push(Entry { key: Key::K, val: karr });
    let ghost gfields = fields@;
    let r = Value::Obj(fields);
    proof {
        lemma_entries_dv(gfields);
        assert(gfields[1].val.deep_view() matches ValueV::Arr(s) && s =~= senc_color_list(
            l.deep_view(),
        )->Obj_0[1].val->Arr_0);
        assert(r.deep_view() matches ValueV::Obj(s) && s =~= senc_color_list(
            l.deep_view(),
        )->Obj_0);
    }
    r
}

// ------------------------------------------------------------------
// Transforms
// ------------------------------------------------------------------
/// A transform from an object's fields: anchor, position and skew optional,
/// scale defaulting to full, rotation to zero, opacity to full.
pub open spec fn sdec_transform(fs: Seq<EntryV>) -> Result<TransformV, DecodeError> {
    match sdec_opt_anim_vec2(field(fs, Key::A)) {
        Err(e) => Err(e),
        Ok(anchor) => match sdec_opt_anim_vec2(field(fs, Key::P)) {
            Err(e) => Err(e),
            Ok(position) => match sdec_anim_vec2_or(field(fs, Key::S), 100000, 100000) {
                Err(e) => Err(e),
                Ok(scale) => match sdec_anim_num_or(field(fs, Key::R), 0) {
                    Err(e) => Err(e),
                    Ok(rotation) => match sdec_anim_num_or(field(fs, Key::O), 100000) {
                        Err(e) => Err(e),
                        Ok(opacity) => match sdec_opt_anim_vec2(field(fs, Key::Sk)) {
                            Err(e) => Err(e),
                            Ok(skew) => match sdec_opt_anim_vec2(field(fs, Key::Sa)) {
                                Err(e) => Err(e),
                                Ok(skew_axis) => Ok(TransformV {
                                    anchor,
                                    position,
                                    scale,
                                    rotation,
                                    auto_orient: false,
                                    opacity,
                                    skew,
                                    skew_axis,
                                }),
                            },
                        },
                    },
                },
            },
        },
    }
}

pub fn decode_transform(fields: &Vec<Entry>) -> (r: Result<Transform, DecodeError>)
    ensures
        res_v(r) == sdec_transform(entries_dv(fields@)),
{
    let anchor = match decode_opt_anim_vec2(get_field(fields, Key::A)) {
        Ok(x) => x,
        Err(e) => {
            return Err(e);
        },
    };
    let position = match decode_opt_anim_vec2(get_field(fields, Key::P)) {
        Ok(x) => x,
        Err(e) => {
            return Err(e);
        },
    };
    let scale = match decode_anim_vec2_or(get_field(fields, Key::S), 100000, 100000) {
        Ok(x) => x,
        Err(e) => {
            return Err(e);
        },
    };
    let rotation = match decode_anim_num_or(get_field(fields, Key::R), 0) {
        Ok(x) => x,
        Err(e) => {
            return Err(e);
        },
    };
    let opacity = match decode_anim_num_or(get_field(fields, Key::O), 100000) {
        Ok(x) => x,
        Err(e) => {
            return Err(e);
        },
    };
    let skew = match decode_opt_anim_vec2(get_field(fields, Key::Sk)) {
        Ok(x) => x,
        Err(e) => {
            return Err(e);
        },
    };
    let skew_axis = match decode_opt_anim_vec2(get_field(fields, Key::Sa)) {
        Ok(x) => x,
        Err(e) => {
            return Err(e);
        },
    };
    let t = Transform {
        anchor,
        position,
        scale,
        rotation,
        auto_orient: false,
        opacity,
        skew,
        skew_axis,
    };
    proof {
        assert(t.deep_view() =~= sdec_transform(entries_dv(fields@))->Ok_0);
    }
    Ok(t)
}

/// The encoding of a transform's fields: optional parts only when present,
/// the defaulted parts always written out.
pub open spec fn senc_transform(t: TransformV) -> Seq<EntryV> {
    (match t.anchor {
        None => Seq::empty(),
        Some(a) => seq![EntryV { key: Key::A, val: senc_animated_v(a, enc_vec2_f()) }],
    }) + (match t.position {
        None => Seq::empty(),
        Some(p) => seq![EntryV { key: Key::P, val: senc_animated_v(p, enc_vec2_f()) }],
    }) + seq![
        EntryV { key: Key::S, val: senc_animated_v(t.scale, enc_vec2_f()) },
        EntryV { key: Key::R, val: senc_animated_v(t.rotation, enc_num_f()) },
        EntryV { key: Key::O, val: senc_animated_v(t.opacity, enc_num_f()) },
    ] + (match t.skew {
        None => Seq::empty(),
        Some(s) => seq![EntryV { key: Key::Sk, val: senc_animated_v(s, enc_vec2_f()) }],
    }) + (match t.skew_axis {
        None => Seq::empty(),
        Some(s) => seq![EntryV { key: Key::Sa, val: senc_animated_v(s, enc_vec2_f()) }],
    })
}

/// Appends a transform's fields to an object under construction.
pub fn push_transform_fields(fields: &mut Vec<Entry>, t: &Transform)
    ensures
        entries_dv(final(fields)@) =~= entries_dv(old(fields)@) + senc_transform(t.deep_view()),
{
    proof {
        lemma_entries_dv(old(fields)@);
    }
    match &t.anchor {
        None => {},
        Some(a) => {
            fields.push(Entry { key: Key::A, val: encode_animated_vec2(a) });
        },
    }
    match &t.position {
        None => {},
        Some(p) => {
            fields.push(Entry { key: Key::P, val: encode_animated_vec2(p) });
        },
    }
    fields.push(Entry { key: Key::S, val: encode_animated_vec2(&t.scale) });
    fields.push(Entry { key: Key::R, val: encode_animated_num(&t.rotation) });
    fields.push(Entry { key: Key::O, val: encode_animated_num(&t.opacity) });
    match &t.skew {
        None => {},
        Some(s) => {
            fields.push(Entry { key: Key::Sk, val: encode_animated_vec2(s) });
        },
    }
    match &t.skew_axis {
        None => {},
        Some(s) => {
            fields.push(Entry { key: Key::Sa, val: encode_animated_vec2(s) });
        },
    }
    proof {
        lemma_entries_dv(fields@);
        assert(entries_dv(fields@) =~= entries_dv(old(fields)@) + senc_transform(t.deep_view()));
    }
}

/// A repeater's transform: like a layer transform but with required
/// position, scale and rotation and its own start and end opacity.
pub open spec fn sdec_repeater_transform(fs: Seq<EntryV>) -> Result<
    RepeaterTransformV,
    DecodeError,
> {
    match sdec_anim_vec2_or(field(fs, Key::A), 0, 0) {
        Err(e) => Err(e),
        Ok(anchor) => match sdec_anim_vec2_req(field(fs, Key::P)) {
            Err(e) => Err(e),
            Ok(position) => match sdec_anim_vec2_req(field(fs, Key::S)) {
                Err(e) => Err(e),
                Ok(scale) => match sdec_anim_num_req(field(fs, Key::R)) {
                    Err(e) => Err(e),
                    Ok(rotation) => match sdec_anim_num_req(field(fs, Key::So)) {
                        Err(e) => Err(e),
                        Ok(start_opacity) => match sdec_anim_num_req(field(fs, Key::Eo)) {
                            Err(e) => Err(e),
                            Ok(end_opacity) => match sdec_opt_anim_vec2(field(fs, Key::Sk)) {
                                Err(e) => Err(e),
                                Ok(skew) => match sdec_opt_anim_vec2(field(fs, Key::Sa)) {
                                    Err(e) => Err(e),
                                    Ok(skew_axis) => Ok(RepeaterTransformV {
                                        anchor,
                                        position,
                                        scale,
                                        rotation,
                                        start_opacity,
                                        end_opacity,
                                        skew,
                                        skew_axis,
                                    }),
                                },
                            },
                        },
                    },
                },
            },
        },
    }
}

#[verifier::rlimit(60)]
pub fn decode_repeater_transform(v: &Value) -> (r: Result<RepeaterTransform, DecodeError>)
    ensures
        res_v(r) == match v.deep_view() {
            ValueV::Obj(fs) => sdec_repeater_transform(fs),
            _ => Err(DecodeError::Schema),
        },
{
    match v {
        Value::Obj(fields) => {
            let anchor = match decode_anim_vec2_or(get_field(fields, Key::A), 0, 0) {
                Ok(x) => x,
                Err(e) => {
                    return Err(e);
                },
            };
            let position = match decode_anim_vec2_req(get_field(fields, Key::P)) {
                Ok(x) => x,
                Err(e) => {
                    return Err(e);
                },
            };
            let scale = match decode_anim_vec2_req(get_field(fields, Key::S)) {
                Ok(x) => x,
                Err(e) => {
                    return Err(e);
                },
            };
            let rotation = match decode_anim_num_req(get_field(fields, Key::R)) {
                Ok(x) => x,
                Err(e) => {
                    return Err(e);
                },
            };
            let start_opacity = match decode_anim_num_req(get_field(fields, Key::So)) {
                Ok(x) => x,
                Err(e) => {
                    return Err(e);
                },
            };
            let end_opacity = match decode_anim_num_req(get_field(fields, Key::Eo)) {
                Ok(x) => x,
                Err(e) => {
                    return Err(e);
                },
            };
            let skew = match decode_opt_anim_vec2(get_field(fields, Key::Sk)) {
                Ok(x) => x,
                Err(e) => {
                    return Err(e);
                },
            };
            let skew_axis = match decode_opt_anim_vec2(get_field(fields, Key::Sa)) {
                Ok(x) => x,
                Err(e) => {
                    return Err(e);
                },
            };
            let t = RepeaterTransform {
                anchor,
                position,
                scale,
                rotation,
                start_opacity,
                end_opacity,
                skew,
                skew_axis,
            };
            proof {
                assert(t.deep_view() =~= sdec_repeater_transform(entries_dv(fields@))->Ok_0);
            }
            Ok(t)
        },
        _ => Err(DecodeError::Schema),
    }
}

/// The encoding of a repeater transform, as its own object.
pub open spec fn senc_repeater_transform(t: RepeaterTransformV) -> ValueV {
    ValueV::Obj(
        seq![
            EntryV { key: Key::A, val: senc_animated_v(t.anchor, enc_vec2_f()) },
            EntryV { key: Key::P, val: senc_animated_v(t.position, enc_vec2_f()) },
            EntryV { key: Key::S, val: senc_animated_v(t.scale, enc_vec2_f()) },
            EntryV { key: Key::R, val: senc_animated_v(t.rotation, enc_num_f()) },
            EntryV { key: Key::So, val: senc_animated_v(t.start_opacity, enc_num_f()) },
            EntryV { key: Key::Eo, val: senc_animated_v(t.end_opacity, enc_num_f()) },
        ] + (match t.skew {
            None => Seq::empty(),
            Some(s) => seq![EntryV { key: Key::Sk, val: senc_animated_v(s, enc_vec2_f()) }],
        }) + (match t.skew_axis {
            None => Seq::empty(),
            Some(s) => seq![EntryV { key: Key::Sa, val: senc_animated_v(s, enc_vec2_f()) }],
        }),
    )
}

pub fn encode_repeater_transform(t: &RepeaterTransform) -> (r: Value)
    ensures
        r.deep_view() == senc_repeater_transform(t.deep_view()),
{
    let mut fields: Vec<Entry> = Vec::new();
    fields.push(Entry { key: Key::A, val: encode_animated_vec2(&t.anchor) });
    fields.push(Entry { key: Key::P, val: encode_animated_vec2(&t.position) });
    fields.push(Entry { key: Key::S, val: encode_animated_vec2(&t.scale) });
    fields.push(Entry { key: Key::R, val: encode_animated_num(&t.rotation) });
    fields.push(Entry { key: Key::So, val: encode_animated_num(&t.start_opacity) });
    fields.push(Entry { key: Key::Eo, val: encode_animated_num(&t.end_opacity) });
    match &t.skew {
        None => {},
        Some(s) => {
            fields.push(Entry { key: Key::Sk, val: encode_animated_vec2(s) });
        },
    }
    match &t.skew_axis {
        None => {},
        Some(s) => {
            fields.push(Entry { key: Key::Sa, val: encode_animated_vec2(s) });
        },
    }
    let ghost gfields = fields@;
    let r = Value::Obj(fields);
    proof {
        lemma_entries_dv(gfields);
        assert(r.deep_view() matches ValueV::Obj(s) && s =~= senc_repeater_transform(
            t.deep_view(),
        )->Obj_0);
    }
    r
}

/// A required field of this kind.
pub open spec fn sdec_fill_rule_req(o: Option<ValueV>) -> Result<FillRule, DecodeError> {
    match o {
        None => Err(DecodeError::Schema),
        Some(v) => sdec_fill_rule(v),
    }
}

pub fn decode_fill_rule_req(o: Option<&Value>) -> (r: Result<FillRule, DecodeError>)
    ensures
        r == sdec_fill_rule_req(o.deep_view()),
{
    match o {
        None => Err(DecodeError::Schema),
        Some(v) => decode_fill_rule(v),
    }
}

/// A required field of this kind.
pub open spec fn sdec_line_cap_req(o: Option<ValueV>) -> Result<LineCap, DecodeError> {
    match o {
        None => Err(DecodeError::Schema),
        Some(v) => sdec_line_cap(v),
    }
}

pub fn decode_line_cap_req(o: Option<&Value>) -> (r: Result<LineCap, DecodeError>)
    ensures
        r == sdec_line_cap_req(o.deep_view()),
{
    match o {
        None => Err(DecodeError::Schema),
        Some(v) => decode_line_cap(v),
    }
}

/// A required field of this kind.
pub open spec fn sdec_line_join_req(o: Option<ValueV>) -> Result<LineJoin, DecodeError> {
    match o {
        None => Err(DecodeError::Schema),
        Some(v) => sdec_line_join(v),
    }
}

pub fn decode_line_join_req(o: Option<&Value>) -> (r: Result<LineJoin, DecodeError>)
    ensures
        r == sdec_line_join_req(o.deep_view()),
{
    match o {
        None => Err(DecodeError::Schema),
        Some(v) => decode_line_join(v),
    }
}

/// A required field of this kind.
pub open spec fn sdec_gradient_type_req(o: Option<ValueV>) -> Result<GradientType, DecodeError> {
    match o {
        None => Err(DecodeError::Schema),
        Some(v) => sdec_gradient_type(v),
    }
}

pub fn decode_gradient_type_req(o: Option<&Value>) -> (r: Result<GradientType, DecodeError>)
    ensures
        r == sdec_gradient_type_req(o.deep_view()),
{
    match o {
        None => Err(DecodeError::Schema),
        Some(v) => decode_gradient_type(v),
    }
}

/// A required field of this kind.
pub open spec fn sdec_composite_req(o: Option<ValueV>) -> Result<Composite, DecodeError> {
    match o {
        None => Err(DecodeError::Schema),
        Some(v) => sdec_composite(v),
    }
}

pub fn decode_composite_req(o: Option<&Value>) -> (r: Result<Composite, DecodeError>)
    ensures
        r == sdec_composite_req(o.deep_view()),
{
    match o {
        None => Err(DecodeError::Schema),
        Some(v) => decode_composite(v),
    }
}

/// A required field of this kind.
pub open spec fn sdec_trim_multiple_req(o: Option<ValueV>) -> Result<TrimMultipleShape, DecodeError> {
    match o {
        None => Err(DecodeError::Schema),
        Some(v) => sdec_trim_multiple_shape(v),
    }
}

pub fn decode_trim_multiple_req(o: Option<&Value>) -> (r: Result<TrimMultipleShape, DecodeError>)
    ensures
        r == sdec_trim_multiple_req(o.deep_view()),
{
    match o {
        None => Err(DecodeError::Schema),
        Some(v) => decode_trim_multiple_shape(v),
    }
}

/// A required field of this kind.
pub open spec fn sdec_poly_star_type_req(o: Option<ValueV>) -> Result<PolyStarType, DecodeError> {
    match o {
        None => Err(DecodeError::Schema),
        Some(v) => sdec_poly_star_type(v),
    }
}

pub fn decode_poly_star_type_req(o: Option<&Value>) -> (r: Result<PolyStarType, DecodeError>)
    ensures
        r == sdec_poly_star_type_req(o.deep_view()),
{
    match o {
        None => Err(DecodeError::Schema),
        Some(v) => decode_poly_star_type(v),
    }
}

/// A required field of this kind.
pub open spec fn sdec_merge_mode_req(o: Option<ValueV>) -> Result<MergeMode, DecodeError> {
    match o {
        None => Err(DecodeError::Schema),
        Some(v) => sdec_merge_mode(v),
    }
}

pub fn decode_merge_mode_req(o: Option<&Value>) -> (r: Result<MergeMode, DecodeError>)
    ensures
        r == sdec_merge_mode_req(o.deep_view()),
{
    match o {
        None => Err(DecodeError::Schema),
        Some(v) => decode_merge_mode(v),
    }
}

/// A required field of this kind.
pub open spec fn sdec_color_list_req(o: Option<ValueV>) -> Result<AnimatedColorListV, DecodeError> {
    match o {
        None => Err(DecodeError::Schema),
        Some(v) => sdec_color_list(v),
    }
}

pub fn decode_color_list_req(o: Option<&Value>) -> (r: Result<AnimatedColorList, DecodeError>)
    ensures
        res_v(r) == sdec_color_list_req(o.deep_view()),
{
    match o {
        None => Err(DecodeError::Schema),
        Some(v) => decode_color_list(v),
    }
}

/// A required animated path-list field.
pub open spec fn sdec_anim_beziers_req(o: Option<ValueV>) -> Result<
    AnimatedV<Seq<BezierV>>,
    DecodeError,
> {
    match o {
        None => Err(DecodeError::Schema),
        Some(v) => sdec_animated_v(v, dec_beziers_f()),
    }
}

pub fn decode_anim_beziers_req(o: Option<&Value>) -> (r: Result<
    Animated<Vec<Bezier>>,
    DecodeError,
>)
    ensures
        res_v(r) == sdec_anim_beziers_req(o.deep_view()),
{
    match o {
        None => Err(DecodeError::Schema),
        Some(v) => decode_animated_beziers(v),
    }
}

/// A required repeater-transform field.
pub open spec fn sdec_repeater_req(o: Option<ValueV>) -> Result<
    RepeaterTransformV,
    DecodeError,
> {
    match o {
        None => Err(DecodeError::Schema),
        Some(v) => match v {
            ValueV::Obj(fs) => sdec_repeater_transform(fs),
            _ => Err(DecodeError::Schema),
        },
    }
}

pub fn decode_repeater_req(o: Option<&Value>) -> (r: Result<RepeaterTransform, DecodeError>)
    ensures
        res_v(r) == sdec_repeater_req(o.deep_view()),
{
    match o {
        None => Err(DecodeError::Schema),
        Some(v) => decode_repeater_transform(v),
    }
}

/// A required plain numeric field.
pub open spec fn sdec_num_req2(o: Option<ValueV>) -> Result<i64, DecodeError> {
    sdec_req_num(o)
}

/// A rectangle.
pub open spec fn sdec_rect(fs: Seq<EntryV>) -> Result<ShapeV, DecodeError> {
    match sdec_shape_direction_field(field(fs, Key::D)) {
        Err(e) => Err(e),
        Ok(direction) => match sdec_anim_vec2_req(field(fs, Key::P)) {
        Err(e) => Err(e),
        Ok(position) => match sdec_anim_vec2_req(field(fs, Key::S)) {
        Err(e) => Err(e),
        Ok(size) => match sdec_anim_num_req(field(fs, Key::R)) {
        Err(e) => Err(e),
        Ok(radius) => Ok(ShapeV::Rectangle(RectangleV { direction, position, size, radius })),
    },
    },
    },
    }
}

fn decode_rect(fields: &Vec<Entry>) -> (r: Result<Shape, DecodeError>)
    ensures
        res_v(r) == sdec_rect(entries_dv(fields@)),
{
    let direction = match decode_shape_direction_field(get_field(fields, Key::D)) {
        Ok(x) => x,
        Err(e) => {
            return Err(e);
        },
    };
    let position = match decode_anim_vec2_req(get_field(fields, Key::P)) {
        Ok(x) => x,
        Err(e) => {
            return Err(e);
        },
    };
    let size = match decode_anim_vec2_req(get_field(fields, Key::S)) {
        Ok(x) => x,
        Err(e) => {
            return Err(e);
        },
    };
    let radius = match decode_anim_num_req(get_field(fields, Key::R)) {
        Ok(x) => x,
        Err(e) => {
            return Err(e);
        },
    };
    let sh = Shape::Rectangle(Rectangle { direction, position, size, radius });
    proof {
        assert(sh.deep_view() =~= sdec_rect(entries_dv(fields@))->Ok_0);
    }
    Ok(sh)
}

/// An ellipse.
pub open spec fn sdec_ellipse(fs: Seq<EntryV>) -> Result<ShapeV, DecodeError> {
    match sdec_shape_direction_field(field(fs, Key::D)) {
        Err(e) => Err(e),
        Ok(direction) => match sdec_anim_vec2_req(field(fs, Key::P)) {
        Err(e) => Err(e),
        Ok(position) => match sdec_anim_vec2_req(field(fs, Key::S)) {
        Err(e) => Err(e),
        Ok(size) => Ok(ShapeV::Ellipse(EllipseV { direction, position, size })),
    },
    },
    }
}

fn decode_ellipse(fields: &Vec<Entry>) -> (r: Result<Shape, DecodeError>)
    ensures
        res_v(r) == sdec_ellipse(entries_dv(fields@)),
{
    let direction = match decode_shape_direction_field(get_field(fields, Key::D)) {
        Ok(x) => x,
        Err(e) => {
            return Err(e);
        },
    };
    let position = match decode_anim_vec2_req(get_field(fields, Key::P)) {
        Ok(x) => x,
        Err(e) => {
            return Err(e);
        },
    };
    let size = match decode_anim_vec2_req(get_field(fields, Key::S)) {
        Ok(x) => x,
        Err(e) => {
            return Err(e);
        },
    };
    let sh = Shape::Ellipse(Ellipse { direction, position, size });
    proof {
        assert(sh.deep_view() =~= sdec_ellipse(entries_dv(fields@))->Ok_0);
    }
    Ok(sh)
}

/// A star or polygon.
pub open spec fn sdec_poly_star(fs: Seq<EntryV>) -> Result<ShapeV, DecodeError> {
    match sdec_shape_direction_field(field(fs, Key::D)) {
        Err(e) => Err(e),
        Ok(direction) => match sdec_anim_vec2_req(field(fs, Key::P)) {
        Err(e) => Err(e),
        Ok(position) => match sdec_anim_num_req(field(fs, Key::Or)) {
        Err(e) => Err(e),
        Ok(outer_radius) => match sdec_anim_num_req(field(fs, Key::Os)) {
        Err(e) => Err(e),
        Ok(outer_roundness) => match sdec_anim_num_req(field(fs, Key::Ir)) {
        Err(e) => Err(e),
        Ok(inner_radius) => match sdec_anim_num_req(field(fs, Key::Is)) {
        Err(e) => Err(e),
        Ok(inner_roundness) => match sdec_anim_num_req(field(fs, Key::R)) {
        Err(e) => Err(e),
        Ok(rotation) => match sdec_anim_num_req(field(fs, Key::Pt)) {
        Err(e) => Err(e),
        Ok(points) => match sdec_poly_star_type_req(field(fs, Key::Sy)) {
        Err(e) => Err(e),
        Ok(star_type) => Ok(ShapeV::PolyStar(PolyStarV { direction, position, outer_radius, outer_roundness, inner_radius, inner_roundness, rotation, points, star_type })),
    },
    },
    },
    },
    },
    },
    },
    },
    }
}

fn decode_poly_star(fields: &Vec<Entry>) -> (r: Result<Shape, DecodeError>)
    ensures
        res_v(r) == sdec_poly_star(entries_dv(fields@)),
{
    let direction = match decode_shape_direction_field(get_field(fields, Key::D)) {
        Ok(x) => x,
        Err(e) => {
            return Err(e);
        },
    };
    let position = match decode_anim_vec2_req(get_field(fields, Key::P)) {
        Ok(x) => x,
        Err(e) => {
            return Err(e);
        },
    };
    let outer_radius = match decode_anim_num_req(get_field(fields, Key::Or)) {
        Ok(x) => x,
        Err(e) => {
            return Err(e);
        },
    };
    let outer_roundness = match decode_anim_num_req(get_field(fields, Key::Os)) {
        Ok(x) => x,
        Err(e) => {
            return Err(e);
        },
    };
    let inner_radius = match decode_anim_num_req(get_field(fields, Key::Ir)) {
        Ok(x) => x,
        Err(e) => {
            return Err(e);
        },
    };
    let inner_roundness = match decode_anim_num_req(get_field(fields, Key::Is)) {
        Ok(x) => x,
        Err(e) => {
            return Err(e);
        },
    };
    let rotation = match decode_anim_num_req(get_field(fields, Key::R)) {
        Ok(x) => x,
        Err(e) => {
            return Err(e);
        },
    };
    let points = match decode_anim_num_req(get_field(fields, Key::Pt)) {
        Ok(x) => x,
        Err(e) => {
            return Err(e);
        },
    };
    let star_type = match decode_poly_star_type_req(get_field(fields, Key::Sy)) {
        Ok(x) => x,
        Err(e) => {
            return Err(e);
        },
    };
    let sh = Shape::PolyStar(PolyStar { direction, position, outer_radius, outer_roundness, inner_radius, inner_roundness, rotation, points, star_type });
    proof {
        assert(sh.deep_view() =~= sdec_poly_star(entries_dv(fields@))->Ok_0);
    }
    Ok(sh)
}

/// A free-form Bezier path.
pub open spec fn sdec_path_shape(fs: Seq<EntryV>) -> Result<ShapeV, DecodeError> {
    match sdec_anim_beziers_req(field(fs, Key::Ks)) {
        Err(e) => Err(e),
        Ok(d) => Ok(ShapeV::Path { d }),
    }
}

fn decode_path_shape(fields: &Vec<Entry>) -> (r: Result<Shape, DecodeError>)
    ensures
        res_v(r) == sdec_path_shape(entries_dv(fields@)),
{
    let d = match decode_anim_beziers_req(get_field(fields, Key::Ks)) {
        Ok(x) => x,
        Err(e) => {
            return Err(e);
        },
    };
    let sh = Shape::Path { d };
    proof {
        assert(sh.deep_view() =~= sdec_path_shape(entries_dv(fields@))->Ok_0);
    }
    Ok(sh)
}

/// A solid fill.
pub open spec fn sdec_fill(fs: Seq<EntryV>) -> Result<ShapeV, DecodeError> {
    match sdec_anim_num_req(field(fs, Key::O)) {
        Err(e) => Err(e),
        Ok(opacity) => match sdec_anim_rgb_req(field(fs, Key::C)) {
        Err(e) => Err(e),
        Ok(color) => match sdec_fill_rule_field(field(fs, Key::R)) {
        Err(e) => Err(e),
        Ok(fill_rule) => Ok(ShapeV::Fill(FillV { opacity, color, fill_rule })),
    },
    },
    }
}

fn decode_fill(fields: &Vec<Entry>) -> (r: Result<Shape, DecodeError>)
    ensures
        res_v(r) == sdec_fill(entries_dv(fields@)),
{
    let opacity = match decode_anim_num_req(get_field(fields, Key::O)) {
        Ok(x) => x,
        Err(e) => {
            return Err(e);
        },
    };
    let color = match decode_anim_rgb_req(get_field(fields, Key::C)) {
        Ok(x) => x,
        Err(e) => {
            return Err(e);
        },
    };
    let fill_rule = match decode_fill_rule_field(get_field(fields, Key::R)) {
        Ok(x) => x,
        Err(e) => {
            return Err(e);
        },
    };
    let sh = Shape::Fill(Fill { opacity, color, fill_rule });
    proof {
        assert(sh.deep_view() =~= sdec_fill(entries_dv(fields@))->Ok_0);
    }
    Ok(sh)
}

/// A solid stroke.
pub open spec fn sdec_stroke(fs: Seq<EntryV>) -> Result<ShapeV, DecodeError> {
    match sdec_line_cap_req(field(fs, Key::Lc)) {
        Err(e) => Err(e),
        Ok(line_cap) => match sdec_line_join_req(field(fs, Key::Lj)) {
        Err(e) => Err(e),
        Ok(line_join) => match sdec_req_num(field(fs, Key::Ml)) {
        Err(e) => Err(e),
        Ok(miter_limit) => match sdec_anim_num_req(field(fs, Key::O)) {
        Err(e) => Err(e),
        Ok(opacity) => match sdec_anim_num_req(field(fs, Key::W)) {
        Err(e) => Err(e),
        Ok(width) => match sdec_dash_field(field(fs, Key::D)) {
        Err(e) => Err(e),
        Ok(dashes) => match sdec_anim_rgb_req(field(fs, Key::C)) {
        Err(e) => Err(e),
        Ok(color) => Ok(ShapeV::Stroke(StrokeV { line_cap, line_join, miter_limit, opacity, width, dashes, color })),
    },
    },
    },
    },
    },
    },
    }
}

fn decode_stroke(fields: &Vec<Entry>) -> (r: Result<Shape, DecodeError>)
    ensures
        res_v(r) == sdec_stroke(entries_dv(fields@)),
{
    let line_cap = match decode_line_cap_req(get_field(fields, Key::Lc)) {
        Ok(x) => x,
        Err(e) => {
            return Err(e);
        },
    };
    let line_join = match decode_line_join_req(get_field(fields, Key::Lj)) {
        Ok(x) => x,
        Err(e) => {
            return Err(e);
        },
    };
    let miter_limit = match decode_req_num(get_field(fields, Key::Ml)) {
        Ok(x) => x,
        Err(e) => {
            return Err(e);
        },
    };
    let opacity = match decode_anim_num_req(get_field(fields, Key::O)) {
        Ok(x) => x,
        Err(e) => {
            return Err(e);
        },
    };
    let width = match decode_anim_num_req(get_field(fields, Key::W)) {
        Ok(x) => x,
        Err(e) => {
            return Err(e);
        },
    };
    let dashes = match decode_dash_field(get_field(fields, Key::D)) {
        Ok(x) => x,
        Err(e) => {
            return Err(e);
        },
    };
    let color = match decode_anim_rgb_req(get_field(fields, Key::C)) {
        Ok(x) => x,
        Err(e) => {
            return Err(e);
        },
    };
    let sh = Shape::Stroke(Stroke { line_cap, line_join, miter_limit, opacity, width, dashes, color });
    proof {
        assert(sh.deep_view() =~= sdec_stroke(entries_dv(fields@))->Ok_0);
    }
    Ok(sh)
}

/// A gradient fill.
pub open spec fn sdec_gradient_fill(fs: Seq<EntryV>) -> Result<ShapeV, DecodeError> {
    match sdec_anim_num_req(field(fs, Key::O)) {
        Err(e) => Err(e),
        Ok(opacity) => match sdec_fill_rule_req(field(fs, Key::R)) {
        Err(e) => Err(e),
        Ok(fill_rule) => match sdec_anim_vec2_req(field(fs, Key::S)) {
        Err(e) => Err(e),
        Ok(start) => match sdec_anim_vec2_req(field(fs, Key::E)) {
        Err(e) => Err(e),
        Ok(end) => match sdec_gradient_type_req(field(fs, Key::T)) {
        Err(e) => Err(e),
        Ok(gradient_ty) => match sdec_color_list_req(field(fs, Key::G)) {
        Err(e) => Err(e),
        Ok(colors) => Ok(ShapeV::GradientFill { opacity, fill_rule, start, end, gradient_ty, colors }),
    },
    },
    },
    },
    },
    }
}

fn decode_gradient_fill(fields: &Vec<Entry>) -> (r: Result<Shape, DecodeError>)
    ensures
        res_v(r) == sdec_gradient_fill(entries_dv(fields@)),
{
    let opacity = match decode_anim_num_req(get_field(fields, Key::O)) {
        Ok(x) => x,
        Err(e) => {
            return Err(e);
        },
    };
    let fill_rule = match decode_fill_rule_req(get_field(fields, Key::R)) {
        Ok(x) => x,
        Err(e) => {
            return Err(e);
        },
    };
    let start = match decode_anim_vec2_req(get_field(fields, Key::S)) {
        Ok(x) => x,
        Err(e) => {
            return Err(e);
        },
    };
    let end = match decode_anim_vec2_req(get_field(fields, Key::E)) {
        Ok(x) => x,
        Err(e) => {
            return Err(e);
        },
    };
    let gradient_ty = match decode_gradient_type_req(get_field(fields, Key::T)) {
        Ok(x) => x,
        Err(e) => {
            return Err(e);
        },
    };
    let colors = match decode_color_list_req(get_field(fields, Key::G)) {
        Ok(x) => x,
        Err(e) => {
            return Err(e);
        },
    };
    let sh = Shape::GradientFill { opacity, fill_rule, start, end, gradient_ty, colors };
    proof {
        assert(sh.deep_view() =~= sdec_gradient_fill(entries_dv(fields@))->Ok_0);
    }
    Ok(sh)
}

/// A gradient stroke.
pub open spec fn sdec_gradient_stroke(fs: Seq<EntryV>) -> Result<ShapeV, DecodeError> {
    match sdec_line_cap_req(field(fs, Key::Lc)) {
        Err(e) => Err(e),
        Ok(line_cap) => match sdec_line_join_req(field(fs, Key::Lj)) {
        Err(e) => Err(e),
        Ok(line_join) => match sdec_req_num(field(fs, Key::Ml)) {
        Err(e) => Err(e),
        Ok(miter_limit) => match sdec_anim_num_req(field(fs, Key::O)) {
        Err(e) => Err(e),
        Ok(opacity) => match sdec_anim_num_req(field(fs, Key::W)) {
        Err(e) => Err(e),
        Ok(width) => match sdec_dash_field(field(fs, Key::D)) {
        Err(e) => Err(e),
        Ok(dashes) => match sdec_anim_vec2_req(field(fs, Key::S)) {
        Err(e) => Err(e),
        Ok(start) => match sdec_anim_vec2_req(field(fs, Key::E)) {
        Err(e) => Err(e),
        Ok(end) => match sdec_gradient_type_req(field(fs, Key::T)) {
        Err(e) => Err(e),
        Ok(gradient_ty) => match sdec_color_list_req(field(fs, Key::G)) {
        Err(e) => Err(e),
        Ok(colors) => Ok(ShapeV::GradientStroke { line_cap, line_join, miter_limit, opacity, width, dashes, start, end, gradient_ty, colors }),
    },
    },
    },
    },
    },
    },
    },
    },
    },
    }
}

fn decode_gradient_stroke(fields: &Vec<Entry>) -> (r: Result<Shape, DecodeError>)
    ensures
        res_v(r) == sdec_gradient_stroke(entries_dv(fields@)),
{
    let line_cap = match decode_line_cap_req(get_field(fields, Key::Lc)) {
        Ok(x) => x,
        Err(e) => {
            return Err(e);
        },
    };
    let line_join = match decode_line_join_req(get_field(fields, Key::Lj)) {
        Ok(x) => x,
        Err(e) => {
            return Err(e);
        },
    };
    let miter_limit = match decode_req_num(get_field(fields, Key::Ml)) {
        Ok(x) => x,
        Err(e) => {
            return Err(e);
        },
    };
    let opacity = match decode_anim_num_req(get_field(fields, Key::O)) {
        Ok(x) => x,
        Err(e) => {
            return Err(e);
        },
    };
    let width = match decode_anim_num_req(get_field(fields, Key::W)) {
        Ok(x) => x,
        Err(e) => {
            return Err(e);
        },
    };
    let dashes = match decode_dash_field(get_field(fields, Key::D)) {
        Ok(x) => x,
        Err(e) => {
            return Err(e);
        },
    };
    let start = match decode_anim_vec2_req(get_field(fields, Key::S)) {
        Ok(x) => x,
        Err(e) => {
            return Err(e);
        },
    };
    let end = match decode_anim_vec2_req(get_field(fields, Key::E)) {
        Ok(x) => x,
        Err(e) => {
            return Err(e);
        },
    };
    let gradient_ty = match decode_gradient_type_req(get_field(fields, Key::T)) {
        Ok(x) => x,
        Err(e) => {
            return Err(e);
        },
    };
    let colors = match decode_color_list_req(get_field(fields, Key::G)) {
        Ok(x) => x,
        Err(e) => {
            return Err(e);
        },
    };
    let sh = Shape::GradientStroke { line_cap, line_join, miter_limit, opacity, width, dashes, start, end, gradient_ty, colors };
    proof {
        assert(sh.deep_view() =~= sdec_gradient_stroke(entries_dv(fields@))->Ok_0);
    }
    Ok(sh)
}

/// A repeater.
pub open spec fn sdec_repeater(fs: Seq<EntryV>) -> Result<ShapeV, DecodeError> {
    match sdec_anim_num_req(field(fs, Key::C)) {
        Err(e) => Err(e),
        Ok(copies) => match sdec_anim_num_req(field(fs, Key::O)) {
        Err(e) => Err(e),
        Ok(offset) => match sdec_composite_req(field(fs, Key::M)) {
        Err(e) => Err(e),
        Ok(composite) => match sdec_repeater_req(field(fs, Key::Tr)) {
        Err(e) => Err(e),
        Ok(transform) => Ok(ShapeV::Repeater { copies, offset, composite, transform }),
    },
    },
    },
    }
}

fn decode_repeater(fields: &Vec<Entry>) -> (r: Result<Shape, DecodeError>)
    ensures
        res_v(r) == sdec_repeater(entries_dv(fields@)),
{
    let copies = match decode_anim_num_req(get_field(fields, Key::C)) {
        Ok(x) => x,
        Err(e) => {
            return Err(e);
        },
    };
    let offset = match decode_anim_num_req(get_field(fields, Key::O)) {
        Ok(x) => x,
        Err(e) => {
            return Err(e);
        },
    };
    let composite = match decode_composite_req(get_field(fields, Key::M)) {
        Ok(x) => x,
        Err(e) => {
            return Err(e);
        },
    };
    let transform = match decode_repeater_req(get_field(fields, Key::Tr)) {
        Ok(x) => x,
        Err(e) => {
            return Err(e);
        },
    };
    let sh = Shape::Repeater { copies, offset, composite, transform };
    proof {
        assert(sh.deep_view() =~= sdec_repeater(entries_dv(fields@))->Ok_0);
    }
    Ok(sh)
}

/// A path trim.
pub open spec fn sdec_trim(fs: Seq<EntryV>) -> Result<ShapeV, DecodeError> {
    match sdec_anim_num_req(field(fs, Key::S)) {
        Err(e) => Err(e),
        Ok(start) => match sdec_anim_num_req(field(fs, Key::E)) {
        Err(e) => Err(e),
        Ok(end) => match sdec_anim_num_req(field(fs, Key::O)) {
        Err(e) => Err(e),
        Ok(offset) => match sdec_trim_multiple_req(field(fs, Key::M)) {
        Err(e) => Err(e),
        Ok(multiple_shape) => Ok(ShapeV::Trim { start, end, offset, multiple_shape }),
    },
    },
    },
    }
}

fn decode_trim(fields: &Vec<Entry>) -> (r: Result<Shape, DecodeError>)
    ensures
        res_v(r) == sdec_trim(entries_dv(fields@)),
{
    let start = match decode_anim_num_req(get_field(fields, Key::S)) {
        Ok(x) => x,
        Err(e) => {
            return Err(e);
        },
    };
    let end = match decode_anim_num_req(get_field(fields, Key::E)) {
        Ok(x) => x,
        Err(e) => {
            return Err(e);
        },
    };
    let offset = match decode_anim_num_req(get_field(fields, Key::O)) {
        Ok(x) => x,
        Err(e) => {
            return Err(e);
        },
    };
    let multiple_shape = match decode_trim_multiple_req(get_field(fields, Key::M)) {
        Ok(x) => x,
        Err(e) => {
            return Err(e);
        },
    };
    let sh = Shape::Trim { start, end, offset, multiple_shape };
    proof {
        assert(sh.deep_view() =~= sdec_trim(entries_dv(fields@))->Ok_0);
    }
    Ok(sh)
}

/// Rounded corners.
pub open spec fn sdec_rounded_corners(fs: Seq<EntryV>) -> Result<ShapeV, DecodeError> {
    match sdec_anim_num_req(field(fs, Key::R)) {
        Err(e) => Err(e),
        Ok(radius) => Ok(ShapeV::RoundedCorners { radius }),
    }
}

fn decode_rounded_corners(fields: &Vec<Entry>) -> (r: Result<Shape, DecodeError>)
    ensures
        res_v(r) == sdec_rounded_corners(entries_dv(fields@)),
{
    let radius = match decode_anim_num_req(get_field(fields, Key::R)) {
        Ok(x) => x,
        Err(e) => {
            return Err(e);
        },
    };
    let sh = Shape::RoundedCorners { radius };
    proof {
        assert(sh.deep_view() =~= sdec_rounded_corners(entries_dv(fields@))->Ok_0);
    }
    Ok(sh)
}

/// Pucker and bloat.
pub open spec fn sdec_pucker_bloat(fs: Seq<EntryV>) -> Result<ShapeV, DecodeError> {
    match sdec_anim_num_req(field(fs, Key::A)) {
        Err(e) => Err(e),
        Ok(amount) => Ok(ShapeV::PuckerBloat { amount }),
    }
}

fn decode_pucker_bloat(fields: &Vec<Entry>) -> (r: Result<Shape, DecodeError>)
    ensures
        res_v(r) == sdec_pucker_bloat(entries_dv(fields@)),
{
    let amount = match decode_anim_num_req(get_field(fields, Key::A)) {
        Ok(x) => x,
        Err(e) => {
            return Err(e);
        },
    };
    let sh = Shape::PuckerBloat { amount };
    proof {
        assert(sh.deep_view() =~= sdec_pucker_bloat(entries_dv(fields@))->Ok_0);
    }
    Ok(sh)
}

/// A twist.
pub open spec fn sdec_twist(fs: Seq<EntryV>) -> Result<ShapeV, DecodeError> {
    match sdec_anim_num_req(field(fs, Key::A)) {
        Err(e) => Err(e),
        Ok(angle) => match sdec_anim_vec2_req(field(fs, Key::C)) {
        Err(e) => Err(e),
        Ok(center) => Ok(ShapeV::Twist { angle, center }),
    },
    }
}

fn decode_twist(fields: &Vec<Entry>) -> (r: Result<Shape, DecodeError>)
    ensures
        res_v(r) == sdec_twist(entries_dv(fields@)),
{
    let angle = match decode_anim_num_req(get_field(fields, Key::A)) {
        Ok(x) => x,
        Err(e) => {
            return Err(e);
        },
    };
    let center = match decode_anim_vec2_req(get_field(fields, Key::C)) {
        Ok(x) => x,
        Err(e) => {
            return Err(e);
        },
    };
    let sh = Shape::Twist { angle, center };
    proof {
        assert(sh.deep_view() =~= sdec_twist(entries_dv(fields@))->Ok_0);
    }
    Ok(sh)
}

/// A merge node.
pub open spec fn sdec_merge(fs: Seq<EntryV>) -> Result<ShapeV, DecodeError> {
    match sdec_merge_mode_req(field(fs, Key::Mm)) {
        Err(e) => Err(e),
        Ok(mode) => Ok(ShapeV::Merge { mode }),
    }
}

fn decode_merge(fields: &Vec<Entry>) -> (r: Result<Shape, DecodeError>)
    ensures
        res_v(r) == sdec_merge(entries_dv(fields@)),
{
    let mode = match decode_merge_mode_req(get_field(fields, Key::Mm)) {
        Ok(x) => x,
        Err(e) => {
            return Err(e);
        },
    };
    let sh = Shape::Merge { mode };
    proof {
        assert(sh.deep_view() =~= sdec_merge(entries_dv(fields@))->Ok_0);
    }
    Ok(sh)
}

/// An offset path.
pub open spec fn sdec_offset_path(fs: Seq<EntryV>) -> Result<ShapeV, DecodeError> {
    match sdec_anim_num_req(field(fs, Key::A)) {
        Err(e) => Err(e),
        Ok(amount) => match sdec_line_join_req(field(fs, Key::Lj)) {
        Err(e) => Err(e),
        Ok(line_join) => match sdec_req_num(field(fs, Key::Ml)) {
        Err(e) => Err(e),
        Ok(miter_limit) => Ok(ShapeV::OffsetPath { amount, line_join, miter_limit }),
    },
    },
    }
}

fn decode_offset_path(fields: &Vec<Entry>) -> (r: Result<Shape, DecodeError>)
    ensures
        res_v(r) == sdec_offset_path(entries_dv(fields@)),
{
    let amount = match decode_anim_num_req(get_field(fields, Key::A)) {
        Ok(x) => x,
        Err(e) => {
            return Err(e);
        },
    };
    let line_join = match decode_line_join_req(get_field(fields, Key::Lj)) {
        Ok(x) => x,
        Err(e) => {
            return Err(e);
        },
    };
    let miter_limit = match decode_req_num(get_field(fields, Key::Ml)) {
        Ok(x) => x,
        Err(e) => {
            return Err(e);
        },
    };
    let sh = Shape::OffsetPath { amount, line_join, miter_limit };
    proof {
        assert(sh.deep_view() =~= sdec_offset_path(entries_dv(fields@))->Ok_0);
    }
    Ok(sh)
}

/// A zig-zag.
pub open spec fn sdec_zig_zag(fs: Seq<EntryV>) -> Result<ShapeV, DecodeError> {
    match sdec_anim_num_req(field(fs, Key::R)) {
        Err(e) => Err(e),
        Ok(radius) => match sdec_anim_num_req(field(fs, Key::S)) {
        Err(e) => Err(e),
        Ok(distance) => match sdec_anim_num_req(field(fs, Key::Pt)) {
        Err(e) => Err(e),
        Ok(ridges) => Ok(ShapeV::ZigZag { radius, distance, ridges }),
    },
    },
    }
}

fn decode_zig_zag(fields: &Vec<Entry>) -> (r: Result<Shape, DecodeError>)
    ensures
        res_v(r) == sdec_zig_zag(entries_dv(fields@)),
{
    let radius = match decode_anim_num_req(get_field(fields, Key::R)) {
        Ok(x) => x,
        Err(e) => {
            return Err(e);
        },
    };
    let distance = match decode_anim_num_req(get_field(fields, Key::S)) {
        Ok(x) => x,
        Err(e) => {
            return Err(e);
        },
    };
    let ridges = match decode_anim_num_req(get_field(fields, Key::Pt)) {
        Ok(x) => x,
        Err(e) => {
            return Err(e);
        },
    };
    let sh = Shape::ZigZag { radius, distance, ridges };
    proof {
        assert(sh.deep_view() =~= sdec_zig_zag(entries_dv(fields@))->Ok_0);
    }
    Ok(sh)
}


// ------------------------------------------------------------------
// The shape union
// ------------------------------------------------------------------
/// A shape from an object's fields, dispatched on the `ty` tag; an
/// unrecognized tag fails the decode.
pub open spec fn sdec_shape(fs: Seq<EntryV>) -> Result<ShapeV, DecodeError>
    decreases fs,
{
    match field(fs, Key::Ty) {
        None => Err(DecodeError::Schema),
        Some(tv) => match tv {
            ValueV::Str(tag) => if tag == "rc"@ {
                sdec_rect(fs)
            } else if tag == "el"@ {
                sdec_ellipse(fs)
            } else if tag == "sr"@ {
                sdec_poly_star(fs)
            } else if tag == "sh"@ {
                sdec_path_shape(fs)
            } else if tag == "fl"@ {
                sdec_fill(fs)
            } else if tag == "st"@ {
                sdec_stroke(fs)
            } else if tag == "gf"@ {
                sdec_gradient_fill(fs)
            } else if tag == "gs"@ {
                sdec_gradient_stroke(fs)
            } else if tag == "gr"@ {
                match lookup_idx(fs, Key::It) {
                    None => Err(DecodeError::Schema),
                    Some(i) => if 0 <= i < fs.len() {
                        match fs[i].val {
                            ValueV::Arr(items) => match sdec_shape_layer_seq(items) {
                                Err(e) => Err(e),
                                Ok(shapes) => Ok(ShapeV::Group { shapes }),
                            },
                            _ => Err(DecodeError::Schema),
                        }
                    } else {
                        Err(DecodeError::Schema)
                    },
                }
            } else if tag == "tr"@ {
                match sdec_transform(fs) {
                    Err(e) => Err(e),
                    Ok(t) => Ok(ShapeV::Transform(t)),
                }
            } else if tag == "rp"@ {
                sdec_repeater(fs)
            } else if tag == "tm"@ {
                sdec_trim(fs)
            } else if tag == "rd"@ {
                sdec_rounded_corners(fs)
            } else if tag == "pb"@ {
                sdec_pucker_bloat(fs)
            } else if tag == "tw"@ {
                sdec_twist(fs)
            } else if tag == "mm"@ {
                sdec_merge(fs)
            } else if tag == "op"@ {
                sdec_offset_path(fs)
            } else if tag == "zz"@ {
                sdec_zig_zag(fs)
            } else {
                Err(DecodeError::UnknownDiscriminant)
            },
            _ => Err(DecodeError::Schema),
        },
    }
}

/// A shape-layer wrapper: name and hidden flag beside the shape's own
/// fields; the sequential identifier is assigned by consumers and decodes as
/// zero.
pub open spec fn sdec_shape_layer(v: ValueV) -> Result<ShapeLayerV, DecodeError>
    decreases v,
{
    match v {
        ValueV::Obj(fs) => match sdec_opt_str(field(fs, Key::Nm)) {
            Err(e) => Err(e),
            Ok(name) => match sdec_opt_bool(field(fs, Key::Hd)) {
                Err(e) => Err(e),
                Ok(hidden) => match sdec_shape(fs) {
                    Err(e) => Err(e),
                    Ok(shape) => Ok(ShapeLayerV { name, hidden, id: 0, shape }),
                },
            },
        },
        _ => Err(DecodeError::Schema),
    }
}

/// A shape-layer list, element by element; the first failure wins.
pub open spec fn sdec_shape_layer_seq(items: Seq<ValueV>) -> Result<Seq<ShapeLayerV>, DecodeError>
    decreases items,
{
    if items.len() == 0 {
        Ok(Seq::empty())
    } else {
        match sdec_shape_layer(items[0]) {
            Err(e) => Err(e),
            Ok(sl) => match sdec_shape_layer_seq(items.drop_first()) {
                Err(e) => Err(e),
                Ok(rest) => Ok(seq![sl] + rest),
            },
        }
    }
}

#[verifier::rlimit(60)]
proof fn lemma_sdec_sl_seq_ok(items: Seq<ValueV>, pre: Seq<ShapeLayerV>, i: int)
    requires
        0 <= i <= items.len(),
        pre.len() == i,
        forall|j: int| 0 <= j < i ==> sdec_shape_layer(items[j]) == Ok::<
            ShapeLayerV,
            DecodeError,
        >(pre[j]),
    ensures
        sdec_shape_layer_seq(items) == match sdec_shape_layer_seq(items.skip(i)) {
            Err(e) => Err::<Seq<ShapeLayerV>, DecodeError>(e),
            Ok(rest) => Ok(pre + rest),
        },
    decreases i,
{
    if i == 0 {
        assert(items.skip(0) =~= items);
        match sdec_shape_layer_seq(items) {
            Err(e) => {},
            Ok(rest) => {
                assert(pre + rest =~= rest);
            },
        }
    } else {
        lemma_sdec_sl_seq_ok(items, pre.take(i - 1), i - 1);
        assert(items.skip(i - 1).len() > 0);
        assert(items.skip(i - 1)[0] == items[i - 1]);
        assert(items.skip(i - 1).drop_first() =~= items.skip(i));
        assert(sdec_shape_layer(items[i - 1]) == Ok::<ShapeLayerV, DecodeError>(pre[i - 1]));
        match sdec_shape_layer_seq(items.skip(i)) {
            Err(e) => {},
            Ok(rest) => {
                assert(pre.take(i - 1) + (seq![pre[i - 1]] + rest) =~= pre + rest);
            },
        }
    }
}

/// A shape from an object's fields.
pub fn decode_shape(fields: &Vec<Entry>) -> (r: Result<Shape, DecodeError>)
    ensures
        res_v(r) == sdec_shape(entries_dv(fields@)),
    decreases entries_dv(fields@),
{
    let tv = match get_field(fields, Key::Ty) {
        None => {
            return Err(DecodeError::Schema);
        },
        Some(x) => x,
    };
    match tv {
        Value::Str(tag) => {
            if str_eq_lit(tag, "rc") {
                decode_rect(fields)
            } else if str_eq_lit(tag, "el") {
                decode_ellipse(fields)
            } else if str_eq_lit(tag, "sr") {
                decode_poly_star(fields)
            } else if str_eq_lit(tag, "sh") {
                decode_path_shape(fields)
            } else if str_eq_lit(tag, "fl") {
                decode_fill(fields)
            } else if str_eq_lit(tag, "st") {
                decode_stroke(fields)
            } else if str_eq_lit(tag, "gf") {
                decode_gradient_fill(fields)
            } else if str_eq_lit(tag, "gs") {
                decode_gradient_stroke(fields)
            } else if str_eq_lit(tag, "gr") {
                proof {
                    crate::value::lemma_lookup_idx(entries_dv(fields@), Key::It);
                }
                let gv = match get_field(fields, Key::It) {
                    None => {
                        return Err(DecodeError::Schema);
                    },
                    Some(x) => x,
                };
                match gv {
                    Value::Arr(items) => {
                        proof {
                            lemma_vals_dv(items@);
                            let fsv = entries_dv(fields@);
                            let i = choose|i: int|
                                0 <= i < fsv.len() && (#[trigger] fsv[i]).val == gv.deep_view();
                            assert(decreases_to!(fsv => fsv[i]));
                            assert(decreases_to!(fsv[i] => fsv[i].val));
                            assert(gv.deep_view() == ValueV::Arr(vals_dv(items@)));
                            assert(decreases_to!(fsv[i].val => vals_dv(items@)));
                        }
                        match decode_shape_list(items) {
                            Err(e) => Err(e),
                            Ok(shapes) => {
                                let sh = Shape::Group { shapes };
                                proof {
                                    crate::model::lemma_shape_layers_dv(shapes@);
                                    assert(shape_layers_dv(shapes@) =~= shapes.deep_view());
                                    assert(sh.deep_view() =~= sdec_shape(
                                        entries_dv(fields@),
                                    )->Ok_0);
                                }
                                Ok(sh)
                            },
                        }
                    },
                    _ => Err(DecodeError::Schema),
                }
            } else if str_eq_lit(tag, "tr") {
                match decode_transform(fields) {
                    Err(e) => Err(e),
                    Ok(t) => {
                        let sh = Shape::Transform(t);
                        proof {
                            assert(sh.deep_view() =~= sdec_shape(entries_dv(fields@))->Ok_0);
                        }
                        Ok(sh)
                    },
                }
            } else if str_eq_lit(tag, "rp") {
                decode_repeater(fields)
            } else if str_eq_lit(tag, "tm") {
                decode_trim(fields)
            } else if str_eq_lit(tag, "rd") {
                decode_rounded_corners(fields)
            } else if str_eq_lit(tag, "pb") {
                decode_pucker_bloat(fields)
            } else if str_eq_lit(tag, "tw") {
                decode_twist(fields)
            } else if str_eq_lit(tag, "mm") {
                decode_merge(fields)
            } else if str_eq_lit(tag, "op") {
                decode_offset_path(fields)
            } else if str_eq_lit(tag, "zz") {
                decode_zig_zag(fields)
            } else {
                Err(DecodeError::UnknownDiscriminant)
            }
        },
        _ => Err(DecodeError::Schema),
    }
}

/// A shape-layer wrapper from a value.
pub fn decode_shape_layer(v: &Value) -> (r: Result<ShapeLayer, DecodeError>)
    ensures
        res_v(r) == sdec_shape_layer(v.deep_view()),
    decreases v.deep_view(),
{
    match v {
        Value::Obj(fields) => {
            let name = match crate::prim::decode_opt_str(get_field(fields, Key::Nm)) {
                Ok(x) => x,
                Err(e) => {
                    return Err(e);
                },
            };
            let hidden = match crate::prim::decode_opt_bool(get_field(fields, Key::Hd)) {
                Ok(x) => x,
                Err(e) => {
                    return Err(e);
                },
            };
            proof {
                assert(decreases_to!(v.deep_view() => entries_dv(fields@)));
            }
            let shape = match decode_shape(fields) {
                Ok(x) => x,
                Err(e) => {
                    return Err(e);
                },
            };
            let sl = ShapeLayer { name, hidden, id: 0, shape };
            proof {
                assert(sl.deep_view() =~= sdec_shape_layer(v.deep_view())->Ok_0);
            }
            Ok(sl)
        },
        _ => Err(DecodeError::Schema),
    }
}

/// A shape-layer list from an array.
pub fn decode_shape_list(items: &Vec<Value>) -> (r: Result<Vec<ShapeLayer>, DecodeError>)
    ensures
        res_v(r) == sdec_shape_layer_seq(vals_dv(items@)),
    decreases vals_dv(items@),
{
    proof {
        lemma_vals_dv(items@);
    }
    let ghost gitems = vals_dv(items@);
    let mut out: Vec<ShapeLayer> = Vec::new();
    let n = items.len();
    for i in 0..n
        invariant
            n == items.len(),
            gitems == vals_dv(items@),
            gitems.len() == n,
            forall|j: int| 0 <= j < n ==> gitems[j] == items@[j].deep_view(),
            out@.len() == i,
            forall|j: int| 0 <= j < i ==> sdec_shape_layer(gitems[j]) == Ok::<
                ShapeLayerV,
                DecodeError,
            >(#[trigger] out@[j].deep_view()),
    {
        proof {
            assert(decreases_to!(gitems => gitems[i as int]));
        }
        match decode_shape_layer(&items[i]) {
            Ok(sl) => {
                out.push(sl);
            },
            Err(e) => {
                proof {
                    lemma_sdec_sl_seq_ok(gitems, out.deep_view(), i as int);
                    assert(gitems.skip(i as int).len() > 0);
                    assert(gitems.skip(i as int)[0] == gitems[i as int]);
                    assert(sdec_shape_layer_seq(gitems.skip(i as int)) == Err::<
                        Seq<ShapeLayerV>,
                        DecodeError,
                    >(e));
                }
                return Err(e);
            },
        }
    }
    proof {
        lemma_sdec_sl_seq_ok(gitems, out.deep_view(), n as int);
        assert(gitems.skip(n as int) =~= Seq::empty());
        assert(out.deep_view() + Seq::<ShapeLayerV>::empty() =~= out.deep_view());
    }
    Ok(out)
}

/// The encoding of a shape: its tag and its fields.
pub open spec fn senc_shape(s: ShapeV) -> Seq<EntryV>
    decreases s,
{
    match s {
        ShapeV::Rectangle(x) => seq![
                EntryV { key: Key::Ty, val: ValueV::Str("rc"@) },
                EntryV { key: Key::D, val: senc_shape_direction(x.direction) },
                EntryV { key: Key::P, val: senc_animated_v(x.position, enc_vec2_f()) },
                EntryV { key: Key::S, val: senc_animated_v(x.size, enc_vec2_f()) },
                EntryV { key: Key::R, val: senc_animated_v(x.radius, enc_num_f()) },
            ],
        ShapeV::Ellipse(x) => seq![
                EntryV { key: Key::Ty, val: ValueV::Str("el"@) },
                EntryV { key: Key::D, val: senc_shape_direction(x.direction) },
                EntryV { key: Key::P, val: senc_animated_v(x.position, enc_vec2_f()) },
                EntryV { key: Key::S, val: senc_animated_v(x.size, enc_vec2_f()) },
            ],
        ShapeV::PolyStar(x) => seq![
                EntryV { key: Key::Ty, val: ValueV::Str("sr"@) },
                EntryV { key: Key::D, val: senc_shape_direction(x.direction) },
                EntryV { key: Key::P, val: senc_animated_v(x.position, enc_vec2_f()) },
                EntryV { key: Key::Or, val: senc_animated_v(x.outer_radius, enc_num_f()) },
                EntryV { key: Key::Os, val: senc_animated_v(x.outer_roundness, enc_num_f()) },
                EntryV { key: Key::Ir, val: senc_animated_v(x.inner_radius, enc_num_f()) },
                EntryV { key: Key::Is, val: senc_animated_v(x.inner_roundness, enc_num_f()) },
                EntryV { key: Key::R, val: senc_animated_v(x.rotation, enc_num_f()) },
                EntryV { key: Key::Pt, val: senc_animated_v(x.points, enc_num_f()) },
                EntryV { key: Key::Sy, val: senc_poly_star_type(x.star_type) },
            ],
        ShapeV::Path { d } => seq![
                EntryV { key: Key::Ty, val: ValueV::Str("sh"@) },
                EntryV { key: Key::Ks, val: senc_animated_v(d, enc_beziers_f()) },
            ],
        ShapeV::Fill(x) => seq![
                EntryV { key: Key::Ty, val: ValueV::Str("fl"@) },
                EntryV { key: Key::O, val: senc_animated_v(x.opacity, enc_num_f()) },
                EntryV { key: Key::C, val: senc_animated_v(x.color, enc_rgb_f()) },
                EntryV { key: Key::R, val: senc_fill_rule(x.fill_rule) },
            ],
        ShapeV::Stroke(x) => seq![
                EntryV { key: Key::Ty, val: ValueV::Str("st"@) },
                EntryV { key: Key::Lc, val: senc_line_cap(x.line_cap) },
                EntryV { key: Key::Lj, val: senc_line_join(x.line_join) },
                EntryV { key: Key::Ml, val: ValueV::Num(x.miter_limit) },
                EntryV { key: Key::O, val: senc_animated_v(x.opacity, enc_num_f()) },
                EntryV { key: Key::W, val: senc_animated_v(x.width, enc_num_f()) },
                EntryV { key: Key::D, val: senc_dash_list(x.dashes) },
                EntryV { key: Key::C, val: senc_animated_v(x.color, enc_rgb_f()) },
            ],
        ShapeV::GradientFill { opacity, fill_rule, start, end, gradient_ty, colors } => seq![
                EntryV { key: Key::Ty, val: ValueV::Str("gf"@) },
                EntryV { key: Key::O, val: senc_animated_v(opacity, enc_num_f()) },
                EntryV { key: Key::R, val: senc_fill_rule(fill_rule) },
                EntryV { key: Key::S, val: senc_animated_v(start, enc_vec2_f()) },
                EntryV { key: Key::E, val: senc_animated_v(end, enc_vec2_f()) },
                EntryV { key: Key::T, val: senc_gradient_type(gradient_ty) },
                EntryV { key: Key::G, val: senc_color_list(colors) },
            ],
        ShapeV::GradientStroke { line_cap, line_join, miter_limit, opacity, width, dashes, start, end, gradient_ty, colors } => seq![
                EntryV { key: Key::Ty, val: ValueV::Str("gs"@) },
                EntryV { key: Key::Lc, val: senc_line_cap(line_cap) },
                EntryV { key: Key::Lj, val: senc_line_join(line_join) },
                EntryV { key: Key::Ml, val: ValueV::Num(miter_limit) },
                EntryV { key: Key::O, val: senc_animated_v(opacity, enc_num_f()) },
                EntryV { key: Key::W, val: senc_animated_v(width, enc_num_f()) },
                EntryV { key: Key::D, val: senc_dash_list(dashes) },
                EntryV { key: Key::S, val: senc_animated_v(start, enc_vec2_f()) },
                EntryV { key: Key::E, val: senc_animated_v(end, enc_vec2_f()) },
                EntryV { key: Key::T, val: senc_gradient_type(gradient_ty) },
                EntryV { key: Key::G, val: senc_color_list(colors) },
            ],
        ShapeV::Repeater { copies, offset, composite, transform } => seq![
                EntryV { key: Key::Ty, val: ValueV::Str("rp"@) },
                EntryV { key: Key::C, val: senc_animated_v(copies, enc_num_f()) },
                EntryV { key: Key::O, val: senc_animated_v(offset, enc_num_f()) },
                EntryV { key: Key::M, val: senc_composite(composite) },
                EntryV { key: Key::Tr, val: senc_repeater_transform(transform) },
            ],
        ShapeV::Trim { start, end, offset, multiple_shape } => seq![
                EntryV { key: Key::Ty, val: ValueV::Str("tm"@) },
                EntryV { key: Key::S, val: senc_animated_v(start, enc_num_f()) },
                EntryV { key: Key::E, val: senc_animated_v(end, enc_num_f()) },
                EntryV { key: Key::O, val: senc_animated_v(offset, enc_num_f()) },
                EntryV { key: Key::M, val: senc_trim_multiple_shape(multiple_shape) },
            ],
        ShapeV::RoundedCorners { radius } => seq![
                EntryV { key: Key::Ty, val: ValueV::Str("rd"@) },
                EntryV { key: Key::R, val: senc_animated_v(radius, enc_num_f()) },
            ],
        ShapeV::PuckerBloat { amount } => seq![
                EntryV { key: Key::Ty, val: ValueV::Str("pb"@) },
                EntryV { key: Key::A, val: senc_animated_v(amount, enc_num_f()) },
            ],
        ShapeV::Twist { angle, center } => seq![
                EntryV { key: Key::Ty, val: ValueV::Str("tw"@) },
                EntryV { key: Key::A, val: senc_animated_v(angle, enc_num_f()) },
                EntryV { key: Key::C, val: senc_animated_v(center, enc_vec2_f()) },
            ],
        ShapeV::Merge { mode } => seq![
                EntryV { key: Key::Ty, val: ValueV::Str("mm"@) },
                EntryV { key: Key::Mm, val: senc_merge_mode(mode) },
            ],
        ShapeV::OffsetPath { amount, line_join, miter_limit } => seq![
                EntryV { key: Key::Ty, val: ValueV::Str("op"@) },
                EntryV { key: Key::A, val: senc_animated_v(amount, enc_num_f()) },
                EntryV { key: Key::Lj, val: senc_line_join(line_join) },
                EntryV { key: Key::Ml, val: ValueV::Num(miter_limit) },
            ],
        ShapeV::ZigZag { radius, distance, ridges } => seq![
                EntryV { key: Key::Ty, val: ValueV::Str("zz"@) },
                EntryV { key: Key::R, val: senc_animated_v(radius, enc_num_f()) },
                EntryV { key: Key::S, val: senc_animated_v(distance, enc_num_f()) },
                EntryV { key: Key::Pt, val: senc_animated_v(ridges, enc_num_f()) },
            ],
        ShapeV::Group { shapes } => seq![
                EntryV { key: Key::Ty, val: ValueV::Str("gr"@) },
                EntryV { key: Key::It, val: ValueV::Arr(senc_shape_layer_seq_enc(shapes)) },
            ],
        ShapeV::Transform(t) => seq![EntryV { key: Key::Ty, val: ValueV::Str("tr"@) }]
            + senc_transform(t),
    }
}

/// The encoding of a shape-layer wrapper.
pub open spec fn senc_shape_layer(sl: ShapeLayerV) -> ValueV
    decreases sl,
{
    ValueV::Obj(
        (match sl.name {
            None => Seq::empty(),
            Some(nm) => seq![EntryV { key: Key::Nm, val: ValueV::Str(nm) }],
        }) + seq![EntryV { key: Key::Hd, val: ValueV::Bool(sl.hidden) }] + senc_shape(sl.shape),
    )
}

/// The encoding of a shape-layer list.
pub open spec fn senc_shape_layer_seq_enc(ss: Seq<ShapeLayerV>) -> Seq<ValueV>
    decreases ss,
{
    if ss.len() == 0 {
        Seq::empty()
    } else {
        seq![senc_shape_layer(ss[0])] + senc_shape_layer_seq_enc(ss.drop_first())
    }
}

/// The entries of an encoded shape.
#[verifier::rlimit(100)]
#[verifier::spinoff_prover]
pub fn encode_shape_entries(s: &Shape) -> (r: Vec<Entry>)
    ensures
        entries_dv(r@) == senc_shape(s.deep_view()),
    decreases s.deep_view(),
{
    let mut fields: Vec<Entry> = Vec::new();
    match s {
        Shape::Rectangle(x) => {
            proof {
                reveal_strlit("rc");
            }
            fields.push(Entry { key: Key::Ty, val: Value::Str(String::from_str("rc")) });
            fields.push(Entry { key: Key::D, val: encode_shape_direction(x.direction) });
            fields.push(Entry { key: Key::P, val: encode_animated_vec2(&x.position) });
            fields.push(Entry { key: Key::S, val: encode_animated_vec2(&x.size) });
            fields.push(Entry { key: Key::R, val: encode_animated_num(&x.radius) });
        },
        Shape::Ellipse(x) => {
            proof {
                reveal_strlit("el");
            }
            fields.push(Entry { key: Key::Ty, val: Value::Str(String::from_str("el")) });
            fields.push(Entry { key: Key::D, val: encode_shape_direction(x.direction) });
            fields.push(Entry { key: Key::P, val: encode_animated_vec2(&x.position) });
            fields.push(Entry { key: Key::S, val: encode_animated_vec2(&x.size) });
        },
        Shape::PolyStar(x) => {
            proof {
                reveal_strlit("sr");
            }
            fields.push(Entry { key: Key::Ty, val: Value::Str(String::from_str("sr")) });
            fields.push(Entry { key: Key::D, val: encode_shape_direction(x.direction) });
            fields.push(Entry { key: Key::P, val: encode_animated_vec2(&x.position) });
            fields.push(Entry { key: Key::Or, val: encode_animated_num(&x.outer_radius) });
            fields.push(Entry { key: Key::Os, val: encode_animated_num(&x.outer_roundness) });
            fields.push(Entry { key: Key::Ir, val: encode_animated_num(&x.inner_radius) });
            fields.push(Entry { key: Key::Is, val: encode_animated_num(&x.inner_roundness) });
            fields.push(Entry { key: Key::R, val: encode_animated_num(&x.rotation) });
            fields.push(Entry { key: Key::Pt, val: encode_animated_num(&x.points) });
            fields.push(Entry { key: Key::Sy, val: encode_poly_star_type(x.star_type) });
        },
        Shape::Path { d } => {
            proof {
                reveal_strlit("sh");
            }
            fields.push(Entry { key: Key::Ty, val: Value::Str(String::from_str("sh")) });
            fields.push(Entry { key: Key::Ks, val: encode_animated_beziers(&d) });
        },
        Shape::Fill(x) => {
            proof {
                reveal_strlit("fl");
            }
            fields.push(Entry { key: Key::Ty, val: Value::Str(String::from_str("fl")) });
            fields.push(Entry { key: Key::O, val: encode_animated_num(&x.opacity) });
            fields.push(Entry { key: Key::C, val: encode_animated_rgb(&x.color) });
            fields.push(Entry { key: Key::R, val: encode_fill_rule(x.fill_rule) });
        },
        Shape::Stroke(x) => {
            proof {
                reveal_strlit("st");
            }
            fields.push(Entry { key: Key::Ty, val: Value::Str(String::from_str("st")) });
            fields.push(Entry { key: Key::Lc, val: encode_line_cap(x.line_cap) });
            fields.push(Entry { key: Key::Lj, val: encode_line_join(x.line_join) });
            fields.push(Entry { key: Key::Ml, val: Value::Num(x.miter_limit) });
            fields.push(Entry { key: Key::O, val: encode_animated_num(&x.opacity) });
            fields.push(Entry { key: Key::W, val: encode_animated_num(&x.width) });
            fields.push(Entry { key: Key::D, val: encode_dash_list(&x.dashes) });
            fields.push(Entry { key: Key::C, val: encode_animated_rgb(&x.color) });
        },
        Shape::GradientFill { opacity, fill_rule, start, end, gradient_ty, colors } => {
            proof {
                reveal_strlit("gf");
            }
            fields.push(Entry { key: Key::Ty, val: Value::Str(String::from_str("gf")) });
            fields.push(Entry { key: Key::O, val: encode_animated_num(&opacity) });
            fields.push(Entry { key: Key::R, val: encode_fill_rule(*fill_rule) });
            fields.push(Entry { key: Key::S, val: encode_animated_vec2(&start) });
            fields.push(Entry { key: Key::E, val: encode_animated_vec2(&end) });
            fields.push(Entry { key: Key::T, val: encode_gradient_type(*gradient_ty) });
            fields.push(Entry { key: Key::G, val: encode_color_list(&colors) });
        },
        Shape::GradientStroke { line_cap, line_join, miter_limit, opacity, width, dashes, start, end, gradient_ty, colors } => {
            proof {
                reveal_strlit("gs");
            }
            fields.push(Entry { key: Key::Ty, val: Value::Str(String::from_str("gs")) });
            fields.push(Entry { key: Key::Lc, val: encode_line_cap(*line_cap) });
            fields.push(Entry { key: Key::Lj, val: encode_line_join(*line_join) });
            fields.push(Entry { key: Key::Ml, val: Value::Num(*miter_limit) });
            fields.push(Entry { key: Key::O, val: encode_animated_num(&opacity) });
            fields.push(Entry { key: Key::W, val: encode_animated_num(&width) });
            fields.push(Entry { key: Key::D, val: encode_dash_list(&dashes) });
            fields.push(Entry { key: Key::S, val: encode_animated_vec2(&start) });
            fields.push(Entry { key: Key::E, val: encode_animated_vec2(&end) });
            fields.push(Entry { key: Key::T, val: encode_gradient_type(*gradient_ty) });
            fields.push(Entry { key: Key::G, val: encode_color_list(&colors) });
        },
        Shape::Repeater { copies, offset, composite, transform } => {
            proof {
                reveal_strlit("rp");
            }
            fields.push(Entry { key: Key::Ty, val: Value::Str(String::from_str("rp")) });
            fields.push(Entry { key: Key::C, val: encode_animated_num(&copies) });
            fields.push(Entry { key: Key::O, val: encode_animated_num(&offset) });
            fields.push(Entry { key: Key::M, val: encode_composite(*composite) });
            fields.push(Entry { key: Key::Tr, val: encode_repeater_transform(&transform) });
        },
        Shape::Trim { start, end, offset, multiple_shape } => {
            proof {
                reveal_strlit("tm");
            }
            fields.push(Entry { key: Key::Ty, val: Value::Str(String::from_str("tm")) });
            fields.push(Entry { key: Key::S, val: encode_animated_num(&start) });
            fields.push(Entry { key: Key::E, val: encode_animated_num(&end) });
            fields.push(Entry { key: Key::O, val: encode_animated_num(&offset) });
            fields.push(Entry { key: Key::M, val: encode_trim_multiple_shape(*multiple_shape) });
        },
        Shape::RoundedCorners { radius } => {
            proof {
                reveal_strlit("rd");
            }
            fields.push(Entry { key: Key::Ty, val: Value::Str(String::from_str("rd")) });
            fields.push(Entry { key: Key::R, val: encode_animated_num(&radius) });
        },
        Shape::PuckerBloat { amount } => {
            proof {
                reveal_strlit("pb");
            }
            fields.push(Entry { key: Key::Ty, val: Value::Str(String::from_str("pb")) });
            fields.push(Entry { key: Key::A, val: encode_animated_num(&amount) });
        },
        Shape::Twist { angle, center } => {
            proof {
                reveal_strlit("tw");
            }
            fields.push(Entry { key: Key::Ty, val: Value::Str(String::from_str("tw")) });
            fields.push(Entry { key: Key::A, val: encode_animated_num(&angle) });
            fields.push(Entry { key: Key::C, val: encode_animated_vec2(&center) });
        },
        Shape::Merge { mode } => {
            proof {
                reveal_strlit("mm");
            }
            fields.push(Entry { key: Key::Ty, val: Value::Str(String::from_str("mm")) });
            fields.push(Entry { key: Key::Mm, val: encode_merge_mode(*mode) });
        },
        Shape::OffsetPath { amount, line_join, miter_limit } => {
            proof {
                reveal_strlit("op");
            }
            fields.push(Entry { key: Key::Ty, val: Value::Str(String::from_str("op")) });
            fields.push(Entry { key: Key::A, val: encode_animated_num(&amount) });
            fields.push(Entry { key: Key::Lj, val: encode_line_join(*line_join) });
            fields.push(Entry { key: Key::Ml, val: Value::Num(*miter_limit) });
        },
        Shape::ZigZag { radius, distance, ridges } => {
            proof {
                reveal_strlit("zz");
            }
            fields.push(Entry { key: Key::Ty, val: Value::Str(String::from_str("zz")) });
            fields.push(Entry { key: Key::R, val: encode_animated_num(&radius) });
            fields.push(Entry { key: Key::S, val: encode_animated_num(&distance) });
            fields.push(Entry { key: Key::Pt, val: encode_animated_num(&ridges) });
        },
        Shape::Group { shapes } => {
            proof {
                reveal_strlit("gr");
                let gval = (ShapeV::Group { shapes: shape_layers_dv(shapes@) });
                assert(s.deep_view() == gval);
                assert(decreases_to!(gval => gval->Group_shapes));
                assert(gval->Group_shapes == shape_layers_dv(shapes@));
            }
            fields.push(Entry { key: Key::Ty, val: Value::Str(String::from_str("gr")) });
            let arr = encode_shape_layer_arr(shapes);
            fields.push(Entry { key: Key::It, val: arr });
        },
        Shape::Transform(t) => {
            proof {
                reveal_strlit("tr");
            }
            fields.push(Entry { key: Key::Ty, val: Value::Str(String::from_str("tr")) });
            let ghost ghead = fields@;
            push_transform_fields(&mut fields, t);
            proof {
                lemma_entries_dv(ghead);
            }
        },
    }
    proof {
        lemma_entries_dv(fields@);
        assert(entries_dv(fields@) =~= senc_shape(s.deep_view()));
    }
    fields
}

/// An encoded shape-layer wrapper.
pub fn encode_shape_layer(sl: &ShapeLayer) -> (r: Value)
    ensures
        r.deep_view() == senc_shape_layer(sl.deep_view()),
    decreases sl.deep_view(),
{
    let mut fields: Vec<Entry> = Vec::new();
    match &sl.name {
        None => {},
        Some(nm) => {
            fields.push(Entry { key: Key::Nm, val: Value::Str(nm.clone()) });
        },
    }
    fields.push(Entry { key: Key::Hd, val: Value::Bool(sl.hidden) });
    proof {
        assert(decreases_to!(sl.deep_view() => sl.deep_view().shape));
    }
    let mut tail = encode_shape_entries(&sl.shape);
    let ghost gtail = tail@;
    let ghost ghead = fields@;
    fields.append(&mut tail);
    let ghost gfields = fields@;
    let r = Value::Obj(fields);
    proof {
        lemma_entries_dv(ghead);
        lemma_entries_dv(gtail);
        lemma_entries_dv(gfields);
        assert(gfields =~= ghead + gtail);
        assert forall|i: int| 0 <= i < gfields.len() implies entries_dv(gfields)[i] == (
        entries_dv(ghead) + entries_dv(gtail))[i] by {
            if i < ghead.len() {
                assert(gfields[i] == ghead[i]);
            } else {
                assert(gfields[i] == gtail[i - ghead.len()]);
            }
        }
        assert(entries_dv(gfields) =~= entries_dv(ghead) + entries_dv(gtail));
        assert(r.deep_view() matches ValueV::Obj(es) && es =~= senc_shape_layer(
            sl.deep_view(),
        )->Obj_0);
    }
    r
}

/// An encoded shape-layer list.
pub fn encode_shape_layer_arr(ss: &Vec<ShapeLayer>) -> (r: Value)
    ensures
        r.deep_view() == ValueV::Arr(senc_shape_layer_seq_enc(shape_layers_dv(ss@))),
    decreases shape_layers_dv(ss@),
{
    proof {
        crate::model::lemma_shape_layers_dv(ss@);
    }
    let ghost gss = shape_layers_dv(ss@);
    let mut items: Vec<Value> = Vec::new();
    let n = ss.len();
    for i in 0..n
        invariant
            n == ss.len(),
            gss == shape_layers_dv(ss@),
            gss.len() == n,
            forall|j: int| 0 <= j < n ==> gss[j] == ss@[j].deep_view(),
            items@.len() == i,
            forall|j: int| 0 <= j < i ==> items@[j].deep_view() == senc_shape_layer(gss[j]),
    {
        proof {
            assert(decreases_to!(gss => gss[i as int]));
        }
        items.push(encode_shape_layer(&ss[i]));
    }
    let ghost gitems = items@;
    let r = Value::Arr(items);
    proof {
        lemma_vals_dv(gitems);
        lemma_senc_sl_seq(gss);
        assert(r.deep_view() matches ValueV::Arr(s) && s =~= senc_shape_layer_seq_enc(gss));
    }
    r
}

/// Pointwise description of an encoded shape-layer list.
pub proof fn lemma_senc_sl_seq(ss: Seq<ShapeLayerV>)
    ensures
        senc_shape_layer_seq_enc(ss).len() == ss.len(),
        forall|i: int| 0 <= i < ss.len() ==> senc_shape_layer_seq_enc(ss)[i] == senc_shape_layer(
            ss[i],
        ),
    decreases ss,
{
    if ss.len() == 0 {
        assert(senc_shape_layer_seq_enc(ss) =~= Seq::empty());
    } else {
        lemma_senc_sl_seq(ss.drop_first());
        reveal_with_fuel(senc_shape_layer_seq_enc, 2);
        assert(senc_shape_layer_seq_enc(ss) == seq![senc_shape_layer(ss[0])]
            + senc_shape_layer_seq_enc(ss.drop_first()));
        assert forall|i: int| 0 <= i < ss.len() implies senc_shape_layer_seq_enc(ss)[i]
            == senc_shape_layer(ss[i]) by {
            let hd = seq![senc_shape_layer(ss[0])];
            let tl = senc_shape_layer_seq_enc(ss.drop_first());
            if i > 0 {
                assert((hd + tl)[i] == tl[i - 1]);
                assert(ss.drop_first()[i - 1] == ss[i]);
            } else {
                assert((hd + tl)[0] == hd[0]);
            }
        }
    }
}


} // verus!
