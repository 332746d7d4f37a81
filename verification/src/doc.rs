//! Document assembly: layer content inference, layers, fonts, assets and
//! the root document.
//!
//! A layer's content is inferred from which family-specific keys are
//! present, in a fixed precedence order: a `refId` key makes a
//! precomposition reference; else a `sc` key makes a solid color; else a
//! `shapes` key makes a shape group; else the layer is empty.

use vstd::prelude::*;

use crate::color::{rgba_from_hex, rgba_hex};
use crate::model::{
    DecodeError, Font, FontList, FontListV, FontV, Layer, LayerContent, LayerContentV, LayerV,
    Model, ModelV, PreCompositionRef, PreCompositionRefV, Precomposition, PrecompositionV,
    ShapeGroup, ShapeGroupV, ShapeLayerV, shape_layers_dv,
};
use crate::enums::{
    decode_font_path_origin_field, sdec_font_path_origin_field, senc_font_path_origin,
    encode_font_path_origin,
};
use crate::prim::{
    decode_bool_flag, decode_opt_bool, decode_opt_num, decode_opt_str, decode_opt_u32,
    decode_req_num, decode_req_u32, encode_bool_int, encode_u32, field, get_field, res_v,
    sdec_bool_flag, sdec_opt_bool, sdec_opt_num, sdec_opt_str, sdec_opt_u32, sdec_req_num,
    sdec_req_u32, sdec_str, senc_bool_int, senc_u32,
};
use crate::shapes::{
    decode_opt_anim_num, decode_shape_list, decode_transform, encode_shape_layer_arr,
    push_transform_fields, sdec_opt_anim_num, sdec_shape_layer_seq, sdec_transform,
    senc_shape_layer_seq_enc, senc_transform,
};
use crate::anim::{enc_num_f, senc_animated_v};
use crate::value::{
    Entry, EntryV, Key, Value, ValueV, entries_dv, lemma_entries_dv, lemma_vals_dv, vals_dv,
};

verus! {

/// A required string field.
pub open spec fn sdec_req_str(o: Option<ValueV>) -> Result<Seq<char>, DecodeError> {
    match o {
        None => Err(DecodeError::Schema),
        Some(v) => sdec_str(v),
    }
}

pub fn decode_req_str(o: Option<&Value>) -> (r: Result<String, DecodeError>)
    ensures
        res_v(r) == sdec_req_str(o.deep_view()),
{
    match o {
        None => Err(DecodeError::Schema),
        Some(v) => crate::prim::decode_str(v),
    }
}

/// A required textual color field.
pub open spec fn sdec_req_rgba(o: Option<ValueV>) -> Result<crate::model::Rgba, DecodeError> {
    match o {
        None => Err(DecodeError::Schema),
        Some(v) => match v {
            ValueV::Str(s) => match rgba_from_hex(s) {
                None => Err(DecodeError::Schema),
                Some(c) => Ok(c),
            },
            _ => Err(DecodeError::Schema),
        },
    }
}

pub fn decode_req_rgba(o: Option<&Value>) -> (r: Result<crate::model::Rgba, DecodeError>)
    ensures
        r == sdec_req_rgba(o.deep_view()),
{
    match o {
        None => Err(DecodeError::Schema),
        Some(v) => match v {
            Value::Str(s) => crate::model::Rgba::from_str(s.as_str()),
            _ => Err(DecodeError::Schema),
        },
    }
}

/// A precomposition reference: identifier, dimensions, optional time
/// remapping.  The reference is never resolved by the decoder.
pub open spec fn sdec_precomp_ref(fs: Seq<EntryV>) -> Result<PreCompositionRefV, DecodeError> {
    match sdec_req_str(field(fs, Key::RefId)) {
        Err(e) => Err(e),
        Ok(ref_id) => match sdec_req_u32(field(fs, Key::W)) {
            Err(e) => Err(e),
            Ok(width) => match sdec_req_u32(field(fs, Key::H)) {
                Err(e) => Err(e),
                Ok(height) => match sdec_opt_anim_num(field(fs, Key::Tm)) {
                    Err(e) => Err(e),
                    Ok(time_remapping) => Ok(PreCompositionRefV {
                        ref_id,
                        width,
                        height,
                        time_remapping,
                    }),
                },
            },
        },
    }
}

fn decode_precomp_ref(fields: &Vec<Entry>) -> (r: Result<PreCompositionRef, DecodeError>)
    ensures
        res_v(r) == sdec_precomp_ref(entries_dv(fields@)),
{
    let ref_id = match decode_req_str(get_field(fields, Key::RefId)) {
        Ok(x) => x,
        Err(e) => {
            return Err(e);
        },
    };
    let width = match decode_req_u32(get_field(fields, Key::W)) {
        Ok(x) => x,
        Err(e) => {
            return Err(e);
        },
    };
    let height = match decode_req_u32(get_field(fields, Key::H)) {
        Ok(x) => x,
        Err(e) => {
            return Err(e);
        },
    };
    let time_remapping = match decode_opt_anim_num(get_field(fields, Key::Tm)) {
        Ok(x) => x,
        Err(e) => {
            return Err(e);
        },
    };
    let p = PreCompositionRef { ref_id, width, height, time_remapping };
    proof {
        assert(p.deep_view() =~= sdec_precomp_ref(entries_dv(fields@))->Ok_0);
    }
    Ok(p)
}

/// A layer's content, by the documented precedence over the present keys.
pub open spec fn sdec_layer_content(fs: Seq<EntryV>) -> Result<LayerContentV, DecodeError> {
    if field(fs, Key::RefId) is Some {
        match sdec_precomp_ref(fs) {
            Err(e) => Err(e),
            Ok(p) => Ok(LayerContentV::Precomposition(p)),
        }
    } else if field(fs, Key::Sc) is Some {
        match sdec_req_rgba(field(fs, Key::Sc)) {
            Err(e) => Err(e),
            Ok(color) => match sdec_req_num(field(fs, Key::Sw)) {
                Err(e) => Err(e),
                Ok(width) => match sdec_req_num(field(fs, Key::Sh)) {
                    Err(e) => Err(e),
                    Ok(height) => Ok(LayerContentV::SolidColor { color, height, width }),
                },
            },
        }
    } else if field(fs, Key::Shapes) is Some {
        match field(fs, Key::Shapes) {
            Some(sv) => match sv {
                ValueV::Arr(items) => match sdec_shape_layer_seq(items) {
                    Err(e) => Err(e),
                    Ok(shapes) => Ok(LayerContentV::Shape(ShapeGroupV { shapes })),
                },
                _ => Err(DecodeError::Schema),
            },
            None => Err(DecodeError::Schema),
        }
    } else {
        Ok(LayerContentV::Empty)
    }
}

fn decode_layer_content(fields: &Vec<Entry>) -> (r: Result<LayerContent, DecodeError>)
    ensures
        res_v(r) == sdec_layer_content(entries_dv(fields@)),
{
    if let Some(_) = get_field(fields, Key::RefId) {
        match decode_precomp_ref(fields) {
            Err(e) => Err(e),
            Ok(p) => Ok(LayerContent::Precomposition(p)),
        }
    } else if let Some(_) = get_field(fields, Key::Sc) {
        let color = match decode_req_rgba(get_field(fields, Key::Sc)) {
            Ok(x) => x,
            Err(e) => {
                return Err(e);
            },
        };
        let width = match decode_req_num(get_field(fields, Key::Sw)) {
            Ok(x) => x,
            Err(e) => {
                return Err(e);
            },
        };
        let height = match decode_req_num(get_field(fields, Key::Sh)) {
            Ok(x) => x,
            Err(e) => {
                return Err(e);
            },
        };
        Ok(LayerContent::SolidColor { color, height, width })
    } else if let Some(sv) = get_field(fields, Key::Shapes) {
        match sv {
            Value::Arr(items) => {
                proof {
                    lemma_vals_dv(items@);
                }
                match decode_shape_list(items) {
                    Err(e) => Err(e),
                    Ok(shapes) => {
                        let c = LayerContent::Shape(ShapeGroup { shapes });
                        proof {
                            crate::model::lemma_shape_layers_dv(shapes@);
                            assert(shape_layers_dv(shapes@) =~= shapes.deep_view());
                            assert(c.deep_view() =~= sdec_layer_content(
                                entries_dv(fields@),
                            )->Ok_0);
                        }
                        Ok(c)
                    },
                }
            },
            _ => Err(DecodeError::Schema),
        }
    } else {
        Ok(LayerContent::Empty)
    }
}

/// One timeline layer.
pub open spec fn sdec_layer(v: ValueV) -> Result<LayerV, DecodeError> {
    match v {
        ValueV::Obj(fs) => match sdec_bool_flag(field(fs, Key::Ddd)) {
            Err(e) => Err(e),
            Ok(is_3d) => match sdec_opt_bool(field(fs, Key::Hd)) {
                Err(e) => Err(e),
                Ok(hidden) => match sdec_opt_u32(field(fs, Key::Ind)) {
                    Err(e) => Err(e),
                    Ok(index) => match sdec_opt_u32(field(fs, Key::Parent)) {
                        Err(e) => Err(e),
                        Ok(parent_index) => match sdec_bool_flag(field(fs, Key::Ao)) {
                            Err(e) => Err(e),
                            Ok(auto_orient) => match sdec_req_num(field(fs, Key::Ip)) {
                                Err(e) => Err(e),
                                Ok(start_frame) => match sdec_req_num(field(fs, Key::Op)) {
                                    Err(e) => Err(e),
                                    Ok(end_frame) => match sdec_req_num(field(fs, Key::St)) {
                                        Err(e) => Err(e),
                                        Ok(start_time) => match sdec_opt_str(
                                            field(fs, Key::Nm),
                                        ) {
                                            Err(e) => Err(e),
                                            Ok(name) => match sdec_opt_transform(
                                                field(fs, Key::Ks),
                                            ) {
                                                Err(e) => Err(e),
                                                Ok(transform) => match sdec_layer_content(fs) {
                                                    Err(e) => Err(e),
                                                    Ok(content) => Ok(LayerV {
                                                        is_3d,
                                                        hidden,
                                                        index,
                                                        parent_index,
                                                        id: 0,
                                                        auto_orient,
                                                        start_frame,
                                                        end_frame,
                                                        start_time,
                                                        name,
                                                        transform,
                                                        content,
                                                    }),
                                                },
                                            },
                                        },
                                    },
                                },
                            },
                        },
                    },
                },
            },
        },
        _ => Err(DecodeError::Schema),
    }
}

/// An optional transform field.
pub open spec fn sdec_opt_transform(o: Option<ValueV>) -> Result<
    Option<crate::model::TransformV>,
    DecodeError,
> {
    match o {
        None => Ok(None),
        Some(v) => match v {
            ValueV::Obj(fs) => match sdec_transform(fs) {
                Err(e) => Err(e),
                Ok(t) => Ok(Some(t)),
            },
            _ => Err(DecodeError::Schema),
        },
    }
}

fn decode_opt_transform(o: Option<&Value>) -> (r: Result<
    Option<crate::model::Transform>,
    DecodeError,
>)
    ensures
        res_v(r) == sdec_opt_transform(o.deep_view()),
{
    match o {
        None => Ok(None),
        Some(v) => match v {
            Value::Obj(fields) => match decode_transform(fields) {
                Err(e) => Err(e),
                Ok(t) => Ok(Some(t)),
            },
            _ => Err(DecodeError::Schema),
        },
    }
}

#[verifier::rlimit(100)]
#[verifier::spinoff_prover]
pub fn decode_layer(v: &Value) -> (r: Result<Layer, DecodeError>)
    ensures
        res_v(r) == sdec_layer(v.deep_view()),
{
    match v {
        Value::Obj(fields) => {
            let is_3d = match decode_bool_flag(get_field(fields, Key::Ddd)) {
                Ok(x) => x,
                Err(e) => {
                    return Err(e);
                },
            };
            let hidden = match decode_opt_bool(get_field(fields, Key::Hd)) {
                Ok(x) => x,
                Err(e) => {
                    return Err(e);
                },
            };
            let index = match decode_opt_u32(get_field(fields, Key::Ind)) {
                Ok(x) => x,
                Err(e) => {
                    return Err(e);
                },
            };
            let parent_index = match decode_opt_u32(get_field(fields, Key::Parent)) {
                Ok(x) => x,
                Err(e) => {
                    return Err(e);
                },
            };
            let auto_orient = match decode_bool_flag(get_field(fields, Key::Ao)) {
                Ok(x) => x,
                Err(e) => {
                    return Err(e);
                },
            };
            let start_frame = match decode_req_num(get_field(fields, Key::Ip)) {
                Ok(x) => x,
                Err(e) => {
                    return Err(e);
                },
            };
            let end_frame = match decode_req_num(get_field(fields, Key::Op)) {
                Ok(x) => x,
                Err(e) => {
                    return Err(e);
                },
            };
            let start_time = match decode_req_num(get_field(fields, Key::St)) {
                Ok(x) => x,
                Err(e) => {
                    return Err(e);
                },
            };
            let name = match decode_opt_str(get_field(fields, Key::Nm)) {
                Ok(x) => x,
                Err(e) => {
                    return Err(e);
                },
            };
            let transform = match decode_opt_transform(get_field(fields, Key::Ks)) {
                Ok(x) => x,
                Err(e) => {
                    return Err(e);
                },
            };
            let content = match decode_layer_content(fields) {
                Ok(x) => x,
                Err(e) => {
                    return Err(e);
                },
            };
            let l = Layer {
                is_3d,
                hidden,
                index,
                parent_index,
                id: 0,
                auto_orient,
                start_frame,
                end_frame,
                start_time,
                name,
                transform,
                content,
            };
            proof {
                assert(l.deep_view() =~= sdec_layer(v.deep_view())->Ok_0);
            }
            Ok(l)
        },
        _ => Err(DecodeError::Schema),
    }
}

/// A list of layer, element by element; the first failure wins.
pub open spec fn sdec_layer_seq(items: Seq<ValueV>) -> Result<Seq<LayerV>, DecodeError>
    decreases items.len(),
{
    if items.len() == 0 {
        Ok(Seq::empty())
    } else {
        match sdec_layer(items[0]) {
            Err(e) => Err(e),
            Ok(x) => match sdec_layer_seq(items.drop_first()) {
                Err(e) => Err(e),
                Ok(rest) => Ok(seq![x] + rest),
            },
        }
    }
}

#[verifier::rlimit(60)]
proof fn lemma_sdec_layer_seq_ok(items: Seq<ValueV>, pre: Seq<LayerV>, i: int)
    requires
        0 <= i <= items.len(),
        pre.len() == i,
        forall|j: int| 0 <= j < i ==> sdec_layer(items[j]) == Ok::<LayerV, DecodeError>(pre[j]),
    ensures
        sdec_layer_seq(items) == match sdec_layer_seq(items.skip(i)) {
            Err(e) => Err::<Seq<LayerV>, DecodeError>(e),
            Ok(rest) => Ok(pre + rest),
        },
    decreases i,
{
    if i == 0 {
        assert(items.skip(0) =~= items);
        match sdec_layer_seq(items) {
            Err(e) => {},
            Ok(rest) => {
                assert(pre + rest =~= rest);
            },
        }
    } else {
        lemma_sdec_layer_seq_ok(items, pre.take(i - 1), i - 1);
        assert(items.skip(i - 1).len() > 0);
        assert(items.skip(i - 1)[0] == items[i - 1]);
        assert(items.skip(i - 1).drop_first() =~= items.skip(i));
        assert(sdec_layer(items[i - 1]) == Ok::<LayerV, DecodeError>(pre[i - 1]));
        match sdec_layer_seq(items.skip(i)) {
            Err(e) => {},
            Ok(rest) => {
                assert(pre.take(i - 1) + (seq![pre[i - 1]] + rest) =~= pre + rest);
            },
        }
    }
}

pub fn decode_layer_list(items: &Vec<Value>) -> (r: Result<Vec<Layer>, DecodeError>)
    ensures
        res_v(r) == sdec_layer_seq(vals_dv(items@)),
{
    proof {
        lemma_vals_dv(items@);
    }
    let ghost gitems = vals_dv(items@);
    let mut out: Vec<Layer> = Vec::new();
    let n = items.len();
    for i in 0..n
        invariant
            n == items.len(),
            gitems == vals_dv(items@),
            gitems.len() == n,
            forall|j: int| 0 <= j < n ==> gitems[j] == items@[j].deep_view(),
            out@.len() == i,
            forall|j: int| 0 <= j < i ==> sdec_layer(gitems[j]) == Ok::<LayerV, DecodeError>(
                #[trigger] out@[j].deep_view(),
            ),
    {
        match decode_layer(&items[i]) {
            Ok(x) => {
                out.push(x);
            },
            Err(e) => {
                proof {
                    lemma_sdec_layer_seq_ok(gitems, out.deep_view(), i as int);
                    assert(gitems.skip(i as int).len() > 0);
                    assert(gitems.skip(i as int)[0] == gitems[i as int]);
                    assert(sdec_layer_seq(gitems.skip(i as int)) == Err::<
                        Seq<LayerV>,
                        DecodeError,
                    >(e));
                }
                return Err(e);
            },
        }
    }
    proof {
        lemma_sdec_layer_seq_ok(gitems, out.deep_view(), n as int);
        assert(gitems.skip(n as int) =~= Seq::empty());
        assert(out.deep_view() + Seq::<LayerV>::empty() =~= out.deep_view());
    }
    Ok(out)
}

/// One typeface descriptor.
pub open spec fn sdec_font(v: ValueV) -> Result<FontV, DecodeError> {
    match v {
        ValueV::Obj(fs) => match sdec_opt_num(field(fs, Key::Ascent)) {
            Err(e) => Err(e),
            Ok(ascent) => match sdec_req_str(field(fs, Key::FFamily)) {
                Err(e) => Err(e),
                Ok(family) => match sdec_req_str(field(fs, Key::FName)) {
                    Err(e) => Err(e),
                    Ok(name) => match sdec_req_str(field(fs, Key::FStyle)) {
                        Err(e) => Err(e),
                        Ok(style) => match sdec_opt_str(field(fs, Key::FPath)) {
                            Err(e) => Err(e),
                            Ok(path) => match sdec_opt_str(field(fs, Key::FWeight)) {
                                Err(e) => Err(e),
                                Ok(weight) => match sdec_font_path_origin_field(
                                    field(fs, Key::Origin),
                                ) {
                                    Err(e) => Err(e),
                                    Ok(origin) => match sdec_opt_str(field(fs, Key::FClass)) {
                                        Err(e) => Err(e),
                                        Ok(class) => Ok(FontV {
                                            ascent,
                                            family,
                                            name,
                                            style,
                                            path,
                                            weight,
                                            origin,
                                            class,
                                        }),
                                    },
                                },
                            },
                        },
                    },
                },
            },
        },
        _ => Err(DecodeError::Schema),
    }
}

pub fn decode_font(v: &Value) -> (r: Result<Font, DecodeError>)
    ensures
        res_v(r) == sdec_font(v.deep_view()),
{
    match v {
        Value::Obj(fields) => {
            let ascent = match decode_opt_num(get_field(fields, Key::Ascent)) {
                Ok(x) => x,
                Err(e) => {
                    return Err(e);
                },
            };
            let family = match decode_req_str(get_field(fields, Key::FFamily)) {
                Ok(x) => x,
                Err(e) => {
                    return Err(e);
                },
            };
            let name = match decode_req_str(get_field(fields, Key::FName)) {
                Ok(x) => x,
                Err(e) => {
                    return Err(e);
                },
            };
            let style = match decode_req_str(get_field(fields, Key::FStyle)) {
                Ok(x) => x,
                Err(e) => {
                    return Err(e);
                },
            };
            let path = match decode_opt_str(get_field(fields, Key::FPath)) {
                Ok(x) => x,
                Err(e) => {
                    return Err(e);
                },
            };
            let weight = match decode_opt_str(get_field(fields, Key::FWeight)) {
                Ok(x) => x,
                Err(e) => {
                    return Err(e);
                },
            };
            let origin = match decode_font_path_origin_field(get_field(fields, Key::Origin)) {
                Ok(x) => x,
                Err(e) => {
                    return Err(e);
                },
            };
            let class = match decode_opt_str(get_field(fields, Key::FClass)) {
                Ok(x) => x,
                Err(e) => {
                    return Err(e);
                },
            };
            let f = Font { ascent, family, name, style, path, weight, origin, class };
            proof {
                assert(f.deep_view() =~= sdec_font(v.deep_view())->Ok_0);
            }
            Ok(f)
        },
        _ => Err(DecodeError::Schema),
    }
}

/// A list of font, element by element; the first failure wins.
pub open spec fn sdec_font_seq(items: Seq<ValueV>) -> Result<Seq<FontV>, DecodeError>
    decreases items.len(),
{
    if items.len() == 0 {
        Ok(Seq::empty())
    } else {
        match sdec_font(items[0]) {
            Err(e) => Err(e),
            Ok(x) => match sdec_font_seq(items.drop_first()) {
                Err(e) => Err(e),
                Ok(rest) => Ok(seq![x] + rest),
            },
        }
    }
}

#[verifier::rlimit(60)]
proof fn lemma_sdec_font_seq_ok(items: Seq<ValueV>, pre: Seq<FontV>, i: int)
    requires
        0 <= i <= items.len(),
        pre.len() == i,
        forall|j: int| 0 <= j < i ==> sdec_font(items[j]) == Ok::<FontV, DecodeError>(pre[j]),
    ensures
        sdec_font_seq(items) == match sdec_font_seq(items.skip(i)) {
            Err(e) => Err::<Seq<FontV>, DecodeError>(e),
            Ok(rest) => Ok(pre + rest),
        },
    decreases i,
{
    if i == 0 {
        assert(items.skip(0) =~= items);
        match sdec_font_seq(items) {
            Err(e) => {},
            Ok(rest) => {
                assert(pre + rest =~= rest);
            },
        }
    } else {
        lemma_sdec_font_seq_ok(items, pre.take(i - 1), i - 1);
        assert(items.skip(i - 1).len() > 0);
        assert(items.skip(i - 1)[0] == items[i - 1]);
        assert(items.skip(i - 1).drop_first() =~= items.skip(i));
        assert(sdec_font(items[i - 1]) == Ok::<FontV, DecodeError>(pre[i - 1]));
        match sdec_font_seq(items.skip(i)) {
            Err(e) => {},
            Ok(rest) => {
                assert(pre.take(i - 1) + (seq![pre[i - 1]] + rest) =~= pre + rest);
            },
        }
    }
}

pub fn decode_font_list(items: &Vec<Value>) -> (r: Result<Vec<Font>, DecodeError>)
    ensures
        res_v(r) == sdec_font_seq(vals_dv(items@)),
{
    proof {
        lemma_vals_dv(items@);
    }
    let ghost gitems = vals_dv(items@);
    let mut out: Vec<Font> = Vec::new();
    let n = items.len();
    for i in 0..n
        invariant
            n == items.len(),
            gitems == vals_dv(items@),
            gitems.len() == n,
            forall|j: int| 0 <= j < n ==> gitems[j] == items@[j].deep_view(),
            out@.len() == i,
            forall|j: int| 0 <= j < i ==> sdec_font(gitems[j]) == Ok::<FontV, DecodeError>(
                #[trigger] out@[j].deep_view(),
            ),
    {
        match decode_font(&items[i]) {
            Ok(x) => {
                out.push(x);
            },
            Err(e) => {
                proof {
                    lemma_sdec_font_seq_ok(gitems, out.deep_view(), i as int);
                    assert(gitems.skip(i as int).len() > 0);
                    assert(gitems.skip(i as int)[0] == gitems[i as int]);
                    assert(sdec_font_seq(gitems.skip(i as int)) == Err::<
                        Seq<FontV>,
                        DecodeError,
                    >(e));
                }
                return Err(e);
            },
        }
    }
    proof {
        lemma_sdec_font_seq_ok(gitems, out.deep_view(), n as int);
        assert(gitems.skip(n as int) =~= Seq::empty());
        assert(out.deep_view() + Seq::<FontV>::empty() =~= out.deep_view());
    }
    Ok(out)
}

/// A precomposition asset: identifier, its own layers, optional name and
/// frame-rate override.
pub open spec fn sdec_precomp(v: ValueV) -> Result<PrecompositionV, DecodeError> {
    match v {
        ValueV::Obj(fs) => match sdec_req_str(field(fs, Key::Id)) {
            Err(e) => Err(e),
            Ok(id) => match field(fs, Key::Layers) {
                None => Err(DecodeError::Schema),
                Some(lv) => match lv {
                    ValueV::Arr(items) => match sdec_layer_seq(items) {
                        Err(e) => Err(e),
                        Ok(layers) => match sdec_opt_str(field(fs, Key::Nm)) {
                            Err(e) => Err(e),
                            Ok(name) => match sdec_opt_num(field(fs, Key::Fr)) {
                                Err(e) => Err(e),
                                Ok(frame_rate) => Ok(PrecompositionV {
                                    id,
                                    layers,
                                    name,
                                    frame_rate,
                                }),
                            },
                        },
                    },
                    _ => Err(DecodeError::Schema),
                },
            },
        },
        _ => Err(DecodeError::Schema),
    }
}

pub fn decode_precomp(v: &Value) -> (r: Result<Precomposition, DecodeError>)
    ensures
        res_v(r) == sdec_precomp(v.deep_view()),
{
    match v {
        Value::Obj(fields) => {
            let id = match decode_req_str(get_field(fields, Key::Id)) {
                Ok(x) => x,
                Err(e) => {
                    return Err(e);
                },
            };
            let layers = match get_field(fields, Key::Layers) {
                None => {
                    return Err(DecodeError::Schema);
                },
                Some(lv) => match lv {
                    Value::Arr(items) => match decode_layer_list(items) {
                        Ok(x) => x,
                        Err(e) => {
                            return Err(e);
                        },
                    },
                    _ => {
                        return Err(DecodeError::Schema);
                    },
                },
            };
            let name = match decode_opt_str(get_field(fields, Key::Nm)) {
                Ok(x) => x,
                Err(e) => {
                    return Err(e);
                },
            };
            let frame_rate = match decode_opt_num(get_field(fields, Key::Fr)) {
                Ok(x) => x,
                Err(e) => {
                    return Err(e);
                },
            };
            let p = Precomposition { id, layers, name, frame_rate };
            proof {
                assert(p.deep_view() =~= sdec_precomp(v.deep_view())->Ok_0);
            }
            Ok(p)
        },
        _ => Err(DecodeError::Schema),
    }
}

/// A list of precomp, element by element; the first failure wins.
pub open spec fn sdec_precomp_seq(items: Seq<ValueV>) -> Result<Seq<PrecompositionV>, DecodeError>
    decreases items.len(),
{
    if items.len() == 0 {
        Ok(Seq::empty())
    } else {
        match sdec_precomp(items[0]) {
            Err(e) => Err(e),
            Ok(x) => match sdec_precomp_seq(items.drop_first()) {
                Err(e) => Err(e),
                Ok(rest) => Ok(seq![x] + rest),
            },
        }
    }
}

#[verifier::rlimit(60)]
proof fn lemma_sdec_precomp_seq_ok(items: Seq<ValueV>, pre: Seq<PrecompositionV>, i: int)
    requires
        0 <= i <= items.len(),
        pre.len() == i,
        forall|j: int| 0 <= j < i ==> sdec_precomp(items[j]) == Ok::<PrecompositionV, DecodeError>(pre[j]),
    ensures
        sdec_precomp_seq(items) == match sdec_precomp_seq(items.skip(i)) {
            Err(e) => Err::<Seq<PrecompositionV>, DecodeError>(e),
            Ok(rest) => Ok(pre + rest),
        },
    decreases i,
{
    if i == 0 {
        assert(items.skip(0) =~= items);
        match sdec_precomp_seq(items) {
            Err(e) => {},
            Ok(rest) => {
                assert(pre + rest =~= rest);
            },
        }
    } else {
        lemma_sdec_precomp_seq_ok(items, pre.take(i - 1), i - 1);
        assert(items.skip(i - 1).len() > 0);
        assert(items.skip(i - 1)[0] == items[i - 1]);
        assert(items.skip(i - 1).drop_first() =~= items.skip(i));
        assert(sdec_precomp(items[i - 1]) == Ok::<PrecompositionV, DecodeError>(pre[i - 1]));
        match sdec_precomp_seq(items.skip(i)) {
            Err(e) => {},
            Ok(rest) => {
                assert(pre.take(i - 1) + (seq![pre[i - 1]] + rest) =~= pre + rest);
            },
        }
    }
}

pub fn decode_precomp_list(items: &Vec<Value>) -> (r: Result<Vec<Precomposition>, DecodeError>)
    ensures
        res_v(r) == sdec_precomp_seq(vals_dv(items@)),
{
    proof {
        lemma_vals_dv(items@);
    }
    let ghost gitems = vals_dv(items@);
    let mut out: Vec<Precomposition> = Vec::new();
    let n = items.len();
    for i in 0..n
        invariant
            n == items.len(),
            gitems == vals_dv(items@),
            gitems.len() == n,
            forall|j: int| 0 <= j < n ==> gitems[j] == items@[j].deep_view(),
            out@.len() == i,
            forall|j: int| 0 <= j < i ==> sdec_precomp(gitems[j]) == Ok::<PrecompositionV, DecodeError>(
                #[trigger] out@[j].deep_view(),
            ),
    {
        match decode_precomp(&items[i]) {
            Ok(x) => {
                out.push(x);
            },
            Err(e) => {
                proof {
                    lemma_sdec_precomp_seq_ok(gitems, out.deep_view(), i as int);
                    assert(gitems.skip(i as int).len() > 0);
                    assert(gitems.skip(i as int)[0] == gitems[i as int]);
                    assert(sdec_precomp_seq(gitems.skip(i as int)) == Err::<
                        Seq<PrecompositionV>,
                        DecodeError,
                    >(e));
                }
                return Err(e);
            },
        }
    }
    proof {
        lemma_sdec_precomp_seq_ok(gitems, out.deep_view(), n as int);
        assert(gitems.skip(n as int) =~= Seq::empty());
        assert(out.deep_view() + Seq::<PrecompositionV>::empty() =~= out.deep_view());
    }
    Ok(out)
}

/// The font list: absent means empty; present, it is an object whose `list`
/// holds the typefaces.
pub open spec fn sdec_fonts(o: Option<ValueV>) -> Result<FontListV, DecodeError> {
    match o {
        None => Ok(FontListV { list: Seq::empty() }),
        Some(v) => match v {
            ValueV::Obj(fs) => match field(fs, Key::List) {
                None => Err(DecodeError::Schema),
                Some(lv) => match lv {
                    ValueV::Arr(items) => match sdec_font_seq(items) {
                        Err(e) => Err(e),
                        Ok(list) => Ok(FontListV { list }),
                    },
                    _ => Err(DecodeError::Schema),
                },
            },
            _ => Err(DecodeError::Schema),
        },
    }
}

pub fn decode_fonts(o: Option<&Value>) -> (r: Result<FontList, DecodeError>)
    ensures
        res_v(r) == sdec_fonts(o.deep_view()),
{
    match o {
        None => {
            let fl = FontList { list: Vec::new() };
            proof {
                assert(fl.deep_view() =~= (FontListV { list: Seq::empty() }));
            }
            Ok(fl)
        },
        Some(v) => match v {
            Value::Obj(fields) => match get_field(fields, Key::List) {
                None => Err(DecodeError::Schema),
                Some(lv) => match lv {
                    Value::Arr(items) => match decode_font_list(items) {
                        Err(e) => Err(e),
                        Ok(list) => {
                            let fl = FontList { list };
                            proof {
                                assert(fl.deep_view() =~= sdec_fonts(o.deep_view())->Ok_0);
                            }
                            Ok(fl)
                        },
                    },
                    _ => Err(DecodeError::Schema),
                },
            },
            _ => Err(DecodeError::Schema),
        },
    }
}

/// The asset list: absent means empty; present, an array of precompositions.
pub open spec fn sdec_assets(o: Option<ValueV>) -> Result<Seq<PrecompositionV>, DecodeError> {
    match o {
        None => Ok(Seq::empty()),
        Some(v) => match v {
            ValueV::Arr(items) => sdec_precomp_seq(items),
            _ => Err(DecodeError::Schema),
        },
    }
}

pub fn decode_assets(o: Option<&Value>) -> (r: Result<Vec<Precomposition>, DecodeError>)
    ensures
        res_v(r) == sdec_assets(o.deep_view()),
{
    match o {
        None => {
            let out: Vec<Precomposition> = Vec::new();
            proof {
                assert(out.deep_view() =~= Seq::<PrecompositionV>::empty());
            }
            Ok(out)
        },
        Some(v) => match v {
            Value::Arr(items) => decode_precomp_list(items),
            _ => Err(DecodeError::Schema),
        },
    }
}

/// The root document: name and version optional; frame range, rate and
/// dimensions mandatory; layers mandatory; assets and fonts default empty.
pub open spec fn sdec_model(v: ValueV) -> Result<ModelV, DecodeError> {
    match v {
        ValueV::Obj(fs) => match sdec_opt_str(field(fs, Key::Nm)) {
            Err(e) => Err(e),
            Ok(name) => match sdec_opt_str(field(fs, Key::V)) {
                Err(e) => Err(e),
                Ok(version) => match sdec_req_num(field(fs, Key::Ip)) {
                    Err(e) => Err(e),
                    Ok(start_frame) => match sdec_req_num(field(fs, Key::Op)) {
                        Err(e) => Err(e),
                        Ok(end_frame) => match sdec_req_num(field(fs, Key::Fr)) {
                            Err(e) => Err(e),
                            Ok(frame_rate) => match sdec_req_u32(field(fs, Key::W)) {
                                Err(e) => Err(e),
                                Ok(width) => match sdec_req_u32(field(fs, Key::H)) {
                                    Err(e) => Err(e),
                                    Ok(height) => match field(fs, Key::Layers) {
                                        None => Err(DecodeError::Schema),
                                        Some(lv) => match lv {
                                            ValueV::Arr(items) => match sdec_layer_seq(items) {
                                                Err(e) => Err(e),
                                                Ok(layers) => match sdec_assets(
                                                    field(fs, Key::Assets),
                                                ) {
                                                    Err(e) => Err(e),
                                                    Ok(assets) => match sdec_fonts(
                                                        field(fs, Key::Fonts),
                                                    ) {
                                                        Err(e) => Err(e),
                                                        Ok(fonts) => Ok(ModelV {
                                                            name,
                                                            version,
                                                            start_frame,
                                                            end_frame,
                                                            frame_rate,
                                                            width,
                                                            height,
                                                            layers,
                                                            assets,
                                                            fonts,
                                                        }),
                                                    },
                                                },
                                            },
                                            _ => Err(DecodeError::Schema),
                                        },
                                    },
                                },
                            },
                        },
                    },
                },
            },
        },
        _ => Err(DecodeError::Schema),
    }
}

/// Decodes a whole document.
#[verifier::rlimit(100)]
#[verifier::spinoff_prover]
pub fn decode_model(v: &Value) -> (r: Result<Model, DecodeError>)
    ensures
        res_v(r) == sdec_model(v.deep_view()),
{
    match v {
        Value::Obj(fields) => {
            let name = match decode_opt_str(get_field(fields, Key::Nm)) {
                Ok(x) => x,
                Err(e) => {
                    return Err(e);
                },
            };
            let version = match decode_opt_str(get_field(fields, Key::V)) {
                Ok(x) => x,
                Err(e) => {
                    return Err(e);
                },
            };
            let start_frame = match decode_req_num(get_field(fields, Key::Ip)) {
                Ok(x) => x,
                Err(e) => {
                    return Err(e);
                },
            };
            let end_frame = match decode_req_num(get_field(fields, Key::Op)) {
                Ok(x) => x,
                Err(e) => {
                    return Err(e);
                },
            };
            let frame_rate = match decode_req_num(get_field(fields, Key::Fr)) {
                Ok(x) => x,
                Err(e) => {
                    return Err(e);
                },
            };
            let width = match decode_req_u32(get_field(fields, Key::W)) {
                Ok(x) => x,
                Err(e) => {
                    return Err(e);
                },
            };
            let height = match decode_req_u32(get_field(fields, Key::H)) {
                Ok(x) => x,
                Err(e) => {
                    return Err(e);
                },
            };
            let layers = match get_field(fields, Key::Layers) {
                None => {
                    return Err(DecodeError::Schema);
                },
                Some(lv) => match lv {
                    Value::Arr(items) => match decode_layer_list(items) {
                        Ok(x) => x,
                        Err(e) => {
                            return Err(e);
                        },
                    },
                    _ => {
                        return Err(DecodeError::Schema);
                    },
                },
            };
            let assets = match decode_assets(get_field(fields, Key::Assets)) {
                Ok(x) => x,
                Err(e) => {
                    return Err(e);
                },
            };
            let fonts = match decode_fonts(get_field(fields, Key::Fonts)) {
                Ok(x) => x,
                Err(e) => {
                    return Err(e);
                },
            };
            let m = Model {
                name,
                version,
                start_frame,
                end_frame,
                frame_rate,
                width,
                height,
                layers,
                assets,
                fonts,
            };
            proof {
                assert(m.deep_view() =~= sdec_model(v.deep_view())->Ok_0);
            }
            Ok(m)
        },
        _ => Err(DecodeError::Schema),
    }
}

/// The encoding of a layer's content: the family-specific keys.
pub open spec fn senc_layer_content(c: LayerContentV) -> Seq<EntryV> {
    match c {
        LayerContentV::Precomposition(p) => seq![
            EntryV { key: Key::RefId, val: ValueV::Str(p.ref_id) },
            EntryV { key: Key::W, val: senc_u32(p.width) },
            EntryV { key: Key::H, val: senc_u32(p.height) },
        ] + (match p.time_remapping {
            None => Seq::empty(),
            Some(tm) => seq![EntryV { key: Key::Tm, val: senc_animated_v(tm, enc_num_f()) }],
        }),
        LayerContentV::SolidColor { color, height, width } => seq![
            EntryV { key: Key::Sc, val: ValueV::Str(rgba_hex(color)) },
            EntryV { key: Key::Sw, val: ValueV::Num(width) },
            EntryV { key: Key::Sh, val: ValueV::Num(height) },
        ],
        LayerContentV::Shape(g) => seq![
            EntryV { key: Key::Shapes, val: ValueV::Arr(senc_shape_layer_seq_enc(g.shapes)) },
        ],
        LayerContentV::Image => Seq::empty(),
        LayerContentV::Empty => Seq::empty(),
        LayerContentV::Text => Seq::empty(),
        LayerContentV::Audio => Seq::empty(),
    }
}

/// The encoding of one layer.
pub open spec fn senc_layer(l: LayerV) -> ValueV {
    ValueV::Obj(
        seq![
            EntryV { key: Key::Ddd, val: senc_bool_int(l.is_3d) },
            EntryV { key: Key::Hd, val: ValueV::Bool(l.hidden) },
        ] + (match l.index {
            None => Seq::empty(),
            Some(i) => seq![EntryV { key: Key::Ind, val: senc_u32(i) }],
        }) + (match l.parent_index {
            None => Seq::empty(),
            Some(i) => seq![EntryV { key: Key::Parent, val: senc_u32(i) }],
        }) + seq![
            EntryV { key: Key::Ao, val: senc_bool_int(l.auto_orient) },
            EntryV { key: Key::Ip, val: ValueV::Num(l.start_frame) },
            EntryV { key: Key::Op, val: ValueV::Num(l.end_frame) },
            EntryV { key: Key::St, val: ValueV::Num(l.start_time) },
        ] + (match l.name {
            None => Seq::empty(),
            Some(nm) => seq![EntryV { key: Key::Nm, val: ValueV::Str(nm) }],
        }) + (match l.transform {
            None => Seq::empty(),
            Some(t) => seq![EntryV { key: Key::Ks, val: ValueV::Obj(senc_transform(t)) }],
        }) + senc_layer_content(l.content),
    )
}

/// The content entries of an encoded layer.
fn encode_layer_content_entries(c: &LayerContent) -> (r: Vec<Entry>)
    ensures
        entries_dv(r@) == senc_layer_content(c.deep_view()),
{
    let mut fields: Vec<Entry> = Vec::new();
    match c {
        LayerContent::Precomposition(p) => {
            fields.push(Entry { key: Key::RefId, val: Value::Str(p.ref_id.clone()) });
            fields.push(Entry { key: Key::W, val: encode_u32(p.width) });
            fields.push(Entry { key: Key::H, val: encode_u32(p.height) });
            match &p.time_remapping {
                None => {},
                Some(tm) => {
                    fields.push(Entry {
                        key: Key::Tm,
                        val: crate::anim::encode_animated_num(tm),
                    });
                },
            }
        },
        LayerContent::SolidColor { color, height, width } => {
            fields.push(Entry { key: Key::Sc, val: Value::Str(color.to_string()) });
            fields.push(Entry { key: Key::Sw, val: Value::Num(*width) });
            fields.push(Entry { key: Key::Sh, val: Value::Num(*height) });
        },
        LayerContent::Shape(g) => {
            let arr = encode_shape_layer_arr(&g.shapes);
            fields.push(Entry { key: Key::Shapes, val: arr });
        },
        LayerContent::Image => {},
        LayerContent::Empty => {},
        LayerContent::Text => {},
        LayerContent::Audio => {},
    }
    proof {
        lemma_entries_dv(fields@);
        assert(entries_dv(fields@) =~= senc_layer_content(c.deep_view()));
    }
    fields
}

/// An encoded layer.
#[verifier::rlimit(100)]
#[verifier::spinoff_prover]
pub fn encode_layer(l: &Layer) -> (r: Value)
    ensures
        r.deep_view() == senc_layer(l.deep_view()),
{
    let mut fields: Vec<Entry> = Vec::new();
    fields.push(Entry { key: Key::Ddd, val: encode_bool_int(l.is_3d) });
    fields.push(Entry { key: Key::Hd, val: Value::Bool(l.hidden) });
    match l.index {
        None => {},
        Some(i) => {
            fields.push(Entry { key: Key::Ind, val: encode_u32(i) });
        },
    }
    match l.parent_index {
        None => {},
        Some(i) => {
            fields.push(Entry { key: Key::Parent, val: encode_u32(i) });
        },
    }
    fields.push(Entry { key: Key::Ao, val: encode_bool_int(l.auto_orient) });
    fields.push(Entry { key: Key::Ip, val: Value::Num(l.start_frame) });
    fields.push(Entry { key: Key::Op, val: Value::Num(l.end_frame) });
    fields.push(Entry { key: Key::St, val: Value::Num(l.start_time) });
    match &l.name {
        None => {},
        Some(nm) => {
            fields.push(Entry { key: Key::Nm, val: Value::Str(nm.clone()) });
        },
    }
    match &l.transform {
        None => {},
        Some(t) => {
            let mut tf: Vec<Entry> = Vec::new();
            push_transform_fields(&mut tf, t);
            let ghost gtf = tf@;
            let tv = Value::Obj(tf);
            proof {
                assert(entries_dv(Seq::<Entry>::empty()) =~= Seq::<EntryV>::empty());
                assert(entries_dv(gtf) =~= senc_transform(t.deep_view()));
            }
            fields.push(Entry { key: Key::Ks, val: tv });
        },
    }
    let mut tail = encode_layer_content_entries(&l.content);
    let ghost gtail = tail@;
    let ghost ghead = fields@;
    fields.append(&mut tail);
    let ghost gfields = fields@;
    let r = Value::Obj(fields);
    proof {
        lemma_entries_dv(ghead);
        lemma_entries_dv(gtail);
        lemma_entries_dv(gfields);
        assert(gfields =~= ghead + gtail);
        assert forall|i: int| 0 <= i < gfields.len() implies entries_dv(gfields)[i] == (
        entries_dv(ghead) + entries_dv(gtail))[i] by {
            if i < ghead.len() {
                assert(gfields[i] == ghead[i]);
            } else {
                assert(gfields[i] == gtail[i - ghead.len()]);
            }
        }
        assert(entries_dv(gfields) =~= entries_dv(ghead) + entries_dv(gtail));
        assert(r.deep_view() matches ValueV::Obj(es) && es =~= senc_layer(l.deep_view())->Obj_0);
    }
    r
}

/// The encoding of a layer list.
pub open spec fn senc_layer_list(ls: Seq<LayerV>) -> ValueV {
    ValueV::Arr(Seq::new(ls.len(), |i: int| senc_layer(ls[i])))
}

/// An encoded layer list.
pub fn encode_layer_list(ls: &Vec<Layer>) -> (r: Value)
    ensures
        r.deep_view() == senc_layer_list(ls.deep_view()),
{
    let mut items: Vec<Value> = Vec::new();
    let n = ls.len();
    for i in 0..n
        invariant
            n == ls.len(),
            items@.len() == i,
            forall|j: int| 0 <= j < i ==> items@[j].deep_view() == senc_layer(
                #[trigger] ls@[j].deep_view(),
            ),
    {
        items.push(encode_layer(&ls[i]));
    }
    let ghost gitems = items@;
    let r = Value::Arr(items);
    proof {
        lemma_vals_dv(gitems);
        assert(r.deep_view() matches ValueV::Arr(s) && s =~= senc_layer_list(
            ls.deep_view(),
        )->Arr_0);
    }
    r
}

/// The encoding of one typeface descriptor.
pub open spec fn senc_font(f: FontV) -> ValueV {
    ValueV::Obj(
        (match f.ascent {
            None => Seq::empty(),
            Some(a) => seq![EntryV { key: Key::Ascent, val: ValueV::Num(a) }],
        }) + seq![
            EntryV { key: Key::FFamily, val: ValueV::Str(f.family) },
            EntryV { key: Key::FName, val: ValueV::Str(f.name) },
            EntryV { key: Key::FStyle, val: ValueV::Str(f.style) },
        ] + (match f.path {
            None => Seq::empty(),
            Some(p) => seq![EntryV { key: Key::FPath, val: ValueV::Str(p) }],
        }) + (match f.weight {
            None => Seq::empty(),
            Some(w) => seq![EntryV { key: Key::FWeight, val: ValueV::Str(w) }],
        }) + seq![EntryV { key: Key::Origin, val: senc_font_path_origin(f.origin) }] + (match f
            .class {
            None => Seq::empty(),
            Some(c) => seq![EntryV { key: Key::FClass, val: ValueV::Str(c) }],
        }),
    )
}

/// An encoded typeface descriptor.
pub fn encode_font(f: &Font) -> (r: Value)
    ensures
        r.deep_view() == senc_font(f.deep_view()),
{
    let mut fields: Vec<Entry> = Vec::new();
    match f.ascent {
        None => {},
        Some(a) => {
            fields.push(Entry { key: Key::Ascent, val: Value::Num(a) });
        },
    }
    fields.push(Entry { key: Key::FFamily, val: Value::Str(f.family.clone()) });
    fields.push(Entry { key: Key::FName, val: Value::Str(f.name.clone()) });
    fields.push(Entry { key: Key::FStyle, val: Value::Str(f.style.clone()) });
    match &f.path {
        None => {},
        Some(p) => {
            fields.push(Entry { key: Key::FPath, val: Value::Str(p.clone()) });
        },
    }
    match &f.weight {
        None => {},
        Some(w) => {
            fields.push(Entry { key: Key::FWeight, val: Value::Str(w.clone()) });
        },
    }
    fields.push(Entry { key: Key::Origin, val: encode_font_path_origin(f.origin) });
    match &f.class {
        None => {},
        Some(c) => {
            fields.push(Entry { key: Key::FClass, val: Value::Str(c.clone()) });
        },
    }
    let ghost gfields = fields@;
    let r = Value::Obj(fields);
    proof {
        lemma_entries_dv(gfields);
        assert(r.deep_view() matches ValueV::Obj(es) && es =~= senc_font(f.deep_view())->Obj_0);
    }
    r
}

/// The encoding of the font list: always the wrapping object.
pub open spec fn senc_fonts(fl: FontListV) -> ValueV {
    ValueV::Obj(
        seq![
            EntryV {
                key: Key::List,
                val: ValueV::Arr(Seq::new(fl.list.len(), |i: int| senc_font(fl.list[i]))),
            },
        ],
    )
}

/// The encoded font list.
pub fn encode_fonts(fl: &FontList) -> (r: Value)
    ensures
        r.deep_view() == senc_fonts(fl.deep_view()),
{
    let mut items: Vec<Value> = Vec::new();
    let n = fl.list.len();
    for i in 0..n
        invariant
            n == fl.list.len(),
            items@.len() == i,
            forall|j: int| 0 <= j < i ==> items@[j].deep_view() == senc_font(
                #[trigger] fl.list@[j].deep_view(),
            ),
    {
        items.push(encode_font(&fl.list[i]));
    }
    let ghost gitems = items@;
    let arr = Value::Arr(items);
    proof {
        lemma_vals_dv(gitems);
    }
    let mut fields: Vec<Entry> = Vec::new();
    fields.push(Entry { key: Key::List, val: arr });
    let ghost gfields = fields@;
    let r = Value::Obj(fields);
    proof {
        lemma_entries_dv(gfields);
        assert(gfields[0].val.deep_view() matches ValueV::Arr(s) && s =~= senc_fonts(
            fl.deep_view(),
        )->Obj_0[0].val->Arr_0);
        assert(r.deep_view() matches ValueV::Obj(es) && es =~= senc_fonts(fl.deep_view())->Obj_0);
    }
    r
}

/// The encoding of one precomposition asset.
pub open spec fn senc_precomp(p: PrecompositionV) -> ValueV {
    ValueV::Obj(
        seq![
            EntryV { key: Key::Id, val: ValueV::Str(p.id) },
            EntryV { key: Key::Layers, val: senc_layer_list(p.layers) },
        ] + (match p.name {
            None => Seq::empty(),
            Some(nm) => seq![EntryV { key: Key::Nm, val: ValueV::Str(nm) }],
        }) + (match p.frame_rate {
            None => Seq::empty(),
            Some(fr) => seq![EntryV { key: Key::Fr, val: ValueV::Num(fr) }],
        }),
    )
}

/// An encoded precomposition asset.
pub fn encode_precomp(p: &Precomposition) -> (r: Value)
    ensures
        r.deep_view() == senc_precomp(p.deep_view()),
{
    let mut fields: Vec<Entry> = Vec::new();
    fields.push(Entry { key: Key::Id, val: Value::Str(p.id.clone()) });
    fields.push(Entry { key: Key::Layers, val: encode_layer_list(&p.layers) });
    match &p.name {
        None => {},
        Some(nm) => {
            fields.push(Entry { key: Key::Nm, val: Value::Str(nm.clone()) });
        },
    }
    match p.frame_rate {
        None => {},
        Some(fr) => {
            fields.push(Entry { key: Key::Fr, val: Value::Num(fr) });
        },
    }
    let ghost gfields = fields@;
    let r = Value::Obj(fields);
    proof {
        lemma_entries_dv(gfields);
        assert(r.deep_view() matches ValueV::Obj(es) && es =~= senc_precomp(
            p.deep_view(),
        )->Obj_0);
    }
    r
}

/// The encoding of a whole document.
pub open spec fn senc_model(m: ModelV) -> ValueV {
    ValueV::Obj(
        (match m.name {
            None => Seq::empty(),
            Some(nm) => seq![EntryV { key: Key::Nm, val: ValueV::Str(nm) }],
        }) + (match m.version {
            None => Seq::empty(),
            Some(ver) => seq![EntryV { key: Key::V, val: ValueV::Str(ver) }],
        }) + seq![
            EntryV { key: Key::Ip, val: ValueV::Num(m.start_frame) },
            EntryV { key: Key::Op, val: ValueV::Num(m.end_frame) },
            EntryV { key: Key::Fr, val: ValueV::Num(m.frame_rate) },
            EntryV { key: Key::W, val: senc_u32(m.width) },
            EntryV { key: Key::H, val: senc_u32(m.height) },
            EntryV { key: Key::Layers, val: senc_layer_list(m.layers) },
            EntryV {
                key: Key::Assets,
                val: ValueV::Arr(Seq::new(m.assets.len(), |i: int| senc_precomp(m.assets[i]))),
            },
            EntryV { key: Key::Fonts, val: senc_fonts(m.fonts) },
        ],
    )
}

/// Encodes a whole document.
pub fn encode_model(m: &Model) -> (r: Value)
    ensures
        r.deep_view() == senc_model(m.deep_view()),
{
    let mut fields: Vec<Entry> = Vec::new();
    match &m.name {
        None => {},
        Some(nm) => {
            fields.push(Entry { key: Key::Nm, val: Value::Str(nm.clone()) });
        },
    }
    match &m.version {
        None => {},
        Some(ver) => {
            fields.push(Entry { key: Key::V, val: Value::Str(ver.clone()) });
        },
    }
    fields.push(Entry { key: Key::Ip, val: Value::Num(m.start_frame) });
    fields.push(Entry { key: Key::Op, val: Value::Num(m.end_frame) });
    fields.push(Entry { key: Key::Fr, val: Value::Num(m.frame_rate) });
    fields.push(Entry { key: Key::W, val: encode_u32(m.width) });
    fields.push(Entry { key: Key::H, val: encode_u32(m.height) });
    fields.push(Entry { key: Key::Layers, val: encode_layer_list(&m.layers) });
    let mut assets: Vec<Value> = Vec::new();
    let n = m.assets.len();
    for i in 0..n
        invariant
            n == m.assets.len(),
            assets@.len() == i,
            forall|j: int| 0 <= j < i ==> assets@[j].deep_view() == senc_precomp(
                #[trigger] m.assets@[j].deep_view(),
            ),
    {
        assets.push(encode_precomp(&m.assets[i]));
    }
    let ghost gassets = assets@;
    let assets_arr = Value::Arr(assets);
    proof {
        lemma_vals_dv(gassets);
        assert(assets_arr.deep_view() matches ValueV::Arr(s) && s =~= Seq::new(
            m.deep_view().assets.len(),
            |i: int| senc_precomp(m.deep_view().assets[i]),
        ));
    }
    fields.push(Entry { key: Key::Assets, val: assets_arr });
    fields.push(Entry { key: Key::Fonts, val: encode_fonts(&m.fonts) });
    let ghost gfields = fields@;
    let r = Value::Obj(fields);
    proof {
        lemma_entries_dv(gfields);
        assert(r.deep_view() matches ValueV::Obj(es) && es =~= senc_model(m.deep_view())->Obj_0);
    }
    r
}


} // verus!
