//! The animated property decoder: the dual encoding of a constant value
//! versus a keyframed value, normalized into a uniform sequence of interval
//! keyframes with the end value and end frame of each interval borrowed from
//! its successor.
//!
//! The keyframe machinery is specified once, generically over the value
//! type, as specification functions parameterized by the value's own
//! decoding and encoding rules.

use vstd::prelude::*;

use crate::methods::{animated_const_v, dup_beziers, dup_opt_easing, kf_const_v};
use crate::model::{Bezier, BezierV};
use crate::path::{decode_bezier_list, encode_bezier_list, sdec_bezier_list, senc_bezier_list};
use crate::model::{
    Animated, AnimatedV, DecodeError, Easing, EasingV, KeyFrame, KeyFrameV, Rgb, Vector2D,
};
use crate::prim::{
    decode_bool_flag, decode_num, decode_num_list, decode_scalar, decode_rgb, decode_vec2,
    encode_bool_int, encode_num_list, encode_scalar, field, get_field, res_v, sdec_bool_flag,
    sdec_num, sdec_num_list, sdec_rgb, sdec_scalar, sdec_vec2, senc_bool_int, senc_num_list,
    senc_scalar, senc_rgb, senc_vec2, encode_rgb, encode_vec2,
};
use crate::value::{
    Entry, EntryV, Key, Value, ValueV, entries_dv, lemma_entries_dv, lemma_lookup_none,
    lemma_lookup_step, lemma_vals_dv, lookup, vals_dv,
};

verus! {

// ------------------------------------------------------------------
// Easing
// ------------------------------------------------------------------
/// An easing object: required `x` and `y` handle coordinates, each a bare
/// number or an array of numbers.
pub open spec fn sdec_easing(v: ValueV) -> Result<EasingV, DecodeError> {
    match v {
        ValueV::Obj(fs) => match field(fs, Key::X) {
            None => Err(DecodeError::Schema),
            Some(xv) => match sdec_num_list(xv) {
                Err(e) => Err(e),
                Ok(xs) => match field(fs, Key::Y) {
                    None => Err(DecodeError::Schema),
                    Some(yv) => match sdec_num_list(yv) {
                        Err(e) => Err(e),
                        Ok(ys) => Ok(EasingV { x: xs, y: ys }),
                    },
                },
            },
        },
        _ => Err(DecodeError::Schema),
    }
}

pub fn decode_easing(v: &Value) -> (r: Result<Easing, DecodeError>)
    ensures
        res_v(r) == sdec_easing(v.deep_view()),
{
    match v {
        Value::Obj(fields) => {
            let xv = match get_field(fields, Key::X) {
                None => {
                    return Err(DecodeError::Schema);
                },
                Some(x) => x,
            };
            let xs = match decode_num_list(xv) {
                Ok(x) => x,
                Err(e) => {
                    return Err(e);
                },
            };
            let yv = match get_field(fields, Key::Y) {
                None => {
                    return Err(DecodeError::Schema);
                },
                Some(x) => x,
            };
            let ys = match decode_num_list(yv) {
                Ok(x) => x,
                Err(e) => {
                    return Err(e);
                },
            };
            let ea = Easing { x: xs, y: ys };
            proof {
                assert(xs.deep_view() =~= xs@);
                assert(ys.deep_view() =~= ys@);
                assert(ea.deep_view() =~= EasingV { x: xs.deep_view(), y: ys.deep_view() });
            }
            Ok(ea)
        },
        _ => Err(DecodeError::Schema),
    }
}

/// An optional easing field.
pub open spec fn sdec_opt_easing(o: Option<ValueV>) -> Result<Option<EasingV>, DecodeError> {
    match o {
        None => Ok(None),
        Some(v) => match sdec_easing(v) {
            Err(e) => Err(e),
            Ok(ea) => Ok(Some(ea)),
        },
    }
}

pub fn decode_opt_easing(o: Option<&Value>) -> (r: Result<Option<Easing>, DecodeError>)
    ensures
        res_v(r) == sdec_opt_easing(o.deep_view()),
{
    match o {
        None => Ok(None),
        Some(v) => match decode_easing(v) {
            Err(e) => Err(e),
            Ok(ea) => Ok(Some(ea)),
        },
    }
}

/// The encoding of an easing: both axes as arrays of numbers.
pub open spec fn senc_easing(e: EasingV) -> ValueV {
    ValueV::Obj(
        seq![
            EntryV { key: Key::X, val: senc_num_list(e.x) },
            EntryV { key: Key::Y, val: senc_num_list(e.y) },
        ],
    )
}

pub fn encode_easing(e: &Easing) -> (r: Value)
    ensures
        r.deep_view() == senc_easing(e.deep_view()),
{
    let mut fields: Vec<Entry> = Vec::new();
    fields.push(Entry { key: Key::X, val: encode_num_list(&e.x) });
    fields.push(Entry { key: Key::Y, val: encode_num_list(&e.y) });
    let ghost gfields = fields@;
    let r = Value::Obj(fields);
    proof {
        lemma_entries_dv(gfields);
        assert(r.deep_view() matches ValueV::Obj(s) && s =~= senc_easing(e.deep_view())->Obj_0);
    }
    r
}

/// Decoding an encoded easing restores it.
pub proof fn lemma_rt_easing(e: EasingV)
    ensures
        sdec_easing(senc_easing(e)) == Ok::<EasingV, DecodeError>(e),
{
    let fs = senc_easing(e)->Obj_0;
    lemma_lookup_step(fs, Key::X, 0);
    lemma_lookup_step(fs, Key::Y, 1);
    crate::prim::lemma_rt_num_list(e.x);
    crate::prim::lemma_rt_num_list(e.y);
    assert(sdec_easing(senc_easing(e)) matches Ok(e2) && e2 =~= e);
}

/// Decoding an encoded optional easing restores it.
pub proof fn lemma_rt_opt_easing(o: Option<EasingV>)
    ensures
        sdec_opt_easing(match o {
            None => None,
            Some(e) => Some(senc_easing(e)),
        }) == Ok::<Option<EasingV>, DecodeError>(o),
{
    match o {
        None => {},
        Some(e) => {
            lemma_rt_easing(e);
        },
    }
}

// ------------------------------------------------------------------
// Keyframes, generically over the value type
// ------------------------------------------------------------------
/// One source keyframe: a required start value, a start frame defaulting to
/// zero, optional easing handles.  The end fields are filled in later by the
/// backfill pass; until then the end value mirrors the start value and the
/// end frame is zero.
pub open spec fn sdec_kf<TV>(
    v: ValueV,
    dec: spec_fn(ValueV) -> Result<TV, DecodeError>,
) -> Result<KeyFrameV<TV>, DecodeError> {
    match v {
        ValueV::Obj(fs) => match field(fs, Key::S) {
            None => Err(DecodeError::MalformedKeyframes),
            Some(sv) => match dec(sv) {
                Err(e) => Err(e),
                Ok(val) => match (match field(fs, Key::T) {
                    None => Ok(0i64),
                    Some(tv) => sdec_num(tv),
                }) {
                    Err(e) => Err(e),
                    Ok(tf) => match sdec_opt_easing(field(fs, Key::O)) {
                        Err(e) => Err(e),
                        Ok(eo) => match sdec_opt_easing(field(fs, Key::I)) {
                            Err(e) => Err(e),
                            Ok(ei) => Ok(KeyFrameV {
                                start_value: val,
                                end_value: val,
                                start_frame: tf,
                                end_frame: 0,
                                easing_out: eo,
                                easing_in: ei,
                            }),
                        },
                    },
                },
            },
        },
        _ => Err(DecodeError::Schema),
    }
}

/// A keyframe list, element by element; the first failure wins.
pub open spec fn sdec_kf_seq<TV>(
    items: Seq<ValueV>,
    dec: spec_fn(ValueV) -> Result<TV, DecodeError>,
) -> Result<Seq<KeyFrameV<TV>>, DecodeError>
    decreases items.len(),
{
    if items.len() == 0 {
        Ok(Seq::empty())
    } else {
        match sdec_kf(items[0], dec) {
            Err(e) => Err(e),
            Ok(kf) => match sdec_kf_seq(items.drop_first(), dec) {
                Err(e) => Err(e),
                Ok(rest) => Ok(seq![kf] + rest),
            },
        }
    }
}

pub proof fn lemma_sdec_kf_seq_ok<TV>(
    items: Seq<ValueV>,
    dec: spec_fn(ValueV) -> Result<TV, DecodeError>,
    pre: Seq<KeyFrameV<TV>>,
    i: int,
)
    requires
        0 <= i <= items.len(),
        pre.len() == i,
        forall|j: int| 0 <= j < i ==> sdec_kf(items[j], dec) == Ok::<KeyFrameV<TV>, DecodeError>(
            pre[j],
        ),
    ensures
        sdec_kf_seq(items, dec) == match sdec_kf_seq(items.skip(i), dec) {
            Err(e) => Err::<Seq<KeyFrameV<TV>>, DecodeError>(e),
            Ok(rest) => Ok(pre + rest),
        },
    decreases i,
{
    if i == 0 {
        assert(items.skip(0) =~= items);
        match sdec_kf_seq(items, dec) {
            Err(e) => {},
            Ok(rest) => {
                assert(pre + rest =~= rest);
            },
        }
    } else {
        lemma_sdec_kf_seq_ok(items, dec, pre.take(i - 1), i - 1);
        assert(items.skip(i - 1).len() > 0);
        assert(items.skip(i - 1)[0] == items[i - 1]);
        assert(items.skip(i - 1).drop_first() =~= items.skip(i));
        assert(sdec_kf(items[i - 1], dec) == Ok::<KeyFrameV<TV>, DecodeError>(pre[i - 1]));
        match sdec_kf_seq(items.skip(i), dec) {
            Err(e) => {},
            Ok(rest) => {
                assert(pre.take(i - 1) + (seq![pre[i - 1]] + rest) =~= pre + rest);
            },
        }
    }
}

/// The backfill pass: every keyframe but the last borrows its end value and
/// end frame from its successor; the last keeps its defaults.
pub open spec fn backfill_v<TV>(ks: Seq<KeyFrameV<TV>>) -> Seq<KeyFrameV<TV>> {
    Seq::new(
        ks.len(),
        |i: int|
            if i + 1 < ks.len() {
                KeyFrameV {
                    start_value: ks[i].start_value,
                    end_value: ks[i + 1].start_value,
                    start_frame: ks[i].start_frame,
                    end_frame: ks[i + 1].start_frame,
                    easing_out: ks[i].easing_out,
                    easing_in: ks[i].easing_in,
                }
            } else {
                ks[i]
            },
    )
}

/// A legacy constant: a one-element array holding a keyframe-shaped object.
pub open spec fn is_legacy_kf(v: ValueV) -> bool {
    match v {
        ValueV::Arr(items) => items.len() == 1 && (match items[0] {
            ValueV::Obj(fs) => lookup(fs, Key::S) is Some,
            _ => false,
        }),
        _ => false,
    }
}

/// An animated property object: the flag (absent meaning constant) and the
/// keyframe-or-value field, normalized per the container's invariant.
pub open spec fn sdec_animated_v<TV>(
    v: ValueV,
    dec: spec_fn(ValueV) -> Result<TV, DecodeError>,
) -> Result<AnimatedV<TV>, DecodeError> {
    match v {
        ValueV::Obj(fs) => match sdec_bool_flag(field(fs, Key::A)) {
            Err(e) => Err(e),
            Ok(animated) => match field(fs, Key::K) {
                None => Err(DecodeError::Schema),
                Some(kv) => if animated {
                    match kv {
                        ValueV::Arr(items) => if items.len() == 0 {
                            Err(DecodeError::MalformedKeyframes)
                        } else {
                            match sdec_kf_seq(items, dec) {
                                Err(e) => Err(e),
                                Ok(ks) => Ok(
                                    AnimatedV { animated: true, keyframes: backfill_v(ks) },
                                ),
                            }
                        },
                        _ => Err(DecodeError::MalformedKeyframes),
                    }
                } else {
                    if is_legacy_kf(kv) {
                        match sdec_kf(kv->Arr_0[0], dec) {
                            Err(e) => Err(e),
                            Ok(kf) => Ok(animated_const_v(kf.start_value)),
                        }
                    } else {
                        match dec(kv) {
                            Err(e) => Err(e),
                            Ok(t) => Ok(animated_const_v(t)),
                        }
                    }
                },
            },
        },
        _ => Err(DecodeError::Schema),
    }
}

/// The encoding of one keyframe: start value and start frame, easing handles
/// when present; the derived end fields are not written.
pub open spec fn senc_kf<TV>(kf: KeyFrameV<TV>, enc: spec_fn(TV) -> ValueV) -> ValueV {
    ValueV::Obj(
        seq![
            EntryV { key: Key::S, val: enc(kf.start_value) },
            EntryV { key: Key::T, val: ValueV::Num(kf.start_frame) },
        ] + (match kf.easing_out {
            None => Seq::empty(),
            Some(e) => seq![EntryV { key: Key::O, val: senc_easing(e) }],
        }) + (match kf.easing_in {
            None => Seq::empty(),
            Some(e) => seq![EntryV { key: Key::I, val: senc_easing(e) }],
        }),
    )
}

pub open spec fn senc_kf_seq<TV>(ks: Seq<KeyFrameV<TV>>, enc: spec_fn(TV) -> ValueV) -> Seq<
    ValueV,
> {
    Seq::new(ks.len(), |i: int| senc_kf(ks[i], enc))
}

/// The encoding of an animated property: the integer-coded flag, and either
/// the keyframe array or the bare constant value.
pub open spec fn senc_animated_v<TV>(a: AnimatedV<TV>, enc: spec_fn(TV) -> ValueV) -> ValueV {
    ValueV::Obj(
        seq![
            EntryV { key: Key::A, val: senc_bool_int(a.animated) },
            EntryV {
                key: Key::K,
                val: if a.animated {
                    ValueV::Arr(senc_kf_seq(a.keyframes, enc))
                } else if a.keyframes.len() == 0 {
                    ValueV::Null
                } else {
                    enc(a.keyframes[0].start_value)
                },
            },
        ],
    )
}

/// The container invariant of an animated property: the keyframe list is
/// non-empty; a constant property holds exactly one degenerate keyframe; an
/// animated one has its end fields derived from each successor, and the last
/// keyframe's end fields left at their defaults.
pub open spec fn wf_animated<TV>(a: AnimatedV<TV>) -> bool {
    &&& a.keyframes.len() >= 1
    &&& (!a.animated ==> a.keyframes.len() == 1 && a.keyframes[0] == kf_const_v(
        a.keyframes[0].start_value,
    ))
    &&& (a.animated ==> {
        &&& (forall|i: int|
            0 <= i < a.keyframes.len() - 1 ==> (#[trigger] a.keyframes[i]).end_value
                == a.keyframes[i + 1].start_value && a.keyframes[i].end_frame == a.keyframes[
                i + 1
            ].start_frame)
        &&& a.keyframes.last().end_value == a.keyframes.last().start_value
        &&& a.keyframes.last().end_frame == 0
    })
}

/// The keyframe a decoder reads back before the backfill pass: the end value
/// mirrors the start value and the end frame is zero.
pub open spec fn reset_kf<TV>(kf: KeyFrameV<TV>) -> KeyFrameV<TV> {
    KeyFrameV {
        start_value: kf.start_value,
        end_value: kf.start_value,
        start_frame: kf.start_frame,
        end_frame: 0,
        easing_out: kf.easing_out,
        easing_in: kf.easing_in,
    }
}

/// Decoding an encoded keyframe yields the keyframe with its end fields
/// reset.
pub proof fn lemma_rt_kf<TV>(
    kf: KeyFrameV<TV>,
    enc: spec_fn(TV) -> ValueV,
    dec: spec_fn(ValueV) -> Result<TV, DecodeError>,
)
    requires
        forall|t: TV| #[trigger] dec(enc(t)) == Ok::<TV, DecodeError>(t),
        forall|t: TV| !((#[trigger] enc(t)) is Null),
    ensures
        sdec_kf(senc_kf(kf, enc), dec) == Ok::<KeyFrameV<TV>, DecodeError>(reset_kf(kf)),
{
    let fs = senc_kf(kf, enc)->Obj_0;
    lemma_lookup_step(fs, Key::S, 0);
    lemma_lookup_step(fs, Key::T, 1);
    assert(field(fs, Key::S) == Some(enc(kf.start_value)));
    assert(field(fs, Key::T) == Some(ValueV::Num(kf.start_frame)));
    match (kf.easing_out, kf.easing_in) {
        (None, None) => {
            lemma_lookup_none(fs, Key::O);
            lemma_lookup_none(fs, Key::I);
        },
        (Some(eo), None) => {
            lemma_lookup_step(fs, Key::O, 2);
            lemma_lookup_none(fs, Key::I);
            lemma_rt_easing(eo);
        },
        (None, Some(ei)) => {
            lemma_lookup_none(fs, Key::O);
            lemma_lookup_step(fs, Key::I, 2);
            lemma_rt_easing(ei);
        },
        (Some(eo), Some(ei)) => {
            lemma_lookup_step(fs, Key::O, 2);
            lemma_lookup_step(fs, Key::I, 3);
            lemma_rt_easing(eo);
            lemma_rt_easing(ei);
        },
    }
    assert(sdec_kf(senc_kf(kf, enc), dec) matches Ok(k2) && k2 =~= reset_kf(kf));
}

/// Decoding an encoded keyframe list yields the reset keyframes.
pub proof fn lemma_rt_kf_seq<TV>(
    ks: Seq<KeyFrameV<TV>>,
    enc: spec_fn(TV) -> ValueV,
    dec: spec_fn(ValueV) -> Result<TV, DecodeError>,
)
    requires
        forall|t: TV| #[trigger] dec(enc(t)) == Ok::<TV, DecodeError>(t),
        forall|t: TV| !((#[trigger] enc(t)) is Null),
    ensures
        sdec_kf_seq(senc_kf_seq(ks, enc), dec) == Ok::<Seq<KeyFrameV<TV>>, DecodeError>(
            Seq::new(ks.len(), |i: int| reset_kf(ks[i])),
        ),
    decreases ks.len(),
{
    let items = senc_kf_seq(ks, enc);
    let want = Seq::new(ks.len(), |i: int| reset_kf(ks[i]));
    if ks.len() == 0 {
        assert(items =~= Seq::<ValueV>::empty());
        assert(want =~= Seq::<KeyFrameV<TV>>::empty());
    } else {
        lemma_rt_kf_seq(ks.drop_first(), enc, dec);
        assert(items.drop_first() =~= senc_kf_seq(ks.drop_first(), enc));
        lemma_rt_kf(ks[0], enc, dec);
        assert(items[0] == senc_kf(ks[0], enc));
        assert(seq![reset_kf(ks[0])] + Seq::new(
            ks.drop_first().len(),
            |i: int| reset_kf(ks.drop_first()[i]),
        ) =~= want);
    }
}

/// Backfilling the reset keyframes of a well-formed animated list restores
/// the original intervals.
pub proof fn lemma_backfill_reset<TV>(ks: Seq<KeyFrameV<TV>>)
    requires
        ks.len() >= 1,
        forall|i: int|
            0 <= i < ks.len() - 1 ==> (#[trigger] ks[i]).end_value == ks[i + 1].start_value && ks[
                i
            ].end_frame == ks[i + 1].start_frame,
        ks.last().end_value == ks.last().start_value,
        ks.last().end_frame == 0,
    ensures
        backfill_v(Seq::new(ks.len(), |i: int| reset_kf(ks[i]))) == ks,
{
    let rs = Seq::new(ks.len(), |i: int| reset_kf(ks[i]));
    assert forall|i: int| 0 <= i < ks.len() implies backfill_v(rs)[i] == ks[i] by {
        if i + 1 < ks.len() {
            assert(backfill_v(rs)[i] =~= ks[i]);
        } else {
            assert(i == ks.len() - 1);
            assert(rs[i] == reset_kf(ks[i]));
            assert(backfill_v(rs)[i] =~= ks[i]);
        }
    }
    assert(backfill_v(rs) =~= ks);
}

/// Decoding an encoded animated property restores it exactly, for any value
/// type whose own codec round-trips and whose encoded values are never null
/// and never keyframe-shaped.
pub proof fn lemma_rt_animated<TV>(
    a: AnimatedV<TV>,
    enc: spec_fn(TV) -> ValueV,
    dec: spec_fn(ValueV) -> Result<TV, DecodeError>,
)
    requires
        wf_animated(a),
        forall|t: TV| #[trigger] dec(enc(t)) == Ok::<TV, DecodeError>(t),
        forall|t: TV| !((#[trigger] enc(t)) is Null),
        forall|t: TV| !is_legacy_kf(#[trigger] enc(t)),
    ensures
        sdec_animated_v(senc_animated_v(a, enc), dec) == Ok::<AnimatedV<TV>, DecodeError>(a),
{
    let v = senc_animated_v(a, enc);
    let fs = v->Obj_0;
    lemma_lookup_step(fs, Key::A, 0);
    lemma_lookup_step(fs, Key::K, 1);
    if a.animated {
        let items = senc_kf_seq(a.keyframes, enc);
        assert(items.len() == a.keyframes.len());
        lemma_rt_kf_seq(a.keyframes, enc, dec);
        lemma_backfill_reset(a.keyframes);
        assert(sdec_animated_v(v, dec) matches Ok(a2) && a2 =~= a);
    } else {
        let kv = enc(a.keyframes[0].start_value);
        assert(!is_legacy_kf(kv));
        assert(dec(kv) == Ok::<TV, DecodeError>(a.keyframes[0].start_value));
        assert(animated_const_v(a.keyframes[0].start_value).keyframes =~= a.keyframes);
        assert(animated_const_v(a.keyframes[0].start_value) =~= a);
    }
}

// ------------------------------------------------------------------
// Fixed-point scalar instantiation
// ------------------------------------------------------------------
/// The scalar value decoder, as a function value.
pub open spec fn dec_num_f() -> spec_fn(ValueV) -> Result<i64, DecodeError> {
    |v: ValueV| sdec_scalar(v)
}

/// The scalar value encoder, as a function value.
pub open spec fn enc_num_f() -> spec_fn(i64) -> ValueV {
    |n: i64| senc_scalar(n)
}

pub fn decode_kf_num(v: &Value) -> (r: Result<KeyFrame<i64>, DecodeError>)
    ensures
        res_v(r) == sdec_kf(v.deep_view(), dec_num_f()),
{
    match v {
        Value::Obj(fields) => {
            let sv = match get_field(fields, Key::S) {
                None => {
                    return Err(DecodeError::MalformedKeyframes);
                },
                Some(x) => x,
            };
            let val = match decode_scalar(sv) {
                Ok(x) => x,
                Err(e) => {
                    return Err(e);
                },
            };
            let tf = match get_field(fields, Key::T) {
                None => 0,
                Some(tv) => match decode_num(tv) {
                    Ok(x) => x,
                    Err(e) => {
                        return Err(e);
                    },
                },
            };
            let eo = match decode_opt_easing(get_field(fields, Key::O)) {
                Ok(x) => x,
                Err(e) => {
                    return Err(e);
                },
            };
            let ei = match decode_opt_easing(get_field(fields, Key::I)) {
                Ok(x) => x,
                Err(e) => {
                    return Err(e);
                },
            };
            let kf = KeyFrame {
                start_value: val,
                end_value: val,
                start_frame: tf,
                end_frame: 0,
                easing_out: eo,
                easing_in: ei,
            };
            proof {
                assert(kf.deep_view() =~= sdec_kf(v.deep_view(), dec_num_f())->Ok_0);
            }
            Ok(kf)
        },
        _ => Err(DecodeError::Schema),
    }
}

/// The backfill pass over decoded scalar keyframes.
pub fn backfill_num(ks: Vec<KeyFrame<i64>>) -> (r: Vec<KeyFrame<i64>>)
    ensures
        r.deep_view() == backfill_v(ks.deep_view()),
{
    let n = ks.len();
    let mut out: Vec<KeyFrame<i64>> = Vec::new();
    for i in 0..n
        invariant
            n == ks.len(),
            out@.len() == i,
            forall|j: int| 0 <= j < i ==> #[trigger] out@[j].deep_view() == backfill_v(
                ks.deep_view(),
            )[j],
    {
        let kf = if i + 1 < n {
            KeyFrame {
                start_value: ks[i].start_value,
                end_value: ks[i + 1].start_value,
                start_frame: ks[i].start_frame,
                end_frame: ks[i + 1].start_frame,
                easing_out: dup_opt_easing(&ks[i].easing_out),
                easing_in: dup_opt_easing(&ks[i].easing_in),
            }
        } else {
            KeyFrame {
                start_value: ks[i].start_value,
                end_value: ks[i].end_value,
                start_frame: ks[i].start_frame,
                end_frame: ks[i].end_frame,
                easing_out: dup_opt_easing(&ks[i].easing_out),
                easing_in: dup_opt_easing(&ks[i].easing_in),
            }
        };
        out.push(kf);
        proof {
            assert(out@[i as int].deep_view() =~= backfill_v(ks.deep_view())[i as int]);
        }
    }
    proof {
        assert(out.deep_view() =~= backfill_v(ks.deep_view()));
    }
    out
}

/// A keyframe array, element by element; the first failure wins.
pub fn decode_kf_list_num(items: &Vec<Value>) -> (r: Result<Vec<KeyFrame<i64>>, DecodeError>)
    ensures
        res_v(r) == sdec_kf_seq(vals_dv(items@), dec_num_f()),
{
    proof {
        lemma_vals_dv(items@);
    }
    let ghost gitems = vals_dv(items@);
    let mut ks: Vec<KeyFrame<i64>> = Vec::new();
    let n = items.len();
    for i in 0..n
        invariant
            n == items.len(),
            gitems == vals_dv(items@),
            gitems.len() == n,
            forall|j: int| 0 <= j < n ==> gitems[j] == items@[j].deep_view(),
            ks@.len() == i,
            forall|j: int| 0 <= j < i ==> sdec_kf(gitems[j], dec_num_f()) == Ok::<
                KeyFrameV<i64>,
                DecodeError,
            >(#[trigger] ks@[j].deep_view()),
    {
        match decode_kf_num(&items[i]) {
            Ok(kf) => {
                ks.push(kf);
            },
            Err(e) => {
                proof {
                    lemma_sdec_kf_seq_ok(gitems, dec_num_f(), ks.deep_view(), i as int);
                    assert(gitems.skip(i as int).len() > 0);
                    assert(gitems.skip(i as int)[0] == gitems[i as int]);
                    assert(sdec_kf_seq(gitems.skip(i as int), dec_num_f()) == Err::<
                        Seq<KeyFrameV<i64>>,
                        DecodeError,
                    >(e));
                }
                return Err(e);
            },
        }
    }
    proof {
        lemma_sdec_kf_seq_ok(gitems, dec_num_f(), ks.deep_view(), n as int);
        assert(gitems.skip(n as int) =~= Seq::empty());
        assert(ks.deep_view() + Seq::<KeyFrameV<i64>>::empty() =~= ks.deep_view());
    }
    Ok(ks)
}

pub fn decode_animated_num(v: &Value) -> (r: Result<Animated<i64>, DecodeError>)
    ensures
        res_v(r) == sdec_animated_v(v.deep_view(), dec_num_f()),
{
    match v {
        Value::Obj(fields) => {
            let animated = match decode_bool_flag(get_field(fields, Key::A)) {
                Ok(b) => b,
                Err(e) => {
                    return Err(e);
                },
            };
            let kv = match get_field(fields, Key::K) {
                None => {
                    return Err(DecodeError::Schema);
                },
                Some(x) => x,
            };
            if animated {
                match kv {
                    Value::Arr(items) => {
                        proof {
                            lemma_vals_dv(items@);
                        }
                        if items.len() == 0 {
                            return Err(DecodeError::MalformedKeyframes);
                        }
                        match decode_kf_list_num(items) {
                            Err(e) => Err(e),
                            Ok(ks) => {
                                let bf = backfill_num(ks);
                                let a = Animated { animated: true, keyframes: bf };
                                proof {
                                    assert(a.deep_view() =~= sdec_animated_v(
                                        v.deep_view(),
                                        dec_num_f(),
                                    )->Ok_0);
                                }
                                Ok(a)
                            },
                        }
                    },
                    _ => Err(DecodeError::MalformedKeyframes),
                }
            } else {
                if is_legacy_kf_exec(kv) {
                    let items = match kv {
                        Value::Arr(items) => items,
                        _ => {
                            return Err(DecodeError::Schema);
                        },
                    };
                    proof {
                        lemma_vals_dv(items@);
                    }
                    match decode_kf_num(&items[0]) {
                        Err(e) => Err(e),
                        Ok(kf) => {
                            let a = Animated {
                                animated: false,
                                keyframes: vec![KeyFrame::from_value(kf.start_value)],
                            };
                            proof {
                                assert(a.deep_view().keyframes =~= animated_const_v(
                                    kf.deep_view().start_value,
                                ).keyframes);
                                assert(a.deep_view() =~= animated_const_v(
                                    kf.deep_view().start_value,
                                ));
                            }
                            Ok(a)
                        },
                    }
                } else {
                    match decode_scalar(kv) {
                        Err(e) => Err(e),
                        Ok(t) => {
                            let a = Animated {
                                animated: false,
                                keyframes: vec![KeyFrame::from_value(t)],
                            };
                            proof {
                                assert(a.deep_view().keyframes =~= animated_const_v(t).keyframes);
                                assert(a.deep_view() =~= animated_const_v(t));
                            }
                            Ok(a)
                        },
                    }
                }
            }
        },
        _ => Err(DecodeError::Schema),
    }
}

/// Whether a constant field carries a legacy one-element keyframe array.
pub fn is_legacy_kf_exec(v: &Value) -> (r: bool)
    ensures
        r == is_legacy_kf(v.deep_view()),
{
    match v {
        Value::Arr(items) => {
            proof {
                lemma_vals_dv(items@);
            }
            if items.len() == 1 {
                match &items[0] {
                    Value::Obj(fs) => crate::value::has_key(fs, Key::S),
                    _ => false,
                }
            } else {
                false
            }
        },
        _ => false,
    }
}

pub fn encode_kf_num(kf: &KeyFrame<i64>) -> (r: Value)
    ensures
        r.deep_view() == senc_kf(kf.deep_view(), enc_num_f()),
{
    let mut fields: Vec<Entry> = Vec::new();
    fields.push(Entry { key: Key::S, val: encode_scalar(kf.start_value) });
    fields.push(Entry { key: Key::T, val: Value::Num(kf.start_frame) });
    match &kf.easing_out {
        None => {},
        Some(e) => {
            fields.push(Entry { key: Key::O, val: encode_easing(e) });
        },
    }
    match &kf.easing_in {
        None => {},
        Some(e) => {
            fields.push(Entry { key: Key::I, val: encode_easing(e) });
        },
    }
    let ghost gfields = fields@;
    let r = Value::Obj(fields);
    proof {
        lemma_entries_dv(gfields);
        assert(r.deep_view() matches ValueV::Obj(s) && s =~= senc_kf(
            kf.deep_view(),
            enc_num_f(),
        )->Obj_0);
    }
    r
}

/// A keyframe list as an array value.
pub fn encode_kf_arr_num(ks: &Vec<KeyFrame<i64>>) -> (r: Value)
    ensures
        r.deep_view() == ValueV::Arr(senc_kf_seq(ks.deep_view(), enc_num_f())),
{
    let mut items: Vec<Value> = Vec::new();
    let n = ks.len();
    for i in 0..n
        invariant
            n == ks.len(),
            items@.len() == i,
            forall|j: int| 0 <= j < i ==> items@[j].deep_view() == senc_kf(
                #[trigger] ks@[j].deep_view(),
                enc_num_f(),
            ),
    {
        items.push(encode_kf_num(&ks[i]));
    }
    let ghost gitems = items@;
    let r = Value::Arr(items);
    proof {
        lemma_vals_dv(gitems);
        assert(r.deep_view() matches ValueV::Arr(s) && s =~= senc_kf_seq(
            ks.deep_view(),
            enc_num_f(),
        ));
    }
    r
}

pub fn encode_animated_num(a: &Animated<i64>) -> (r: Value)
    ensures
        r.deep_view() == senc_animated_v(a.deep_view(), enc_num_f()),
{
    let mut fields: Vec<Entry> = Vec::new();
    fields.push(Entry { key: Key::A, val: encode_bool_int(a.animated) });
    let kval: Value = if a.animated {
        encode_kf_arr_num(&a.keyframes)
    } else if a.keyframes.len() == 0 {
        Value::Null
    } else {
        encode_scalar(a.keyframes[0].start_value)
    };
    fields.push(Entry { key: Key::K, val: kval });
    let ghost gfields = fields@;
    let r = Value::Obj(fields);
    proof {
        lemma_entries_dv(gfields);
        assert(r.deep_view() matches ValueV::Obj(s) && s =~= senc_animated_v(
            a.deep_view(),
            enc_num_f(),
        )->Obj_0);
    }
    r
}

/// The 2D vector value decoder, as a function value.
pub open spec fn dec_vec2_f() -> spec_fn(ValueV) -> Result<Vector2D, DecodeError> {
    |v: ValueV| sdec_vec2(v)
}

/// The 2D vector value encoder, as a function value.
pub open spec fn enc_vec2_f() -> spec_fn(Vector2D) -> ValueV {
    |p: Vector2D| senc_vec2(p)
}

pub fn decode_kf_vec2(v: &Value) -> (r: Result<KeyFrame<Vector2D>, DecodeError>)
    ensures
        res_v(r) == sdec_kf(v.deep_view(), dec_vec2_f()),
{
    match v {
        Value::Obj(fields) => {
            let sv = match get_field(fields, Key::S) {
                None => {
                    return Err(DecodeError::MalformedKeyframes);
                },
                Some(x) => x,
            };
            let val = match decode_vec2(sv) {
                Ok(x) => x,
                Err(e) => {
                    return Err(e);
                },
            };
            let tf = match get_field(fields, Key::T) {
                None => 0,
                Some(tv) => match decode_num(tv) {
                    Ok(x) => x,
                    Err(e) => {
                        return Err(e);
                    },
                },
            };
            let eo = match decode_opt_easing(get_field(fields, Key::O)) {
                Ok(x) => x,
                Err(e) => {
                    return Err(e);
                },
            };
            let ei = match decode_opt_easing(get_field(fields, Key::I)) {
                Ok(x) => x,
                Err(e) => {
                    return Err(e);
                },
            };
            let kf = KeyFrame {
                start_value: val,
                end_value: val,
                start_frame: tf,
                end_frame: 0,
                easing_out: eo,
                easing_in: ei,
            };
            proof {
                assert(kf.deep_view() =~= sdec_kf(v.deep_view(), dec_vec2_f())->Ok_0);
            }
            Ok(kf)
        },
        _ => Err(DecodeError::Schema),
    }
}

/// The backfill pass over decoded keyframes.
pub fn backfill_vec2(ks: Vec<KeyFrame<Vector2D>>) -> (r: Vec<KeyFrame<Vector2D>>)
    ensures
        r.deep_view() == backfill_v(ks.deep_view()),
{
    let n = ks.len();
    let mut out: Vec<KeyFrame<Vector2D>> = Vec::new();
    for i in 0..n
        invariant
            n == ks.len(),
            out@.len() == i,
            forall|j: int| 0 <= j < i ==> #[trigger] out@[j].deep_view() == backfill_v(
                ks.deep_view(),
            )[j],
    {
        let kf = if i + 1 < n {
            KeyFrame {
                start_value: ks[i].start_value,
                end_value: ks[i + 1].start_value,
                start_frame: ks[i].start_frame,
                end_frame: ks[i + 1].start_frame,
                easing_out: dup_opt_easing(&ks[i].easing_out),
                easing_in: dup_opt_easing(&ks[i].easing_in),
            }
        } else {
            KeyFrame {
                start_value: ks[i].start_value,
                end_value: ks[i].end_value,
                start_frame: ks[i].start_frame,
                end_frame: ks[i].end_frame,
                easing_out: dup_opt_easing(&ks[i].easing_out),
                easing_in: dup_opt_easing(&ks[i].easing_in),
            }
        };
        out.push(kf);
        proof {
            assert(out@[i as int].deep_view() =~= backfill_v(ks.deep_view())[i as int]);
        }
    }
    proof {
        assert(out.deep_view() =~= backfill_v(ks.deep_view()));
    }
    out
}

/// A keyframe array, element by element; the first failure wins.
pub fn decode_kf_list_vec2(items: &Vec<Value>) -> (r: Result<Vec<KeyFrame<Vector2D>>, DecodeError>)
    ensures
        res_v(r) == sdec_kf_seq(vals_dv(items@), dec_vec2_f()),
{
    proof {
        lemma_vals_dv(items@);
    }
    let ghost gitems = vals_dv(items@);
    let mut ks: Vec<KeyFrame<Vector2D>> = Vec::new();
    let n = items.len();
    for i in 0..n
        invariant
            n == items.len(),
            gitems == vals_dv(items@),
            gitems.len() == n,
            forall|j: int| 0 <= j < n ==> gitems[j] == items@[j].deep_view(),
            ks@.len() == i,
            forall|j: int| 0 <= j < i ==> sdec_kf(gitems[j], dec_vec2_f()) == Ok::<
                KeyFrameV<Vector2D>,
                DecodeError,
            >(#[trigger] ks@[j].deep_view()),
    {
        match decode_kf_vec2(&items[i]) {
            Ok(kf) => {
                ks.push(kf);
            },
            Err(e) => {
                proof {
                    lemma_sdec_kf_seq_ok(gitems, dec_vec2_f(), ks.deep_view(), i as int);
                    assert(gitems.skip(i as int).len() > 0);
                    assert(gitems.skip(i as int)[0] == gitems[i as int]);
                    assert(sdec_kf_seq(gitems.skip(i as int), dec_vec2_f()) == Err::<
                        Seq<KeyFrameV<Vector2D>>,
                        DecodeError,
                    >(e));
                }
                return Err(e);
            },
        }
    }
    proof {
        lemma_sdec_kf_seq_ok(gitems, dec_vec2_f(), ks.deep_view(), n as int);
        assert(gitems.skip(n as int) =~= Seq::empty());
        assert(ks.deep_view() + Seq::<KeyFrameV<Vector2D>>::empty() =~= ks.deep_view());
    }
    Ok(ks)
}

pub fn decode_animated_vec2(v: &Value) -> (r: Result<Animated<Vector2D>, DecodeError>)
    ensures
        res_v(r) == sdec_animated_v(v.deep_view(), dec_vec2_f()),
{
    match v {
        Value::Obj(fields) => {
            let animated = match decode_bool_flag(get_field(fields, Key::A)) {
                Ok(b) => b,
                Err(e) => {
                    return Err(e);
                },
            };
            let kv = match get_field(fields, Key::K) {
                None => {
                    return Err(DecodeError::Schema);
                },
                Some(x) => x,
            };
            if animated {
                match kv {
                    Value::Arr(items) => {
                        proof {
                            lemma_vals_dv(items@);
                        }
                        if items.len() == 0 {
                            return Err(DecodeError::MalformedKeyframes);
                        }
                        match decode_kf_list_vec2(items) {
                            Err(e) => Err(e),
                            Ok(ks) => {
                                let bf = backfill_vec2(ks);
                                let a = Animated { animated: true, keyframes: bf };
                                proof {
                                    assert(a.deep_view() =~= sdec_animated_v(
                                        v.deep_view(),
                                        dec_vec2_f(),
                                    )->Ok_0);
                                }
                                Ok(a)
                            },
                        }
                    },
                    _ => Err(DecodeError::MalformedKeyframes),
                }
            } else {
                if is_legacy_kf_exec(kv) {
                    let items = match kv {
                        Value::Arr(items) => items,
                        _ => {
                            return Err(DecodeError::Schema);
                        },
                    };
                    proof {
                        lemma_vals_dv(items@);
                    }
                    match decode_kf_vec2(&items[0]) {
                        Err(e) => Err(e),
                        Ok(kf) => {
                            let a = Animated {
                                animated: false,
                                keyframes: vec![KeyFrame::from_value(kf.start_value)],
                            };
                            proof {
                                assert(a.deep_view().keyframes =~= animated_const_v(
                                    kf.deep_view().start_value,
                                ).keyframes);
                                assert(a.deep_view() =~= animated_const_v(
                                    kf.deep_view().start_value,
                                ));
                            }
                            Ok(a)
                        },
                    }
                } else {
                    match decode_vec2(kv) {
                        Err(e) => Err(e),
                        Ok(t) => {
                            let a = Animated {
                                animated: false,
                                keyframes: vec![KeyFrame::from_value(t)],
                            };
                            proof {
                                assert(a.deep_view().keyframes =~= animated_const_v(t).keyframes);
                                assert(a.deep_view() =~= animated_const_v(t));
                            }
                            Ok(a)
                        },
                    }
                }
            }
        },
        _ => Err(DecodeError::Schema),
    }
}

pub fn encode_kf_vec2(kf: &KeyFrame<Vector2D>) -> (r: Value)
    ensures
        r.deep_view() == senc_kf(kf.deep_view(), enc_vec2_f()),
{
    let mut fields: Vec<Entry> = Vec::new();
    fields.push(Entry { key: Key::S, val: encode_vec2(kf.start_value) });
    fields.push(Entry { key: Key::T, val: Value::Num(kf.start_frame) });
    match &kf.easing_out {
        None => {},
        Some(e) => {
            fields.push(Entry { key: Key::O, val: encode_easing(e) });
        },
    }
    match &kf.easing_in {
        None => {},
        Some(e) => {
            fields.push(Entry { key: Key::I, val: encode_easing(e) });
        },
    }
    let ghost gfields = fields@;
    let r = Value::Obj(fields);
    proof {
        lemma_entries_dv(gfields);
        assert(r.deep_view() matches ValueV::Obj(s) && s =~= senc_kf(
            kf.deep_view(),
            enc_vec2_f(),
        )->Obj_0);
    }
    r
}

/// A keyframe list as an array value.
pub fn encode_kf_arr_vec2(ks: &Vec<KeyFrame<Vector2D>>) -> (r: Value)
    ensures
        r.deep_view() == ValueV::Arr(senc_kf_seq(ks.deep_view(), enc_vec2_f())),
{
    let mut items: Vec<Value> = Vec::new();
    let n = ks.len();
    for i in 0..n
        invariant
            n == ks.len(),
            items@.len() == i,
            forall|j: int| 0 <= j < i ==> items@[j].deep_view() == senc_kf(
                #[trigger] ks@[j].deep_view(),
                enc_vec2_f(),
            ),
    {
        items.push(encode_kf_vec2(&ks[i]));
    }
    let ghost gitems = items@;
    let r = Value::Arr(items);
    proof {
        lemma_vals_dv(gitems);
        assert(r.deep_view() matches ValueV::Arr(s) && s =~= senc_kf_seq(
            ks.deep_view(),
            enc_vec2_f(),
        ));
    }
    r
}

pub fn encode_animated_vec2(a: &Animated<Vector2D>) -> (r: Value)
    ensures
        r.deep_view() == senc_animated_v(a.deep_view(), enc_vec2_f()),
{
    let mut fields: Vec<Entry> = Vec::new();
    fields.push(Entry { key: Key::A, val: encode_bool_int(a.animated) });
    let kval: Value = if a.animated {
        encode_kf_arr_vec2(&a.keyframes)
    } else if a.keyframes.len() == 0 {
        Value::Null
    } else {
        encode_vec2(a.keyframes[0].start_value)
    };
    fields.push(Entry { key: Key::K, val: kval });
    let ghost gfields = fields@;
    let r = Value::Obj(fields);
    proof {
        lemma_entries_dv(gfields);
        assert(r.deep_view() matches ValueV::Obj(s) && s =~= senc_animated_v(
            a.deep_view(),
            enc_vec2_f(),
        )->Obj_0);
    }
    r
}


/// The color value decoder, as a function value.
pub open spec fn dec_rgb_f() -> spec_fn(ValueV) -> Result<Rgb, DecodeError> {
    |v: ValueV| sdec_rgb(v)
}

/// The color value encoder, as a function value.
pub open spec fn enc_rgb_f() -> spec_fn(Rgb) -> ValueV {
    |c: Rgb| senc_rgb(c)
}

pub fn decode_kf_rgb(v: &Value) -> (r: Result<KeyFrame<Rgb>, DecodeError>)
    ensures
        res_v(r) == sdec_kf(v.deep_view(), dec_rgb_f()),
{
    match v {
        Value::Obj(fields) => {
            let sv = match get_field(fields, Key::S) {
                None => {
                    return Err(DecodeError::MalformedKeyframes);
                },
                Some(x) => x,
            };
            let val = match decode_rgb(sv) {
                Ok(x) => x,
                Err(e) => {
                    return Err(e);
                },
            };
            let tf = match get_field(fields, Key::T) {
                None => 0,
                Some(tv) => match decode_num(tv) {
                    Ok(x) => x,
                    Err(e) => {
                        return Err(e);
                    },
                },
            };
            let eo = match decode_opt_easing(get_field(fields, Key::O)) {
                Ok(x) => x,
                Err(e) => {
                    return Err(e);
                },
            };
            let ei = match decode_opt_easing(get_field(fields, Key::I)) {
                Ok(x) => x,
                Err(e) => {
                    return Err(e);
                },
            };
            let kf = KeyFrame {
                start_value: val,
                end_value: val,
                start_frame: tf,
                end_frame: 0,
                easing_out: eo,
                easing_in: ei,
            };
            proof {
                assert(kf.deep_view() =~= sdec_kf(v.deep_view(), dec_rgb_f())->Ok_0);
            }
            Ok(kf)
        },
        _ => Err(DecodeError::Schema),
    }
}

/// The backfill pass over decoded keyframes.
pub fn backfill_rgb(ks: Vec<KeyFrame<Rgb>>) -> (r: Vec<KeyFrame<Rgb>>)
    ensures
        r.deep_view() == backfill_v(ks.deep_view()),
{
    let n = ks.len();
    let mut out: Vec<KeyFrame<Rgb>> = Vec::new();
    for i in 0..n
        invariant
            n == ks.len(),
            out@.len() == i,
            forall|j: int| 0 <= j < i ==> #[trigger] out@[j].deep_view() == backfill_v(
                ks.deep_view(),
            )[j],
    {
        let kf = if i + 1 < n {
            KeyFrame {
                start_value: ks[i].start_value,
                end_value: ks[i + 1].start_value,
                start_frame: ks[i].start_frame,
                end_frame: ks[i + 1].start_frame,
                easing_out: dup_opt_easing(&ks[i].easing_out),
                easing_in: dup_opt_easing(&ks[i].easing_in),
            }
        } else {
            KeyFrame {
                start_value: ks[i].start_value,
                end_value: ks[i].end_value,
                start_frame: ks[i].start_frame,
                end_frame: ks[i].end_frame,
                easing_out: dup_opt_easing(&ks[i].easing_out),
                easing_in: dup_opt_easing(&ks[i].easing_in),
            }
        };
        out.push(kf);
        proof {
            assert(out@[i as int].deep_view() =~= backfill_v(ks.deep_view())[i as int]);
        }
    }
    proof {
        assert(out.deep_view() =~= backfill_v(ks.deep_view()));
    }
    out
}

/// A keyframe array, element by element; the first failure wins.
pub fn decode_kf_list_rgb(items: &Vec<Value>) -> (r: Result<Vec<KeyFrame<Rgb>>, DecodeError>)
    ensures
        res_v(r) == sdec_kf_seq(vals_dv(items@), dec_rgb_f()),
{
    proof {
        lemma_vals_dv(items@);
    }
    let ghost gitems = vals_dv(items@);
    let mut ks: Vec<KeyFrame<Rgb>> = Vec::new();
    let n = items.len();
    for i in 0..n
        invariant
            n == items.len(),
            gitems == vals_dv(items@),
            gitems.len() == n,
            forall|j: int| 0 <= j < n ==> gitems[j] == items@[j].deep_view(),
            ks@.len() == i,
            forall|j: int| 0 <= j < i ==> sdec_kf(gitems[j], dec_rgb_f()) == Ok::<
                KeyFrameV<Rgb>,
                DecodeError,
            >(#[trigger] ks@[j].deep_view()),
    {
        match decode_kf_rgb(&items[i]) {
            Ok(kf) => {
                ks.push(kf);
            },
            Err(e) => {
                proof {
                    lemma_sdec_kf_seq_ok(gitems, dec_rgb_f(), ks.deep_view(), i as int);
                    assert(gitems.skip(i as int).len() > 0);
                    assert(gitems.skip(i as int)[0] == gitems[i as int]);
                    assert(sdec_kf_seq(gitems.skip(i as int), dec_rgb_f()) == Err::<
                        Seq<KeyFrameV<Rgb>>,
                        DecodeError,
                    >(e));
                }
                return Err(e);
            },
        }
    }
    proof {
        lemma_sdec_kf_seq_ok(gitems, dec_rgb_f(), ks.deep_view(), n as int);
        assert(gitems.skip(n as int) =~= Seq::empty());
        assert(ks.deep_view() + Seq::<KeyFrameV<Rgb>>::empty() =~= ks.deep_view());
    }
    Ok(ks)
}

pub fn decode_animated_rgb(v: &Value) -> (r: Result<Animated<Rgb>, DecodeError>)
    ensures
        res_v(r) == sdec_animated_v(v.deep_view(), dec_rgb_f()),
{
    match v {
        Value::Obj(fields) => {
            let animated = match decode_bool_flag(get_field(fields, Key::A)) {
                Ok(b) => b,
                Err(e) => {
                    return Err(e);
                },
            };
            let kv = match get_field(fields, Key::K) {
                None => {
                    return Err(DecodeError::Schema);
                },
                Some(x) => x,
            };
            if animated {
                match kv {
                    Value::Arr(items) => {
                        proof {
                            lemma_vals_dv(items@);
                        }
                        if items.len() == 0 {
                            return Err(DecodeError::MalformedKeyframes);
                        }
                        match decode_kf_list_rgb(items) {
                            Err(e) => Err(e),
                            Ok(ks) => {
                                let bf = backfill_rgb(ks);
                                let a = Animated { animated: true, keyframes: bf };
                                proof {
                                    assert(a.deep_view() =~= sdec_animated_v(
                                        v.deep_view(),
                                        dec_rgb_f(),
                                    )->Ok_0);
                                }
                                Ok(a)
                            },
                        }
                    },
                    _ => Err(DecodeError::MalformedKeyframes),
                }
            } else {
                if is_legacy_kf_exec(kv) {
                    let items = match kv {
                        Value::Arr(items) => items,
                        _ => {
                            return Err(DecodeError::Schema);
                        },
                    };
                    proof {
                        lemma_vals_dv(items@);
                    }
                    match decode_kf_rgb(&items[0]) {
                        Err(e) => Err(e),
                        Ok(kf) => {
                            let a = Animated {
                                animated: false,
                                keyframes: vec![KeyFrame::from_value(kf.start_value)],
                            };
                            proof {
                                assert(a.deep_view().keyframes =~= animated_const_v(
                                    kf.deep_view().start_value,
                                ).keyframes);
                                assert(a.deep_view() =~= animated_const_v(
                                    kf.deep_view().start_value,
                                ));
                            }
                            Ok(a)
                        },
                    }
                } else {
                    match decode_rgb(kv) {
                        Err(e) => Err(e),
                        Ok(t) => {
                            let a = Animated {
                                animated: false,
                                keyframes: vec![KeyFrame::from_value(t)],
                            };
                            proof {
                                assert(a.deep_view().keyframes =~= animated_const_v(t).keyframes);
                                assert(a.deep_view() =~= animated_const_v(t));
                            }
                            Ok(a)
                        },
                    }
                }
            }
        },
        _ => Err(DecodeError::Schema),
    }
}

pub fn encode_kf_rgb(kf: &KeyFrame<Rgb>) -> (r: Value)
    ensures
        r.deep_view() == senc_kf(kf.deep_view(), enc_rgb_f()),
{
    let mut fields: Vec<Entry> = Vec::new();
    fields.push(Entry { key: Key::S, val: encode_rgb(kf.start_value) });
    fields.push(Entry { key: Key::T, val: Value::Num(kf.start_frame) });
    match &kf.easing_out {
        None => {},
        Some(e) => {
            fields.push(Entry { key: Key::O, val: encode_easing(e) });
        },
    }
    match &kf.easing_in {
        None => {},
        Some(e) => {
            fields.push(Entry { key: Key::I, val: encode_easing(e) });
        },
    }
    let ghost gfields = fields@;
    let r = Value::Obj(fields);
    proof {
        lemma_entries_dv(gfields);
        assert(r.deep_view() matches ValueV::Obj(s) && s =~= senc_kf(
            kf.deep_view(),
            enc_rgb_f(),
        )->Obj_0);
    }
    r
}

/// A keyframe list as an array value.
pub fn encode_kf_arr_rgb(ks: &Vec<KeyFrame<Rgb>>) -> (r: Value)
    ensures
        r.deep_view() == ValueV::Arr(senc_kf_seq(ks.deep_view(), enc_rgb_f())),
{
    let mut items: Vec<Value> = Vec::new();
    let n = ks.len();
    for i in 0..n
        invariant
            n == ks.len(),
            items@.len() == i,
            forall|j: int| 0 <= j < i ==> items@[j].deep_view() == senc_kf(
                #[trigger] ks@[j].deep_view(),
                enc_rgb_f(),
            ),
    {
        items.push(encode_kf_rgb(&ks[i]));
    }
    let ghost gitems = items@;
    let r = Value::Arr(items);
    proof {
        lemma_vals_dv(gitems);
        assert(r.deep_view() matches ValueV::Arr(s) && s =~= senc_kf_seq(
            ks.deep_view(),
            enc_rgb_f(),
        ));
    }
    r
}

pub fn encode_animated_rgb(a: &Animated<Rgb>) -> (r: Value)
    ensures
        r.deep_view() == senc_animated_v(a.deep_view(), enc_rgb_f()),
{
    let mut fields: Vec<Entry> = Vec::new();
    fields.push(Entry { key: Key::A, val: encode_bool_int(a.animated) });
    let kval: Value = if a.animated {
        encode_kf_arr_rgb(&a.keyframes)
    } else if a.keyframes.len() == 0 {
        Value::Null
    } else {
        encode_rgb(a.keyframes[0].start_value)
    };
    fields.push(Entry { key: Key::K, val: kval });
    let ghost gfields = fields@;
    let r = Value::Obj(fields);
    proof {
        lemma_entries_dv(gfields);
        assert(r.deep_view() matches ValueV::Obj(s) && s =~= senc_animated_v(
            a.deep_view(),
            enc_rgb_f(),
        )->Obj_0);
    }
    r
}


/// One keyframe carrying a constant path list.
fn kf_const_beziers(t: Vec<Bezier>) -> (r: KeyFrame<Vec<Bezier>>)
    ensures
        r.deep_view() == kf_const_v(t.deep_view()),
{
    let ev = dup_beziers(&t);
    let r = KeyFrame {
        start_value: t,
        end_value: ev,
        start_frame: 0,
        end_frame: 0,
        easing_out: None,
        easing_in: None,
    };
    proof {
        assert(r.deep_view() =~= kf_const_v(t.deep_view()));
    }
    r
}

/// The Bezier path list value decoder, as a function value.
pub open spec fn dec_beziers_f() -> spec_fn(ValueV) -> Result<Seq<BezierV>, DecodeError> {
    |v: ValueV| sdec_bezier_list(v)
}

/// The Bezier path list value encoder, as a function value.
pub open spec fn enc_beziers_f() -> spec_fn(Seq<BezierV>) -> ValueV {
    |bs: Seq<BezierV>| senc_bezier_list(bs)
}

pub fn decode_kf_beziers(v: &Value) -> (r: Result<KeyFrame<Vec<Bezier>>, DecodeError>)
    ensures
        res_v(r) == sdec_kf(v.deep_view(), dec_beziers_f()),
{
    match v {
        Value::Obj(fields) => {
            let sv = match get_field(fields, Key::S) {
                None => {
                    return Err(DecodeError::MalformedKeyframes);
                },
                Some(x) => x,
            };
            let val = match decode_bezier_list(sv) {
                Ok(x) => x,
                Err(e) => {
                    return Err(e);
                },
            };
            let tf = match get_field(fields, Key::T) {
                None => 0,
                Some(tv) => match decode_num(tv) {
                    Ok(x) => x,
                    Err(e) => {
                        return Err(e);
                    },
                },
            };
            let eo = match decode_opt_easing(get_field(fields, Key::O)) {
                Ok(x) => x,
                Err(e) => {
                    return Err(e);
                },
            };
            let ei = match decode_opt_easing(get_field(fields, Key::I)) {
                Ok(x) => x,
                Err(e) => {
                    return Err(e);
                },
            };
            let val_end = dup_beziers(&val);
            let kf = KeyFrame {
                start_value: val,
                end_value: val_end,
                start_frame: tf,
                end_frame: 0,
                easing_out: eo,
                easing_in: ei,
            };
            proof {
                assert(kf.deep_view() =~= sdec_kf(v.deep_view(), dec_beziers_f())->Ok_0);
            }
            Ok(kf)
        },
        _ => Err(DecodeError::Schema),
    }
}

/// The backfill pass over decoded keyframes.
pub fn backfill_beziers(ks: Vec<KeyFrame<Vec<Bezier>>>) -> (r: Vec<KeyFrame<Vec<Bezier>>>)
    ensures
        r.deep_view() == backfill_v(ks.deep_view()),
{
    let n = ks.len();
    let mut out: Vec<KeyFrame<Vec<Bezier>>> = Vec::new();
    for i in 0..n
        invariant
            n == ks.len(),
            out@.len() == i,
            forall|j: int| 0 <= j < i ==> #[trigger] out@[j].deep_view() == backfill_v(
                ks.deep_view(),
            )[j],
    {
        let kf = if i + 1 < n {
            KeyFrame {
                start_value: dup_beziers(&ks[i].start_value),
                end_value: dup_beziers(&ks[i + 1].start_value),
                start_frame: ks[i].start_frame,
                end_frame: ks[i + 1].start_frame,
                easing_out: dup_opt_easing(&ks[i].easing_out),
                easing_in: dup_opt_easing(&ks[i].easing_in),
            }
        } else {
            KeyFrame {
                start_value: dup_beziers(&ks[i].start_value),
                end_value: dup_beziers(&ks[i].end_value),
                start_frame: ks[i].start_frame,
                end_frame: ks[i].end_frame,
                easing_out: dup_opt_easing(&ks[i].easing_out),
                easing_in: dup_opt_easing(&ks[i].easing_in),
            }
        };
        out.push(kf);
        proof {
            assert(out@[i as int].deep_view() =~= backfill_v(ks.deep_view())[i as int]);
        }
    }
    proof {
        assert(out.deep_view() =~= backfill_v(ks.deep_view()));
    }
    out
}

/// A keyframe array, element by element; the first failure wins.
pub fn decode_kf_list_beziers(items: &Vec<Value>) -> (r: Result<Vec<KeyFrame<Vec<Bezier>>>, DecodeError>)
    ensures
        res_v(r) == sdec_kf_seq(vals_dv(items@), dec_beziers_f()),
{
    proof {
        lemma_vals_dv(items@);
    }
    let ghost gitems = vals_dv(items@);
    let mut ks: Vec<KeyFrame<Vec<Bezier>>> = Vec::new();
    let n = items.len();
    for i in 0..n
        invariant
            n == items.len(),
            gitems == vals_dv(items@),
            gitems.len() == n,
            forall|j: int| 0 <= j < n ==> gitems[j] == items@[j].deep_view(),
            ks@.len() == i,
            forall|j: int| 0 <= j < i ==> sdec_kf(gitems[j], dec_beziers_f()) == Ok::<
                KeyFrameV<Seq<BezierV>>,
                DecodeError,
            >(#[trigger] ks@[j].deep_view()),
    {
        match decode_kf_beziers(&items[i]) {
            Ok(kf) => {
                ks.push(kf);
            },
            Err(e) => {
                proof {
                    lemma_sdec_kf_seq_ok(gitems, dec_beziers_f(), ks.deep_view(), i as int);
                    assert(gitems.skip(i as int).len() > 0);
                    assert(gitems.skip(i as int)[0] == gitems[i as int]);
                    assert(sdec_kf_seq(gitems.skip(i as int), dec_beziers_f()) == Err::<
                        Seq<KeyFrameV<Seq<BezierV>>>,
                        DecodeError,
                    >(e));
                }
                return Err(e);
            },
        }
    }
    proof {
        lemma_sdec_kf_seq_ok(gitems, dec_beziers_f(), ks.deep_view(), n as int);
        assert(gitems.skip(n as int) =~= Seq::empty());
        assert(ks.deep_view() + Seq::<KeyFrameV<Seq<BezierV>>>::empty() =~= ks.deep_view());
    }
    Ok(ks)
}

pub fn decode_animated_beziers(v: &Value) -> (r: Result<Animated<Vec<Bezier>>, DecodeError>)
    ensures
        res_v(r) == sdec_animated_v(v.deep_view(), dec_beziers_f()),
{
    match v {
        Value::Obj(fields) => {
            let animated = match decode_bool_flag(get_field(fields, Key::A)) {
                Ok(b) => b,
                Err(e) => {
                    return Err(e);
                },
            };
            let kv = match get_field(fields, Key::K) {
                None => {
                    return Err(DecodeError::Schema);
                },
                Some(x) => x,
            };
            if animated {
                match kv {
                    Value::Arr(items) => {
                        proof {
                            lemma_vals_dv(items@);
                        }
                        if items.len() == 0 {
                            return Err(DecodeError::MalformedKeyframes);
                        }
                        match decode_kf_list_beziers(items) {
                            Err(e) => Err(e),
                            Ok(ks) => {
                                let bf = backfill_beziers(ks);
                                let a = Animated { animated: true, keyframes: bf };
                                proof {
                                    assert(a.deep_view() =~= sdec_animated_v(
                                        v.deep_view(),
                                        dec_beziers_f(),
                                    )->Ok_0);
                                }
                                Ok(a)
                            },
                        }
                    },
                    _ => Err(DecodeError::MalformedKeyframes),
                }
            } else {
                if is_legacy_kf_exec(kv) {
                    let items = match kv {
                        Value::Arr(items) => items,
                        _ => {
                            return Err(DecodeError::Schema);
                        },
                    };
                    proof {
                        lemma_vals_dv(items@);
                    }
                    match decode_kf_beziers(&items[0]) {
                        Err(e) => Err(e),
                        Ok(kf) => {
                            let a = Animated {
                                animated: false,
                                keyframes: vec![kf_const_beziers(kf.start_value)],
                            };
                            proof {
                                assert(a.deep_view().keyframes =~= animated_const_v(
                                    kf.deep_view().start_value,
                                ).keyframes);
                                assert(a.deep_view() =~= animated_const_v(
                                    kf.deep_view().start_value,
                                ));
                            }
                            Ok(a)
                        },
                    }
                } else {
                    match decode_bezier_list(kv) {
                        Err(e) => Err(e),
                        Ok(t) => {
                            let a = Animated {
                                animated: false,
                                keyframes: vec![kf_const_beziers(t)],
                            };
                            proof {
                                assert(a.deep_view().keyframes =~= animated_const_v(
                                    t.deep_view(),
                                ).keyframes);
                                assert(a.deep_view() =~= animated_const_v(t.deep_view()));
                            }
                            Ok(a)
                        },
                    }
                }
            }
        },
        _ => Err(DecodeError::Schema),
    }
}

pub fn encode_kf_beziers(kf: &KeyFrame<Vec<Bezier>>) -> (r: Value)
    ensures
        r.deep_view() == senc_kf(kf.deep_view(), enc_beziers_f()),
{
    let mut fields: Vec<Entry> = Vec::new();
    fields.push(Entry { key: Key::S, val: encode_bezier_list(&kf.start_value) });
    fields.push(Entry { key: Key::T, val: Value::Num(kf.start_frame) });
    match &kf.easing_out {
        None => {},
        Some(e) => {
            fields.push(Entry { key: Key::O, val: encode_easing(e) });
        },
    }
    match &kf.easing_in {
        None => {},
        Some(e) => {
            fields.push(Entry { key: Key::I, val: encode_easing(e) });
        },
    }
    let ghost gfields = fields@;
    let r = Value::Obj(fields);
    proof {
        lemma_entries_dv(gfields);
        assert(r.deep_view() matches ValueV::Obj(s) && s =~= senc_kf(
            kf.deep_view(),
            enc_beziers_f(),
        )->Obj_0);
    }
    r
}

/// A keyframe list as an array value.
pub fn encode_kf_arr_beziers(ks: &Vec<KeyFrame<Vec<Bezier>>>) -> (r: Value)
    ensures
        r.deep_view() == ValueV::Arr(senc_kf_seq(ks.deep_view(), enc_beziers_f())),
{
    let mut items: Vec<Value> = Vec::new();
    let n = ks.len();
    for i in 0..n
        invariant
            n == ks.len(),
            items@.len() == i,
            forall|j: int| 0 <= j < i ==> items@[j].deep_view() == senc_kf(
                #[trigger] ks@[j].deep_view(),
                enc_beziers_f(),
            ),
    {
        items.push(encode_kf_beziers(&ks[i]));
    }
    let ghost gitems = items@;
    let r = Value::Arr(items);
    proof {
        lemma_vals_dv(gitems);
        assert(r.deep_view() matches ValueV::Arr(s) && s =~= senc_kf_seq(
            ks.deep_view(),
            enc_beziers_f(),
        ));
    }
    r
}

pub fn encode_animated_beziers(a: &Animated<Vec<Bezier>>) -> (r: Value)
    ensures
        r.deep_view() == senc_animated_v(a.deep_view(), enc_beziers_f()),
{
    let mut fields: Vec<Entry> = Vec::new();
    fields.push(Entry { key: Key::A, val: encode_bool_int(a.animated) });
    let kval: Value = if a.animated {
        encode_kf_arr_beziers(&a.keyframes)
    } else if a.keyframes.len() == 0 {
        Value::Null
    } else {
        encode_bezier_list(&a.keyframes[0].start_value)
    };
    fields.push(Entry { key: Key::K, val: kval });
    let ghost gfields = fields@;
    let r = Value::Obj(fields);
    proof {
        lemma_entries_dv(gfields);
        assert(r.deep_view() matches ValueV::Obj(s) && s =~= senc_animated_v(
            a.deep_view(),
            enc_beziers_f(),
        )->Obj_0);
    }
    r
}


} // verus!
