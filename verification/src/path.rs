//! Bezier path decoding: vertex and tangent lists from nested coordinate
//! arrays, and the whole-path value used by the free-form path shape.

use vstd::prelude::*;

use crate::model::{Bezier, BezierV, DecodeError, Vector2D};
use crate::prim::{
    res_v, field, get_field, sdec_opt_bool, decode_opt_bool, sdec_vec2, decode_vec2, senc_vec2,
    encode_vec2,
};
use crate::value::{Entry, EntryV, Key, Value, ValueV, entries_dv, vals_dv, lemma_vals_dv};

verus! {

/// A list of 2D vectors from an array of coordinate pairs.
pub open spec fn sdec_vec2_seq(items: Seq<ValueV>) -> Result<Seq<Vector2D>, DecodeError>
    decreases items.len(),
{
    if items.len() == 0 {
        Ok(Seq::empty())
    } else {
        match sdec_vec2(items[0]) {
            Err(e) => Err(e),
            Ok(p) => match sdec_vec2_seq(items.drop_first()) {
                Err(e) => Err(e),
                Ok(rest) => Ok(seq![p] + rest),
            },
        }
    }
}

proof fn lemma_sdec_vec2_seq_ok(items: Seq<ValueV>, pre: Seq<Vector2D>, i: int)
    requires
        0 <= i <= items.len(),
        pre.len() == i,
        forall|j: int| 0 <= j < i ==> sdec_vec2(items[j]) == Ok::<Vector2D, DecodeError>(pre[j]),
    ensures
        sdec_vec2_seq(items) == match sdec_vec2_seq(items.skip(i)) {
            Err(e) => Err::<Seq<Vector2D>, DecodeError>(e),
            Ok(rest) => Ok(pre + rest),
        },
    decreases i,
{
    if i == 0 {
        assert(items.skip(0) =~= items);
        match sdec_vec2_seq(items) {
            Err(e) => {},
            Ok(rest) => {
                assert(pre + rest =~= rest);
            },
        }
    } else {
        lemma_sdec_vec2_seq_ok(items, pre.take(i - 1), i - 1);
        assert(items.skip(i - 1).len() > 0);
        assert(items.skip(i - 1)[0] == items[i - 1]);
        assert(items.skip(i - 1).drop_first() =~= items.skip(i));
        assert(sdec_vec2(items[i - 1]) == Ok::<Vector2D, DecodeError>(pre[i - 1]));
        match sdec_vec2_seq(items.skip(i)) {
            Err(e) => {},
            Ok(rest) => {
                assert(pre.take(i - 1) + (seq![pre[i - 1]] + rest) =~= pre + rest);
            },
        }
    }
}

/// A vertex or tangent list: an array of coordinate pairs.
pub open spec fn sdec_vec2_list(v: ValueV) -> Result<Seq<Vector2D>, DecodeError> {
    match v {
        ValueV::Arr(items) => sdec_vec2_seq(items),
        _ => Err(DecodeError::Schema),
    }
}

pub fn decode_vec2_list(v: &Value) -> (r: Result<Vec<Vector2D>, DecodeError>)
    ensures
        res_v(r) == sdec_vec2_list(v.deep_view()),
{
    match v {
        Value::Arr(items) => {
            proof {
                lemma_vals_dv(items@);
            }
            let ghost gitems = vals_dv(items@);
            let mut out: Vec<Vector2D> = Vec::new();
            let n = items.len();
            for i in 0..n
                invariant
                    n == items.len(),
                    v.deep_view() == ValueV::Arr(gitems),
                    gitems == vals_dv(items@),
                    gitems.len() == n,
                    forall|j: int| 0 <= j < n ==> gitems[j] == items@[j].deep_view(),
                    out@.len() == i,
                    forall|j: int| 0 <= j < i ==> sdec_vec2(gitems[j]) == Ok::<
                        Vector2D,
                        DecodeError,
                    >(out@[j]),
            {
                match decode_vec2(&items[i]) {
                    Ok(p) => {
                        out.push(p);
                    },
                    Err(e) => {
                        proof {
                            lemma_sdec_vec2_seq_ok(gitems, out@, i as int);
                            assert(gitems.skip(i as int).len() > 0);
                            assert(gitems.skip(i as int)[0] == gitems[i as int]);
                            assert(sdec_vec2_seq(gitems.skip(i as int)) == Err::<
                                Seq<Vector2D>,
                                DecodeError,
                            >(e));
                        }
                        return Err(e);
                    },
                }
            }
            proof {
                lemma_sdec_vec2_seq_ok(gitems, out@, n as int);
                assert(gitems.skip(n as int) =~= Seq::empty());
                assert(out@ + Seq::<Vector2D>::empty() =~= out@);
                assert(out.deep_view() =~= out@);
            }
            Ok(out)
        },
        _ => Err(DecodeError::Schema),
    }
}

/// The encoding of a vertex or tangent list: an array of coordinate pairs.
pub open spec fn senc_vec2_list(ps: Seq<Vector2D>) -> ValueV {
    ValueV::Arr(Seq::new(ps.len(), |i: int| senc_vec2(ps[i])))
}

pub fn encode_vec2_list(ps: &Vec<Vector2D>) -> (r: Value)
    ensures
        r.deep_view() == senc_vec2_list(ps@),
{
    let mut items: Vec<Value> = Vec::new();
    let n = ps.len();
    for i in 0..n
        invariant
            n == ps.len(),
            items@.len() == i,
            forall|j: int| 0 <= j < i ==> items@[j].deep_view() == senc_vec2(ps@[j]),
    {
        items.push(encode_vec2(ps[i]));
    }
    let ghost gitems = items@;
    let r = Value::Arr(items);
    proof {
        lemma_vals_dv(gitems);
        assert(r.deep_view() matches ValueV::Arr(s) && s =~= senc_vec2_list(ps@)->Arr_0);
    }
    r
}

/// Decoding an encoded coordinate list restores it.
pub proof fn lemma_rt_vec2_list(ps: Seq<Vector2D>)
    ensures
        sdec_vec2_list(senc_vec2_list(ps)) == Ok::<Seq<Vector2D>, DecodeError>(ps),
{
    lemma_rt_vec2_seq(ps);
}

proof fn lemma_rt_vec2_seq(ps: Seq<Vector2D>)
    ensures
        sdec_vec2_seq(Seq::new(ps.len(), |i: int| senc_vec2(ps[i]))) == Ok::<
            Seq<Vector2D>,
            DecodeError,
        >(ps),
    decreases ps.len(),
{
    let items = Seq::new(ps.len(), |i: int| senc_vec2(ps[i]));
    if ps.len() > 0 {
        lemma_rt_vec2_seq(ps.drop_first());
        assert(items.drop_first() =~= Seq::new(
            ps.drop_first().len(),
            |i: int| senc_vec2(ps.drop_first()[i]),
        ));
        assert(sdec_vec2(senc_vec2(ps[0])) == Ok::<Vector2D, DecodeError>(ps[0]));
        assert(seq![ps[0]] + ps.drop_first() =~= ps);
    } else {
        assert(items =~= Seq::<ValueV>::empty());
        assert(ps =~= Seq::<Vector2D>::empty());
    }
}

/// One Bezier path from an object: closed flag (absent meaning open) and the
/// three coordinate lists.
pub open spec fn sdec_bezier(v: ValueV) -> Result<BezierV, DecodeError> {
    match v {
        ValueV::Obj(fs) => match sdec_opt_bool(field(fs, Key::C)) {
            Err(e) => Err(e),
            Ok(closed) => match field(fs, Key::V) {
                None => Err(DecodeError::Schema),
                Some(vv) => match sdec_vec2_list(vv) {
                    Err(e) => Err(e),
                    Ok(verts) => match field(fs, Key::I) {
                        None => Err(DecodeError::Schema),
                        Some(iv) => match sdec_vec2_list(iv) {
                            Err(e) => Err(e),
                            Ok(ins) => match field(fs, Key::O) {
                                None => Err(DecodeError::Schema),
                                Some(ov) => match sdec_vec2_list(ov) {
                                    Err(e) => Err(e),
                                    Ok(outs) => Ok(BezierV {
                                        closed,
                                        verticies: verts,
                                        in_tangent: ins,
                                        out_tangent: outs,
                                    }),
                                },
                            },
                        },
                    },
                },
            },
        },
        _ => Err(DecodeError::Schema),
    }
}

pub fn decode_bezier(v: &Value) -> (r: Result<Bezier, DecodeError>)
    ensures
        res_v(r) == sdec_bezier(v.deep_view()),
{
    match v {
        Value::Obj(fields) => {
            let closed = match decode_opt_bool(get_field(fields, Key::C)) {
                Ok(b) => b,
                Err(e) => {
                    return Err(e);
                },
            };
            let verts = match get_field(fields, Key::V) {
                None => {
                    return Err(DecodeError::Schema);
                },
                Some(vv) => match decode_vec2_list(vv) {
                    Ok(x) => x,
                    Err(e) => {
                        return Err(e);
                    },
                },
            };
            let ins = match get_field(fields, Key::I) {
                None => {
                    return Err(DecodeError::Schema);
                },
                Some(iv) => match decode_vec2_list(iv) {
                    Ok(x) => x,
                    Err(e) => {
                        return Err(e);
                    },
                },
            };
            let outs = match get_field(fields, Key::O) {
                None => {
                    return Err(DecodeError::Schema);
                },
                Some(ov) => match decode_vec2_list(ov) {
                    Ok(x) => x,
                    Err(e) => {
                        return Err(e);
                    },
                },
            };
            let b = Bezier { closed, verticies: verts, in_tangent: ins, out_tangent: outs };
            proof {
                assert(b.deep_view() =~= BezierV {
                    closed,
                    verticies: verts.deep_view(),
                    in_tangent: ins.deep_view(),
                    out_tangent: outs.deep_view(),
                });
                assert(verts.deep_view() =~= verts@);
                assert(ins.deep_view() =~= ins@);
                assert(outs.deep_view() =~= outs@);
            }
            Ok(b)
        },
        _ => Err(DecodeError::Schema),
    }
}

/// The encoding of one Bezier path.
pub open spec fn senc_bezier(b: BezierV) -> ValueV {
    ValueV::Obj(
        seq![
            EntryV { key: Key::C, val: ValueV::Bool(b.closed) },
            EntryV { key: Key::V, val: senc_vec2_list(b.verticies) },
            EntryV { key: Key::I, val: senc_vec2_list(b.in_tangent) },
            EntryV { key: Key::O, val: senc_vec2_list(b.out_tangent) },
        ],
    )
}

pub fn encode_bezier(b: &Bezier) -> (r: Value)
    ensures
        r.deep_view() == senc_bezier(b.deep_view()),
{
    let mut fields: Vec<Entry> = Vec::new();
    fields.push(Entry { key: Key::C, val: Value::Bool(b.closed) });
    fields.push(Entry { key: Key::V, val: encode_vec2_list(&b.verticies) });
    fields.push(Entry { key: Key::I, val: encode_vec2_list(&b.in_tangent) });
    fields.push(Entry { key: Key::O, val: encode_vec2_list(&b.out_tangent) });
    let ghost gfields = fields@;
    let r = Value::Obj(fields);
    proof {
        crate::value::lemma_entries_dv(gfields);
        assert(r.deep_view() matches ValueV::Obj(s) && s =~= senc_bezier(b.deep_view())->Obj_0);
    }
    r
}

/// Decoding an encoded Bezier path restores it.
pub proof fn lemma_rt_bezier(b: BezierV)
    ensures
        sdec_bezier(senc_bezier(b)) == Ok::<BezierV, DecodeError>(b),
{
    let fs = senc_bezier(b)->Obj_0;
    crate::value::lemma_lookup_step(fs, Key::C, 0);
    crate::value::lemma_lookup_step(fs, Key::V, 1);
    crate::value::lemma_lookup_step(fs, Key::I, 2);
    crate::value::lemma_lookup_step(fs, Key::O, 3);
    assert(field(fs, Key::C) == Some(ValueV::Bool(b.closed)));
    assert(field(fs, Key::V) == Some(senc_vec2_list(b.verticies)));
    assert(field(fs, Key::I) == Some(senc_vec2_list(b.in_tangent)));
    assert(field(fs, Key::O) == Some(senc_vec2_list(b.out_tangent)));
    lemma_rt_vec2_list(b.verticies);
    lemma_rt_vec2_list(b.in_tangent);
    lemma_rt_vec2_list(b.out_tangent);
    assert(sdec_bezier(senc_bezier(b)) matches Ok(b2) && b2 =~= b);
}

/// A list of Bezier paths from an array of path objects.
pub open spec fn sdec_bezier_seq(items: Seq<ValueV>) -> Result<Seq<BezierV>, DecodeError>
    decreases items.len(),
{
    if items.len() == 0 {
        Ok(Seq::empty())
    } else {
        match sdec_bezier(items[0]) {
            Err(e) => Err(e),
            Ok(b) => match sdec_bezier_seq(items.drop_first()) {
                Err(e) => Err(e),
                Ok(rest) => Ok(seq![b] + rest),
            },
        }
    }
}

proof fn lemma_sdec_bezier_seq_ok(items: Seq<ValueV>, pre: Seq<BezierV>, i: int)
    requires
        0 <= i <= items.len(),
        pre.len() == i,
        forall|j: int| 0 <= j < i ==> sdec_bezier(items[j]) == Ok::<BezierV, DecodeError>(pre[j]),
    ensures
        sdec_bezier_seq(items) == match sdec_bezier_seq(items.skip(i)) {
            Err(e) => Err::<Seq<BezierV>, DecodeError>(e),
            Ok(rest) => Ok(pre + rest),
        },
    decreases i,
{
    if i == 0 {
        assert(items.skip(0) =~= items);
        match sdec_bezier_seq(items) {
            Err(e) => {},
            Ok(rest) => {
                assert(pre + rest =~= rest);
            },
        }
    } else {
        lemma_sdec_bezier_seq_ok(items, pre.take(i - 1), i - 1);
        assert(items.skip(i - 1).len() > 0);
        assert(items.skip(i - 1)[0] == items[i - 1]);
        assert(items.skip(i - 1).drop_first() =~= items.skip(i));
        assert(sdec_bezier(items[i - 1]) == Ok::<BezierV, DecodeError>(pre[i - 1]));
        match sdec_bezier_seq(items.skip(i)) {
            Err(e) => {},
            Ok(rest) => {
                assert(pre.take(i - 1) + (seq![pre[i - 1]] + rest) =~= pre + rest);
            },
        }
    }
}

/// The value of a free-form path property: one path object, or an array of
/// path objects.
pub open spec fn sdec_bezier_list(v: ValueV) -> Result<Seq<BezierV>, DecodeError> {
    match v {
        ValueV::Obj(fs) => match sdec_bezier(v) {
            Err(e) => Err(e),
            Ok(b) => Ok(seq![b]),
        },
        ValueV::Arr(items) => sdec_bezier_seq(items),
        _ => Err(DecodeError::Schema),
    }
}

pub fn decode_bezier_list(v: &Value) -> (r: Result<Vec<Bezier>, DecodeError>)
    ensures
        res_v(r) == sdec_bezier_list(v.deep_view()),
{
    match v {
        Value::Obj(_) => match decode_bezier(v) {
            Err(e) => Err(e),
            Ok(b) => {
                let out = vec![b];
                proof {
                    assert(out.deep_view() =~= sdec_bezier_list(v.deep_view())->Ok_0);
                }
                Ok(out)
            },
        },
        Value::Arr(items) => {
            proof {
                lemma_vals_dv(items@);
            }
            let ghost gitems = vals_dv(items@);
            let mut out: Vec<Bezier> = Vec::new();
            let n = items.len();
            for i in 0..n
                invariant
                    n == items.len(),
                    v.deep_view() == ValueV::Arr(gitems),
                    gitems == vals_dv(items@),
                    gitems.len() == n,
                    forall|j: int| 0 <= j < n ==> gitems[j] == items@[j].deep_view(),
                    out@.len() == i,
                    forall|j: int| 0 <= j < i ==> sdec_bezier(gitems[j]) == Ok::<
                        BezierV,
                        DecodeError,
                    >(#[trigger] out@[j].deep_view()),
            {
                match decode_bezier(&items[i]) {
                    Ok(b) => {
                        out.push(b);
                    },
                    Err(e) => {
                        proof {
                            lemma_sdec_bezier_seq_ok(gitems, out.deep_view(), i as int);
                            assert(gitems.skip(i as int).len() > 0);
                            assert(gitems.skip(i as int)[0] == gitems[i as int]);
                            assert(sdec_bezier_seq(gitems.skip(i as int)) == Err::<
                                Seq<BezierV>,
                                DecodeError,
                            >(e));
                        }
                        return Err(e);
                    },
                }
            }
            proof {
                lemma_sdec_bezier_seq_ok(gitems, out.deep_view(), n as int);
                assert(gitems.skip(n as int) =~= Seq::empty());
                assert(out.deep_view() + Seq::<BezierV>::empty() =~= out.deep_view());
            }
            Ok(out)
        },
        _ => Err(DecodeError::Schema),
    }
}

/// The encoding of a path value: one path object when the list has exactly
/// one element, else an array of path objects.
pub open spec fn senc_bezier_list(bs: Seq<BezierV>) -> ValueV {
    if bs.len() == 1 {
        senc_bezier(bs[0])
    } else {
        ValueV::Arr(Seq::new(bs.len(), |i: int| senc_bezier(bs[i])))
    }
}

pub fn encode_bezier_list(bs: &Vec<Bezier>) -> (r: Value)
    ensures
        r.deep_view() == senc_bezier_list(bs.deep_view()),
{
    if bs.len() == 1 {
        encode_bezier(&bs[0])
    } else {
        let mut items: Vec<Value> = Vec::new();
        let n = bs.len();
        for i in 0..n
            invariant
                n == bs.len(),
                items@.len() == i,
                forall|j: int| 0 <= j < i ==> items@[j].deep_view() == senc_bezier(
                    #[trigger] bs@[j].deep_view(),
                ),
        {
            items.push(encode_bezier(&bs[i]));
        }
        let ghost gitems = items@;
        let r = Value::Arr(items);
        proof {
            lemma_vals_dv(gitems);
            assert(r.deep_view() matches ValueV::Arr(s) && s =~= senc_bezier_list(
                bs.deep_view(),
            )->Arr_0);
        }
        r
    }
}

/// Decoding an encoded path value restores it.
pub proof fn lemma_rt_bezier_list(bs: Seq<BezierV>)
    ensures
        sdec_bezier_list(senc_bezier_list(bs)) == Ok::<Seq<BezierV>, DecodeError>(bs),
{
    if bs.len() == 1 {
        lemma_rt_bezier(bs[0]);
        assert(seq![bs[0]] =~= bs);
    } else {
        lemma_rt_bezier_seq(bs);
    }
}

proof fn lemma_rt_bezier_seq(bs: Seq<BezierV>)
    ensures
        sdec_bezier_seq(Seq::new(bs.len(), |i: int| senc_bezier(bs[i]))) == Ok::<
            Seq<BezierV>,
            DecodeError,
        >(bs),
    decreases bs.len(),
{
    let items = Seq::new(bs.len(), |i: int| senc_bezier(bs[i]));
    if bs.len() > 0 {
        lemma_rt_bezier_seq(bs.drop_first());
        assert(items.drop_first() =~= Seq::new(
            bs.drop_first().len(),
            |i: int| senc_bezier(bs.drop_first()[i]),
        ));
        lemma_rt_bezier(bs[0]);
        assert(seq![bs[0]] + bs.drop_first() =~= bs);
    } else {
        assert(items =~= Seq::<ValueV>::empty());
        assert(bs =~= Seq::<BezierV>::empty());
    }
}

} // verus!
