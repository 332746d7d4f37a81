//! The library's stated laws: boolean coercion is an involution, and
//! decoding inverts encoding for the normalized property kinds.

use vstd::prelude::*;

use crate::anim::{
    dec_num_f, dec_rgb_f, dec_vec2_f, enc_num_f, enc_rgb_f, enc_vec2_f, is_legacy_kf,
    lemma_rt_animated, sdec_animated_v, senc_animated_v, wf_animated,
};
use crate::model::{AnimatedV, DecodeError, Rgb, Vector2D};
use crate::prim::{
    lemma_channel_round_trip, sdec_bool_int, sdec_rgb, sdec_scalar, sdec_vec2, senc_bool_int,
    senc_rgb, senc_scalar, senc_vec2,
};
use crate::value::ValueV;

verus! {

/// Boolean coercion: decoding an encoded flag restores it, and any non-zero
/// number decodes to `true`.
pub proof fn lemma_bool_round_trip(b: bool, n: i64)
    ensures
        sdec_bool_int(senc_bool_int(b)) == Ok::<bool, DecodeError>(b),
        n != 0 ==> sdec_bool_int(ValueV::Num(n)) == Ok::<bool, DecodeError>(true),
        sdec_bool_int(ValueV::Num(0)) == Ok::<bool, DecodeError>(false),
{
}

/// Encoding after decoding is the identity on the two canonical flag
/// numbers: zero and one.
pub proof fn lemma_bool_canonical(n: i64)
    requires
        n == 0 || n == 1000,
    ensures
        senc_bool_int(sdec_bool_int(ValueV::Num(n))->Ok_0) == ValueV::Num(n),
{
}

/// Decoding an encoded animated scalar property restores it exactly.
pub proof fn lemma_rt_animated_num(a: AnimatedV<i64>)
    requires
        wf_animated(a),
    ensures
        sdec_animated_v(senc_animated_v(a, enc_num_f()), dec_num_f()) == Ok::<
            AnimatedV<i64>,
            DecodeError,
        >(a),
{
    assert forall|t: i64| #[trigger] dec_num_f()(enc_num_f()(t)) == Ok::<i64, DecodeError>(
        t,
    ) by {
        assert(enc_num_f()(t) == senc_scalar(t));
        assert(dec_num_f()(senc_scalar(t)) == sdec_scalar(senc_scalar(t)));
    }
    assert forall|t: i64| !((#[trigger] enc_num_f()(t)) is Null) by {
        assert(enc_num_f()(t) == senc_scalar(t));
    }
    assert forall|t: i64| !is_legacy_kf(#[trigger] enc_num_f()(t)) by {
        assert(enc_num_f()(t) == senc_scalar(t));
    }
    lemma_rt_animated(a, enc_num_f(), dec_num_f());
}

/// Decoding an encoded animated 2D vector property restores it exactly.
pub proof fn lemma_rt_animated_vec2(a: AnimatedV<Vector2D>)
    requires
        wf_animated(a),
    ensures
        sdec_animated_v(senc_animated_v(a, enc_vec2_f()), dec_vec2_f()) == Ok::<
            AnimatedV<Vector2D>,
            DecodeError,
        >(a),
{
    assert forall|t: Vector2D| #[trigger] dec_vec2_f()(enc_vec2_f()(t)) == Ok::<
        Vector2D,
        DecodeError,
    >(t) by {
        assert(enc_vec2_f()(t) == senc_vec2(t));
        assert(dec_vec2_f()(senc_vec2(t)) == sdec_vec2(senc_vec2(t)));
        assert(senc_vec2(t)->Arr_0.len() == 2);
        assert(senc_vec2(t)->Arr_0[0] == ValueV::Num(t.x));
        assert(senc_vec2(t)->Arr_0[1] == ValueV::Num(t.y));
    }
    assert forall|t: Vector2D| !((#[trigger] enc_vec2_f()(t)) is Null) by {
        assert(enc_vec2_f()(t) == senc_vec2(t));
    }
    assert forall|t: Vector2D| !is_legacy_kf(#[trigger] enc_vec2_f()(t)) by {
        assert(enc_vec2_f()(t) == senc_vec2(t));
        assert(senc_vec2(t)->Arr_0.len() == 2);
    }
    lemma_rt_animated(a, enc_vec2_f(), dec_vec2_f());
}

/// Decoding an encoded animated color property restores it exactly.
pub proof fn lemma_rt_animated_rgb(a: AnimatedV<Rgb>)
    requires
        wf_animated(a),
    ensures
        sdec_animated_v(senc_animated_v(a, enc_rgb_f()), dec_rgb_f()) == Ok::<
            AnimatedV<Rgb>,
            DecodeError,
        >(a),
{
    assert forall|t: Rgb| #[trigger] dec_rgb_f()(enc_rgb_f()(t)) == Ok::<Rgb, DecodeError>(
        t,
    ) by {
        assert(enc_rgb_f()(t) == senc_rgb(t));
        assert(dec_rgb_f()(senc_rgb(t)) == sdec_rgb(senc_rgb(t)));
        lemma_channel_round_trip(t.r);
        lemma_channel_round_trip(t.g);
        lemma_channel_round_trip(t.b);
        assert(senc_rgb(t)->Arr_0.len() == 3);
    }
    assert forall|t: Rgb| !((#[trigger] enc_rgb_f()(t)) is Null) by {
        assert(enc_rgb_f()(t) == senc_rgb(t));
    }
    assert forall|t: Rgb| !is_legacy_kf(#[trigger] enc_rgb_f()(t)) by {
        assert(enc_rgb_f()(t) == senc_rgb(t));
        assert(senc_rgb(t)->Arr_0.len() == 3);
    }
    lemma_rt_animated(a, enc_rgb_f(), dec_rgb_f());
}

} // verus!
