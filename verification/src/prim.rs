//! The primitive coercion layer: integer-coded booleans, fixed-point
//! numbers, scalar-or-array lists, 2D vectors and numeric colors.
//!
//! Each decoding rule is a specification function over `ValueV`; the
//! executable functions are proved to follow them exactly.  A `Null` value is
//! treated as an absent field throughout.

use vstd::prelude::*;

use crate::model::{DecodeError, Rgb, Vector2D};
use crate::methods::channel_from_milli;
use crate::value::{Entry, EntryV, Key, Value, ValueV, lookup, entries_dv, get};

verus! {

/// Maps a decode result to its mathematical shape, keeping the error.
pub open spec fn res_v<T: DeepView>(r: Result<T, DecodeError>) -> Result<T::V, DecodeError> {
    match r {
        Ok(t) => Ok(t.deep_view()),
        Err(e) => Err(e),
    }
}

/// A `Null` field counts as an absent field.
pub open spec fn norm_opt(o: Option<ValueV>) -> Option<ValueV> {
    match o {
        Some(ValueV::Null) => None,
        _ => o,
    }
}

/// Normalized lookup: a missing field and a `Null` field are alike.
pub open spec fn field(fs: Seq<EntryV>, k: Key) -> Option<ValueV> {
    norm_opt(lookup(fs, k))
}

/// Normalized lookup of a key in an object's field list.
pub fn get_field<'a>(fields: &'a Vec<Entry>, k: Key) -> (r: Option<&'a Value>)
    ensures
        match r {
            Some(v) => field(entries_dv(fields@), k) == Some(v.deep_view()) && !(v.deep_view()
                is Null) && exists|i: int| 0 <= i < entries_dv(fields@).len() && (
            #[trigger] entries_dv(fields@)[i]).val == v.deep_view(),
            None => field(entries_dv(fields@), k) == None::<ValueV>,
        },
{
    match get(fields, k) {
        None => None,
        Some(v) => match v {
            Value::Null => None,
            _ => Some(v),
        },
    }
}

/// A bare fixed-point number.
pub open spec fn sdec_num(v: ValueV) -> Result<i64, DecodeError> {
    match v {
        ValueV::Num(n) => Ok(n),
        _ => Err(DecodeError::Schema),
    }
}

pub fn decode_num(v: &Value) -> (r: Result<i64, DecodeError>)
    ensures
        r == sdec_num(v.deep_view()),
{
    match v {
        Value::Num(n) => Ok(*n),
        _ => Err(DecodeError::Schema),
    }
}

/// A required numeric field.
pub open spec fn sdec_req_num(o: Option<ValueV>) -> Result<i64, DecodeError> {
    match o {
        None => Err(DecodeError::Schema),
        Some(v) => sdec_num(v),
    }
}

pub fn decode_req_num(o: Option<&Value>) -> (r: Result<i64, DecodeError>)
    ensures
        r == sdec_req_num(o.deep_view()),
{
    match o {
        None => Err(DecodeError::Schema),
        Some(v) => decode_num(v),
    }
}

/// An optional numeric field.
pub open spec fn sdec_opt_num(o: Option<ValueV>) -> Result<Option<i64>, DecodeError> {
    match o {
        None => Ok(None),
        Some(v) => match sdec_num(v) {
            Ok(n) => Ok(Some(n)),
            Err(e) => Err(e),
        },
    }
}

pub fn decode_opt_num(o: Option<&Value>) -> (r: Result<Option<i64>, DecodeError>)
    ensures
        r == sdec_opt_num(o.deep_view()),
{
    match o {
        None => Ok(None),
        Some(v) => match decode_num(v) {
            Ok(n) => Ok(Some(n)),
            Err(e) => Err(e),
        },
    }
}

/// A dimension or index: a whole fixed-point number in the `u32` range.
pub open spec fn sdec_u32(v: ValueV) -> Result<u32, DecodeError> {
    match v {
        ValueV::Num(n) => if n % 1000 == 0 && 0 <= n / 1000 <= u32::MAX {
            Ok((n / 1000) as u32)
        } else {
            Err(DecodeError::Schema)
        },
        _ => Err(DecodeError::Schema),
    }
}

pub fn decode_u32(v: &Value) -> (r: Result<u32, DecodeError>)
    ensures
        r == sdec_u32(v.deep_view()),
{
    match v {
        Value::Num(n) => {
            let n = *n;
            if n >= 0 && n % 1000 == 0 && n / 1000 <= u32::MAX as i64 {
                Ok((n / 1000) as u32)
            } else {
                proof {
                    if n < 0 {
                        assert(n % 1000 != 0 || n / 1000 < 0) by {
                            if n % 1000 == 0 {
                                assert(n / 1000 < 0) by (nonlinear_arith)
                                    requires n < 0 && n % 1000 == 0;
                            }
                        };
                    }
                }
                Err(DecodeError::Schema)
            }
        },
        _ => Err(DecodeError::Schema),
    }
}

/// An encoded `u32`: the value scaled to fixed-point thousandths.
pub open spec fn senc_u32(u: u32) -> ValueV {
    ValueV::Num(((u as int) * 1000) as i64)
}

pub fn encode_u32(u: u32) -> (r: Value)
    ensures
        r.deep_view() == senc_u32(u),
{
    Value::Num((u as i64) * 1000)
}

/// A required `u32` field.
pub open spec fn sdec_req_u32(o: Option<ValueV>) -> Result<u32, DecodeError> {
    match o {
        None => Err(DecodeError::Schema),
        Some(v) => sdec_u32(v),
    }
}

pub fn decode_req_u32(o: Option<&Value>) -> (r: Result<u32, DecodeError>)
    ensures
        r == sdec_req_u32(o.deep_view()),
{
    match o {
        None => Err(DecodeError::Schema),
        Some(v) => decode_u32(v),
    }
}

/// An optional `u32` field.
pub open spec fn sdec_opt_u32(o: Option<ValueV>) -> Result<Option<u32>, DecodeError> {
    match o {
        None => Ok(None),
        Some(v) => match sdec_u32(v) {
            Ok(n) => Ok(Some(n)),
            Err(e) => Err(e),
        },
    }
}

pub fn decode_opt_u32(o: Option<&Value>) -> (r: Result<Option<u32>, DecodeError>)
    ensures
        r == sdec_opt_u32(o.deep_view()),
{
    match o {
        None => Ok(None),
        Some(v) => match decode_u32(v) {
            Ok(n) => Ok(Some(n)),
            Err(e) => Err(e),
        },
    }
}

/// A string value.
pub open spec fn sdec_str(v: ValueV) -> Result<Seq<char>, DecodeError> {
    match v {
        ValueV::Str(s) => Ok(s),
        _ => Err(DecodeError::Schema),
    }
}

pub fn decode_str(v: &Value) -> (r: Result<String, DecodeError>)
    ensures
        res_v(r) == sdec_str(v.deep_view()),
{
    match v {
        Value::Str(s) => Ok(s.clone()),
        _ => Err(DecodeError::Schema),
    }
}

/// An optional string field.
pub open spec fn sdec_opt_str(o: Option<ValueV>) -> Result<Option<Seq<char>>, DecodeError> {
    match o {
        None => Ok(None),
        Some(v) => match sdec_str(v) {
            Ok(s) => Ok(Some(s)),
            Err(e) => Err(e),
        },
    }
}

pub fn decode_opt_str(o: Option<&Value>) -> (r: Result<Option<String>, DecodeError>)
    ensures
        res_v(r) == sdec_opt_str(o.deep_view()),
{
    match o {
        None => Ok(None),
        Some(v) => match decode_str(v) {
            Ok(s) => Ok(Some(s)),
            Err(e) => Err(e),
        },
    }
}

/// An integer-coded boolean: zero is `false`, any other number is `true`.
pub open spec fn sdec_bool_int(v: ValueV) -> Result<bool, DecodeError> {
    match v {
        ValueV::Num(n) => Ok(n != 0),
        _ => Err(DecodeError::Schema),
    }
}

pub fn decode_bool_int(v: &Value) -> (r: Result<bool, DecodeError>)
    ensures
        r == sdec_bool_int(v.deep_view()),
{
    match v {
        Value::Num(n) => Ok(*n != 0),
        _ => Err(DecodeError::Schema),
    }
}

/// An integer-coded boolean field, absent meaning `false`.
pub open spec fn sdec_bool_flag(o: Option<ValueV>) -> Result<bool, DecodeError> {
    match o {
        None => Ok(false),
        Some(v) => sdec_bool_int(v),
    }
}

pub fn decode_bool_flag(o: Option<&Value>) -> (r: Result<bool, DecodeError>)
    ensures
        r == sdec_bool_flag(o.deep_view()),
{
    match o {
        None => Ok(false),
        Some(v) => decode_bool_int(v),
    }
}

/// The encoding of a boolean as a number: one for `true`, zero for `false`.
pub open spec fn senc_bool_int(b: bool) -> ValueV {
    ValueV::Num(if b { 1000 } else { 0 })
}

pub fn encode_bool_int(b: bool) -> (r: Value)
    ensures
        r.deep_view() == senc_bool_int(b),
{
    Value::Num(if b { 1000 } else { 0 })
}

/// A plain boolean field, absent meaning `false`.
pub open spec fn sdec_opt_bool(o: Option<ValueV>) -> Result<bool, DecodeError> {
    match o {
        None => Ok(false),
        Some(v) => match v {
            ValueV::Bool(b) => Ok(b),
            _ => Err(DecodeError::Schema),
        },
    }
}

pub fn decode_opt_bool(o: Option<&Value>) -> (r: Result<bool, DecodeError>)
    ensures
        r == sdec_opt_bool(o.deep_view()),
{
    match o {
        None => Ok(false),
        Some(v) => match v {
            Value::Bool(b) => Ok(*b),
            _ => Err(DecodeError::Schema),
        },
    }
}

/// A scalar animated value: a bare number, or the first element of a
/// non-empty numeric array.
pub open spec fn sdec_scalar(v: ValueV) -> Result<i64, DecodeError> {
    match v {
        ValueV::Num(n) => Ok(n),
        ValueV::Arr(items) => if items.len() >= 1 {
            sdec_num(items[0])
        } else {
            Err(DecodeError::Schema)
        },
        _ => Err(DecodeError::Schema),
    }
}

pub fn decode_scalar(v: &Value) -> (r: Result<i64, DecodeError>)
    ensures
        r == sdec_scalar(v.deep_view()),
{
    match v {
        Value::Num(n) => Ok(*n),
        Value::Arr(items) => {
            proof {
                crate::value::lemma_vals_dv(items@);
            }
            if items.len() >= 1 {
                decode_num(&items[0])
            } else {
                Err(DecodeError::Schema)
            }
        },
        _ => Err(DecodeError::Schema),
    }
}

/// The encoding of a scalar value: always a bare number.
pub open spec fn senc_scalar(n: i64) -> ValueV {
    ValueV::Num(n)
}

pub fn encode_scalar(n: i64) -> (r: Value)
    ensures
        r.deep_view() == senc_scalar(n),
{
    Value::Num(n)
}

/// A 2D vector from the first two elements of a numeric array.
pub open spec fn sdec_vec2(v: ValueV) -> Result<Vector2D, DecodeError> {
    match v {
        ValueV::Arr(items) => if items.len() >= 2 {
            match (sdec_num(items[0]), sdec_num(items[1])) {
                (Ok(x), Ok(y)) => Ok(Vector2D { x, y }),
                (Err(e), _) => Err(e),
                (_, Err(e)) => Err(e),
            }
        } else {
            Err(DecodeError::Schema)
        },
        _ => Err(DecodeError::Schema),
    }
}

pub fn decode_vec2(v: &Value) -> (r: Result<Vector2D, DecodeError>)
    ensures
        r == sdec_vec2(v.deep_view()),
{
    match v {
        Value::Arr(items) => {
            proof {
                crate::value::lemma_vals_dv(items@);
            }
            if items.len() >= 2 {
                match (decode_num(&items[0]), decode_num(&items[1])) {
                    (Ok(x), Ok(y)) => Ok(Vector2D { x, y }),
                    (Err(e), _) => Err(e),
                    (_, Err(e)) => Err(e),
                }
            } else {
                Err(DecodeError::Schema)
            }
        },
        _ => Err(DecodeError::Schema),
    }
}

/// The encoding of a 2D vector: a two-element numeric array.
pub open spec fn senc_vec2(p: Vector2D) -> ValueV {
    ValueV::Arr(seq![ValueV::Num(p.x), ValueV::Num(p.y)])
}

pub fn encode_vec2(p: Vector2D) -> (r: Value)
    ensures
        r.deep_view() == senc_vec2(p),
{
    let items = vec![Value::Num(p.x), Value::Num(p.y)];
    let ghost gitems = items@;
    let r = Value::Arr(items);
    proof {
        crate::value::lemma_vals_dv(gitems);
        assert(r.deep_view() matches ValueV::Arr(s) && s =~= senc_vec2(p)->Arr_0);
    }
    r
}

/// A color from the first three elements of a numeric array, each a
/// fixed-point channel in thousandths of full intensity.
pub open spec fn sdec_rgb(v: ValueV) -> Result<Rgb, DecodeError> {
    match v {
        ValueV::Arr(items) => if items.len() >= 3 {
            match (sdec_num(items[0]), sdec_num(items[1]), sdec_num(items[2])) {
                (Ok(r), Ok(g), Ok(b)) => Ok(Rgb {
                    r: channel_from_milli(r),
                    g: channel_from_milli(g),
                    b: channel_from_milli(b),
                }),
                (Err(e), _, _) => Err(e),
                (_, Err(e), _) => Err(e),
                (_, _, Err(e)) => Err(e),
            }
        } else {
            Err(DecodeError::Schema)
        },
        _ => Err(DecodeError::Schema),
    }
}

pub fn decode_rgb(v: &Value) -> (r: Result<Rgb, DecodeError>)
    ensures
        r == sdec_rgb(v.deep_view()),
{
    match v {
        Value::Arr(items) => {
            proof {
                crate::value::lemma_vals_dv(items@);
            }
            if items.len() >= 3 {
                match (decode_num(&items[0]), decode_num(&items[1]), decode_num(&items[2])) {
                    (Ok(cr), Ok(cg), Ok(cb)) => Ok(Rgb::new_milli(cr, cg, cb)),
                    (Err(e), _, _) => Err(e),
                    (_, Err(e), _) => Err(e),
                    (_, _, Err(e)) => Err(e),
                }
            } else {
                Err(DecodeError::Schema)
            }
        },
        _ => Err(DecodeError::Schema),
    }
}

/// A byte channel scaled back to fixed-point thousandths: the least
/// thousandths value that truncates back to the same byte.
pub open spec fn channel_to_milli(c: u8) -> i64 {
    (((c as int) * 1000 + 254) / 255) as i64
}

pub fn channel_to_milli_exec(c: u8) -> (r: i64)
    ensures
        r == channel_to_milli(c),
{
    (((c as i64) * 1000 + 254) / 255) as i64
}

/// The encoding of a color: a three-element numeric array of fixed-point
/// channels.
pub open spec fn senc_rgb(c: Rgb) -> ValueV {
    ValueV::Arr(
        seq![
            ValueV::Num(channel_to_milli(c.r)),
            ValueV::Num(channel_to_milli(c.g)),
            ValueV::Num(channel_to_milli(c.b)),
        ],
    )
}

pub fn encode_rgb(c: Rgb) -> (r: Value)
    ensures
        r.deep_view() == senc_rgb(c),
{
    let items = vec![
        Value::Num(channel_to_milli_exec(c.r)),
        Value::Num(channel_to_milli_exec(c.g)),
        Value::Num(channel_to_milli_exec(c.b)),
    ];
    let ghost gitems = items@;
    let r = Value::Arr(items);
    proof {
        crate::value::lemma_vals_dv(gitems);
        assert(r.deep_view() matches ValueV::Arr(s) && s =~= senc_rgb(c)->Arr_0);
    }
    r
}

/// Scaling a channel to thousandths and back restores the byte: encoding
/// then decoding a numeric color is the identity.
pub proof fn lemma_channel_round_trip(c: u8)
    ensures
        channel_from_milli(channel_to_milli(c)) == c,
{
    let d = (c as int) * 1000 + 254;
    vstd::arithmetic::div_mod::lemma_fundamental_div_mod(d, 255);
    vstd::arithmetic::div_mod::lemma_mod_bound(d, 255);
    let m = d / 255;
    assert(255 * m == d - d % 255);
    assert((c as int) * 1000 <= 255 * m <= d);
    assert(0 <= m <= 1000);
    let e = m * 255;
    assert(e == 255 * m);
    vstd::arithmetic::div_mod::lemma_fundamental_div_mod(e, 1000);
    vstd::arithmetic::div_mod::lemma_mod_bound(e, 1000);
    assert(1000 * (e / 1000) <= e < 1000 * (e / 1000) + 1000);
    assert(e / 1000 == c as int);
}

/// A list of numbers from a bare number (a one-element list) or an array of
/// numbers.
pub open spec fn sdec_num_list(v: ValueV) -> Result<Seq<i64>, DecodeError> {
    match v {
        ValueV::Num(n) => Ok(seq![n]),
        ValueV::Arr(items) => sdec_num_seq(items),
        _ => Err(DecodeError::Schema),
    }
}

pub open spec fn sdec_num_seq(items: Seq<ValueV>) -> Result<Seq<i64>, DecodeError>
    decreases items.len(),
{
    if items.len() == 0 {
        Ok(Seq::empty())
    } else {
        match sdec_num(items[0]) {
            Err(e) => Err(e),
            Ok(n) => match sdec_num_seq(items.drop_first()) {
                Err(e) => Err(e),
                Ok(rest) => Ok(seq![n] + rest),
            },
        }
    }
}

proof fn lemma_sdec_num_seq_ok(items: Seq<ValueV>, pre: Seq<i64>, i: int)
    requires
        0 <= i <= items.len(),
        pre.len() == i,
        forall|j: int| 0 <= j < i ==> sdec_num(items[j]) == Ok::<i64, DecodeError>(pre[j]),
    ensures
        sdec_num_seq(items) == match sdec_num_seq(items.skip(i)) {
            Err(e) => Err::<Seq<i64>, DecodeError>(e),
            Ok(rest) => Ok(pre + rest),
        },
    decreases i,
{
    if i == 0 {
        assert(items.skip(0) =~= items);
        match sdec_num_seq(items) {
            Err(e) => {},
            Ok(rest) => {
                assert(pre + rest =~= rest);
            },
        }
    } else {
        lemma_sdec_num_seq_ok(items, pre.take(i - 1), i - 1);
        assert(items.skip(i - 1).len() > 0);
        assert(items.skip(i - 1)[0] == items[i - 1]);
        assert(items.skip(i - 1).drop_first() =~= items.skip(i));
        assert(sdec_num(items[i - 1]) == Ok::<i64, DecodeError>(pre[i - 1]));
        match sdec_num_seq(items.skip(i)) {
            Err(e) => {},
            Ok(rest) => {
                assert(pre.take(i - 1) + (seq![pre[i - 1]] + rest) =~= pre + rest);
            },
        }
    }
}

pub fn decode_num_list(v: &Value) -> (r: Result<Vec<i64>, DecodeError>)
    ensures
        res_v(r) == sdec_num_list(v.deep_view()),
{
    match v {
        Value::Num(n) => {
            let out = vec![*n];
            proof {
                assert(out@ =~= seq![*n]);
                assert(out.deep_view() =~= seq![*n]);
            }
            Ok(out)
        },
        Value::Arr(items) => {
            proof {
                crate::value::lemma_vals_dv(items@);
            }
            let ghost gitems = crate::value::vals_dv(items@);
            let mut out: Vec<i64> = Vec::new();
            let n = items.len();
            for i in 0..n
                invariant
                    n == items.len(),
                    v.deep_view() == ValueV::Arr(gitems),
                    gitems == crate::value::vals_dv(items@),
                    gitems.len() == n,
                    forall|j: int| 0 <= j < n ==> gitems[j] == items@[j].deep_view(),
                    out@.len() == i,
                    forall|j: int| 0 <= j < i ==> sdec_num(gitems[j]) == Ok::<i64, DecodeError>(
                        out@[j],
                    ),
            {
                match decode_num(&items[i]) {
                    Ok(x) => {
                        out.push(x);
                    },
                    Err(e) => {
                        proof {
                            lemma_sdec_num_seq_ok(gitems, out@, i as int);
                            assert(gitems.skip(i as int).len() > 0);
                            assert(gitems.skip(i as int)[0] == gitems[i as int]);
                            assert(sdec_num_seq(gitems.skip(i as int)) == Err::<
                                Seq<i64>,
                                DecodeError,
                            >(e));
                            assert(sdec_num_seq(gitems) == Err::<Seq<i64>, DecodeError>(e));
                            assert(v.deep_view() == ValueV::Arr(gitems));
                            assert(sdec_num_list(v.deep_view()) == Err::<Seq<i64>, DecodeError>(
                                e,
                            ));
                        }
                        return Err(e);
                    },
                }
            }
            proof {
                lemma_sdec_num_seq_ok(gitems, out@, n as int);
                assert(gitems.skip(n as int) =~= Seq::empty());
                assert(out@ + Seq::<i64>::empty() =~= out@);
                assert(out.deep_view() =~= out@);
            }
            Ok(out)
        },
        _ => Err(DecodeError::Schema),
    }
}

/// The encoding of a number list: always an array of numbers.
pub open spec fn senc_num_list(ns: Seq<i64>) -> ValueV {
    ValueV::Arr(Seq::new(ns.len(), |i: int| ValueV::Num(ns[i])))
}

pub fn encode_num_list(ns: &Vec<i64>) -> (r: Value)
    ensures
        r.deep_view() == senc_num_list(ns@),
{
    let mut items: Vec<Value> = Vec::new();
    let n = ns.len();
    for i in 0..n
        invariant
            n == ns.len(),
            items@.len() == i,
            forall|j: int| 0 <= j < i ==> items@[j].deep_view() == ValueV::Num(ns@[j]),
    {
        items.push(Value::Num(ns[i]));
    }
    let ghost gitems = items@;
    let r = Value::Arr(items);
    proof {
        crate::value::lemma_vals_dv(gitems);
        assert(r.deep_view() matches ValueV::Arr(s) && s =~= senc_num_list(ns@)->Arr_0);
    }
    r
}

/// Decoding an encoded number list restores it.
pub proof fn lemma_rt_num_list(ns: Seq<i64>)
    ensures
        sdec_num_list(senc_num_list(ns)) == Ok::<Seq<i64>, DecodeError>(ns),
{
    let items = senc_num_list(ns)->Arr_0;
    lemma_rt_num_seq(ns);
}

proof fn lemma_rt_num_seq(ns: Seq<i64>)
    ensures
        sdec_num_seq(Seq::new(ns.len(), |i: int| ValueV::Num(ns[i]))) == Ok::<
            Seq<i64>,
            DecodeError,
        >(ns),
    decreases ns.len(),
{
    let items = Seq::new(ns.len(), |i: int| ValueV::Num(ns[i]));
    if ns.len() > 0 {
        lemma_rt_num_seq(ns.drop_first());
        assert(items.drop_first() =~= Seq::new(
            ns.drop_first().len(),
            |i: int| ValueV::Num(ns.drop_first()[i]),
        ));
        assert(seq![ns[0]] + ns.drop_first() =~= ns);
    } else {
        assert(items =~= Seq::<ValueV>::empty());
        assert(sdec_num_seq(items) == Ok::<Seq<i64>, DecodeError>(Seq::empty()));
        assert(ns =~= Seq::<i64>::empty());
    }
}

} // verus!
