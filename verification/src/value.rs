//! The loosely typed value tree that documents are decoded from and encoded
//! into.
//!
//! A `Value` is a tree of nulls, booleans, fixed-point numbers, strings,
//! arrays and objects.  Object keys come from the closed set `Key` of field
//! names that the interchange format defines; `key_name` gives the exact
//! spelling of each.  Numbers are fixed-point thousandths: `Value::Num(1500)`
//! stands for the number `1.5`.

use vstd::prelude::*;

verus! {

/// The closed set of object keys used by the interchange format.
#[derive(Debug, Clone, Copy, PartialEq, Eq, Structural)]
pub enum Key {
    Nm,
    V,
    Ip,
    Op,
    Fr,
    W,
    H,
    Layers,
    Assets,
    Fonts,
    Ddd,
    Hd,
    Ind,
    Parent,
    Ao,
    St,
    Ks,
    RefId,
    Tm,
    Sc,
    Sw,
    Sh,
    Shapes,
    A,
    P,
    S,
    R,
    O,
    Sk,
    Sa,
    K,
    T,
    I,
    D,
    It,
    M,
    Tr,
    C,
    E,
    G,
    Lc,
    Lj,
    Ml,
    Or,
    Os,
    Ir,
    Is,
    Pt,
    Sy,
    Mm,
    So,
    Eo,
    X,
    Y,
    N,
    List,
    Ascent,
    FFamily,
    FName,
    FStyle,
    FPath,
    FWeight,
    Origin,
    FClass,
    Id,
    Ty,
}

/// One field of an object value.
#[derive(Debug)]
pub struct Entry {
    pub key: Key,
    pub val: Value,
}

/// A loosely typed document value.  Numbers are fixed-point thousandths.
#[derive(Debug)]
pub enum Value {
    Null,
    Bool(bool),
    Num(i64),
    Str(String),
    Arr(Vec<Value>),
    Obj(Vec<Entry>),
}

/// The mathematical shape of an `Entry`.
#[verifier::ext_equal]
pub struct EntryV {
    pub key: Key,
    pub val: ValueV,
}

/// The mathematical shape of a `Value`: the same tree over sequences.
#[verifier::ext_equal]
pub enum ValueV {
    Null,
    Bool(bool),
    Num(i64),
    Str(Seq<char>),
    Arr(Seq<ValueV>),
    Obj(Seq<EntryV>),
}

pub open spec fn vals_dv(s: Seq<Value>) -> Seq<ValueV>
    decreases s,
{
    if s.len() == 0 {
        Seq::empty()
    } else {
        seq![s[0].deep_view()] + vals_dv(s.drop_first())
    }
}

pub open spec fn entries_dv(s: Seq<Entry>) -> Seq<EntryV>
    decreases s,
{
    if s.len() == 0 {
        Seq::empty()
    } else {
        seq![s[0].deep_view()] + entries_dv(s.drop_first())
    }
}

impl DeepView for Entry {
    type V = EntryV;

    open spec fn deep_view(&self) -> EntryV
        decreases self,
    {
        EntryV { key: self.key, val: self.val.deep_view() }
    }
}

impl DeepView for Value {
    type V = ValueV;

    open spec fn deep_view(&self) -> ValueV
        decreases self,
    {
        match self {
            Value::Null => ValueV::Null,
            Value::Bool(b) => ValueV::Bool(*b),
            Value::Num(n) => ValueV::Num(*n),
            Value::Str(s) => ValueV::Str(s@),
            Value::Arr(items) => ValueV::Arr(vals_dv(items@)),
            Value::Obj(fields) => ValueV::Obj(entries_dv(fields@)),
        }
    }
}

pub broadcast proof fn lemma_vals_dv(s: Seq<Value>)
    ensures
        (#[trigger] vals_dv(s)).len() == s.len(),
        forall|i: int| 0 <= i < s.len() ==> vals_dv(s)[i] == s[i].deep_view(),
    decreases s,
{
    if s.len() == 0 {
        assert(vals_dv(s) =~= Seq::empty());
    } else {
        lemma_vals_dv(s.drop_first());
        reveal_with_fuel(vals_dv, 2);
        assert(vals_dv(s) == seq![s[0].deep_view()] + vals_dv(s.drop_first()));
        assert(vals_dv(s).len() == 1 + vals_dv(s.drop_first()).len());
        assert forall|i: int| 0 <= i < s.len() implies vals_dv(s)[i] == s[i].deep_view() by {
            let hd = seq![s[0].deep_view()];
            let tl = vals_dv(s.drop_first());
            assert(vals_dv(s) == hd + tl);
            if i > 0 {
                assert((hd + tl)[i] == tl[i - 1]);
                assert(s.drop_first()[i - 1] == s[i]);
            } else {
                assert((hd + tl)[0] == hd[0]);
            }
        }
    }
}

pub broadcast proof fn lemma_entries_dv(s: Seq<Entry>)
    ensures
        (#[trigger] entries_dv(s)).len() == s.len(),
        forall|i: int| 0 <= i < s.len() ==> entries_dv(s)[i] == s[i].deep_view(),
    decreases s,
{
    if s.len() == 0 {
        assert(entries_dv(s) =~= Seq::empty());
    } else {
        lemma_entries_dv(s.drop_first());
        reveal_with_fuel(entries_dv, 2);
        assert(entries_dv(s) == seq![s[0].deep_view()] + entries_dv(s.drop_first()));
        assert(entries_dv(s).len() == 1 + entries_dv(s.drop_first()).len());
        assert forall|i: int| 0 <= i < s.len() implies entries_dv(s)[i] == s[i].deep_view() by {
            let hd = seq![s[0].deep_view()];
            let tl = entries_dv(s.drop_first());
            assert(entries_dv(s) == hd + tl);
            if i > 0 {
                assert((hd + tl)[i] == tl[i - 1]);
                assert(s.drop_first()[i - 1] == s[i]);
            } else {
                assert((hd + tl)[0] == hd[0]);
            }
        }
    }
}

/// The value of the first field named `k`, if any.
pub open spec fn lookup(fs: Seq<EntryV>, k: Key) -> Option<ValueV>
    decreases fs,
{
    if fs.len() == 0 {
        None
    } else if fs[0].key == k {
        Some(fs[0].val)
    } else {
        lookup(fs.drop_first(), k)
    }
}

pub proof fn lemma_lookup_step(fs: Seq<EntryV>, k: Key, i: int)
    requires
        0 <= i < fs.len(),
        forall|j: int| 0 <= j < i ==> fs[j].key != k,
    ensures
        lookup(fs, k) == if fs[i].key == k {
            Some(fs[i].val)
        } else {
            lookup(fs.skip(i + 1), k)
        },
    decreases i,
{
    if i == 0 {
        assert(fs.drop_first() =~= fs.skip(1));
    } else {
        lemma_lookup_step(fs.drop_first(), k, i - 1);
        assert(fs.drop_first().skip(i) =~= fs.skip(i + 1));
    }
}

pub proof fn lemma_lookup_none(fs: Seq<EntryV>, k: Key)
    requires
        forall|j: int| 0 <= j < fs.len() ==> fs[j].key != k,
    ensures
        lookup(fs, k) == None::<ValueV>,
    decreases fs,
{
    if fs.len() > 0 {
        lemma_lookup_none(fs.drop_first(), k);
    }
}

/// First-match lookup of a key in an object's field list.
pub fn get<'a>(fields: &'a Vec<Entry>, k: Key) -> (r: Option<&'a Value>)
    ensures
        match r {
            Some(v) => lookup(entries_dv(fields@), k) == Some(v.deep_view()) && exists|i: int|
                0 <= i < entries_dv(fields@).len() && (#[trigger] entries_dv(fields@)[i]).val
                == v.deep_view(),
            None => lookup(entries_dv(fields@), k) == None::<ValueV>,
        },
{
    proof {
        lemma_entries_dv(fields@);
    }
    let ghost fs = entries_dv(fields@);
    let n = fields.len();
    for i in 0..n
        invariant
            n == fields.len(),
            fs == entries_dv(fields@),
            fs.len() == n,
            forall|j: int| 0 <= j < fs.len() ==> fs[j] == fields@[j].deep_view(),
            forall|j: int| 0 <= j < i ==> fs[j].key != k,
    {
        if fields[i].key == k {
            proof {
                lemma_lookup_step(fs, k, i as int);
            }
            return Some(&fields[i].val);
        }
    }
    proof {
        lemma_lookup_none(fs, k);
    }
    None
}

/// Whether an object's field list holds a field named `k`.
pub fn has_key(fields: &Vec<Entry>, k: Key) -> (r: bool)
    ensures
        r == lookup(entries_dv(fields@), k).is_some(),
{
    match get(fields, k) {
        Some(_) => true,
        None => false,
    }
}

/// The position of the first field named `k`, if any.
pub open spec fn lookup_idx(fs: Seq<EntryV>, k: Key) -> Option<int>
    decreases fs,
{
    if fs.len() == 0 {
        None
    } else if fs[0].key == k {
        Some(0)
    } else {
        match lookup_idx(fs.drop_first(), k) {
            None => None,
            Some(i) => Some(i + 1),
        }
    }
}

/// `lookup` and `lookup_idx` agree.
pub proof fn lemma_lookup_idx(fs: Seq<EntryV>, k: Key)
    ensures
        match lookup_idx(fs, k) {
            None => lookup(fs, k) == None::<ValueV>,
            Some(i) => 0 <= i < fs.len() && fs[i].key == k && lookup(fs, k) == Some(fs[i].val),
        },
    decreases fs,
{
    if fs.len() > 0 && fs[0].key != k {
        lemma_lookup_idx(fs.drop_first(), k);
    }
}


} // verus!
