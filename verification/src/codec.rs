//! A value-level model of the wire encoding that the generated conversion
//! code implements: native values cross the boundary as scalars, pointers
//! with a null sentinel, field lists and length-bounded arrays. The model
//! pins down what the generated wire-to-native and native-to-transport
//! bodies must do: encoding then converting back recovers the value
//! field for field, and a null wire value decodes on its own, without ever
//! touching an inner conversion.

use vstd::prelude::*;

verus! {

/// A native value as the user declaration sees it.
#[derive(Debug, PartialEq)]
pub enum NativeValue {
    Int(i64),
    Truth(bool),
    Struct(Vec<NativeValue>),
    Opt(Option<Box<NativeValue>>),
    List(Vec<NativeValue>),
}

/// A value in wire form: what actually crosses the boundary.
#[derive(Debug, PartialEq)]
pub enum WireValue {
    Scalar(i64),
    Flag(bool),
    /// The null sentinel of an absent optional.
    Null,
    /// A pointer to a present optional's payload.
    Ptr(Box<WireValue>),
    /// A struct's fields, in declared order.
    Fields(Vec<WireValue>),
    /// A pointer-plus-length list's elements, exactly `len` of them.
    Array(Vec<WireValue>),
}

/// Structural equality of native values: field for field, element for
/// element.
pub open spec fn value_eq(a: NativeValue, b: NativeValue) -> bool
    decreases a,
{
    match (a, b) {
        (NativeValue::Int(x), NativeValue::Int(y)) => x == y,
        (NativeValue::Truth(x), NativeValue::Truth(y)) => x == y,
        (NativeValue::Struct(xs), NativeValue::Struct(ys)) => xs@.len() == ys@.len()
            && forall|i: int| 0 <= i < xs@.len() ==> value_eq(#[trigger] xs@[i], ys@[i]),
        (NativeValue::Opt(x), NativeValue::Opt(y)) => match (x, y) {
            (Option::None, Option::None) => true,
            (Option::Some(bx), Option::Some(by)) => value_eq(*bx, *by),
            _ => false,
        },
        (NativeValue::List(xs), NativeValue::List(ys)) => xs@.len() == ys@.len()
            && forall|i: int| 0 <= i < xs@.len() ==> value_eq(#[trigger] xs@[i], ys@[i]),
        _ => false,
    }
}

/// The encoding relation: the wire value is exactly the wire form of the
/// native value. An absent optional is the null sentinel; a present one is
/// a pointer to its payload's wire form.
pub open spec fn spec_encodes(v: NativeValue, w: WireValue) -> bool
    decreases v,
{
    match (v, w) {
        (NativeValue::Int(x), WireValue::Scalar(y)) => x == y,
        (NativeValue::Truth(x), WireValue::Flag(y)) => x == y,
        (NativeValue::Struct(fs), WireValue::Fields(ws)) => fs@.len() == ws@.len()
            && forall|i: int| 0 <= i < fs@.len() ==> spec_encodes(#[trigger] fs@[i], ws@[i]),
        (NativeValue::Opt(o), WireValue::Null) => o is None,
        (NativeValue::Opt(o), WireValue::Ptr(pw)) => o matches Option::Some(b) && spec_encodes(
            *b,
            *pw,
        ),
        (NativeValue::List(xs), WireValue::Array(ws)) => xs@.len() == ws@.len()
            && forall|i: int| 0 <= i < xs@.len() ==> spec_encodes(#[trigger] xs@[i], ws@[i]),
        _ => false,
    }
}

/// Encode a native value into its wire form.
#[verifier::loop_isolation(false)]
pub fn encode_value(v: &NativeValue) -> (r: WireValue)
    ensures
        spec_encodes(*v, r),
    decreases *v,
{
    match v {
        NativeValue::Int(x) => WireValue::Scalar(*x),
        NativeValue::Truth(x) => WireValue::Flag(*x),
        NativeValue::Struct(fs) => {
            let n = fs.len();
            let mut out: Vec<WireValue> = Vec::new();
            let mut i: usize = 0;
            while i < n
                invariant
                    n == fs@.len(),
                    i <= n,
                    out@.len() == i,
                    forall|k: int| 0 <= k < i ==> spec_encodes(#[trigger] fs@[k], out@[k]),
                decreases n - i,
            {
                let w = encode_value(&fs[i]);
                out.push(w);
                i = i + 1;
            }
            WireValue::Fields(out)
        },
        NativeValue::Opt(o) => match o {
            Option::None => WireValue::Null,
            Option::Some(b) => WireValue::Ptr(Box::new(encode_value(b))),
        },
        NativeValue::List(xs) => {
            let n = xs.len();
            let mut out: Vec<WireValue> = Vec::new();
            let mut i: usize = 0;
            while i < n
                invariant
                    n == xs@.len(),
                    i <= n,
                    out@.len() == i,
                    forall|k: int| 0 <= k < i ==> spec_encodes(#[trigger] xs@[k], out@[k]),
                decreases n - i,
            {
                let w = encode_value(&xs[i]);
                out.push(w);
                i = i + 1;
            }
            WireValue::Array(out)
        },
    }
}

/// Convert a wire value back to a native value. The null sentinel decodes
/// to the absent optional on its own: no inner conversion is reachable on
/// that path. An array reconstructs exactly as many elements as its length
/// says, never more.
#[verifier::loop_isolation(false)]
pub fn decode_value(w: &WireValue) -> (r: NativeValue)
    ensures
        spec_encodes(r, *w),
    decreases *w,
{
    match w {
        WireValue::Scalar(x) => NativeValue::Int(*x),
        WireValue::Flag(x) => NativeValue::Truth(*x),
        WireValue::Null => NativeValue::Opt(Option::None),
        WireValue::Ptr(pw) => NativeValue::Opt(Option::Some(Box::new(decode_value(pw)))),
        WireValue::Fields(ws) => {
            let n = ws.len();
            let mut out: Vec<NativeValue> = Vec::new();
            let mut i: usize = 0;
            while i < n
                invariant
                    n == ws@.len(),
                    i <= n,
                    out@.len() == i,
                    forall|k: int| 0 <= k < i ==> spec_encodes(#[trigger] out@[k], ws@[k]),
                decreases n - i,
            {
                let v = decode_value(&ws[i]);
                out.push(v);
                i = i + 1;
            }
            NativeValue::Struct(out)
        },
        WireValue::Array(ws) => {
            let n = ws.len();
            let mut out: Vec<NativeValue> = Vec::new();
            let mut i: usize = 0;
            while i < n
                invariant
                    n == ws@.len(),
                    i <= n,
                    out@.len() == i,
                    forall|k: int| 0 <= k < i ==> spec_encodes(#[trigger] out@[k], ws@[k]),
                decreases n - i,
            {
                let v = decode_value(&ws[i]);
                out.push(v);
                i = i + 1;
            }
            NativeValue::List(out)
        },
    }
}

/// Round trip: the wire form determines the native value. Two native
/// values with the same wire form are equal field for field, so encoding a
/// value and converting the result back recovers it exactly.
pub proof fn lemma_round_trip(v1: NativeValue, v2: NativeValue, w: WireValue)
    requires
        spec_encodes(v1, w),
        spec_encodes(v2, w),
    ensures
        value_eq(v1, v2),
    decreases v1,
{
    match (v1, v2, w) {
        (NativeValue::Struct(xs), NativeValue::Struct(ys), WireValue::Fields(ws)) => {
            assert forall|i: int| 0 <= i < xs@.len() implies value_eq(#[trigger] xs@[i], ys@[i]) by {
                lemma_round_trip(xs@[i], ys@[i], ws@[i]);
            }
        },
        (NativeValue::Opt(x), NativeValue::Opt(y), WireValue::Ptr(pw)) => {
            lemma_round_trip(*x->Some_0, *y->Some_0, *pw);
        },
        (NativeValue::List(xs), NativeValue::List(ys), WireValue::Array(ws)) => {
            assert forall|i: int| 0 <= i < xs@.len() implies value_eq(#[trigger] xs@[i], ys@[i]) by {
                lemma_round_trip(xs@[i], ys@[i], ws@[i]);
            }
        },
        _ => {},
    }
}

/// Null safety: only the absent optional has the null sentinel as its wire
/// form, whatever the inner type's values look like. Converting a null
/// wire value therefore never reaches an inner conversion.
pub proof fn lemma_null_decodes_alone(v: NativeValue)
    requires
        spec_encodes(v, WireValue::Null),
    ensures
        v is Opt && v->Opt_0 is None,
{
}

} // verus!
