//! A JSON value model that the configuration logic reads.
//!
//! Configuration files are parsed outside the library; their contents
//! reach the validators and the section store as [`JsonValue`]s. Objects
//! keep their entries in iteration order (the order a parser hands them
//! out, sorted by key for `serde_json` maps); lookups return the first
//! entry with the requested key. Floating-point numbers are carried as
//! their IEEE-754 bit pattern, since the logic only asks for their sign
//! and finiteness and compares them for equality.

use vstd::prelude::*;

use crate::assoc::{assoc_get, assoc_lookup};

verus! {

/// A JSON number, distinguished the way parsers report it.
#[derive(Debug, Clone, Copy, PartialEq, Eq)]
pub enum JsonNumber {
    /// A non-negative integer.
    PosInt(u64),
    /// A negative integer.
    NegInt(i64),
    /// A floating-point number, as its IEEE-754 bit pattern.
    Float(u64),
}

/// A JSON value.
#[derive(Debug)]
pub enum JsonValue {
    Null,
    Bool(bool),
    Number(JsonNumber),
    String(String),
    Array(Vec<JsonValue>),
    Object(Vec<(String, JsonValue)>),
}

/// 2^52: the weight of the lowest exponent bit of an `f64`.
pub open spec fn exp_unit() -> nat {
    4503599627370496
}

/// 2^63: the sign bit of an `f64`.
pub open spec fn sign_bit() -> nat {
    9223372036854775808
}

/// Whether the `f64` with these bits is finite (exponent not all ones).
pub open spec fn float_bits_finite(bits: u64) -> bool {
    (bits as nat / exp_unit()) % 2048 != 2047
}

/// Whether the `f64` with these bits is NaN.
pub open spec fn float_bits_nan(bits: u64) -> bool {
    !float_bits_finite(bits) && bits as nat % exp_unit() != 0
}

/// Whether the `f64` with these bits compares `< 0.0`.
pub open spec fn float_bits_negative(bits: u64) -> bool {
    bits as nat >= sign_bit() && bits as nat != sign_bit() && !float_bits_nan(bits)
}

/// Whether a JSON number is finite.
pub open spec fn number_finite(n: JsonNumber) -> bool {
    match n {
        JsonNumber::Float(b) => float_bits_finite(b),
        _ => true,
    }
}

/// Whether a JSON number, read as `f64`, compares `< 0.0`.
pub open spec fn number_negative(n: JsonNumber) -> bool {
    match n {
        JsonNumber::PosInt(_) => false,
        JsonNumber::NegInt(_) => true,
        JsonNumber::Float(b) => float_bits_negative(b),
    }
}

/// The number as an unsigned integer, when it is one (`as_u64`).
pub open spec fn number_as_u64(n: JsonNumber) -> Option<u64> {
    match n {
        JsonNumber::PosInt(u) => Some(u),
        _ => None,
    }
}

impl JsonNumber {
    /// Whether this number is finite.
    pub fn is_finite(&self) -> (r: bool)
        ensures
            r == number_finite(*self),
    {
        match self {
            JsonNumber::Float(b) => (*b / 4503599627370496) % 2048 != 2047,
            _ => true,
        }
    }

    /// Whether this number, read as `f64`, compares `< 0.0`.
    pub fn is_negative(&self) -> (r: bool)
        ensures
            r == number_negative(*self),
    {
        match self {
            JsonNumber::PosInt(_) => false,
            JsonNumber::NegInt(_) => true,
            JsonNumber::Float(b) => {
                let finite = (*b / 4503599627370496) % 2048 != 2047;
                let nan = !finite && *b % 4503599627370496 != 0;
                *b >= 9223372036854775808 && *b != 9223372036854775808 && !nan
            },
        }
    }

    /// The number as an unsigned integer, when it is one.
    pub fn as_u64(&self) -> (r: Option<u64>)
        ensures
            r == number_as_u64(*self),
    {
        match self {
            JsonNumber::PosInt(u) => Some(*u),
            _ => None,
        }
    }
}

/// `value.get(key)`: the member `key` of an object, `None` for any other value.
pub open spec fn json_get(v: JsonValue, key: Seq<char>) -> Option<JsonValue> {
    match v {
        JsonValue::Object(entries) => assoc_lookup(entries@, key),
        _ => None,
    }
}

/// Whether the value is an object.
pub open spec fn is_object(v: JsonValue) -> bool {
    v is Object
}

/// Whether the value is an array.
pub open spec fn is_array(v: JsonValue) -> bool {
    v is Array
}

/// Whether the value is a number.
pub open spec fn is_number(v: JsonValue) -> bool {
    v is Number
}

/// The string content of a string value (`as_str`).
pub open spec fn json_as_str(v: JsonValue) -> Option<Seq<char>> {
    match v {
        JsonValue::String(s) => Some(s@),
        _ => None,
    }
}

/// The value as an unsigned integer (`as_u64`).
pub open spec fn json_as_u64(v: JsonValue) -> Option<u64> {
    match v {
        JsonValue::Number(n) => number_as_u64(n),
        _ => None,
    }
}

/// A human-readable type label for a JSON value.
pub open spec fn kind_label_spec(v: JsonValue) -> Seq<char> {
    match v {
        JsonValue::Null => "null"@,
        JsonValue::Bool(_) => "boolean"@,
        JsonValue::Number(_) => "number"@,
        JsonValue::String(_) => "string"@,
        JsonValue::Array(_) => "array"@,
        JsonValue::Object(_) => "object"@,
    }
}

/// Equality of two floats given by their bits, as `f64 ==` decides it.
pub open spec fn float_bits_eq(a: u64, b: u64) -> bool {
    ||| (a == b && !float_bits_nan(a))
    ||| ((a == 0 || a as nat == sign_bit()) && (b == 0 || b as nat == sign_bit()))
}

/// Equality of two JSON numbers, as `serde_json` decides it.
pub open spec fn number_eq(a: JsonNumber, b: JsonNumber) -> bool {
    match (a, b) {
        (JsonNumber::PosInt(x), JsonNumber::PosInt(y)) => x == y,
        (JsonNumber::NegInt(x), JsonNumber::NegInt(y)) => x == y,
        (JsonNumber::Float(x), JsonNumber::Float(y)) => float_bits_eq(x, y),
        _ => false,
    }
}

/// Equality of two JSON values: same shape, equal members in the same order.
pub open spec fn json_eq(a: JsonValue, b: JsonValue) -> bool
    decreases a, 0int,
{
    match (a, b) {
        (JsonValue::Null, JsonValue::Null) => true,
        (JsonValue::Bool(x), JsonValue::Bool(y)) => x == y,
        (JsonValue::Number(x), JsonValue::Number(y)) => number_eq(x, y),
        (JsonValue::String(x), JsonValue::String(y)) => x@ == y@,
        (JsonValue::Array(xs), JsonValue::Array(ys)) => {
            &&& xs@.len() == ys@.len()
            &&& elems_eq(xs@, ys@, 0)
        },
        (JsonValue::Object(xs), JsonValue::Object(ys)) => {
            &&& xs@.len() == ys@.len()
            &&& members_eq(xs@, ys@, 0)
        },
        _ => false,
    }
}

/// Whether the elements of `xs` from `i` on equal those of `ys`.
pub open spec fn elems_eq(xs: Seq<JsonValue>, ys: Seq<JsonValue>, i: int) -> bool
    decreases xs, xs.len() - i,
{
    if i < 0 || i >= xs.len() {
        true
    } else {
        json_eq(xs[i], ys[i]) && elems_eq(xs, ys, i + 1)
    }
}

/// Whether the members of `xs` from `i` on equal those of `ys`: same keys,
/// equal values.
pub open spec fn members_eq(xs: Seq<(String, JsonValue)>, ys: Seq<(String, JsonValue)>, i: int) -> bool
    decreases xs, xs.len() - i,
{
    if i < 0 || i >= xs.len() {
        true
    } else {
        proof {
            assert(decreases_to!(xs => xs[i]));
            assert(decreases_to!(xs[i] => xs[i].1));
        }
        xs[i].0@ == ys[i].0@ && json_eq(xs[i].1, ys[i].1) && members_eq(xs, ys, i + 1)
    }
}

/// Whether `a` and `b` are the same value: same shape, identical numbers
/// and texts, members in the same order.
pub open spec fn json_same(a: JsonValue, b: JsonValue) -> bool
    decreases a, 0int,
{
    match (a, b) {
        (JsonValue::Null, JsonValue::Null) => true,
        (JsonValue::Bool(x), JsonValue::Bool(y)) => x == y,
        (JsonValue::Number(x), JsonValue::Number(y)) => x == y,
        (JsonValue::String(x), JsonValue::String(y)) => x@ == y@,
        (JsonValue::Array(xs), JsonValue::Array(ys)) => {
            &&& xs@.len() == ys@.len()
            &&& elems_same(xs@, ys@, 0)
        },
        (JsonValue::Object(xs), JsonValue::Object(ys)) => {
            &&& xs@.len() == ys@.len()
            &&& members_same(xs@, ys@, 0)
        },
        _ => false,
    }
}

/// Whether the elements of `xs` from `i` on are the same as those of `ys`.
pub open spec fn elems_same(xs: Seq<JsonValue>, ys: Seq<JsonValue>, i: int) -> bool
    decreases xs, xs.len() - i,
{
    if i < 0 || i >= xs.len() {
        true
    } else {
        json_same(xs[i], ys[i]) && elems_same(xs, ys, i + 1)
    }
}

/// Whether the members of `xs` from `i` on are the same as those of `ys`.
pub open spec fn members_same(xs: Seq<(String, JsonValue)>, ys: Seq<(String, JsonValue)>, i: int) -> bool
    decreases xs, xs.len() - i,
{
    if i < 0 || i >= xs.len() {
        true
    } else {
        proof {
            assert(decreases_to!(xs => xs[i]));
            assert(decreases_to!(xs[i] => xs[i].1));
        }
        xs[i].0@ == ys[i].0@ && json_same(xs[i].1, ys[i].1) && members_same(xs, ys, i + 1)
    }
}

/// Elementwise sameness from `i` on follows from sameness of each element.
proof fn lemma_elems_same(xs: Seq<JsonValue>, ys: Seq<JsonValue>, i: int)
    requires
        0 <= i <= xs.len(),
        forall|j: int| i <= j < xs.len() ==> json_same(#[trigger] xs[j], ys[j]),
    ensures
        elems_same(xs, ys, i),
    decreases xs.len() - i,
{
    if i < xs.len() {
        lemma_elems_same(xs, ys, i + 1);
    }
}

/// Memberwise sameness from `i` on follows from sameness of each member.
proof fn lemma_members_same(xs: Seq<(String, JsonValue)>, ys: Seq<(String, JsonValue)>, i: int)
    requires
        0 <= i <= xs.len(),
        forall|j: int|
            i <= j < xs.len() ==> (#[trigger] xs[j]).0@ == ys[j].0@ && json_same(xs[j].1, ys[j].1),
    ensures
        members_same(xs, ys, i),
    decreases xs.len() - i,
{
    if i < xs.len() {
        lemma_members_same(xs, ys, i + 1);
    }
}

/// A copy of `v`, built member by member (the `Clone` of [`JsonValue`]).
#[verifier::loop_isolation(false)]
pub fn json_clone(v: &JsonValue) -> (r: JsonValue)
    ensures
        json_same(r, *v),
    decreases v,
{
    match v {
        JsonValue::Null => JsonValue::Null,
        JsonValue::Bool(b) => JsonValue::Bool(*b),
        JsonValue::Number(n) => JsonValue::Number(*n),
        JsonValue::String(s) => JsonValue::String(s.clone()),
        JsonValue::Array(xs) => {
            let mut out: Vec<JsonValue> = Vec::new();
            let mut i: usize = 0;
            while i < xs.len()
                invariant
                    i <= xs@.len(),
                    out@.len() == i,
                    forall|j: int| 0 <= j < i ==> json_same(#[trigger] out@[j], xs@[j]),
                decreases xs.len() - i,
            {
                proof {
                    vstd::std_specs::vec::axiom_vec_index_decreases(*xs, i as int);
                }
                let c = json_clone(&xs[i]);
                out.push(c);
                i = i + 1;
            }
            proof {
                lemma_elems_same(out@, xs@, 0);
            }
            JsonValue::Array(out)
        },
        JsonValue::Object(es) => {
            let mut out: Vec<(String, JsonValue)> = Vec::new();
            let mut i: usize = 0;
            while i < es.len()
                invariant
                    i <= es@.len(),
                    out@.len() == i,
                    forall|j: int|
                        0 <= j < i ==> (#[trigger] out@[j]).0@ == es@[j].0@ && json_same(
                            out@[j].1,
                            es@[j].1,
                        ),
                decreases es.len() - i,
            {
                proof {
                    vstd::std_specs::vec::axiom_vec_index_decreases(*es, i as int);
                    assert(decreases_to!(es[i as int] => es[i as int].1));
                }
                let c = json_clone(&es[i].1);
                out.push((es[i].0.clone(), c));
                i = i + 1;
            }
            proof {
                lemma_members_same(out@, es@, 0);
            }
            JsonValue::Object(out)
        },
    }
}

impl Clone for JsonValue {
    fn clone(&self) -> (r: Self)
        ensures
            json_same(r, *self),
    {
        json_clone(self)
    }
}

impl JsonValue {
    /// Whether the value is an object.
    pub fn is_object(&self) -> (r: bool)
        ensures
            r == is_object(*self),
    {
        matches!(self, JsonValue::Object(_))
    }

    /// Whether the value is an array.
    pub fn is_array(&self) -> (r: bool)
        ensures
            r == is_array(*self),
    {
        matches!(self, JsonValue::Array(_))
    }

    /// Whether the value is a number.
    pub fn is_number(&self) -> (r: bool)
        ensures
            r == is_number(*self),
    {
        matches!(self, JsonValue::Number(_))
    }

    /// Whether the value is a boolean.
    pub fn is_boolean(&self) -> (r: bool)
        ensures
            r == (*self is Bool),
    {
        matches!(self, JsonValue::Bool(_))
    }

    /// Whether the value is `null`.
    pub fn is_null(&self) -> (r: bool)
        ensures
            r == (*self is Null),
    {
        matches!(self, JsonValue::Null)
    }

    /// The member `key` of an object; `None` when absent or not an object.
    pub fn get(&self, key: &str) -> (r: Option<&JsonValue>)
        ensures
            r matches Some(x) ==> json_get(*self, key@) == Some(*x),
            r is None ==> json_get(*self, key@) is None,
    {
        match self {
            JsonValue::Object(entries) => assoc_get(entries, key),
            _ => None,
        }
    }

    /// The string content of a string value.
    pub fn as_str(&self) -> (r: Option<&str>)
        ensures
            r matches Some(s) ==> json_as_str(*self) == Some(s@),
            r is None ==> json_as_str(*self) is None,
    {
        match self {
            JsonValue::String(s) => Some(s.as_str()),
            _ => None,
        }
    }

    /// The value as an unsigned integer.
    pub fn as_u64(&self) -> (r: Option<u64>)
        ensures
            r == json_as_u64(*self),
    {
        match self {
            JsonValue::Number(n) => n.as_u64(),
            _ => None,
        }
    }

    /// The elements of an array value.
    pub fn as_array(&self) -> (r: Option<&Vec<JsonValue>>)
        ensures
            r matches Some(xs) ==> *self == JsonValue::Array(*xs),
            r is None ==> !(*self is Array),
    {
        match self {
            JsonValue::Array(xs) => Some(xs),
            _ => None,
        }
    }

    /// The entries of an object value.
    pub fn as_object(&self) -> (r: Option<&Vec<(String, JsonValue)>>)
        ensures
            r matches Some(es) ==> *self == JsonValue::Object(*es),
            r is None ==> !(*self is Object),
    {
        match self {
            JsonValue::Object(es) => Some(es),
            _ => None,
        }
    }

    /// A human-readable type label for this value.
    pub fn kind_label(&self) -> (r: &'static str)
        ensures
            r@ == kind_label_spec(*self),
    {
        match self {
            JsonValue::Null => "null",
            JsonValue::Bool(_) => "boolean",
            JsonValue::Number(_) => "number",
            JsonValue::String(_) => "string",
            JsonValue::Array(_) => "array",
            JsonValue::Object(_) => "object",
        }
    }
}

/// Whether two numbers are equal, as `serde_json` compares them.
pub fn number_equal(a: &JsonNumber, b: &JsonNumber) -> (r: bool)
    ensures
        r == number_eq(*a, *b),
{
    match (a, b) {
        (JsonNumber::PosInt(x), JsonNumber::PosInt(y)) => *x == *y,
        (JsonNumber::NegInt(x), JsonNumber::NegInt(y)) => *x == *y,
        (JsonNumber::Float(x), JsonNumber::Float(y)) => {
            let x_nan = (*x / 4503599627370496) % 2048 == 2047 && *x % 4503599627370496 != 0;
            let x_zero = *x == 0 || *x == 9223372036854775808;
            let y_zero = *y == 0 || *y == 9223372036854775808;
            (*x == *y && !x_nan) || (x_zero && y_zero)
        },
        _ => false,
    }
}

/// Whether two JSON values are equal: same shape, equal members in order.
#[verifier::loop_isolation(false)]
pub fn json_equal(a: &JsonValue, b: &JsonValue) -> (r: bool)
    ensures
        r == json_eq(*a, *b),
    decreases a,
{
    match (a, b) {
        (JsonValue::Null, JsonValue::Null) => true,
        (JsonValue::Bool(x), JsonValue::Bool(y)) => *x == *y,
        (JsonValue::Number(x), JsonValue::Number(y)) => number_equal(x, y),
        (JsonValue::String(x), JsonValue::String(y)) => crate::text::str_eq(x.as_str(), y.as_str()),
        (JsonValue::Array(xs), JsonValue::Array(ys)) => {
            if xs.len() != ys.len() {
                return false;
            }
            let mut i: usize = 0;
            while i < xs.len()
                invariant
                    i <= xs@.len(),
                    xs@.len() == ys@.len(),
                    elems_eq(xs@, ys@, 0) == elems_eq(xs@, ys@, i as int),
                decreases xs.len() - i,
            {
                proof {
                    vstd::std_specs::vec::axiom_vec_index_decreases(*xs, i as int);
                }
                if !json_equal(&xs[i], &ys[i]) {
                    return false;
                }
                i = i + 1;
            }
            true
        },
        (JsonValue::Object(xs), JsonValue::Object(ys)) => {
            if xs.len() != ys.len() {
                return false;
            }
            let mut i: usize = 0;
            while i < xs.len()
                invariant
                    i <= xs@.len(),
                    xs@.len() == ys@.len(),
                    members_eq(xs@, ys@, 0) == members_eq(xs@, ys@, i as int),
                decreases xs.len() - i,
            {
                proof {
                    vstd::std_specs::vec::axiom_vec_index_decreases(*xs, i as int);
                    assert(decreases_to!(xs[i as int] => xs[i as int].1));
                }
                if !crate::text::str_eq(xs[i].0.as_str(), ys[i].0.as_str()) {
                    return false;
                }
                if !json_equal(&xs[i].1, &ys[i].1) {
                    return false;
                }
                i = i + 1;
            }
            true
        },
        _ => false,
    }
}

} // verus!
