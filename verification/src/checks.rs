//! Building blocks of the section validators: outcomes, message assembly
//! and the common field checks over [`JsonValue`]s.
//!
//! A check's outcome is stated as a spec value of type
//! `Result<(), Seq<char>>`: `Ok(())`, or the exact error message. Checks
//! run in order and the first failing one decides the message.

use vstd::prelude::*;

use crate::json::{
    is_array, is_number, is_object, json_get, kind_label_spec, number_finite, number_negative,
    JsonNumber, JsonValue,
};
use crate::text::{decimal, push_decimal, push_str};

verus! {

/// The first failing outcome of `a` then `b`.
pub open spec fn then(a: Result<(), Seq<char>>, b: Result<(), Seq<char>>) -> Result<(), Seq<char>> {
    match a {
        Err(e) => Err(e),
        Ok(_) => b,
    }
}

/// Whether an executable outcome is the stated one (same message on error).
pub open spec fn outcome(r: Result<(), String>, s: Result<(), Seq<char>>) -> bool {
    match (r, s) {
        (Ok(_), Ok(_)) => true,
        (Err(m), Err(n)) => m@ == n,
        _ => false,
    }
}

/// The outcome of checking `s[i]`, `s[i + 1]`, ... in order with `f`:
/// the first error, or `Ok(())` when every element passes.
pub open spec fn first_error<T>(
    s: Seq<T>,
    f: spec_fn(int, T) -> Result<(), Seq<char>>,
    i: nat,
) -> Result<(), Seq<char>>
    decreases s.len() - i,
{
    if i >= s.len() {
        Ok(())
    } else {
        then(f(i as int, s[i as int]), first_error(s, f, i + 1))
    }
}

/// Checking from `i` passes exactly when `f` passes every element from `i` on.
pub proof fn lemma_first_error_ok<T>(s: Seq<T>, f: spec_fn(int, T) -> Result<(), Seq<char>>, i: nat)
    ensures
        first_error(s, f, i) is Ok <==> forall|j: int| i <= j < s.len() ==> f(j, #[trigger] s[j]) is Ok,
    decreases s.len() - i,
{
    if i < s.len() {
        lemma_first_error_ok(s, f, i + 1);
    }
}

/// Once the elements before `i` pass, checking from the start is checking from `i`.
pub proof fn lemma_first_error_skip<T>(
    s: Seq<T>,
    f: spec_fn(int, T) -> Result<(), Seq<char>>,
    i: nat,
)
    requires
        i <= s.len(),
        forall|j: int| 0 <= j < i ==> f(j, #[trigger] s[j]) is Ok,
    ensures
        first_error(s, f, 0) == first_error(s, f, i),
    decreases i,
{
    if i > 0 {
        lemma_first_error_skip(s, f, (i - 1) as nat);
        assert(f((i - 1) as int, s[i - 1]) is Ok);
    }
}

// ── Messages ─────────────────────────────────────────────────────────────

/// `a` followed by `b`.
pub fn cat2(a: &str, b: &str) -> (r: String)
    ensures
        r@ == a@ + b@,
{
    let mut r = String::new();
    push_str(&mut r, a);
    push_str(&mut r, b);
    r
}

/// `a`, `b`, `c` in sequence.
pub fn cat3(a: &str, b: &str, c: &str) -> (r: String)
    ensures
        r@ == a@ + b@ + c@,
{
    let mut r = cat2(a, b);
    push_str(&mut r, c);
    r
}

/// `a`, `b`, `c`, `d` in sequence.
pub fn cat4(a: &str, b: &str, c: &str, d: &str) -> (r: String)
    ensures
        r@ == a@ + b@ + c@ + d@,
{
    let mut r = cat3(a, b, c);
    push_str(&mut r, d);
    r
}

/// `a`, `b`, `c`, `d`, `e` in sequence.
pub fn cat5(a: &str, b: &str, c: &str, d: &str, e: &str) -> (r: String)
    ensures
        r@ == a@ + b@ + c@ + d@ + e@,
{
    let mut r = cat4(a, b, c, d);
    push_str(&mut r, e);
    r
}

/// `a`, the decimal form of `i`, then `b`.
pub fn cat_index(a: &str, i: usize, b: &str) -> (r: String)
    ensures
        r@ == a@ + decimal(i as nat) + b@,
{
    let mut r = String::new();
    push_str(&mut r, a);
    push_decimal(&mut r, i as u64);
    push_str(&mut r, b);
    r
}

// ── Common checks ────────────────────────────────────────────────────────

/// The top level of a section must be an object.
pub open spec fn object_check(v: JsonValue, section: Seq<char>) -> Result<(), Seq<char>> {
    if is_object(v) {
        Ok(())
    } else {
        Err(section + " config must be a JSON object, got "@ + kind_label_spec(v))
    }
}

/// Check that `value` is an object.
pub fn ensure_object(value: &JsonValue, section: &str) -> (r: Result<(), String>)
    ensures
        outcome(r, object_check(*value, section@)),
{
    if !value.is_object() {
        return Err(cat3(section, " config must be a JSON object, got ", value.kind_label()));
    }
    Ok(())
}

/// A value at `path` must be an array.
pub open spec fn array_check(v: JsonValue, path: Seq<char>) -> Result<(), Seq<char>> {
    if is_array(v) {
        Ok(())
    } else {
        Err(path + " must be a JSON array, got "@ + kind_label_spec(v))
    }
}

/// Check that `value` is an array.
pub fn ensure_array(value: &JsonValue, path: &str) -> (r: Result<(), String>)
    ensures
        outcome(r, array_check(*value, path@)),
{
    if !value.is_array() {
        return Err(cat3(path, " must be a JSON array, got ", value.kind_label()));
    }
    Ok(())
}

/// A nested value at `path` must be an object.
pub open spec fn sub_object_check(v: JsonValue, path: Seq<char>) -> Result<(), Seq<char>> {
    if is_object(v) {
        Ok(())
    } else {
        Err(path + " must be a JSON object, got "@ + kind_label_spec(v))
    }
}

/// Check that a nested value is an object.
pub fn ensure_sub_object(value: &JsonValue, path: &str) -> (r: Result<(), String>)
    ensures
        outcome(r, sub_object_check(*value, path@)),
{
    if !value.is_object() {
        return Err(cat3(path, " must be a JSON object, got ", value.kind_label()));
    }
    Ok(())
}

/// The member `field` must be a non-empty string.
pub open spec fn required_string_check(obj: JsonValue, field: Seq<char>, path: Seq<char>) -> Result<
    (),
    Seq<char>,
> {
    match json_get(obj, field) {
        Some(JsonValue::String(s)) => if s@.len() == 0 {
            Err(path + " cannot be empty"@)
        } else {
            Ok(())
        },
        None => Err(path + " is required"@),
        Some(_) => Err(path + " must be a string"@),
    }
}

/// Check that the member `field` of `obj` is a non-empty string.
pub fn require_non_empty(obj: &JsonValue, field: &str, path: &str) -> (r: Result<(), String>)
    ensures
        outcome(r, required_string_check(*obj, field@, path@)),
{
    match obj.get(field) {
        Some(JsonValue::String(s)) => {
            if s.as_str().is_empty() {
                Err(cat2(path, " cannot be empty"))
            } else {
                Ok(())
            }
        },
        None => Err(cat2(path, " is required")),
        Some(_) => Err(cat2(path, " must be a string")),
    }
}

/// A present member `field` must be a boolean.
pub open spec fn bool_field_check(v: JsonValue, field: Seq<char>, path: Seq<char>) -> Result<
    (),
    Seq<char>,
> {
    match json_get(v, field) {
        Some(x) => if x is Bool {
            Ok(())
        } else {
            Err(path + " must be a boolean, got "@ + kind_label_spec(x))
        },
        None => Ok(()),
    }
}

/// Check that a present member is a boolean.
pub fn validate_bool_field(value: &JsonValue, field: &str, path: &str) -> (r: Result<(), String>)
    ensures
        outcome(r, bool_field_check(*value, field@, path@)),
{
    if let Some(v) = value.get(field) {
        if !v.is_boolean() {
            return Err(cat3(path, " must be a boolean, got ", v.kind_label()));
        }
    }
    Ok(())
}

/// A present member `field` must be a number.
pub open spec fn number_field_check(v: JsonValue, field: Seq<char>, path: Seq<char>) -> Result<
    (),
    Seq<char>,
> {
    match json_get(v, field) {
        Some(x) => if is_number(x) {
            Ok(())
        } else {
            Err(path + " must be a number, got "@ + kind_label_spec(x))
        },
        None => Ok(()),
    }
}

/// Check that a present member is a number.
pub fn validate_number_field(value: &JsonValue, field: &str, path: &str) -> (r: Result<
    (),
    String,
>)
    ensures
        outcome(r, number_field_check(*value, field@, path@)),
{
    if let Some(v) = value.get(field) {
        if !v.is_number() {
            return Err(cat3(path, " must be a number, got ", v.kind_label()));
        }
    }
    Ok(())
}

/// Whether a number, read as `f64`, is finite and not below zero.
pub open spec fn non_negative_number(n: JsonNumber) -> bool {
    number_finite(n) && !number_negative(n)
}

/// A present member `field` must be a finite, non-negative number.
pub open spec fn non_negative_check(v: JsonValue, field: Seq<char>, path: Seq<char>) -> Result<
    (),
    Seq<char>,
> {
    match json_get(v, field) {
        Some(JsonValue::Number(n)) => if non_negative_number(n) {
            Ok(())
        } else {
            Err(path + " must be non-negative"@)
        },
        Some(x) => Err(path + " must be a number, got "@ + kind_label_spec(x)),
        None => Ok(()),
    }
}

/// Check that a present member is a finite, non-negative number.
pub fn validate_non_negative_number(value: &JsonValue, field: &str, path: &str) -> (r: Result<
    (),
    String,
>)
    ensures
        outcome(r, non_negative_check(*value, field@, path@)),
{
    match value.get(field) {
        Some(JsonValue::Number(n)) => {
            if !n.is_finite() || n.is_negative() {
                Err(cat2(path, " must be non-negative"))
            } else {
                Ok(())
            }
        },
        Some(v) => Err(cat3(path, " must be a number, got ", v.kind_label())),
        None => Ok(()),
    }
}

/// A present member `field` must be `null` or a non-empty string.
pub open spec fn optional_string_check(v: JsonValue, field: Seq<char>, path: Seq<char>) -> Result<
    (),
    Seq<char>,
> {
    match json_get(v, field) {
        Some(JsonValue::String(s)) => if s@.len() == 0 {
            Err(path + " cannot be empty"@)
        } else {
            Ok(())
        },
        Some(JsonValue::Null) => Ok(()),
        Some(x) => Err(path + " must be a string, got "@ + kind_label_spec(x)),
        None => Ok(()),
    }
}

/// Check that a present member is `null` or a non-empty string.
pub fn validate_optional_non_empty_string(value: &JsonValue, field: &str, path: &str) -> (r:
    Result<(), String>)
    ensures
        outcome(r, optional_string_check(*value, field@, path@)),
{
    match value.get(field) {
        Some(JsonValue::String(s)) => {
            if s.as_str().is_empty() {
                Err(cat2(path, " cannot be empty"))
            } else {
                Ok(())
            }
        },
        Some(JsonValue::Null) => Ok(()),
        Some(v) => Err(cat3(path, " must be a string, got ", v.kind_label())),
        None => Ok(()),
    }
}

} // verus!
