//! Trace ids for events outside the message chain (scheduled tasks,
//! background jobs): `{module}_{timestamp_hex}_{random_hex}`, where the
//! timestamp is the current UTC time in milliseconds, in lowercase hex,
//! and the random part is a version-4 UUID as 32 lowercase hex digits.

use vstd::prelude::*;

use crate::text::{owned, push_char, push_str};

verus! {

/// The lowercase hexadecimal digit for `d` (0..=15).
pub open spec fn hex_digit(d: nat) -> char {
    if d < 10 {
        crate::text::digit_char(d)
    } else if d == 10 {
        'a'
    } else if d == 11 {
        'b'
    } else if d == 12 {
        'c'
    } else if d == 13 {
        'd'
    } else if d == 14 {
        'e'
    } else {
        'f'
    }
}

/// The lowercase hexadecimal rendering of `n`, as `format!("{:x}", n)` writes it.
pub open spec fn lower_hex(n: nat) -> Seq<char>
    decreases n,
{
    if n < 16 {
        seq![hex_digit(n)]
    } else {
        lower_hex(n / 16).push(hex_digit(n % 16))
    }
}

/// Whether `c` is a lowercase hexadecimal digit.
pub open spec fn is_lower_hex_char(c: char) -> bool {
    ('0' <= c && c <= '9') || ('a' <= c && c <= 'f')
}

/// Whether `s` is a version-4 UUID written as 32 lowercase hex digits.
pub open spec fn is_simple_uuid_text(s: Seq<char>) -> bool {
    s.len() == 32 && forall|i: int| 0 <= i < s.len() ==> is_lower_hex_char(#[trigger] s[i])
}

/// The trace id of `module` at `millis` with random part `random`; a
/// negative time is written as its two's-complement bit pattern.
pub open spec fn trace_id_text(module: Seq<char>, millis: i64, random: Seq<char>) -> Seq<char> {
    module + "_"@ + lower_hex((millis as u64) as nat) + "_"@ + random
}

fn hex_digit_exec(d: u64) -> (c: char)
    requires
        d < 16,
    ensures
        c == hex_digit(d as nat),
{
    if d < 10 {
        crate::text::digit_exec(d)
    } else if d == 10 {
        'a'
    } else if d == 11 {
        'b'
    } else if d == 12 {
        'c'
    } else if d == 13 {
        'd'
    } else if d == 14 {
        'e'
    } else {
        'f'
    }
}

/// Appends the lowercase hexadecimal rendering of `n` to `out`.
pub fn push_hex(out: &mut String, n: u64)
    ensures
        final(out)@ == old(out)@ + lower_hex(n as nat),
    decreases n,
{
    if n < 16 {
        push_char(out, hex_digit_exec(n));
        assert(old(out)@.push(hex_digit(n as nat)) =~= old(out)@ + seq![hex_digit(n as nat)]);
    } else {
        push_hex(out, n / 16);
        push_char(out, hex_digit_exec(n % 16));
        assert(old(out)@ + lower_hex((n / 16) as nat) + seq![hex_digit((n % 16) as nat)] =~= old(
            out,
        )@ + lower_hex(n as nat));
    }
}

/// The trace id of `module` at `millis` (milliseconds since the Unix
/// epoch) with random part `random`.
pub fn trace_id_from(module: &str, millis: i64, random: &str) -> (r: String)
    ensures
        r@ == trace_id_text(module@, millis, random@),
{
    let mut r = owned(module);
    push_str(&mut r, "_");
    push_hex(&mut r, millis as u64);
    push_str(&mut r, "_");
    push_str(&mut r, random);
    proof {
        reveal_strlit("_");
    }
    r
}

/// The current UTC time in milliseconds since the Unix epoch
/// (`chrono::Utc::now().timestamp_millis()`). Nothing is claimed of the
/// value: it is the clock's.
#[verifier::external_body]
fn now_millis() -> (r: i64) {
    chrono::Utc::now().timestamp_millis()
}

/// A fresh random version-4 UUID in its simple form
/// (`uuid::Uuid::new_v4().simple()`, displayed): 32 lowercase hex digits.
/// Which digits is left to chance and not claimed.
#[verifier::external_body]
fn random_simple_uuid() -> (r: String)
    ensures
        is_simple_uuid_text(r@),
{
    uuid::Uuid::new_v4().simple().to_string()
}

/// A unique trace id for an event of `module`, stamped with the current time.
pub fn generate_trace_id(module: &str) -> (r: String)
    ensures
        exists|millis: i64, random: Seq<char>|
            is_simple_uuid_text(random) && r@ == trace_id_text(module@, millis, random),
{
    let millis = now_millis();
    let random = random_simple_uuid();
    trace_id_from(module, millis, random.as_str())
}

} // verus!
