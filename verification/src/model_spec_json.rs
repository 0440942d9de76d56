//! The JSON form of a [`ModelSpec`].
//!
//! A model specification is written either as a model name string
//! (`"gpt-4o"`: no fallback) or as an object
//! `{"primary": "gpt-4o", "fallback": ["llama-3"]}`. In the object form
//! `primary` is required, `fallback` defaults to the empty list, each may
//! occur once, and other members are ignored. A specification without
//! fallbacks is written as its name.

use vstd::prelude::*;

use crate::agent_config::ModelSpec;
use crate::json::JsonValue;
use crate::text::{owned, str_eq};

verus! {

/// Why a JSON value is not a model specification.
#[derive(Debug, Clone, Copy, PartialEq, Eq, Structural)]
pub enum ModelSpecError {
    /// `primary` occurs twice.
    DuplicatePrimary,
    /// `fallback` occurs twice.
    DuplicateFallback,
    /// The object has no `primary`.
    MissingPrimary,
    /// `primary` is not a string.
    PrimaryNotString,
    /// `fallback` is not a list of strings.
    FallbackNotStrings,
    /// The value is neither a string nor an object.
    NotStringOrObject,
}

/// The texts of a list of JSON strings; nothing when an element is not a string.
pub open spec fn strings_of(xs: Seq<JsonValue>) -> Option<Seq<Seq<char>>>
    decreases xs.len(),
{
    if xs.len() == 0 {
        Some(Seq::empty())
    } else {
        match (strings_of(xs.drop_last()), xs.last()) {
            (Some(init), JsonValue::String(s)) => Some(init.push(s@)),
            _ => None,
        }
    }
}

/// The members of a model specification object read in order, starting
/// from what was read before (`primary`, `fallback`).
pub open spec fn decode_fields(
    ms: Seq<(String, JsonValue)>,
    primary: Option<Seq<char>>,
    fallback: Option<Seq<Seq<char>>>,
) -> Result<(Option<Seq<char>>, Option<Seq<Seq<char>>>), ModelSpecError>
    decreases ms.len(),
{
    if ms.len() == 0 {
        Ok((primary, fallback))
    } else {
        let rest = ms.drop_first();
        if ms[0].0@ == "primary"@ {
            if primary is Some {
                Err(ModelSpecError::DuplicatePrimary)
            } else {
                match ms[0].1 {
                    JsonValue::String(s) => decode_fields(rest, Some(s@), fallback),
                    _ => Err(ModelSpecError::PrimaryNotString),
                }
            }
        } else if ms[0].0@ == "fallback"@ {
            if fallback is Some {
                Err(ModelSpecError::DuplicateFallback)
            } else {
                match ms[0].1 {
                    JsonValue::Array(xs) => match strings_of(xs@) {
                        Some(f) => decode_fields(rest, primary, Some(f)),
                        None => Err(ModelSpecError::FallbackNotStrings),
                    },
                    _ => Err(ModelSpecError::FallbackNotStrings),
                }
            }
        } else {
            decode_fields(rest, primary, fallback)
        }
    }
}

/// The model specification a JSON value denotes: its primary model and
/// its fallbacks, or why it denotes none.
pub open spec fn model_spec_decoding(v: JsonValue) -> Result<
    (Seq<char>, Seq<Seq<char>>),
    ModelSpecError,
> {
    match v {
        JsonValue::String(s) => Ok((s@, Seq::empty())),
        JsonValue::Object(ms) => match decode_fields(ms@, None, None) {
            Err(e) => Err(e),
            Ok((None, _)) => Err(ModelSpecError::MissingPrimary),
            Ok((Some(p), f)) => Ok(
                (
                    p,
                    match f {
                        Some(f) => f,
                        None => Seq::empty(),
                    },
                ),
            ),
        },
        _ => Err(ModelSpecError::NotStringOrObject),
    }
}

/// The texts of a list of strings.
pub open spec fn texts(v: Seq<String>) -> Seq<Seq<char>> {
    v.map_values(|s: String| s@)
}

/// The text of an optional string.
pub open spec fn opt_text(o: Option<String>) -> Option<Seq<char>> {
    match o {
        Some(s) => Some(s@),
        None => None,
    }
}

/// The texts of an optional list of strings.
pub open spec fn opt_texts(o: Option<Vec<String>>) -> Option<Seq<Seq<char>>> {
    match o {
        Some(v) => Some(texts(v@)),
        None => None,
    }
}

/// A model specification as its primary model and its fallbacks.
pub open spec fn model_spec_view(m: ModelSpec) -> (Seq<char>, Seq<Seq<char>>) {
    (m.primary@, texts(m.fallback@))
}

/// Whether `v` is the JSON form of the specification with primary `p`
/// and fallbacks `f`.
pub open spec fn encodes(v: JsonValue, p: Seq<char>, f: Seq<Seq<char>>) -> bool {
    if f.len() == 0 {
        v matches JsonValue::String(s) && s@ == p
    } else {
        &&& v matches JsonValue::Object(ms)
        &&& ms@.len() == 2
        &&& ms@[0].0@ == "primary"@
        &&& ms@[0].1 matches JsonValue::String(s) && s@ == p
        &&& ms@[1].0@ == "fallback"@
        &&& ms@[1].1 matches JsonValue::Array(xs) && strings_of(xs@) == Some(f)
    }
}

/// The strings of a JSON list, when every element is a string.
fn strings_from(xs: &Vec<JsonValue>) -> (r: Option<Vec<String>>)
    ensures
        match strings_of(xs@) {
            Some(f) => r matches Some(v) && texts(v@) == f,
            None => r is None,
        },
{
    let mut out: Vec<String> = Vec::new();
    let mut i: usize = 0;
    while i < xs.len()
        invariant
            i <= xs@.len(),
            strings_of(xs@.subrange(0, i as int)) == Some(texts(out@)),
        decreases xs.len() - i,
    {
        proof {
            assert(xs@.subrange(0, i + 1).drop_last() =~= xs@.subrange(0, i as int));
        }
        match &xs[i] {
            JsonValue::String(s) => {
                let ghost before = out@;
                out.push(s.clone());
                proof {
                    assert(texts(out@) =~= texts(before).push(s@));
                }
            },
            _ => {
                proof {
                    lemma_strings_of_prefix(xs@, i as int + 1);
                }
                return None;
            },
        }
        i = i + 1;
    }
    proof {
        assert(xs@.subrange(0, xs@.len() as int) =~= xs@);
    }
    Some(out)
}

/// A list with a non-string element at or before `k` has no texts.
proof fn lemma_strings_of_prefix(xs: Seq<JsonValue>, k: int)
    requires
        0 < k <= xs.len(),
        strings_of(xs.subrange(0, k)) is None,
    ensures
        strings_of(xs) is None,
    decreases xs.len() - k,
{
    if k < xs.len() {
        assert(xs.subrange(0, k + 1).drop_last() =~= xs.subrange(0, k));
        lemma_strings_of_prefix(xs, k + 1);
    } else {
        assert(xs.subrange(0, k) =~= xs);
    }
}

impl ModelSpec {
    /// The specification a JSON value denotes (see [`model_spec_decoding`]).
    pub fn from_json(v: &JsonValue) -> (r: Result<ModelSpec, ModelSpecError>)
        ensures
            match model_spec_decoding(*v) {
                Ok(x) => r matches Ok(m) && model_spec_view(m) == x,
                Err(e) => r == Err::<ModelSpec, ModelSpecError>(e),
            },
    {
        match v {
            JsonValue::String(s) => {
                let m = ModelSpec::single(s.as_str());
                proof {
                    assert(texts(m.fallback@) =~= Seq::<Seq<char>>::empty());
                }
                Ok(m)
            },
            JsonValue::Object(ms) => {
                let mut primary: Option<String> = None;
                let mut fallback: Option<Vec<String>> = None;
                let mut i: usize = 0;
                proof {
                    assert(ms@.subrange(0, ms@.len() as int) =~= ms@);
                }
                while i < ms.len()
                    invariant
                        i <= ms@.len(),
                        *v == JsonValue::Object(*ms),
                        decode_fields(ms@, None, None) == decode_fields(
                            ms@.subrange(i as int, ms@.len() as int),
                            opt_text(primary),
                            opt_texts(fallback),
                        ),
                    decreases ms.len() - i,
                {
                    let ghost tail = ms@.subrange(i as int, ms@.len() as int);
                    let ghost pv = opt_text(primary);
                    let ghost fv = opt_texts(fallback);
                    proof {
                        assert("primary"@ != "fallback"@) by {
                            reveal_strlit("primary");
                            reveal_strlit("fallback");
                            assert("primary"@[0] != "fallback"@[0]);
                        }
                        assert(tail.drop_first() =~= ms@.subrange(i + 1, ms@.len() as int));
                        assert(tail[0] == ms@[i as int]);
                        reveal_strlit("primary");
                        reveal_strlit("fallback");
                    }
                    let key = ms[i].0.as_str();
                    if str_eq(key, "primary") {
                        if primary.is_some() {
                            assert(decode_fields(tail, pv, fv) == Err::<
                                (Option<Seq<char>>, Option<Seq<Seq<char>>>),
                                ModelSpecError,
                            >(ModelSpecError::DuplicatePrimary));
                            return Err(ModelSpecError::DuplicatePrimary);
                        }
                        match &ms[i].1 {
                            JsonValue::String(s) => {
                                primary = Some(s.clone());
                            },
                            _ => {
                                assert(decode_fields(tail, pv, fv) == Err::<
                                    (Option<Seq<char>>, Option<Seq<Seq<char>>>),
                                    ModelSpecError,
                                >(ModelSpecError::PrimaryNotString));
                                return Err(ModelSpecError::PrimaryNotString);
                            },
                        }
                    } else if str_eq(key, "fallback") {
                        if fallback.is_some() {
                            return Err(ModelSpecError::DuplicateFallback);
                        }
                        match &ms[i].1 {
                            JsonValue::Array(xs) => match strings_from(xs) {
                                Some(f) => {
                                    fallback = Some(f);
                                },
                                None => {
                                    assert(decode_fields(tail, pv, fv) == Err::<
                                        (Option<Seq<char>>, Option<Seq<Seq<char>>>),
                                        ModelSpecError,
                                    >(ModelSpecError::FallbackNotStrings));
                                    return Err(ModelSpecError::FallbackNotStrings);
                                },
                            },
                            _ => {
                                return Err(ModelSpecError::FallbackNotStrings);
                            },
                        }
                    }
                    i = i + 1;
                }
                proof {
                    assert(ms@.subrange(ms@.len() as int, ms@.len() as int).len() == 0);
                }
                match primary {
                    None => Err(ModelSpecError::MissingPrimary),
                    Some(p) => {
                        let f = match fallback {
                            Some(f) => f,
                            None => Vec::new(),
                        };
                        proof {
                            assert(texts(Seq::<String>::empty()) =~= Seq::<Seq<char>>::empty());
                        }
                        Ok(ModelSpec { primary: p, fallback: f })
                    },
                }
            },
            _ => Err(ModelSpecError::NotStringOrObject),
        }
    }

    /// The JSON form of the specification: its primary model's name when
    /// it has no fallback, else `{"primary": .., "fallback": [..]}`.
    pub fn to_json(&self) -> (r: JsonValue)
        ensures
            encodes(r, self.primary@, texts(self.fallback@)),
    {
        if self.fallback.len() == 0 {
            return JsonValue::String(self.primary.clone());
        }
        let mut xs: Vec<JsonValue> = Vec::new();
        let mut i: usize = 0;
        while i < self.fallback.len()
            invariant
                i <= self.fallback@.len(),
                strings_of(xs@) == Some(texts(self.fallback@.subrange(0, i as int))),
            decreases self.fallback.len() - i,
        {
            let ghost before = xs@;
            xs.push(JsonValue::String(self.fallback[i].clone()));
            proof {
                assert(xs@.drop_last() =~= before);
                assert(texts(self.fallback@.subrange(0, i + 1)) =~= texts(
                    self.fallback@.subrange(0, i as int),
                ).push(self.fallback@[i as int]@));
            }
            i = i + 1;
        }
        proof {
            assert(self.fallback@.subrange(0, self.fallback@.len() as int) =~= self.fallback@);
            reveal_strlit("primary");
            reveal_strlit("fallback");
        }
        let mut ms: Vec<(String, JsonValue)> = Vec::new();
        ms.push((owned("primary"), JsonValue::String(self.primary.clone())));
        ms.push((owned("fallback"), JsonValue::Array(xs)));
        JsonValue::Object(ms)
    }
}

/// Law: a model specification read back from its JSON form is the
/// specification that was written.
pub proof fn law_model_spec_json_round_trip(v: JsonValue, p: Seq<char>, f: Seq<Seq<char>>)
    requires
        encodes(v, p, f),
    ensures
        model_spec_decoding(v) == Ok::<(Seq<char>, Seq<Seq<char>>), ModelSpecError>((p, f)),
{
    reveal_strlit("primary");
    reveal_strlit("fallback");
    if f.len() > 0 {
        let ms = v->Object_0@;
        assert("primary"@ != "fallback"@) by {
            assert("primary"@[0] != "fallback"@[0]);
        }
        let rest1 = ms.drop_first();
        let rest2 = rest1.drop_first();
        assert(rest2.len() == 0);
        assert(rest1[0] == ms[1]);
        assert(decode_fields(rest2, Some(p), Some(f)) == Ok::<
            (Option<Seq<char>>, Option<Seq<Seq<char>>>),
            ModelSpecError,
        >((Some(p), Some(f))));
        assert(decode_fields(rest1, Some(p), None) == decode_fields(rest2, Some(p), Some(f)));
        assert(decode_fields(ms, None, None) == decode_fields(rest1, Some(p), None));
    } else {
        assert(f =~= Seq::<Seq<char>>::empty());
    }
}

} // verus!
