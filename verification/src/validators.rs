//! Validators of the hot-reloaded configuration sections.
//!
//! Each validator checks the structure and the lightweight business rules
//! (field presence, range, format) of a parsed section. The outcome of
//! each one is stated exactly by a spec function of this module: `Ok(())`
//! or the message of the first failing check.
//!
//! Two checks ask whether a path exists on disk (`credentialPath` of a
//! model provider, `installPath` of an installed plugin). The validators
//! take the list of paths known to exist; [`referenced_paths`] lists the
//! paths a section mentions, so that the caller can look them up.

use vstd::prelude::*;

use crate::assoc::assoc_has;
use crate::section::ConfigSection;
use crate::validate_memory::{memory_section_check, validate_memory};
use crate::checks::{
    array_check, cat2, cat3, cat4, cat5, cat_index, ensure_array, ensure_object, first_error, lemma_first_error_ok,
    non_negative_number, object_check, optional_string_check, outcome, require_non_empty,
    required_string_check, then, validate_optional_non_empty_string,
};
use crate::json::{
    is_number, is_object, json_as_u64, json_get, kind_label_spec, number_as_u64, number_negative,
    sign_bit, JsonNumber, JsonValue,
};
use crate::text::{
    decimal, has_str, owned, push_decimal, push_str, starts_with_seq, str_starts_with,
    vec_has_str,
};

verus! {

// ── models ───────────────────────────────────────────────────────────────

/// One entry of a provider's `models` list.
pub open spec fn model_entry_check(pid: Seq<char>, m: JsonValue) -> Result<(), Seq<char>> {
    if !is_object(m) {
        Err("models.providers."@ + pid + ".models[] must be objects"@)
    } else {
        match json_get(m, "id"@) {
            Some(JsonValue::String(s)) => if s@.len() == 0 {
                Err("models.providers."@ + pid + ".models[].id cannot be empty"@)
            } else {
                Ok(())
            },
            None => Err("models.providers."@ + pid + ".models[].id is required"@),
            Some(_) => Ok(()),
        }
    }
}

/// The check of the model entries of provider `pid`.
pub open spec fn model_checker(pid: Seq<char>) -> spec_fn(int, JsonValue) -> Result<(), Seq<char>> {
    |i: int, m: JsonValue| model_entry_check(pid, m)
}

/// A present string `baseUrl` must be empty or start with `http://` or `https://`.
pub open spec fn base_url_check(pid: Seq<char>, p: JsonValue) -> Result<(), Seq<char>> {
    match json_get(p, "baseUrl"@) {
        Some(JsonValue::String(u)) => if u@.len() > 0 && !starts_with_seq(u@, "http://"@)
            && !starts_with_seq(u@, "https://"@) {
            Err("models.providers."@ + pid + ".baseUrl must start with http:// or https://"@)
        } else {
            Ok(())
        },
        _ => Ok(()),
    }
}

/// Law: a provider's `baseUrl` that is empty or begins with `http://` or
/// `https://` never fails the models validation: the provider is then
/// judged by its credential path and model entries alone.
pub proof fn law_http_base_url_accepted(pid: Seq<char>, p: JsonValue, existing: Seq<String>, u: Seq<char>)
    requires
        json_get(p, "baseUrl"@) matches Some(JsonValue::String(s)) && s@ == u,
        u.len() == 0 || (u.len() >= 7 && u.subrange(0, 7) == "http://"@) || (u.len() >= 8
            && u.subrange(0, 8) == "https://"@),
    ensures
        base_url_check(pid, p) is Ok,
        is_object(p) ==> provider_check(pid, p, existing) == then(
            credential_path_check(pid, p, existing),
            provider_models_check(pid, p),
        ),
{
    reveal_strlit("http://");
    reveal_strlit("https://");
    if u.len() >= 7 && u.subrange(0, 7) == "http://"@ {
        assert(starts_with_seq(u, "http://"@));
    }
    if u.len() >= 8 && u.subrange(0, 8) == "https://"@ {
        assert(starts_with_seq(u, "https://"@));
    }
}

/// Law: a `baseUrl` string that is not empty and begins with neither
/// `http://` nor `https://` fails the check.
pub proof fn law_other_base_url_rejected(pid: Seq<char>, p: JsonValue, u: Seq<char>)
    requires
        json_get(p, "baseUrl"@) matches Some(JsonValue::String(s)) && s@ == u,
        u.len() > 0,
        !(u.len() >= 7 && u.subrange(0, 7) == "http://"@),
        !(u.len() >= 8 && u.subrange(0, 8) == "https://"@),
    ensures
        base_url_check(pid, p) is Err,
{
    reveal_strlit("http://");
    reveal_strlit("https://");
}

/// A present `credentialPath` must be `null` or a non-empty path that exists.
pub open spec fn credential_path_check(pid: Seq<char>, p: JsonValue, existing: Seq<String>) -> Result<
    (),
    Seq<char>,
> {
    match json_get(p, "credentialPath"@) {
        Some(JsonValue::String(s)) => if s@.len() == 0 {
            Err("models.providers."@ + pid + ".credentialPath cannot be empty"@)
        } else if !has_str(existing, s@) {
            Err(
                "models.providers."@ + pid + ".credentialPath '"@ + s@ + "' does not exist"@,
            )
        } else {
            Ok(())
        },
        Some(JsonValue::Null) => Ok(()),
        Some(_) => Err("models.providers."@ + pid + ".credentialPath must be a string"@),
        None => Ok(()),
    }
}

/// The model entries of provider `pid`, when `models` is an array.
pub open spec fn provider_models_check(pid: Seq<char>, p: JsonValue) -> Result<(), Seq<char>> {
    match json_get(p, "models"@) {
        Some(JsonValue::Array(ms)) => first_error(ms@, model_checker(pid), 0),
        _ => Ok(()),
    }
}

/// One provider `pid` of the models section.
pub open spec fn provider_check(pid: Seq<char>, p: JsonValue, existing: Seq<String>) -> Result<
    (),
    Seq<char>,
> {
    if !is_object(p) {
        Err("models.providers."@ + pid + " must be a JSON object"@)
    } else {
        then(
            base_url_check(pid, p),
            then(credential_path_check(pid, p, existing), provider_models_check(pid, p)),
        )
    }
}

/// The check of the provider entries.
pub open spec fn provider_checker(existing: Seq<String>) -> spec_fn(int, (String, JsonValue)) -> Result<
    (),
    Seq<char>,
> {
    |i: int, e: (String, JsonValue)|
        if e.0@.len() == 0 {
            Err("models provider ID cannot be empty"@)
        } else {
            provider_check(e.0@, e.1, existing)
        }
}

/// The outcome of validating a models section.
pub open spec fn models_section_check(v: JsonValue, existing: Seq<String>) -> Result<(), Seq<char>> {
    then(
        object_check(v, "models"@),
        then(
            match json_get(v, "models"@) {
                Some(a) => array_check(a, "models.models"@),
                None => Ok(()),
            },
            match json_get(v, "providers"@) {
                Some(JsonValue::Object(es)) => first_error(es@, provider_checker(existing), 0),
                _ => Ok(()),
            },
        ),
    )
}

/// Whether a base URL is empty or begins with `http://` or `https://`.
pub open spec fn web_base_url(u: Seq<char>) -> bool {
    ||| u.len() == 0
    ||| (u.len() >= 7 && u.subrange(0, 7) == "http://"@)
    ||| (u.len() >= 8 && u.subrange(0, 8) == "https://"@)
}

/// Whether provider `p` meets the rules of the models section: an object
/// whose `baseUrl` string is a web base URL, whose `credentialPath` is
/// `null` or a non-empty path among `existing`, and whose `models` array,
/// when it is one, holds objects that each have an `id`, not empty when it
/// is a string.
pub open spec fn provider_acceptable(p: JsonValue, existing: Seq<String>) -> bool {
    &&& is_object(p)
    &&& (json_get(p, "baseUrl"@) matches Some(JsonValue::String(u)) ==> web_base_url(u@))
    &&& match json_get(p, "credentialPath"@) {
        Some(JsonValue::String(c)) => c@.len() > 0 && has_str(existing, c@),
        Some(JsonValue::Null) => true,
        Some(_) => false,
        None => true,
    }
    &&& (json_get(p, "models"@) matches Some(JsonValue::Array(ms)) ==> forall|k: int|
        0 <= k < ms@.len() ==> is_object(#[trigger] ms@[k]) && json_get(ms@[k], "id"@) is Some && (
        json_get(ms@[k], "id"@) matches Some(JsonValue::String(i)) ==> i@.len() > 0))
}

/// Law: a provider passes the models validation exactly when it meets the
/// rules of [`provider_acceptable`].
pub proof fn law_provider_accepted_iff(pid: Seq<char>, p: JsonValue, existing: Seq<String>)
    ensures
        provider_check(pid, p, existing) is Ok <==> provider_acceptable(p, existing),
{
    reveal_strlit("http://");
    reveal_strlit("https://");
    if let Some(JsonValue::Array(ms)) = json_get(p, "models"@) {
        lemma_first_error_ok(ms@, model_checker(pid), 0);
        assert forall|k: int| 0 <= k < ms@.len() implies (model_checker(pid)(k, #[trigger] ms@[k]) is Ok
            <==> (is_object(ms@[k]) && json_get(ms@[k], "id"@) is Some && (json_get(ms@[k], "id"@) matches Some(
            JsonValue::String(i)) ==> i@.len() > 0))) by {}
    }
}

/// Law: a models section passes validation exactly when it is an object,
/// its `models` member (when present) is an array, and, when `providers`
/// is an object, every provider has a non-empty id and is acceptable.
pub proof fn law_models_accepted_iff(v: JsonValue, existing: Seq<String>)
    ensures
        models_section_check(v, existing) is Ok <==> {
            &&& is_object(v)
            &&& (json_get(v, "models"@) matches Some(a) ==> a is Array)
            &&& (json_get(v, "providers"@) matches Some(JsonValue::Object(es)) ==> forall|k: int|
                0 <= k < es@.len() ==> (#[trigger] es@[k]).0@.len() > 0 && provider_acceptable(
                    es@[k].1,
                    existing,
                ))
        },
{
    if let Some(JsonValue::Object(es)) = json_get(v, "providers"@) {
        lemma_first_error_ok(es@, provider_checker(existing), 0);
        assert forall|k: int| 0 <= k < es@.len() implies (provider_checker(existing)(k, #[trigger] es@[k]) is Ok
            <==> (es@[k].0@.len() > 0 && provider_acceptable(es@[k].1, existing))) by {
            law_provider_accepted_iff(es@[k].0@, es@[k].1, existing);
        }
    }
}

fn validate_model(provider_id: &str, model: &JsonValue) -> (r: Result<(), String>)
    ensures
        outcome(r, model_entry_check(provider_id@, *model)),
{
    if !model.is_object() {
        return Err(cat3("models.providers.", provider_id, ".models[] must be objects"));
    }
    match model.get("id") {
        Some(JsonValue::String(id)) => {
            if id.as_str().is_empty() {
                return Err(cat3("models.providers.", provider_id, ".models[].id cannot be empty"));
            }
        },
        None => {
            return Err(cat3("models.providers.", provider_id, ".models[].id is required"));
        },
        _ => {},
    }
    Ok(())
}

fn validate_provider_models(provider_id: &str, provider: &JsonValue) -> (r: Result<(), String>)
    ensures
        outcome(r, provider_models_check(provider_id@, *provider)),
{
    if let Some(JsonValue::Array(models)) = provider.get("models") {
        let ghost f = model_checker(provider_id@);
        let mut i: usize = 0;
        while i < models.len()
            invariant
                i <= models@.len(),
                f == model_checker(provider_id@),
                provider_models_check(provider_id@, *provider) == first_error(models@, f, 0),
                first_error(models@, f, 0) == first_error(models@, f, i as nat),
            decreases models.len() - i,
        {
            let r = validate_model(provider_id, &models[i]);
            assert(f(i as int, models@[i as int]) == model_entry_check(provider_id@, models@[i as int]));
            if r.is_err() {
                return r;
            }
            i = i + 1;
        }
    }
    Ok(())
}

fn validate_credential_path(provider_id: &str, provider: &JsonValue, existing: &Vec<String>) -> (r:
    Result<(), String>)
    ensures
        outcome(r, credential_path_check(provider_id@, *provider, existing@)),
{
    match provider.get("credentialPath") {
        Some(JsonValue::String(path)) => {
            if path.as_str().is_empty() {
                return Err(cat3("models.providers.", provider_id, ".credentialPath cannot be empty"));
            }
            if !vec_has_str(existing, path.as_str()) {
                return Err(
                    cat5(
                        "models.providers.",
                        provider_id,
                        ".credentialPath '",
                        path.as_str(),
                        "' does not exist",
                    ),
                );
            }
            Ok(())
        },
        Some(JsonValue::Null) => Ok(()),
        Some(_) => Err(cat3("models.providers.", provider_id, ".credentialPath must be a string")),
        None => Ok(()),
    }
}

fn validate_provider(provider_id: &str, provider: &JsonValue, existing: &Vec<String>) -> (r:
    Result<(), String>)
    ensures
        outcome(r, provider_check(provider_id@, *provider, existing@)),
{
    if !provider.is_object() {
        return Err(cat3("models.providers.", provider_id, " must be a JSON object"));
    }
    if let Some(JsonValue::String(url)) = provider.get("baseUrl") {
        if !url.as_str().is_empty() && !str_starts_with(url.as_str(), "http://")
            && !str_starts_with(url.as_str(), "https://") {
            return Err(
                cat3(
                    "models.providers.",
                    provider_id,
                    ".baseUrl must start with http:// or https://",
                ),
            );
        }
    }
    let r = validate_credential_path(provider_id, provider, existing);
    if r.is_err() {
        return r;
    }
    validate_provider_models(provider_id, provider)
}

/// Validate the **models** section; `existing` lists the paths that exist.
pub fn validate_models(value: &JsonValue, existing: &Vec<String>) -> (r: Result<(), String>)
    ensures
        outcome(r, models_section_check(*value, existing@)),
{
    let r = ensure_object(value, "models");
    if r.is_err() {
        return r;
    }
    if let Some(arr) = value.get("models") {
        let r = ensure_array(arr, "models.models");
        if r.is_err() {
            return r;
        }
    }
    if let Some(JsonValue::Object(providers)) = value.get("providers") {
        let ghost f = provider_checker(existing@);
        let mut i: usize = 0;
        while i < providers.len()
            invariant
                i <= providers@.len(),
                f == provider_checker(existing@),
                models_section_check(*value, existing@) == first_error(providers@, f, 0),
                first_error(providers@, f, 0) == first_error(providers@, f, i as nat),
            decreases providers.len() - i,
        {
            let id = providers[i].0.as_str();
            let r = if id.is_empty() {
                Err(owned("models provider ID cannot be empty"))
            } else {
                validate_provider(id, &providers[i].1, existing)
            };
            assert(outcome(r, f(i as int, providers@[i as int])));
            if r.is_err() {
                return r;
            }
            i = i + 1;
        }
    }
    Ok(())
}

// ── channels ─────────────────────────────────────────────────────────────

/// The channel types a configuration may name.
pub open spec fn allowed_channel(s: Seq<char>) -> bool {
    ||| s == "feishu"@
    ||| s == "discord"@
    ||| s == "telegram"@
    ||| s == "slack"@
    ||| s == "whatsapp"@
    ||| s == "signal"@
    ||| s == "matrix"@
    ||| s == "msteams"@
    ||| s == "mattermost"@
    ||| s == "nostr"@
}

/// The allowed channel types, listed for messages.
pub const ALLOWED_CHANNEL_TYPES_TEXT: &'static str =
    "feishu, discord, telegram, slack, whatsapp, signal, matrix, msteams, mattermost, nostr";

/// Whether `s` is an allowed channel type.
pub fn is_allowed_channel_type(s: &str) -> (r: bool)
    ensures
        r == allowed_channel(s@),
{
    crate::text::str_eq(s, "feishu") || crate::text::str_eq(s, "discord")
        || crate::text::str_eq(s, "telegram") || crate::text::str_eq(s, "slack")
        || crate::text::str_eq(s, "whatsapp") || crate::text::str_eq(s, "signal")
        || crate::text::str_eq(s, "matrix") || crate::text::str_eq(s, "msteams")
        || crate::text::str_eq(s, "mattermost") || crate::text::str_eq(s, "nostr")
}

/// The check of the keys of the `channels` object.
pub open spec fn channel_key_checker() -> spec_fn(int, (String, JsonValue)) -> Result<
    (),
    Seq<char>,
> {
    |i: int, e: (String, JsonValue)|
        if e.0@.len() == 0 {
            Err("channels type cannot be empty"@)
        } else if !allowed_channel(e.0@) {
            Err("unknown channel type '"@ + e.0@ + "'. Allowed: "@ + ALLOWED_CHANNEL_TYPES_TEXT@)
        } else {
            Ok(())
        }
}

/// A present `channels` member must be an object keyed by allowed channel types.
pub open spec fn channel_types_check(v: JsonValue) -> Result<(), Seq<char>> {
    match json_get(v, "channels"@) {
        Some(c) => if !is_object(c) {
            Err("channels.channels must be a JSON object, got "@ + kind_label_spec(c))
        } else {
            match c {
                JsonValue::Object(es) => first_error(es@, channel_key_checker(), 0),
                _ => Ok(()),
            }
        },
        None => Ok(()),
    }
}

/// The defined channel types: the entries of the `channels` object.
pub open spec fn defined_channels(v: JsonValue) -> Seq<(String, JsonValue)> {
    match json_get(v, "channels"@) {
        Some(JsonValue::Object(es)) => es@,
        _ => Seq::empty(),
    }
}

/// The keys of `es`, separated by `", "`.
pub open spec fn join_keys(es: Seq<(String, JsonValue)>) -> Seq<char>
    decreases es.len(),
{
    if es.len() == 0 {
        Seq::empty()
    } else if es.len() == 1 {
        es[0].0@
    } else {
        join_keys(es.drop_last()) + ", "@ + es.last().0@
    }
}

/// The defined channel types as listed in messages (`none` when there is none).
pub open spec fn defined_text(es: Seq<(String, JsonValue)>) -> Seq<char> {
    if es.len() == 0 {
        "none"@
    } else {
        join_keys(es)
    }
}

/// The `match.channel` of binding `i` must name a defined channel type.
pub open spec fn channel_ref_check(i: int, m: JsonValue, types: Seq<(String, JsonValue)>) -> Result<
    (),
    Seq<char>,
> {
    match json_get(m, "channel"@) {
        Some(JsonValue::String(c)) => if c@.len() > 0 && !assoc_has(types, c@) {
            Err(
                "channels.bindings["@ + decimal(i as nat) + "].match.channel '"@ + c@
                    + "' references an undefined channel type. Defined types: "@ + defined_text(
                    types,
                ),
            )
        } else {
            Ok(())
        },
        _ => Ok(()),
    }
}

/// Binding `i` of the channels section.
pub open spec fn binding_check(i: int, e: JsonValue, types: Seq<(String, JsonValue)>) -> Result<
    (),
    Seq<char>,
> {
    if !is_object(e) {
        Err("channels.bindings["@ + decimal(i as nat) + "] must be a JSON object"@)
    } else {
        then(
            required_string_check(e, "agentId"@, "channels.bindings["@ + decimal(i as nat) + "].agentId"@),
            match json_get(e, "match"@) {
                Some(m) => if is_object(m) {
                    then(
                        required_string_check(
                            m,
                            "channel"@,
                            "channels.bindings["@ + decimal(i as nat) + "].match.channel"@,
                        ),
                        then(
                            channel_ref_check(i, m, types),
                            required_string_check(
                                m,
                                "accountId"@,
                                "channels.bindings["@ + decimal(i as nat) + "].match.accountId"@,
                            ),
                        ),
                    )
                } else {
                    Err("channels.bindings["@ + decimal(i as nat) + "].match must be a JSON object"@)
                },
                None => Err("channels.bindings["@ + decimal(i as nat) + "].match is required"@),
            },
        )
    }
}

/// The check of the binding entries.
pub open spec fn binding_checker(types: Seq<(String, JsonValue)>) -> spec_fn(int, JsonValue) -> Result<
    (),
    Seq<char>,
> {
    |i: int, e: JsonValue| binding_check(i, e, types)
}

/// A present `bindings` member must be an array of valid bindings.
pub open spec fn bindings_check(v: JsonValue) -> Result<(), Seq<char>> {
    match json_get(v, "bindings"@) {
        Some(b) => then(
            array_check(b, "channels.bindings"@),
            match b {
                JsonValue::Array(xs) => first_error(xs@, binding_checker(defined_channels(v)), 0),
                _ => Ok(()),
            },
        ),
        None => Ok(()),
    }
}

/// The outcome of validating a channels section.
pub open spec fn channels_section_check(v: JsonValue) -> Result<(), Seq<char>> {
    then(object_check(v, "channels"@), then(channel_types_check(v), bindings_check(v)))
}

fn validate_channel_types(value: &JsonValue) -> (r: Result<(), String>)
    ensures
        outcome(r, channel_types_check(*value)),
{
    if let Some(channels) = value.get("channels") {
        if !channels.is_object() {
            return Err(
                cat2("channels.channels must be a JSON object, got ", channels.kind_label()),
            );
        }
        if let JsonValue::Object(es) = channels {
            let ghost f = channel_key_checker();
            let mut i: usize = 0;
            while i < es.len()
                invariant
                    i <= es@.len(),
                    f == channel_key_checker(),
                    channel_types_check(*value) == first_error(es@, f, 0),
                    first_error(es@, f, 0) == first_error(es@, f, i as nat),
                decreases es.len() - i,
            {
                let ct = es[i].0.as_str();
                if ct.is_empty() {
                    return Err(owned("channels type cannot be empty"));
                }
                if !is_allowed_channel_type(ct) {
                    return Err(cat4("unknown channel type '", ct, "'. Allowed: ", ALLOWED_CHANNEL_TYPES_TEXT));
                }
                i = i + 1;
            }
        }
    }
    Ok(())
}

/// The keys of `es` separated by `", "`, or `none` when there is none.
fn defined_types_text(es: &Vec<(String, JsonValue)>) -> (r: String)
    ensures
        r@ == defined_text(es@),
{
    if es.len() == 0 {
        return owned("none");
    }
    let mut r = es[0].0.clone();
    let mut i: usize = 1;
    assert(es@.subrange(0, 1).drop_last() =~= Seq::<(String, JsonValue)>::empty());
    while i < es.len()
        invariant
            1 <= i <= es@.len(),
            r@ == join_keys(es@.subrange(0, i as int)),
        decreases es.len() - i,
    {
        push_str(&mut r, ", ");
        push_str(&mut r, es[i].0.as_str());
        assert(es@.subrange(0, i + 1).drop_last() =~= es@.subrange(0, i as int));
        i = i + 1;
    }
    assert(es@.subrange(0, es@.len() as int) =~= es@);
    r
}

fn validate_channel_ref(index: usize, m: &JsonValue, types: &Vec<(String, JsonValue)>) -> (r: Result<
    (),
    String,
>)
    ensures
        outcome(r, channel_ref_check(index as int, *m, types@)),
{
    if let Some(JsonValue::String(c)) = m.get("channel") {
        if !c.as_str().is_empty() && crate::assoc::assoc_index(types, c.as_str()).is_none() {
            let mut msg = cat_index("channels.bindings[", index, "].match.channel '");
            push_str(&mut msg, c.as_str());
            push_str(&mut msg, "' references an undefined channel type. Defined types: ");
            let defined = defined_types_text(types);
            push_str(&mut msg, defined.as_str());
            return Err(msg);
        }
    }
    Ok(())
}

fn validate_binding_entry(index: usize, entry: &JsonValue, types: &Vec<(String, JsonValue)>) -> (r:
    Result<(), String>)
    ensures
        outcome(r, binding_check(index as int, *entry, types@)),
{
    if !entry.is_object() {
        return Err(cat_index("channels.bindings[", index, "] must be a JSON object"));
    }
    let path = cat_index("channels.bindings[", index, "].agentId");
    let r = require_non_empty(entry, "agentId", path.as_str());
    if r.is_err() {
        return r;
    }
    match entry.get("match") {
        Some(m) => {
            if !m.is_object() {
                return Err(cat_index("channels.bindings[", index, "].match must be a JSON object"));
            }
            let path = cat_index("channels.bindings[", index, "].match.channel");
            let r = require_non_empty(m, "channel", path.as_str());
            if r.is_err() {
                return r;
            }
            let r = validate_channel_ref(index, m, types);
            if r.is_err() {
                return r;
            }
            let path = cat_index("channels.bindings[", index, "].match.accountId");
            require_non_empty(m, "accountId", path.as_str())
        },
        None => Err(cat_index("channels.bindings[", index, "].match is required")),
    }
}

/// Validate the **channels** section.
pub fn validate_channels(value: &JsonValue) -> (r: Result<(), String>)
    ensures
        outcome(r, channels_section_check(*value)),
{
    let r = ensure_object(value, "channels");
    if r.is_err() {
        return r;
    }
    let r = validate_channel_types(value);
    if r.is_err() {
        return r;
    }
    let empty: Vec<(String, JsonValue)> = Vec::new();
    let types: &Vec<(String, JsonValue)> = match value.get("channels") {
        Some(JsonValue::Object(es)) => es,
        _ => &empty,
    };
    assert(types@ == defined_channels(*value));
    if let Some(bindings) = value.get("bindings") {
        let r = ensure_array(bindings, "channels.bindings");
        if r.is_err() {
            return r;
        }
        if let JsonValue::Array(xs) = bindings {
            let ghost f = binding_checker(types@);
            let mut i: usize = 0;
            while i < xs.len()
                invariant
                    i <= xs@.len(),
                    f == binding_checker(types@),
                    channels_section_check(*value) == first_error(xs@, f, 0),
                    first_error(xs@, f, 0) == first_error(xs@, f, i as nat),
                decreases xs.len() - i,
            {
                let r = validate_binding_entry(i, &xs[i], types);
                assert(f(i as int, xs@[i as int]) == binding_check(i as int, xs@[i as int], types@));
                if r.is_err() {
                    return r;
                }
                i = i + 1;
            }
        }
    }
    Ok(())
}

// ── gateway ──────────────────────────────────────────────────────────────

/// A present `port` must be an unsigned integer in `1..=65535`.
pub open spec fn port_check(v: JsonValue) -> Result<(), Seq<char>> {
    match json_get(v, "port"@) {
        Some(p) => match json_as_u64(p) {
            Some(n) => if n == 0 || n > 65535 {
                Err(
                    "gateway.port must be in range 1-65535, got "@ + decimal(n as nat)
                        + " (port 0 is reserved by the OS)"@,
                )
            } else {
                Ok(())
            },
            None => Err("gateway.port must be a non-negative integer"@),
        },
        None => Ok(()),
    }
}

/// A present `timeout` must be a number that is not below zero.
pub open spec fn gateway_timeout_check(v: JsonValue) -> Result<(), Seq<char>> {
    match json_get(v, "timeout"@) {
        Some(JsonValue::Number(n)) => if number_negative(n) {
            Err("gateway.timeout must be non-negative"@)
        } else {
            Ok(())
        },
        Some(_) => Err("gateway.timeout must be a number"@),
        None => Ok(()),
    }
}

/// The outcome of validating a gateway section.
pub open spec fn gateway_section_check(v: JsonValue) -> Result<(), Seq<char>> {
    then(object_check(v, "gateway"@), then(port_check(v), gateway_timeout_check(v)))
}

/// Validate the **gateway** section.
pub fn validate_gateway(value: &JsonValue) -> (r: Result<(), String>)
    ensures
        outcome(r, gateway_section_check(*value)),
{
    let r = ensure_object(value, "gateway");
    if r.is_err() {
        return r;
    }
    if let Some(port) = value.get("port") {
        match port.as_u64() {
            Some(p) => {
                if p == 0 || p > 65535 {
                    let mut msg = owned("gateway.port must be in range 1-65535, got ");
                    push_decimal(&mut msg, p);
                    push_str(&mut msg, " (port 0 is reserved by the OS)");
                    return Err(msg);
                }
            },
            None => {
                return Err(owned("gateway.port must be a non-negative integer"));
            },
        }
    }
    match value.get("timeout") {
        Some(JsonValue::Number(n)) => {
            if n.is_negative() {
                return Err(owned("gateway.timeout must be non-negative"));
            }
        },
        Some(_) => {
            return Err(owned("gateway.timeout must be a number"));
        },
        None => {},
    }
    Ok(())
}

// ── plugins ──────────────────────────────────────────────────────────────

/// The check of the plugin names under `entries`.
pub open spec fn plugin_entry_checker() -> spec_fn(int, (String, JsonValue)) -> Result<
    (),
    Seq<char>,
> {
    |i: int, e: (String, JsonValue)|
        if e.0@.len() == 0 {
            Err("plugins.entries plugin name cannot be empty"@)
        } else {
            Ok(())
        }
}

/// The check of the names under `allow`.
pub open spec fn plugin_allow_checker() -> spec_fn(int, JsonValue) -> Result<(), Seq<char>> {
    |i: int, x: JsonValue|
        match x {
            JsonValue::String(s) => if s@.len() == 0 {
                Err("plugins.allow["@ + decimal(i as nat) + "] plugin name cannot be empty"@)
            } else {
                Ok(())
            },
            _ => Err("plugins.allow["@ + decimal(i as nat) + "] must be a string"@),
        }
}

/// One installed plugin `name`: an object whose non-empty `installPath` exists.
pub open spec fn install_check(name: Seq<char>, info: JsonValue, existing: Seq<String>) -> Result<
    (),
    Seq<char>,
> {
    if !is_object(info) {
        Err("plugins.installs."@ + name + " must be a JSON object"@)
    } else {
        match json_get(info, "installPath"@) {
            Some(JsonValue::String(p)) => if p@.len() > 0 && !has_str(existing, p@) {
                Err("plugins.installs."@ + name + ".installPath '"@ + p@ + "' does not exist"@)
            } else {
                Ok(())
            },
            _ => Ok(()),
        }
    }
}

/// The check of the plugins under `installs`.
pub open spec fn install_checker(existing: Seq<String>) -> spec_fn(int, (String, JsonValue)) -> Result<
    (),
    Seq<char>,
> {
    |i: int, e: (String, JsonValue)|
        if e.0@.len() == 0 {
            Err("plugins.installs plugin name cannot be empty"@)
        } else {
            install_check(e.0@, e.1, existing)
        }
}

/// The outcome of validating a plugins section.
pub open spec fn plugins_section_check(v: JsonValue, existing: Seq<String>) -> Result<
    (),
    Seq<char>,
> {
    then(
        object_check(v, "plugins"@),
        then(
            match json_get(v, "entries"@) {
                Some(JsonValue::Object(es)) => first_error(es@, plugin_entry_checker(), 0),
                _ => Ok(()),
            },
            then(
                match json_get(v, "allow"@) {
                    Some(JsonValue::Array(xs)) => first_error(xs@, plugin_allow_checker(), 0),
                    _ => Ok(()),
                },
                match json_get(v, "installs"@) {
                    Some(JsonValue::Object(es)) => first_error(es@, install_checker(existing), 0),
                    _ => Ok(()),
                },
            ),
        ),
    )
}

fn validate_plugin_entries(value: &JsonValue) -> (r: Result<(), String>)
    ensures
        outcome(
            r,
            match json_get(*value, "entries"@) {
                Some(JsonValue::Object(es)) => first_error(es@, plugin_entry_checker(), 0),
                _ => Ok(()),
            },
        ),
{
    if let Some(JsonValue::Object(es)) = value.get("entries") {
        let ghost f = plugin_entry_checker();
        let mut i: usize = 0;
        while i < es.len()
            invariant
                i <= es@.len(),
                f == plugin_entry_checker(),
                json_get(*value, "entries"@) == Some(JsonValue::Object(*es)),
                first_error(es@, f, 0) == first_error(es@, f, i as nat),
            decreases es.len() - i,
        {
            if es[i].0.as_str().is_empty() {
                return Err(owned("plugins.entries plugin name cannot be empty"));
            }
            i = i + 1;
        }
    }
    Ok(())
}

fn validate_plugin_allow(value: &JsonValue) -> (r: Result<(), String>)
    ensures
        outcome(
            r,
            match json_get(*value, "allow"@) {
                Some(JsonValue::Array(xs)) => first_error(xs@, plugin_allow_checker(), 0),
                _ => Ok(()),
            },
        ),
{
    if let Some(JsonValue::Array(xs)) = value.get("allow") {
        let ghost f = plugin_allow_checker();
        let mut i: usize = 0;
        while i < xs.len()
            invariant
                i <= xs@.len(),
                f == plugin_allow_checker(),
                json_get(*value, "allow"@) == Some(JsonValue::Array(*xs)),
                first_error(xs@, f, 0) == first_error(xs@, f, i as nat),
            decreases xs.len() - i,
        {
            match &xs[i] {
                JsonValue::String(s) => {
                    if s.as_str().is_empty() {
                        return Err(cat_index("plugins.allow[", i, "] plugin name cannot be empty"));
                    }
                },
                _ => {
                    return Err(cat_index("plugins.allow[", i, "] must be a string"));
                },
            }
            i = i + 1;
        }
    }
    Ok(())
}

fn validate_plugin_install(name: &str, info: &JsonValue, existing: &Vec<String>) -> (r: Result<
    (),
    String,
>)
    ensures
        outcome(r, install_check(name@, *info, existing@)),
{
    if !info.is_object() {
        return Err(cat3("plugins.installs.", name, " must be a JSON object"));
    }
    if let Some(JsonValue::String(p)) = info.get("installPath") {
        if !p.as_str().is_empty() && !vec_has_str(existing, p.as_str()) {
            return Err(cat5("plugins.installs.", name, ".installPath '", p.as_str(), "' does not exist"));
        }
    }
    Ok(())
}

fn validate_plugin_installs(value: &JsonValue, existing: &Vec<String>) -> (r: Result<(), String>)
    ensures
        outcome(
            r,
            match json_get(*value, "installs"@) {
                Some(JsonValue::Object(es)) => first_error(es@, install_checker(existing@), 0),
                _ => Ok(()),
            },
        ),
{
    if let Some(JsonValue::Object(es)) = value.get("installs") {
        let ghost f = install_checker(existing@);
        let mut i: usize = 0;
        while i < es.len()
            invariant
                i <= es@.len(),
                f == install_checker(existing@),
                json_get(*value, "installs"@) == Some(JsonValue::Object(*es)),
                first_error(es@, f, 0) == first_error(es@, f, i as nat),
            decreases es.len() - i,
        {
            let name = es[i].0.as_str();
            let r = if name.is_empty() {
                Err(owned("plugins.installs plugin name cannot be empty"))
            } else {
                validate_plugin_install(name, &es[i].1, existing)
            };
            assert(outcome(r, f(i as int, es@[i as int])));
            if r.is_err() {
                return r;
            }
            i = i + 1;
        }
    }
    Ok(())
}

/// Validate the **plugins** section; `existing` lists the paths that exist.
pub fn validate_plugins(value: &JsonValue, existing: &Vec<String>) -> (r: Result<(), String>)
    ensures
        outcome(r, plugins_section_check(*value, existing@)),
{
    let r = ensure_object(value, "plugins");
    if r.is_err() {
        return r;
    }
    let r = validate_plugin_entries(value);
    if r.is_err() {
        return r;
    }
    let r = validate_plugin_allow(value);
    if r.is_err() {
        return r;
    }
    validate_plugin_installs(value, existing)
}

// ── system ───────────────────────────────────────────────────────────────

/// The outcome of validating a system section.
pub open spec fn system_section_check(v: JsonValue) -> Result<(), Seq<char>> {
    system_check_given(v, cron_accepts(cron_schedule_text(v)))
}

/// The text of `cron.schedule`, empty when there is none.
pub open spec fn cron_schedule_text(v: JsonValue) -> Seq<char> {
    match json_get(v, "cron"@) {
        Some(c) => match json_get(c, "schedule"@) {
            Some(JsonValue::String(s)) => s@,
            _ => Seq::empty(),
        },
        None => Seq::empty(),
    }
}

/// The outcome of validating a system section, given whether its
/// non-empty `cron.schedule` parses as a cron schedule.
pub open spec fn system_check_given(v: JsonValue, schedule_parses: bool) -> Result<(), Seq<char>> {
    then(
        object_check(v, "system"@),
        then(
            match json_get(v, "version"@) {
                Some(JsonValue::String(s)) => if s@.len() == 0 {
                    Err("system.version cannot be an empty string"@)
                } else {
                    Ok(())
                },
                Some(_) => Err("system.version must be a string"@),
                None => Ok(()),
            },
            match json_get(v, "cron"@) {
                Some(c) => if is_object(c) {
                    match json_get(c, "schedule"@) {
                        Some(JsonValue::String(s)) => if s@.len() == 0 || schedule_parses {
                            Ok(())
                        } else {
                            Err("system.cron.schedule must be a valid cron expression"@)
                        },
                        Some(JsonValue::Null) => Ok(()),
                        Some(_) => Err("system.cron.schedule must be a string"@),
                        None => Ok(()),
                    }
                } else {
                    Err("system.cron must be a JSON object, got "@ + kind_label_spec(c))
                },
                None => Ok(()),
            },
        ),
    )
}

/// Whether the `cron` crate parses `s` as a schedule.
pub uninterp spec fn cron_accepts(s: Seq<char>) -> bool;

/// `s.parse::<cron::Schedule>()` succeeds: the `cron` crate accepts `s` as
/// a schedule (six or seven fields, from seconds to an optional year, or a
/// shorthand such as `@daily`). The crate's grammar is named here, not
/// stated; the result depends on `s` alone.
#[verifier::external_body]
fn cron_schedule_parses(s: &str) -> (r: bool)
    ensures
        r == cron_accepts(s@),
{
    s.parse::<cron::Schedule>().is_ok()
}

/// Validate the **system** section, given whether its non-empty
/// `cron.schedule` parses as a cron schedule.
pub fn validate_system_given(value: &JsonValue, schedule_parses: bool) -> (r: Result<(), String>)
    ensures
        outcome(r, system_check_given(*value, schedule_parses)),
{
    let r = ensure_object(value, "system");
    if r.is_err() {
        return r;
    }
    match value.get("version") {
        Some(JsonValue::String(s)) => {
            if s.as_str().is_empty() {
                return Err(owned("system.version cannot be an empty string"));
            }
        },
        Some(_) => {
            return Err(owned("system.version must be a string"));
        },
        None => {},
    }
    if let Some(cron) = value.get("cron") {
        if !cron.is_object() {
            return Err(cat2("system.cron must be a JSON object, got ", cron.kind_label()));
        }
        match cron.get("schedule") {
            Some(JsonValue::String(s)) => {
                if !s.as_str().is_empty() && !schedule_parses {
                    return Err(owned("system.cron.schedule must be a valid cron expression"));
                }
            },
            Some(JsonValue::Null) => {},
            Some(_) => {
                return Err(owned("system.cron.schedule must be a string"));
            },
            None => {},
        }
    }
    Ok(())
}

/// Validate the **system** section: an object whose `version`, if present,
/// is a non-empty string and whose `cron`, if present, is an object with a
/// `schedule` that is null, empty, or a cron schedule.
pub fn validate_system(value: &JsonValue) -> (r: Result<(), String>)
    ensures
        outcome(r, system_section_check(*value)),
{
    let text: &str = match value.get("cron") {
        Some(c) => match c.get("schedule") {
            Some(JsonValue::String(s)) => s.as_str(),
            _ => "",
        },
        None => "",
    };
    proof {
        reveal_strlit("");
        assert(text@ == cron_schedule_text(*value));
    }
    let parses = cron_schedule_parses(text);
    validate_system_given(value, parses)
}

// ── tools ────────────────────────────────────────────────────────────────

/// The outcome of validating a tools section.
pub open spec fn tools_section_check(v: JsonValue) -> Result<(), Seq<char>> {
    then(
        object_check(v, "tools"@),
        match json_get(v, "read"@) {
            Some(read) => match json_get(read, "max_tokens"@) {
                Some(JsonValue::Number(n)) => match number_as_u64(n) {
                    Some(k) => if k == 0 {
                        Err("tools.read.max_tokens must be a positive integer"@)
                    } else {
                        Ok(())
                    },
                    None => Err("tools.read.max_tokens must be a positive integer"@),
                },
                Some(x) => Err("tools.read.max_tokens must be a number, got "@ + kind_label_spec(x)),
                None => Ok(()),
            },
            None => Ok(()),
        },
    )
}

/// Validate the **tools** section.
pub fn validate_tools(value: &JsonValue) -> (r: Result<(), String>)
    ensures
        outcome(r, tools_section_check(*value)),
{
    let r = ensure_object(value, "tools");
    if r.is_err() {
        return r;
    }
    if let Some(read) = value.get("read") {
        match read.get("max_tokens") {
            Some(JsonValue::Number(n)) => {
                match n.as_u64() {
                    Some(k) => {
                        if k == 0 {
                            return Err(owned("tools.read.max_tokens must be a positive integer"));
                        }
                    },
                    None => {
                        return Err(owned("tools.read.max_tokens must be a positive integer"));
                    },
                }
            },
            Some(x) => {
                return Err(cat2("tools.read.max_tokens must be a number, got ", x.kind_label()));
            },
            None => {},
        }
    }
    Ok(())
}

// ── session ──────────────────────────────────────────────────────────────

/// A present minutes member of a role configuration.
pub open spec fn minutes_check(
    cfg: JsonValue,
    field: Seq<char>,
    path: Seq<char>,
    not_number: Seq<char>,
    negative: Seq<char>,
) -> Result<(), Seq<char>> {
    match json_get(cfg, field) {
        Some(JsonValue::Number(n)) => if non_negative_number(n) {
            Ok(())
        } else {
            Err(path + negative)
        },
        Some(_) => Err(path + not_number),
        None => Ok(()),
    }
}

/// One per-role session configuration at `path`.
pub open spec fn role_check(cfg: JsonValue, path: Seq<char>) -> Result<(), Seq<char>> {
    if !is_object(cfg) {
        Err(path + " must be a JSON object"@)
    } else {
        then(
            minutes_check(
                cfg,
                "idleMinutes"@,
                path,
                ".idleMinutes must be a number"@,
                ".idleMinutes must be non-negative"@,
            ),
            minutes_check(
                cfg,
                "purgeAfterMinutes"@,
                path,
                ".purgeAfterMinutes must be a number"@,
                ".purgeAfterMinutes must be non-negative"@,
            ),
        )
    }
}

/// The check of the roles under `defaults`.
pub open spec fn default_role_checker() -> spec_fn(int, (String, JsonValue)) -> Result<
    (),
    Seq<char>,
> {
    |i: int, e: (String, JsonValue)| role_check(e.1, "session.defaults."@ + e.0@)
}

/// The check of the roles of agent `agent_id`.
pub open spec fn agent_role_checker(agent_id: Seq<char>) -> spec_fn(int, (String, JsonValue)) -> Result<
    (),
    Seq<char>,
> {
    |i: int, e: (String, JsonValue)|
        role_check(e.1, "session.agents."@ + agent_id + "."@ + e.0@)
}

/// The check of the agents under `agents`; a non-object agent entry is skipped.
pub open spec fn agent_checker() -> spec_fn(int, (String, JsonValue)) -> Result<(), Seq<char>> {
    |i: int, e: (String, JsonValue)|
        match e.1 {
            JsonValue::Object(rs) => first_error(rs@, agent_role_checker(e.0@), 0),
            _ => Ok(()),
        }
}

/// A present top-level member `field` must be a number not below zero.
pub open spec fn session_field_check(v: JsonValue, field: Seq<char>) -> Result<(), Seq<char>> {
    match json_get(v, field) {
        Some(JsonValue::Number(n)) => if number_negative(n) {
            Err("session."@ + field + " must be non-negative"@)
        } else {
            Ok(())
        },
        Some(_) => Err("session."@ + field + " must be a number"@),
        None => Ok(()),
    }
}

/// The sweeper interval, when present, must be a positive integer.
pub open spec fn sweeper_check(v: JsonValue) -> Result<(), Seq<char>> {
    match json_get(v, "sweeperIntervalSeconds"@) {
        Some(x) => if !is_number(x) || or_zero(json_as_u64(x)) == 0 {
            Err("session.sweeperIntervalSeconds must be a positive number"@)
        } else {
            Ok(())
        },
        None => Ok(()),
    }
}

/// The integer held, or zero.
pub open spec fn or_zero(o: Option<u64>) -> u64 {
    match o {
        Some(n) => n,
        None => 0,
    }
}

/// The `defaults` member: an object of role configurations.
pub open spec fn session_defaults_check(v: JsonValue) -> Result<(), Seq<char>> {
    match json_get(v, "defaults"@) {
        Some(JsonValue::Null) => Err("session.defaults must be a JSON object, got null"@),
        Some(JsonValue::Object(es)) => first_error(es@, default_role_checker(), 0),
        Some(x) => Err("session.defaults must be a JSON object, got "@ + kind_label_spec(x)),
        None => Ok(()),
    }
}

/// The `agents` member: an object of per-agent role configurations.
pub open spec fn session_agents_check(v: JsonValue) -> Result<(), Seq<char>> {
    match json_get(v, "agents"@) {
        Some(JsonValue::Null) => Err("session.agents must be a JSON object, got null"@),
        Some(JsonValue::Object(es)) => first_error(es@, agent_checker(), 0),
        Some(x) => Err("session.agents must be a JSON object, got "@ + kind_label_spec(x)),
        None => Ok(()),
    }
}

// ── session.compact ──────────────────────────────────────────────────────
//
// The compaction settings are floating-point numbers; they are read here
// through their bit patterns. For an `f64` that is not negative and not
// NaN the bit pattern orders as the value does.

/// The bits of `1.0_f64`.
pub const ONE_BITS: u64 = 4607182418800017408;

/// The bits of `0.05_f64`, the default of `autoCompactThresholdPct`.
pub const AUTO_COMPACT_DEFAULT_BITS: u64 = 4587366580439587226;

/// The bits of `0.10_f64`, the default of `warningThresholdPct`.
pub const WARNING_DEFAULT_BITS: u64 = 4591870180066957722;

/// The bits of `+inf`; the bit patterns of positive numbers lie in `(0, INF_BITS]`.
pub const INF_BITS: u64 = 9218868437227405312;

/// Whether a JSON number, read as `f64`, compares `> 0.0`.
pub open spec fn number_positive(n: JsonNumber) -> bool {
    match n {
        JsonNumber::PosInt(u) => u > 0,
        JsonNumber::NegInt(_) => false,
        JsonNumber::Float(b) => 0 < b && b <= INF_BITS,
    }
}

/// The ordering key of a JSON number that, read as `f64`, lies in `[0, 1]`
/// (its bit pattern, `-0.0` read as `0.0`); nothing for other numbers.
pub open spec fn unit_key(n: JsonNumber) -> Option<u64> {
    match n {
        JsonNumber::PosInt(u) => if u == 0 {
            Some(0u64)
        } else if u == 1 {
            Some(ONE_BITS)
        } else {
            None
        },
        JsonNumber::NegInt(_) => None,
        JsonNumber::Float(b) => if b as nat == sign_bit() {
            Some(0u64)
        } else if b <= ONE_BITS {
            Some(b)
        } else {
            None
        },
    }
}

/// A number field of the compaction settings: absent, or a number.
pub open spec fn compact_number_check(c: JsonValue, field: Seq<char>) -> Result<(), Seq<char>> {
    match json_get(c, field) {
        Some(JsonValue::Number(_)) => Ok(()),
        Some(_) => Err("session.compact: invalid config: "@ + field + " must be a number"@),
        None => Ok(()),
    }
}

/// The key of a threshold of the compaction settings, its default when absent.
pub open spec fn threshold_key(c: JsonValue, field: Seq<char>, default_bits: u64) -> Option<u64> {
    match json_get(c, field) {
        Some(JsonValue::Number(n)) => unit_key(n),
        _ => Some(default_bits),
    }
}

/// The rules of the compaction settings: a positive `charsPerToken`, both
/// thresholds in `[0, 1]`, and `autoCompactThresholdPct` below
/// `warningThresholdPct` (absent fields take their defaults).
pub open spec fn compact_rules_check(c: JsonValue) -> Result<(), Seq<char>> {
    let auto = threshold_key(c, "autoCompactThresholdPct"@, AUTO_COMPACT_DEFAULT_BITS);
    let warning = threshold_key(c, "warningThresholdPct"@, WARNING_DEFAULT_BITS);
    if (json_get(c, "charsPerToken"@) matches Some(JsonValue::Number(n)) && !number_positive(n)) {
        Err("session.compact: charsPerToken must be positive"@)
    } else if auto is None {
        Err("session.compact: autoCompactThresholdPct must be between 0 and 1"@)
    } else if warning is None {
        Err("session.compact: warningThresholdPct must be between 0 and 1"@)
    } else if auto->0 >= warning->0 {
        Err("session.compact: autoCompactThresholdPct must be less than warningThresholdPct"@)
    } else {
        Ok(())
    }
}

/// The compaction settings `compact`, when present and not null: an object
/// whose number fields are numbers, `maxConsecutiveFailures` an unsigned
/// integer, meeting [`compact_rules_check`].
pub open spec fn compact_check(v: JsonValue) -> Result<(), Seq<char>> {
    match json_get(v, "compact"@) {
        None => Ok(()),
        Some(JsonValue::Null) => Ok(()),
        Some(c) => if !is_object(c) {
            Err("session.compact: invalid config: expected a JSON object, got "@ + kind_label_spec(c))
        } else {
            then(
                compact_number_check(c, "charsPerToken"@),
                then(
                    compact_number_check(c, "autoCompactThresholdPct"@),
                    then(
                        compact_number_check(c, "warningThresholdPct"@),
                        then(
                            match json_get(c, "maxConsecutiveFailures"@) {
                                Some(JsonValue::Number(JsonNumber::PosInt(_))) => Ok(()),
                                Some(_) => Err(
                                    "session.compact: invalid config: maxConsecutiveFailures must be a non-negative integer"@,
                                ),
                                None => Ok(()),
                            },
                            compact_rules_check(c),
                        ),
                    ),
                ),
            )
        },
    }
}

fn validate_compact_number(c: &JsonValue, field: &str) -> (r: Result<(), String>)
    ensures
        outcome(r, compact_number_check(*c, field@)),
{
    match c.get(field) {
        Some(JsonValue::Number(_)) => Ok(()),
        Some(_) => Err(cat3("session.compact: invalid config: ", field, " must be a number")),
        None => Ok(()),
    }
}

fn unit_key_exec(n: &JsonNumber) -> (r: Option<u64>)
    ensures
        r == unit_key(*n),
{
    match n {
        JsonNumber::PosInt(u) => if *u == 0 {
            Some(0u64)
        } else if *u == 1 {
            Some(ONE_BITS)
        } else {
            None
        },
        JsonNumber::NegInt(_) => None,
        JsonNumber::Float(b) => if *b == 9223372036854775808u64 {
            Some(0u64)
        } else if *b <= ONE_BITS {
            Some(*b)
        } else {
            None
        },
    }
}

fn threshold_key_exec(c: &JsonValue, field: &str, default_bits: u64) -> (r: Option<u64>)
    ensures
        r == threshold_key(*c, field@, default_bits),
{
    match c.get(field) {
        Some(JsonValue::Number(n)) => unit_key_exec(n),
        _ => Some(default_bits),
    }
}

/// Validate the compaction settings of a session section.
fn validate_compact(value: &JsonValue) -> (r: Result<(), String>)
    ensures
        outcome(r, compact_check(*value)),
{
    let c = match value.get("compact") {
        None => return Ok(()),
        Some(JsonValue::Null) => return Ok(()),
        Some(c) => c,
    };
    if !c.is_object() {
        return Err(cat2("session.compact: invalid config: expected a JSON object, got ", c.kind_label()));
    }
    let r = validate_compact_number(c, "charsPerToken");
    if r.is_err() {
        return r;
    }
    let r = validate_compact_number(c, "autoCompactThresholdPct");
    if r.is_err() {
        return r;
    }
    let r = validate_compact_number(c, "warningThresholdPct");
    if r.is_err() {
        return r;
    }
    match c.get("maxConsecutiveFailures") {
        Some(JsonValue::Number(JsonNumber::PosInt(_))) => {},
        Some(_) => {
            return Err(owned("session.compact: invalid config: maxConsecutiveFailures must be a non-negative integer"));
        },
        None => {},
    }
    let positive = match c.get("charsPerToken") {
        Some(JsonValue::Number(n)) => match n {
            JsonNumber::PosInt(u) => *u > 0,
            JsonNumber::NegInt(_) => false,
            JsonNumber::Float(b) => 0 < *b && *b <= INF_BITS,
        },
        _ => true,
    };
    if !positive {
        return Err(owned("session.compact: charsPerToken must be positive"));
    }
    let auto = threshold_key_exec(c, "autoCompactThresholdPct", AUTO_COMPACT_DEFAULT_BITS);
    let warning = threshold_key_exec(c, "warningThresholdPct", WARNING_DEFAULT_BITS);
    match (auto, warning) {
        (None, _) => Err(owned("session.compact: autoCompactThresholdPct must be between 0 and 1")),
        (_, None) => Err(owned("session.compact: warningThresholdPct must be between 0 and 1")),
        (Some(a), Some(w)) => if a >= w {
            Err(owned("session.compact: autoCompactThresholdPct must be less than warningThresholdPct"))
        } else {
            Ok(())
        },
    }
}

/// The outcome of validating a session section.
pub open spec fn session_section_check(v: JsonValue) -> Result<(), Seq<char>> {
    then(
        object_check(v, "session"@),
        then(
            sweeper_check(v),
            then(
                session_defaults_check(v),
                then(
                    session_agents_check(v),
                    then(
                        session_field_check(v, "planArchiveDays"@),
                        then(session_field_check(v, "auditLogLimit"@), compact_check(v)),
                    ),
                ),
            ),
        ),
    )
}

fn validate_minutes(
    cfg: &JsonValue,
    field: &str,
    path: &str,
    not_number: &str,
    negative: &str,
) -> (r: Result<(), String>)
    ensures
        outcome(r, minutes_check(*cfg, field@, path@, not_number@, negative@)),
{
    match cfg.get(field) {
        Some(JsonValue::Number(n)) => {
            if !n.is_finite() || n.is_negative() {
                Err(cat2(path, negative))
            } else {
                Ok(())
            }
        },
        Some(_) => Err(cat2(path, not_number)),
        None => Ok(()),
    }
}

fn validate_per_agent_session_role(config: &JsonValue, path: &str) -> (r: Result<(), String>)
    ensures
        outcome(r, role_check(*config, path@)),
{
    if !config.is_object() {
        return Err(cat2(path, " must be a JSON object"));
    }
    let r = validate_minutes(
        config,
        "idleMinutes",
        path,
        ".idleMinutes must be a number",
        ".idleMinutes must be non-negative",
    );
    if r.is_err() {
        return r;
    }
    validate_minutes(
        config,
        "purgeAfterMinutes",
        path,
        ".purgeAfterMinutes must be a number",
        ".purgeAfterMinutes must be non-negative",
    )
}

fn validate_session_defaults(value: &JsonValue) -> (r: Result<(), String>)
    ensures
        outcome(r, session_defaults_check(*value)),
{
    match value.get("defaults") {
        Some(JsonValue::Null) => Err(owned("session.defaults must be a JSON object, got null")),
        Some(JsonValue::Object(es)) => {
            let ghost f = default_role_checker();
            let mut i: usize = 0;
            while i < es.len()
                invariant
                    i <= es@.len(),
                    f == default_role_checker(),
                    session_defaults_check(*value) == first_error(es@, f, 0),
                    first_error(es@, f, 0) == first_error(es@, f, i as nat),
                decreases es.len() - i,
            {
                let path = cat2("session.defaults.", es[i].0.as_str());
                let r = validate_per_agent_session_role(&es[i].1, path.as_str());
                assert(f(i as int, es@[i as int]) == role_check(es@[i as int].1, path@));
                if r.is_err() {
                    return r;
                }
                i = i + 1;
            }
            Ok(())
        },
        Some(x) => Err(cat2("session.defaults must be a JSON object, got ", x.kind_label())),
        None => Ok(()),
    }
}

fn validate_agent_roles(agent_id: &str, roles: &Vec<(String, JsonValue)>) -> (r: Result<(), String>)
    ensures
        outcome(r, first_error(roles@, agent_role_checker(agent_id@), 0)),
{
    let ghost f = agent_role_checker(agent_id@);
    let mut i: usize = 0;
    while i < roles.len()
        invariant
            i <= roles@.len(),
            f == agent_role_checker(agent_id@),
            first_error(roles@, f, 0) == first_error(roles@, f, i as nat),
        decreases roles.len() - i,
    {
        let path = cat4("session.agents.", agent_id, ".", roles[i].0.as_str());
        let r = validate_per_agent_session_role(&roles[i].1, path.as_str());
        assert(f(i as int, roles@[i as int]) == role_check(roles@[i as int].1, path@));
        if r.is_err() {
            return r;
        }
        i = i + 1;
    }
    Ok(())
}

fn validate_session_agents(value: &JsonValue) -> (r: Result<(), String>)
    ensures
        outcome(r, session_agents_check(*value)),
{
    match value.get("agents") {
        Some(JsonValue::Null) => Err(owned("session.agents must be a JSON object, got null")),
        Some(JsonValue::Object(es)) => {
            let ghost f = agent_checker();
            let mut i: usize = 0;
            while i < es.len()
                invariant
                    i <= es@.len(),
                    f == agent_checker(),
                    session_agents_check(*value) == first_error(es@, f, 0),
                    first_error(es@, f, 0) == first_error(es@, f, i as nat),
                decreases es.len() - i,
            {
                if let JsonValue::Object(roles) = &es[i].1 {
                    let r = validate_agent_roles(es[i].0.as_str(), roles);
                    assert(outcome(r, f(i as int, es@[i as int])));
                    if r.is_err() {
                        return r;
                    }
                }
                i = i + 1;
            }
            Ok(())
        },
        Some(x) => Err(cat2("session.agents must be a JSON object, got ", x.kind_label())),
        None => Ok(()),
    }
}

fn validate_non_negative_field(value: &JsonValue, field: &str) -> (r: Result<(), String>)
    ensures
        outcome(r, session_field_check(*value, field@)),
{
    match value.get(field) {
        Some(JsonValue::Number(n)) => {
            if n.is_negative() {
                Err(cat3("session.", field, " must be non-negative"))
            } else {
                Ok(())
            }
        },
        Some(_) => Err(cat3("session.", field, " must be a number")),
        None => Ok(()),
    }
}

/// Validate the **session** section.
pub fn validate_session(value: &JsonValue) -> (r: Result<(), String>)
    ensures
        outcome(r, session_section_check(*value)),
{
    let r = ensure_object(value, "session");
    if r.is_err() {
        return r;
    }
    if let Some(secs) = value.get("sweeperIntervalSeconds") {
        let positive = match secs.as_u64() {
            Some(n) => n != 0,
            None => false,
        };
        if !secs.is_number() || !positive {
            return Err(owned("session.sweeperIntervalSeconds must be a positive number"));
        }
    }
    let r = validate_session_defaults(value);
    if r.is_err() {
        return r;
    }
    let r = validate_session_agents(value);
    if r.is_err() {
        return r;
    }
    let r = validate_non_negative_field(value, "planArchiveDays");
    if r.is_err() {
        return r;
    }
    let r = validate_non_negative_field(value, "auditLogLimit");
    if r.is_err() {
        return r;
    }
    validate_compact(value)
}

// ── accounts ─────────────────────────────────────────────────────────────

/// The account id of an account entry, when it is a string.
pub open spec fn account_id_of(x: JsonValue) -> Option<Seq<char>> {
    match json_get(x, "accountId"@) {
        Some(JsonValue::String(s)) => Some(s@),
        _ => None,
    }
}

/// Whether an entry before `i` has the account id `id`.
pub open spec fn seen_before(xs: Seq<JsonValue>, i: int, id: Seq<char>) -> bool {
    exists|j: int| 0 <= j < i && account_id_of(#[trigger] xs[j]) == Some(id)
}

/// The string member `field` of `x`, or the empty text.
pub open spec fn str_or_empty(x: JsonValue, field: Seq<char>) -> Seq<char> {
    match json_get(x, field) {
        Some(JsonValue::String(s)) => s@,
        _ => Seq::empty(),
    }
}

/// Whether an account before `i` has the platform, bot and sender of `e`.
pub open spec fn same_binding_before(xs: Seq<JsonValue>, i: int, e: JsonValue) -> bool {
    exists|j: int|
        0 <= j < i && str_or_empty(#[trigger] xs[j], "platform"@) == str_or_empty(e, "platform"@)
            && str_or_empty(xs[j], "botAppId"@) == str_or_empty(e, "botAppId"@) && str_or_empty(
            xs[j],
            "senderId"@,
        ) == str_or_empty(e, "senderId"@)
}

/// Account `i` of the list `xs`.
pub open spec fn account_check(xs: Seq<JsonValue>, i: int, e: JsonValue) -> Result<(), Seq<char>> {
    if !is_object(e) {
        Err("accounts.accounts["@ + decimal(i as nat) + "] must be a JSON object"@)
    } else {
        then(
            required_string_check(
                e,
                "accountId"@,
                "accounts.accounts["@ + decimal(i as nat) + "].accountId"@,
            ),
            then(
                required_string_check(
                    e,
                    "senderId"@,
                    "accounts.accounts["@ + decimal(i as nat) + "].senderId"@,
                ),
                then(
                    match account_id_of(e) {
                        Some(id) => if seen_before(xs, i, id) {
                            Err(
                                "duplicate accountId '"@ + id + "' at accounts.accounts["@
                                    + decimal(i as nat) + "]"@,
                            )
                        } else {
                            Ok(())
                        },
                        None => Ok(()),
                    },
                    then(
                    if same_binding_before(xs, i, e) {
                        Err(
                            "duplicate binding: platform='"@ + str_or_empty(e, "platform"@)
                                + "', botAppId='"@ + str_or_empty(e, "botAppId"@) + "', senderId='"@
                                + str_or_empty(e, "senderId"@) + "' at accounts.accounts["@
                                + decimal(i as nat) + "]"@,
                        )
                    } else {
                        Ok(())
                    },
                    match json_get(e, "platform"@) {
                        Some(JsonValue::String(p)) => if p@.len() == 0 {
                            Err(
                                "accounts.accounts["@ + decimal(i as nat)
                                    + "].platform cannot be empty"@,
                            )
                        } else if !allowed_channel(p@) {
                            Err(
                                "accounts.accounts["@ + decimal(i as nat) + "].platform '"@ + p@
                                    + "' is not a known channel type. Allowed: "@
                                    + ALLOWED_CHANNEL_TYPES_TEXT@,
                            )
                        } else {
                            Ok(())
                        },
                        _ => Ok(()),
                    },
                    ),
                ),
            ),
        )
    }
}

/// The check of the account entries of the list `xs`.
pub open spec fn account_checker(xs: Seq<JsonValue>) -> spec_fn(int, JsonValue) -> Result<
    (),
    Seq<char>,
> {
    |i: int, e: JsonValue| account_check(xs, i, e)
}

/// The bot application id of a binding entry, when it is a string.
pub open spec fn bot_app_id_of(x: JsonValue) -> Option<Seq<char>> {
    match json_get(x, "bot_app_id"@) {
        Some(JsonValue::String(s)) => Some(s@),
        _ => None,
    }
}

/// Whether a binding before `i` has the bot application id `id`.
pub open spec fn bot_seen_before(xs: Seq<JsonValue>, i: int, id: Seq<char>) -> bool {
    exists|j: int| 0 <= j < i && bot_app_id_of(#[trigger] xs[j]) == Some(id)
}

/// Binding `i` of the list `xs`: an object with non-empty `bot_app_id`
/// and `agent_id`, and a bot application bound only once.
pub open spec fn accounts_binding_check(xs: Seq<JsonValue>, i: int, e: JsonValue) -> Result<
    (),
    Seq<char>,
> {
    if !is_object(e) {
        Err("accounts.bindings["@ + decimal(i as nat) + "] must be a JSON object"@)
    } else {
        then(
            required_string_check(
                e,
                "bot_app_id"@,
                "accounts.bindings["@ + decimal(i as nat) + "].bot_app_id"@,
            ),
            then(
                required_string_check(
                    e,
                    "agent_id"@,
                    "accounts.bindings["@ + decimal(i as nat) + "].agent_id"@,
                ),
                match bot_app_id_of(e) {
                    Some(id) => if bot_seen_before(xs, i, id) {
                        Err(
                            "accounts.bindings["@ + decimal(i as nat) + "].bot_app_id '"@ + id
                                + "' is not unique"@,
                        )
                    } else {
                        Ok(())
                    },
                    None => Ok(()),
                },
            ),
        )
    }
}

/// The check of the binding entries of the list `xs`.
pub open spec fn accounts_binding_checker(xs: Seq<JsonValue>) -> spec_fn(int, JsonValue) -> Result<
    (),
    Seq<char>,
> {
    |i: int, e: JsonValue| accounts_binding_check(xs, i, e)
}

/// The `accounts` member: an array of valid accounts, when present.
pub open spec fn accounts_list_check(v: JsonValue) -> Result<(), Seq<char>> {
    match json_get(v, "accounts"@) {
        Some(JsonValue::Array(xs)) => first_error(xs@, account_checker(xs@), 0),
        Some(x) => Err("accounts.accounts must be a JSON array, got "@ + kind_label_spec(x)),
        None => Ok(()),
    }
}

/// The `bindings` member: an array of valid bindings, when present.
pub open spec fn accounts_bindings_check(v: JsonValue) -> Result<(), Seq<char>> {
    match json_get(v, "bindings"@) {
        Some(JsonValue::Array(xs)) => first_error(xs@, accounts_binding_checker(xs@), 0),
        Some(x) => Err("accounts.bindings must be a JSON array, got "@ + kind_label_spec(x)),
        None => Ok(()),
    }
}

/// The outcome of validating an accounts section.
pub open spec fn accounts_section_check(v: JsonValue) -> Result<(), Seq<char>> {
    then(object_check(v, "accounts"@), then(accounts_list_check(v), accounts_bindings_check(v)))
}

/// Whether an account before `index` has the id `id`.
fn account_id_seen(xs: &Vec<JsonValue>, index: usize, id: &str) -> (r: bool)
    requires
        index <= xs@.len(),
    ensures
        r == seen_before(xs@, index as int, id@),
{
    let mut j: usize = 0;
    while j < index
        invariant
            j <= index <= xs@.len(),
            forall|k: int| 0 <= k < j ==> account_id_of(#[trigger] xs@[k]) != Some(id@),
        decreases index - j,
    {
        if let Some(JsonValue::String(other)) = xs[j].get("accountId") {
            if crate::text::str_eq(other.as_str(), id) {
                assert(account_id_of(xs@[j as int]) == Some(id@));
                return true;
            }
        }
        j = j + 1;
    }
    false
}

/// The string member `field` of `x`, or the empty text.
fn member_or_empty<'a>(x: &'a JsonValue, field: &str) -> (r: &'a str)
    ensures
        r@ == str_or_empty(*x, field@),
{
    match x.get(field) {
        Some(JsonValue::String(s)) => s.as_str(),
        _ => {
            proof {
                reveal_strlit("");
            }
            ""
        },
    }
}

/// Whether an account before `index` has the platform, bot and sender of `e`.
fn binding_seen(xs: &Vec<JsonValue>, index: usize, e: &JsonValue) -> (r: bool)
    requires
        index <= xs@.len(),
    ensures
        r == same_binding_before(xs@, index as int, *e),
{
    let p = member_or_empty(e, "platform");
    let b = member_or_empty(e, "botAppId");
    let snd = member_or_empty(e, "senderId");
    let mut j: usize = 0;
    while j < index
        invariant
            j <= index <= xs@.len(),
            p@ == str_or_empty(*e, "platform"@),
            b@ == str_or_empty(*e, "botAppId"@),
            snd@ == str_or_empty(*e, "senderId"@),
            forall|k: int|
                0 <= k < j ==> !(str_or_empty(#[trigger] xs@[k], "platform"@) == p@ && str_or_empty(
                    xs@[k],
                    "botAppId"@,
                ) == b@ && str_or_empty(xs@[k], "senderId"@) == snd@),
        decreases index - j,
    {
        let other = &xs[j];
        if crate::text::str_eq(member_or_empty(other, "platform"), p) && crate::text::str_eq(
            member_or_empty(other, "botAppId"),
            b,
        ) && crate::text::str_eq(member_or_empty(other, "senderId"), snd) {
            return true;
        }
        j = j + 1;
    }
    false
}

fn validate_account(xs: &Vec<JsonValue>, index: usize) -> (r: Result<(), String>)
    requires
        index < xs@.len(),
    ensures
        outcome(r, account_check(xs@, index as int, xs@[index as int])),
{
    let entry = &xs[index];
    if !entry.is_object() {
        return Err(cat_index("accounts.accounts[", index, "] must be a JSON object"));
    }
    let path = cat_index("accounts.accounts[", index, "].accountId");
    let r = require_non_empty(entry, "accountId", path.as_str());
    if r.is_err() {
        return r;
    }
    let path = cat_index("accounts.accounts[", index, "].senderId");
    let r = require_non_empty(entry, "senderId", path.as_str());
    if r.is_err() {
        return r;
    }
    if let Some(JsonValue::String(id)) = entry.get("accountId") {
        if account_id_seen(xs, index, id.as_str()) {
            let mut msg = cat3("duplicate accountId '", id.as_str(), "' at accounts.accounts[");
            push_decimal(&mut msg, index as u64);
            push_str(&mut msg, "]");
            return Err(msg);
        }
    }
    if binding_seen(xs, index, entry) {
        let mut msg = cat2("duplicate binding: platform='", member_or_empty(entry, "platform"));
        push_str(&mut msg, "', botAppId='");
        push_str(&mut msg, member_or_empty(entry, "botAppId"));
        push_str(&mut msg, "', senderId='");
        push_str(&mut msg, member_or_empty(entry, "senderId"));
        push_str(&mut msg, "' at accounts.accounts[");
        push_decimal(&mut msg, index as u64);
        push_str(&mut msg, "]");
        return Err(msg);
    }
    if let Some(JsonValue::String(p)) = entry.get("platform") {
        if p.as_str().is_empty() {
            return Err(cat_index("accounts.accounts[", index, "].platform cannot be empty"));
        }
        if !is_allowed_channel_type(p.as_str()) {
            let mut msg = cat_index("accounts.accounts[", index, "].platform '");
            push_str(&mut msg, p.as_str());
            push_str(&mut msg, "' is not a known channel type. Allowed: ");
            push_str(&mut msg, ALLOWED_CHANNEL_TYPES_TEXT);
            return Err(msg);
        }
    }
    Ok(())
}

/// Whether a binding before `index` has the bot application id `id`.
fn bot_app_id_seen(xs: &Vec<JsonValue>, index: usize, id: &str) -> (r: bool)
    requires
        index <= xs@.len(),
    ensures
        r == bot_seen_before(xs@, index as int, id@),
{
    let mut j: usize = 0;
    while j < index
        invariant
            j <= index <= xs@.len(),
            forall|k: int| 0 <= k < j ==> bot_app_id_of(#[trigger] xs@[k]) != Some(id@),
        decreases index - j,
    {
        if let Some(JsonValue::String(other)) = xs[j].get("bot_app_id") {
            if crate::text::str_eq(other.as_str(), id) {
                assert(bot_app_id_of(xs@[j as int]) == Some(id@));
                return true;
            }
        }
        j = j + 1;
    }
    false
}

fn validate_accounts_binding(xs: &Vec<JsonValue>, index: usize) -> (r: Result<(), String>)
    requires
        index < xs@.len(),
    ensures
        outcome(r, accounts_binding_check(xs@, index as int, xs@[index as int])),
{
    let entry = &xs[index];
    if !entry.is_object() {
        return Err(cat_index("accounts.bindings[", index, "] must be a JSON object"));
    }
    let path = cat_index("accounts.bindings[", index, "].bot_app_id");
    let r = require_non_empty(entry, "bot_app_id", path.as_str());
    if r.is_err() {
        return r;
    }
    let path = cat_index("accounts.bindings[", index, "].agent_id");
    let r = require_non_empty(entry, "agent_id", path.as_str());
    if r.is_err() {
        return r;
    }
    if let Some(JsonValue::String(id)) = entry.get("bot_app_id") {
        if bot_app_id_seen(xs, index, id.as_str()) {
            let mut msg = cat_index("accounts.bindings[", index, "].bot_app_id '");
            push_str(&mut msg, id.as_str());
            push_str(&mut msg, "' is not unique");
            return Err(msg);
        }
    }
    Ok(())
}

fn validate_accounts_bindings(value: &JsonValue) -> (r: Result<(), String>)
    ensures
        outcome(r, accounts_bindings_check(*value)),
{
    match value.get("bindings") {
        Some(JsonValue::Array(xs)) => {
            let ghost f = accounts_binding_checker(xs@);
            let mut i: usize = 0;
            while i < xs.len()
                invariant
                    i <= xs@.len(),
                    f == accounts_binding_checker(xs@),
                    accounts_bindings_check(*value) == first_error(xs@, f, 0),
                    first_error(xs@, f, 0) == first_error(xs@, f, i as nat),
                decreases xs.len() - i,
            {
                let r = validate_accounts_binding(xs, i);
                assert(f(i as int, xs@[i as int]) == accounts_binding_check(
                    xs@,
                    i as int,
                    xs@[i as int],
                ));
                if r.is_err() {
                    return r;
                }
                i = i + 1;
            }
            Ok(())
        },
        Some(x) => Err(cat2("accounts.bindings must be a JSON array, got ", x.kind_label())),
        None => Ok(()),
    }
}

/// Validate the **accounts** section.
pub fn validate_accounts(value: &JsonValue) -> (r: Result<(), String>)
    ensures
        outcome(r, accounts_section_check(*value)),
{
    let r = ensure_object(value, "accounts");
    if r.is_err() {
        return r;
    }
    let r = validate_accounts_list(value);
    if r.is_err() {
        return r;
    }
    validate_accounts_bindings(value)
}

fn validate_accounts_list(value: &JsonValue) -> (r: Result<(), String>)
    ensures
        outcome(r, accounts_list_check(*value)),
{
    match value.get("accounts") {
        Some(JsonValue::Array(xs)) => {
            let ghost f = account_checker(xs@);
            let mut i: usize = 0;
            while i < xs.len()
                invariant
                    i <= xs@.len(),
                    f == account_checker(xs@),
                    accounts_list_check(*value) == first_error(xs@, f, 0),
                    first_error(xs@, f, 0) == first_error(xs@, f, i as nat),
                decreases xs.len() - i,
            {
                let r = validate_account(xs, i);
                assert(f(i as int, xs@[i as int]) == account_check(xs@, i as int, xs@[i as int]));
                if r.is_err() {
                    return r;
                }
                i = i + 1;
            }
            Ok(())
        },
        Some(x) => Err(cat2("accounts.accounts must be a JSON array, got ", x.kind_label())),
        None => Ok(()),
    }
}

// ── credentials ──────────────────────────────────────────────────────────

/// The outcome of validating one credential file.
pub open spec fn credentials_file_check(v: JsonValue) -> Result<(), Seq<char>> {
    then(
        object_check(v, "credentials"@),
        then(
            required_string_check(v, "provider"@, "credentials.provider"@),
            then(
                optional_string_check(v, "apiKey"@, "credentials.apiKey"@),
                then(
                    optional_string_check(v, "appId"@, "credentials.appId"@),
                    optional_string_check(v, "appSecret"@, "credentials.appSecret"@),
                ),
            ),
        ),
    )
}

/// Validate one credential file: an object with a non-empty `provider`,
/// and non-empty `apiKey`, `appId` and `appSecret` where present.
pub fn validate_credentials(value: &JsonValue) -> (r: Result<(), String>)
    ensures
        outcome(r, credentials_file_check(*value)),
{
    let r = ensure_object(value, "credentials");
    if r.is_err() {
        return r;
    }
    let r = require_non_empty(value, "provider", "credentials.provider");
    if r.is_err() {
        return r;
    }
    let r = validate_optional_non_empty_string(value, "apiKey", "credentials.apiKey");
    if r.is_err() {
        return r;
    }
    let r = validate_optional_non_empty_string(value, "appId", "credentials.appId");
    if r.is_err() {
        return r;
    }
    validate_optional_non_empty_string(value, "appSecret", "credentials.appSecret")
}

// ── skills ───────────────────────────────────────────────────────────────

/// The check of the entries of `extraDirs`.
pub open spec fn extra_dir_checker() -> spec_fn(int, JsonValue) -> Result<(), Seq<char>> {
    |i: int, x: JsonValue|
        match x {
            JsonValue::String(p) => if p@.len() == 0 {
                Err("skills.extraDirs["@ + decimal(i as nat) + "] cannot be an empty path"@)
            } else if p@.contains('\0') {
                Err("skills.extraDirs["@ + decimal(i as nat) + "] contains a null byte"@)
            } else {
                Ok(())
            },
            _ => Err("skills.extraDirs["@ + decimal(i as nat) + "] must be a string"@),
        }
}

/// The outcome of validating a skills section.
pub open spec fn skills_section_check(v: JsonValue) -> Result<(), Seq<char>> {
    then(
        object_check(v, "skills"@),
        match json_get(v, "extraDirs"@) {
            Some(JsonValue::Array(xs)) => first_error(xs@, extra_dir_checker(), 0),
            Some(x) => Err("skills.extraDirs must be a JSON array, got "@ + kind_label_spec(x)),
            None => Ok(()),
        },
    )
}

/// Whether `s` holds a NUL character.
fn has_nul(s: &str) -> (r: bool)
    ensures
        r == s@.contains('\0'),
{
    let v = crate::text::chars_of(s);
    let mut i: usize = 0;
    while i < v.len()
        invariant
            i <= v@.len(),
            v@ == s@,
            forall|k: int| 0 <= k < i ==> v@[k] != '\0',
        decreases v.len() - i,
    {
        if v[i] == '\0' {
            return true;
        }
        i = i + 1;
    }
    false
}

/// Validate the **skills** section: `extraDirs`, when present, is an
/// array of non-empty paths without NUL characters.
pub fn validate_skills(value: &JsonValue) -> (r: Result<(), String>)
    ensures
        outcome(r, skills_section_check(*value)),
{
    let r = ensure_object(value, "skills");
    if r.is_err() {
        return r;
    }
    match value.get("extraDirs") {
        Some(JsonValue::Array(xs)) => {
            let ghost f = extra_dir_checker();
            let mut i: usize = 0;
            while i < xs.len()
                invariant
                    i <= xs@.len(),
                    f == extra_dir_checker(),
                    skills_section_check(*value) == first_error(xs@, f, 0),
                    first_error(xs@, f, 0) == first_error(xs@, f, i as nat),
                decreases xs.len() - i,
            {
                match &xs[i] {
                    JsonValue::String(p) => {
                        if p.as_str().is_empty() {
                            return Err(cat_index("skills.extraDirs[", i, "] cannot be an empty path"));
                        }
                        if has_nul(p.as_str()) {
                            return Err(cat_index("skills.extraDirs[", i, "] contains a null byte"));
                        }
                    },
                    _ => {
                        return Err(cat_index("skills.extraDirs[", i, "] must be a string"));
                    },
                }
                i = i + 1;
            }
            Ok(())
        },
        Some(x) => Err(cat2("skills.extraDirs must be a JSON array, got ", x.kind_label())),
        None => Ok(()),
    }
}

// ── dispatch ─────────────────────────────────────────────────────────────

/// The outcome of validating section `s` with the value `v`.
///
/// For credentials, the value is one credential file; media has no
/// structural rules beyond being parsed.
pub open spec fn section_check(s: ConfigSection, v: JsonValue, existing: Seq<String>) -> Result<
    (),
    Seq<char>,
> {
    match s {
        ConfigSection::Models => models_section_check(v, existing),
        ConfigSection::Channels => channels_section_check(v),
        ConfigSection::Gateway => gateway_section_check(v),
        ConfigSection::Plugins => plugins_section_check(v, existing),
        ConfigSection::System => system_section_check(v),
        ConfigSection::Session => session_section_check(v),
        ConfigSection::Credentials => credentials_file_check(v),
        ConfigSection::Accounts => accounts_section_check(v),
        ConfigSection::Memory => memory_section_check(v),
        ConfigSection::Skills => skills_section_check(v),
        ConfigSection::Media => Ok(()),
    }
}

/// Validate `value` as the content of `section`; `existing` lists the
/// paths that exist.
pub fn validate_section(section: ConfigSection, value: &JsonValue, existing: &Vec<String>) -> (r:
    Result<(), String>)
    ensures
        outcome(r, section_check(section, *value, existing@)),
{
    match section {
        ConfigSection::Models => validate_models(value, existing),
        ConfigSection::Channels => validate_channels(value),
        ConfigSection::Gateway => validate_gateway(value),
        ConfigSection::Plugins => validate_plugins(value, existing),
        ConfigSection::System => validate_system(value),
        ConfigSection::Session => validate_session(value),
        ConfigSection::Credentials => validate_credentials(value),
        ConfigSection::Accounts => validate_accounts(value),
        ConfigSection::Memory => validate_memory(value),
        ConfigSection::Skills => validate_skills(value),
        ConfigSection::Media => Ok(()),
    }
}

/// The string member `field` of `v`, if it is one.
pub open spec fn member_str(v: JsonValue, field: Seq<char>) -> Option<Seq<char>> {
    match json_get(v, field) {
        Some(JsonValue::String(s)) => Some(s@),
        _ => None,
    }
}

/// The non-empty string members `field` of the object entries of `es`, in order.
pub open spec fn paths_in(es: Seq<(String, JsonValue)>, field: Seq<char>) -> Seq<Seq<char>>
    decreases es.len(),
{
    if es.len() == 0 {
        Seq::empty()
    } else {
        let before = paths_in(es.drop_last(), field);
        let e = es.last().1;
        match member_str(e, field) {
            Some(p) => if is_object(e) && p.len() > 0 {
                before.push(p)
            } else {
                before
            },
            None => before,
        }
    }
}

/// The paths a section mentions and whose existence its validator checks.
pub open spec fn mentioned_paths(s: ConfigSection, v: JsonValue) -> Seq<Seq<char>> {
    match s {
        ConfigSection::Models => match json_get(v, "providers"@) {
            Some(JsonValue::Object(es)) => paths_in(es@, "credentialPath"@),
            _ => Seq::empty(),
        },
        ConfigSection::Plugins => match json_get(v, "installs"@) {
            Some(JsonValue::Object(es)) => paths_in(es@, "installPath"@),
            _ => Seq::empty(),
        },
        _ => Seq::empty(),
    }
}

/// The characters of each string of `v`.
pub open spec fn texts(v: Seq<String>) -> Seq<Seq<char>> {
    v.map_values(|s: String| s@)
}

fn collect_paths(es: &Vec<(String, JsonValue)>, field: &str) -> (r: Vec<String>)
    ensures
        texts(r@) == paths_in(es@, field@),
{
    let mut r: Vec<String> = Vec::new();
    let mut i: usize = 0;
    assert(es@.subrange(0, 0) =~= Seq::<(String, JsonValue)>::empty());
    assert(texts(r@) =~= Seq::<Seq<char>>::empty());
    while i < es.len()
        invariant
            i <= es@.len(),
            texts(r@) == paths_in(es@.subrange(0, i as int), field@),
        decreases es.len() - i,
    {
        let e = &es[i].1;
        assert(es@.subrange(0, i + 1).drop_last() =~= es@.subrange(0, i as int));
        assert(es@.subrange(0, i + 1).last() == es@[i as int]);
        if e.is_object() {
            if let Some(JsonValue::String(p)) = e.get(field) {
                if !p.as_str().is_empty() {
                    let ghost before = r@;
                    r.push(p.clone());
                    assert(texts(r@) =~= texts(before).push(p@));
                }
            }
        }
        i = i + 1;
    }
    assert(es@.subrange(0, es@.len() as int) =~= es@);
    r
}

/// The paths that validating `value` as `section` looks up on disk.
pub fn referenced_paths(section: ConfigSection, value: &JsonValue) -> (r: Vec<String>)
    ensures
        texts(r@) == mentioned_paths(section, *value),
{
    match section {
        ConfigSection::Models => match value.get("providers") {
            Some(JsonValue::Object(es)) => collect_paths(es, "credentialPath"),
            _ => {
                let r: Vec<String> = Vec::new();
                assert(texts(r@) =~= Seq::<Seq<char>>::empty());
                r
            },
        },
        ConfigSection::Plugins => match value.get("installs") {
            Some(JsonValue::Object(es)) => collect_paths(es, "installPath"),
            _ => {
                let r: Vec<String> = Vec::new();
                assert(texts(r@) =~= Seq::<Seq<char>>::empty());
                r
            },
        },
        _ => {
            let r: Vec<String> = Vec::new();
            assert(texts(r@) =~= Seq::<Seq<char>>::empty());
            r
        },
    }
}

} // verus!
