//! Validator of the **memory** section (`memory.json`).
//!
//! - The top level must be an object.
//! - Each subsystem (`storage`, `mining`, `dreaming`, `search`,
//!   `forgetting`), when present, must be an object.
//! - `enabled` fields must be booleans; model and path fields must be
//!   `null` or non-empty strings.
//! - Numeric parameters must be finite and non-negative; scoring weights
//!   only need to be numbers (a negative weight is allowed).

use vstd::prelude::*;

use crate::checks::{
    bool_field_check, ensure_object, ensure_sub_object, non_negative_check, number_field_check,
    object_check, optional_string_check, outcome, sub_object_check, then,
    validate_bool_field, validate_non_negative_number, validate_number_field,
    validate_optional_non_empty_string,
};
use crate::json::{is_object, json_get, number_finite, number_negative, JsonValue};

verus! {

/// The storage subsystem: optional, an object with non-empty paths.
pub open spec fn storage_check(v: JsonValue) -> Result<(), Seq<char>> {
    match json_get(v, "storage"@) {
        Some(s) => then(
            sub_object_check(s, "memory.storage"@),
            then(
                optional_string_check(s, "dbPath"@, "memory.storage.dbPath"@),
                optional_string_check(s, "memoryMdPath"@, "memory.storage.memoryMdPath"@),
            ),
        ),
        None => Ok(()),
    }
}

/// The transcript clean rules of the mining subsystem.
pub open spec fn transcript_rules_check(m: JsonValue) -> Result<(), Seq<char>> {
    match json_get(m, "transcriptCleanRules"@) {
        Some(r) => then(
            sub_object_check(r, "memory.mining.transcriptCleanRules"@),
            then(
                non_negative_check(r, "minTurns"@, "memory.mining.transcriptCleanRules.minTurns"@),
                then(
                    non_negative_check(
                        r,
                        "minOwnerMsgs"@,
                        "memory.mining.transcriptCleanRules.minOwnerMsgs"@,
                    ),
                    optional_string_check(
                        r,
                        "format"@,
                        "memory.mining.transcriptCleanRules.format"@,
                    ),
                ),
            ),
        ),
        None => Ok(()),
    }
}

/// The mining subsystem `m`.
pub open spec fn mining_check(m: JsonValue) -> Result<(), Seq<char>> {
    then(
        sub_object_check(m, "memory.mining"@),
        then(
            bool_field_check(m, "enabled"@, "memory.mining.enabled"@),
            then(
                optional_string_check(m, "model"@, "memory.mining.model"@),
                then(
                    non_negative_check(
                        m,
                        "maxEventsPerSession"@,
                        "memory.mining.maxEventsPerSession"@,
                    ),
                    then(
                        non_negative_check(m, "dedupWindowDays"@, "memory.mining.dedupWindowDays"@),
                        transcript_rules_check(m),
                    ),
                ),
            ),
        ),
    )
}

/// The scoring weights of the dreaming subsystem: numbers of any sign.
pub open spec fn scoring_check(d: JsonValue) -> Result<(), Seq<char>> {
    match json_get(d, "scoring"@) {
        Some(s) => then(
            sub_object_check(s, "memory.dreaming.scoring"@),
            then(
                number_field_check(s, "frequencyWeight"@, "memory.dreaming.scoring.frequencyWeight"@),
                then(
                    number_field_check(
                        s,
                        "recencyWeight"@,
                        "memory.dreaming.scoring.recencyWeight"@,
                    ),
                    then(
                        number_field_check(
                            s,
                            "explicitnessWeight"@,
                            "memory.dreaming.scoring.explicitnessWeight"@,
                        ),
                        then(
                            number_field_check(
                                s,
                                "crossAgentWeight"@,
                                "memory.dreaming.scoring.crossAgentWeight"@,
                            ),
                            number_field_check(
                                s,
                                "negativeSignalWeight"@,
                                "memory.dreaming.scoring.negativeSignalWeight"@,
                            ),
                        ),
                    ),
                ),
            ),
        ),
        None => Ok(()),
    }
}

/// The thresholds of the dreaming subsystem.
pub open spec fn threshold_check(d: JsonValue) -> Result<(), Seq<char>> {
    match json_get(d, "threshold"@) {
        Some(t) => then(
            sub_object_check(t, "memory.dreaming.threshold"@),
            then(
                non_negative_check(t, "absolute"@, "memory.dreaming.threshold.absolute"@),
                non_negative_check(t, "relative"@, "memory.dreaming.threshold.relative"@),
            ),
        ),
        None => Ok(()),
    }
}

/// The capacity of the dreaming subsystem.
pub open spec fn capacity_check(d: JsonValue) -> Result<(), Seq<char>> {
    match json_get(d, "capacity"@) {
        Some(c) => then(
            sub_object_check(c, "memory.dreaming.capacity"@),
            non_negative_check(c, "maxRules"@, "memory.dreaming.capacity.maxRules"@),
        ),
        None => Ok(()),
    }
}

/// The diary of the dreaming subsystem.
pub open spec fn diary_check(d: JsonValue) -> Result<(), Seq<char>> {
    match json_get(d, "diary"@) {
        Some(x) => then(
            sub_object_check(x, "memory.dreaming.diary"@),
            then(
                bool_field_check(x, "enabled"@, "memory.dreaming.diary.enabled"@),
                optional_string_check(x, "path"@, "memory.dreaming.diary.path"@),
            ),
        ),
        None => Ok(()),
    }
}

/// The dreaming subsystem `d`.
pub open spec fn dreaming_check(d: JsonValue) -> Result<(), Seq<char>> {
    then(
        sub_object_check(d, "memory.dreaming"@),
        then(
            bool_field_check(d, "enabled"@, "memory.dreaming.enabled"@),
            then(
                optional_string_check(d, "model"@, "memory.dreaming.model"@),
                then(
                    optional_string_check(d, "schedule"@, "memory.dreaming.schedule"@),
                    then(
                        scoring_check(d),
                        then(threshold_check(d), then(capacity_check(d), diary_check(d))),
                    ),
                ),
            ),
        ),
    )
}

/// The search subsystem `s`.
pub open spec fn search_check(s: JsonValue) -> Result<(), Seq<char>> {
    then(
        sub_object_check(s, "memory.search"@),
        then(
            bool_field_check(s, "enabled"@, "memory.search.enabled"@),
            then(
                optional_string_check(s, "model"@, "memory.search.model"@),
                then(
                    non_negative_check(s, "contextTurns"@, "memory.search.contextTurns"@),
                    then(
                        non_negative_check(s, "timeoutMs"@, "memory.search.timeoutMs"@),
                        then(
                            non_negative_check(
                                s,
                                "maxSummaryChars"@,
                                "memory.search.maxSummaryChars"@,
                            ),
                            then(
                                non_negative_check(
                                    s,
                                    "minEntityHits"@,
                                    "memory.search.minEntityHits"@,
                                ),
                                non_negative_check(s, "topKEvents"@, "memory.search.topKEvents"@),
                            ),
                        ),
                    ),
                ),
            ),
        ),
    )
}

/// The forgetting subsystem `f`.
pub open spec fn forgetting_check(f: JsonValue) -> Result<(), Seq<char>> {
    then(
        sub_object_check(f, "memory.forgetting"@),
        then(
            non_negative_check(f, "initialTtlDays"@, "memory.forgetting.initialTtlDays"@),
            then(
                non_negative_check(
                    f,
                    "reidentifyExtensionDays"@,
                    "memory.forgetting.reidentifyExtensionDays"@,
                ),
                non_negative_check(
                    f,
                    "injectionExtensionDays"@,
                    "memory.forgetting.injectionExtensionDays"@,
                ),
            ),
        ),
    )
}

/// A subsystem check applied when the member `field` is present.
pub open spec fn when_present(
    v: JsonValue,
    field: Seq<char>,
    check: spec_fn(JsonValue) -> Result<(), Seq<char>>,
) -> Result<(), Seq<char>> {
    match json_get(v, field) {
        Some(x) => check(x),
        None => Ok(()),
    }
}

/// The outcome of validating a memory section.
pub open spec fn memory_section_check(v: JsonValue) -> Result<(), Seq<char>> {
    then(
        object_check(v, "memory"@),
        then(
            storage_check(v),
            then(
                when_present(v, "mining"@, |m| mining_check(m)),
                then(
                    when_present(v, "dreaming"@, |d| dreaming_check(d)),
                    then(
                        when_present(v, "search"@, |s| search_check(s)),
                        when_present(v, "forgetting"@, |f| forgetting_check(f)),
                    ),
                ),
            ),
        ),
    )
}

/// The member of `v` reached by following the member names in `path`,
/// when each of them is present.
pub open spec fn member_at(v: JsonValue, path: Seq<Seq<char>>) -> Option<JsonValue>
    decreases path.len(),
{
    if path.len() == 0 {
        Some(v)
    } else {
        match json_get(v, path[0]) {
            Some(x) => member_at(x, path.drop_first()),
            None => None,
        }
    }
}

/// Whether a member is absent, or a finite number that is not below zero.
pub open spec fn absent_or_non_negative(x: Option<JsonValue>) -> bool {
    match x {
        Some(JsonValue::Number(n)) => number_finite(n) && !number_negative(n),
        Some(_) => false,
        None => true,
    }
}

/// Law: an accepted memory section holds, in each numeric parameter it
/// sets (mining limits, dreaming thresholds and capacity, search limits,
/// forgetting periods), a finite number that is not below zero; a
/// negative or non-numeric parameter is rejected.
pub proof fn law_memory_parameters_non_negative(v: JsonValue)
    requires
        memory_section_check(v) is Ok,
    ensures
        absent_or_non_negative(member_at(v, seq!["mining"@, "maxEventsPerSession"@])),
        absent_or_non_negative(member_at(v, seq!["mining"@, "dedupWindowDays"@])),
        absent_or_non_negative(member_at(v, seq!["mining"@, "transcriptCleanRules"@, "minTurns"@])),
        absent_or_non_negative(member_at(v, seq!["mining"@, "transcriptCleanRules"@, "minOwnerMsgs"@])),
        absent_or_non_negative(member_at(v, seq!["dreaming"@, "threshold"@, "absolute"@])),
        absent_or_non_negative(member_at(v, seq!["dreaming"@, "threshold"@, "relative"@])),
        absent_or_non_negative(member_at(v, seq!["dreaming"@, "capacity"@, "maxRules"@])),
        absent_or_non_negative(member_at(v, seq!["search"@, "contextTurns"@])),
        absent_or_non_negative(member_at(v, seq!["search"@, "timeoutMs"@])),
        absent_or_non_negative(member_at(v, seq!["search"@, "maxSummaryChars"@])),
        absent_or_non_negative(member_at(v, seq!["search"@, "minEntityHits"@])),
        absent_or_non_negative(member_at(v, seq!["search"@, "topKEvents"@])),
        absent_or_non_negative(member_at(v, seq!["forgetting"@, "initialTtlDays"@])),
        absent_or_non_negative(member_at(v, seq!["forgetting"@, "reidentifyExtensionDays"@])),
        absent_or_non_negative(member_at(v, seq!["forgetting"@, "injectionExtensionDays"@])),
{
    reveal_with_fuel(member_at, 5);
}

/// Whether a member is absent, `null`, or a non-empty string.
pub open spec fn absent_null_or_non_empty(x: Option<JsonValue>) -> bool {
    match x {
        Some(JsonValue::String(s)) => s@.len() > 0,
        Some(JsonValue::Null) => true,
        Some(_) => false,
        None => true,
    }
}

/// Law: an accepted memory section is an object whose subsystems and their
/// groups are objects, whose `enabled` switches are booleans, whose model,
/// path, format and schedule settings are `null` or non-empty strings, and
/// whose scoring weights are numbers.
pub proof fn law_memory_fields_typed(v: JsonValue)
    requires
        memory_section_check(v) is Ok,
    ensures
        is_object(v),
        member_at(v, seq!["mining"@, "enabled"@]) matches Some(b) ==> b is Bool,
        member_at(v, seq!["dreaming"@, "enabled"@]) matches Some(b) ==> b is Bool,
        member_at(v, seq!["dreaming"@, "diary"@, "enabled"@]) matches Some(b) ==> b is Bool,
        member_at(v, seq!["search"@, "enabled"@]) matches Some(b) ==> b is Bool,
        absent_null_or_non_empty(member_at(v, seq!["storage"@, "dbPath"@])),
        absent_null_or_non_empty(member_at(v, seq!["storage"@, "memoryMdPath"@])),
        absent_null_or_non_empty(member_at(v, seq!["mining"@, "model"@])),
        absent_null_or_non_empty(member_at(v, seq!["mining"@, "transcriptCleanRules"@, "format"@])),
        absent_null_or_non_empty(member_at(v, seq!["dreaming"@, "model"@])),
        absent_null_or_non_empty(member_at(v, seq!["dreaming"@, "schedule"@])),
        absent_null_or_non_empty(member_at(v, seq!["dreaming"@, "diary"@, "path"@])),
        absent_null_or_non_empty(member_at(v, seq!["search"@, "model"@])),
        member_at(v, seq!["storage"@]) matches Some(o) ==> is_object(o),
        member_at(v, seq!["mining"@]) matches Some(o) ==> is_object(o),
        member_at(v, seq!["mining"@, "transcriptCleanRules"@]) matches Some(o) ==> is_object(o),
        member_at(v, seq!["dreaming"@]) matches Some(o) ==> is_object(o),
        member_at(v, seq!["dreaming"@, "scoring"@]) matches Some(o) ==> is_object(o),
        member_at(v, seq!["dreaming"@, "threshold"@]) matches Some(o) ==> is_object(o),
        member_at(v, seq!["dreaming"@, "capacity"@]) matches Some(o) ==> is_object(o),
        member_at(v, seq!["dreaming"@, "diary"@]) matches Some(o) ==> is_object(o),
        member_at(v, seq!["search"@]) matches Some(o) ==> is_object(o),
        member_at(v, seq!["forgetting"@]) matches Some(o) ==> is_object(o),
        member_at(v, seq!["dreaming"@, "scoring"@, "frequencyWeight"@]) matches Some(n) ==> n is Number,
        member_at(v, seq!["dreaming"@, "scoring"@, "recencyWeight"@]) matches Some(n) ==> n is Number,
        member_at(v, seq!["dreaming"@, "scoring"@, "explicitnessWeight"@]) matches Some(n) ==> n is Number,
        member_at(v, seq!["dreaming"@, "scoring"@, "crossAgentWeight"@]) matches Some(n) ==> n is Number,
        member_at(v, seq!["dreaming"@, "scoring"@, "negativeSignalWeight"@]) matches Some(n) ==> n is Number,
{
    reveal_with_fuel(member_at, 4);
}

/// Law: the dreaming thresholds pass exactly when they are absent, or an
/// object whose `absolute` and `relative` members are each absent or a
/// finite number that is not below zero.
pub proof fn law_threshold_accepted_iff(d: JsonValue)
    ensures
        threshold_check(d) is Ok <==> (json_get(d, "threshold"@) matches Some(t) ==> {
            &&& is_object(t)
            &&& absent_or_non_negative(json_get(t, "absolute"@))
            &&& absent_or_non_negative(json_get(t, "relative"@))
        }),
{
}

fn validate_storage(value: &JsonValue) -> (r: Result<(), String>)
    ensures
        outcome(r, storage_check(*value)),
{
    if let Some(storage) = value.get("storage") {
        let r = ensure_sub_object(storage, "memory.storage");
        if r.is_err() {
            return r;
        }
        let r = validate_optional_non_empty_string(storage, "dbPath", "memory.storage.dbPath");
        if r.is_err() {
            return r;
        }
        return validate_optional_non_empty_string(
            storage,
            "memoryMdPath",
            "memory.storage.memoryMdPath",
        );
    }
    Ok(())
}

fn validate_transcript_rules(mining: &JsonValue) -> (r: Result<(), String>)
    ensures
        outcome(r, transcript_rules_check(*mining)),
{
    if let Some(rules) = mining.get("transcriptCleanRules") {
        let r = ensure_sub_object(rules, "memory.mining.transcriptCleanRules");
        if r.is_err() {
            return r;
        }
        let r = validate_non_negative_number(
            rules,
            "minTurns",
            "memory.mining.transcriptCleanRules.minTurns",
        );
        if r.is_err() {
            return r;
        }
        let r = validate_non_negative_number(
            rules,
            "minOwnerMsgs",
            "memory.mining.transcriptCleanRules.minOwnerMsgs",
        );
        if r.is_err() {
            return r;
        }
        return validate_optional_non_empty_string(
            rules,
            "format",
            "memory.mining.transcriptCleanRules.format",
        );
    }
    Ok(())
}

/// Validate the mining subsystem.
fn validate_mining(value: &JsonValue) -> (r: Result<(), String>)
    ensures
        outcome(r, mining_check(*value)),
{
    let r = ensure_sub_object(value, "memory.mining");
    if r.is_err() {
        return r;
    }
    let r = validate_bool_field(value, "enabled", "memory.mining.enabled");
    if r.is_err() {
        return r;
    }
    let r = validate_optional_non_empty_string(value, "model", "memory.mining.model");
    if r.is_err() {
        return r;
    }
    let r = validate_non_negative_number(
        value,
        "maxEventsPerSession",
        "memory.mining.maxEventsPerSession",
    );
    if r.is_err() {
        return r;
    }
    let r = validate_non_negative_number(
        value,
        "dedupWindowDays",
        "memory.mining.dedupWindowDays",
    );
    if r.is_err() {
        return r;
    }
    validate_transcript_rules(value)
}

fn validate_scoring(dreaming: &JsonValue) -> (r: Result<(), String>)
    ensures
        outcome(r, scoring_check(*dreaming)),
{
    if let Some(scoring) = dreaming.get("scoring") {
        let r = ensure_sub_object(scoring, "memory.dreaming.scoring");
        if r.is_err() {
            return r;
        }
        let r = validate_number_field(
            scoring,
            "frequencyWeight",
            "memory.dreaming.scoring.frequencyWeight",
        );
        if r.is_err() {
            return r;
        }
        let r = validate_number_field(
            scoring,
            "recencyWeight",
            "memory.dreaming.scoring.recencyWeight",
        );
        if r.is_err() {
            return r;
        }
        let r = validate_number_field(
            scoring,
            "explicitnessWeight",
            "memory.dreaming.scoring.explicitnessWeight",
        );
        if r.is_err() {
            return r;
        }
        let r = validate_number_field(
            scoring,
            "crossAgentWeight",
            "memory.dreaming.scoring.crossAgentWeight",
        );
        if r.is_err() {
            return r;
        }
        return validate_number_field(
            scoring,
            "negativeSignalWeight",
            "memory.dreaming.scoring.negativeSignalWeight",
        );
    }
    Ok(())
}

fn validate_threshold(dreaming: &JsonValue) -> (r: Result<(), String>)
    ensures
        outcome(r, threshold_check(*dreaming)),
{
    if let Some(threshold) = dreaming.get("threshold") {
        let r = ensure_sub_object(threshold, "memory.dreaming.threshold");
        if r.is_err() {
            return r;
        }
        let r = validate_non_negative_number(
            threshold,
            "absolute",
            "memory.dreaming.threshold.absolute",
        );
        if r.is_err() {
            return r;
        }
        return validate_non_negative_number(
            threshold,
            "relative",
            "memory.dreaming.threshold.relative",
        );
    }
    Ok(())
}

fn validate_capacity(dreaming: &JsonValue) -> (r: Result<(), String>)
    ensures
        outcome(r, capacity_check(*dreaming)),
{
    if let Some(capacity) = dreaming.get("capacity") {
        let r = ensure_sub_object(capacity, "memory.dreaming.capacity");
        if r.is_err() {
            return r;
        }
        return validate_non_negative_number(
            capacity,
            "maxRules",
            "memory.dreaming.capacity.maxRules",
        );
    }
    Ok(())
}

fn validate_diary(dreaming: &JsonValue) -> (r: Result<(), String>)
    ensures
        outcome(r, diary_check(*dreaming)),
{
    if let Some(diary) = dreaming.get("diary") {
        let r = ensure_sub_object(diary, "memory.dreaming.diary");
        if r.is_err() {
            return r;
        }
        let r = validate_bool_field(diary, "enabled", "memory.dreaming.diary.enabled");
        if r.is_err() {
            return r;
        }
        return validate_optional_non_empty_string(diary, "path", "memory.dreaming.diary.path");
    }
    Ok(())
}

/// Validate the dreaming subsystem.
fn validate_dreaming(value: &JsonValue) -> (r: Result<(), String>)
    ensures
        outcome(r, dreaming_check(*value)),
{
    let r = ensure_sub_object(value, "memory.dreaming");
    if r.is_err() {
        return r;
    }
    let r = validate_bool_field(value, "enabled", "memory.dreaming.enabled");
    if r.is_err() {
        return r;
    }
    let r = validate_optional_non_empty_string(value, "model", "memory.dreaming.model");
    if r.is_err() {
        return r;
    }
    let r = validate_optional_non_empty_string(value, "schedule", "memory.dreaming.schedule");
    if r.is_err() {
        return r;
    }
    let r = validate_scoring(value);
    if r.is_err() {
        return r;
    }
    let r = validate_threshold(value);
    if r.is_err() {
        return r;
    }
    let r = validate_capacity(value);
    if r.is_err() {
        return r;
    }
    validate_diary(value)
}

/// Validate the search subsystem.
fn validate_search(value: &JsonValue) -> (r: Result<(), String>)
    ensures
        outcome(r, search_check(*value)),
{
    let r = ensure_sub_object(value, "memory.search");
    if r.is_err() {
        return r;
    }
    let r = validate_bool_field(value, "enabled", "memory.search.enabled");
    if r.is_err() {
        return r;
    }
    let r = validate_optional_non_empty_string(value, "model", "memory.search.model");
    if r.is_err() {
        return r;
    }
    let r = validate_non_negative_number(value, "contextTurns", "memory.search.contextTurns");
    if r.is_err() {
        return r;
    }
    let r = validate_non_negative_number(value, "timeoutMs", "memory.search.timeoutMs");
    if r.is_err() {
        return r;
    }
    let r = validate_non_negative_number(
        value,
        "maxSummaryChars",
        "memory.search.maxSummaryChars",
    );
    if r.is_err() {
        return r;
    }
    let r = validate_non_negative_number(value, "minEntityHits", "memory.search.minEntityHits");
    if r.is_err() {
        return r;
    }
    validate_non_negative_number(value, "topKEvents", "memory.search.topKEvents")
}

/// Validate the forgetting subsystem.
fn validate_forgetting(value: &JsonValue) -> (r: Result<(), String>)
    ensures
        outcome(r, forgetting_check(*value)),
{
    let r = ensure_sub_object(value, "memory.forgetting");
    if r.is_err() {
        return r;
    }
    let r = validate_non_negative_number(
        value,
        "initialTtlDays",
        "memory.forgetting.initialTtlDays",
    );
    if r.is_err() {
        return r;
    }
    let r = validate_non_negative_number(
        value,
        "reidentifyExtensionDays",
        "memory.forgetting.reidentifyExtensionDays",
    );
    if r.is_err() {
        return r;
    }
    validate_non_negative_number(
        value,
        "injectionExtensionDays",
        "memory.forgetting.injectionExtensionDays",
    )
}

/// Validate the **memory** config section.
pub fn validate_memory(value: &JsonValue) -> (r: Result<(), String>)
    ensures
        outcome(r, memory_section_check(*value)),
{
    let r = ensure_object(value, "memory");
    if r.is_err() {
        return r;
    }
    let r = validate_storage(value);
    if r.is_err() {
        return r;
    }
    if let Some(mining) = value.get("mining") {
        let r = validate_mining(mining);
        if r.is_err() {
            return r;
        }
    }
    if let Some(dreaming) = value.get("dreaming") {
        let r = validate_dreaming(dreaming);
        if r.is_err() {
            return r;
        }
    }
    if let Some(search) = value.get("search") {
        let r = validate_search(search);
        if r.is_err() {
            return r;
        }
    }
    if let Some(forgetting) = value.get("forgetting") {
        let r = validate_forgetting(forgetting);
        if r.is_err() {
            return r;
        }
    }
    Ok(())
}

} // verus!
