//! Provider credentials (the files of `config/credentials/`).
//!
//! Credentials are kept by provider name; a name holds at most one
//! credential, and inserting under a known name replaces it.

use vstd::prelude::*;

use crate::assoc::{assoc_get, assoc_has, assoc_index, assoc_keys_distinct, assoc_lookup, assoc_put};
use crate::checks::cat3;
use crate::errors::ConfigError;
use crate::json::JsonValue;
use crate::reload::{file_name, path_file_name};
use crate::text::{chars_of, has_str, occurs_at_exec, owned, push_str, vec_has_str};
use crate::validators::{credentials_file_check, validate_credentials};

verus! {

/// API-key credentials of a generic provider.
#[derive(Debug, Clone, PartialEq, Eq)]
pub struct ApiKeyCredentials {
    pub provider: String,
    pub api_key: String,
}

/// A Feishu profile: the credentials themselves are managed by the CLI.
#[derive(Debug, Clone, PartialEq, Eq)]
pub struct FeishuProfile {
    pub provider: String,
    pub profile: String,
    pub bot_name: Option<String>,
}

/// Credentials of one of the supported provider shapes.
#[derive(Debug, Clone, PartialEq, Eq)]
pub enum AnyProviderCredentials {
    ApiKey(ApiKeyCredentials),
    Feishu(FeishuProfile),
}

/// The provider name a credential file declares.
pub open spec fn credential_name(c: AnyProviderCredentials) -> Seq<char> {
    match c {
        AnyProviderCredentials::ApiKey(k) => k.provider@,
        AnyProviderCredentials::Feishu(f) => f.provider@,
    }
}

impl AnyProviderCredentials {
    /// The provider name these credentials declare.
    pub fn provider_name(&self) -> (r: String)
        ensures
            r@ == credential_name(*self),
    {
        match self {
            AnyProviderCredentials::ApiKey(k) => k.provider.clone(),
            AnyProviderCredentials::Feishu(f) => f.provider.clone(),
        }
    }
}

/// All loaded credentials, by provider name.
#[derive(Debug, Clone, PartialEq, Eq)]
pub struct CredentialsProvider {
    /// Credentials by provider name, one entry per name.
    pub providers: Vec<(String, AnyProviderCredentials)>,
}

impl Default for CredentialsProvider {
    fn default() -> (r: Self)
        ensures
            r.providers@.len() == 0,
    {
        CredentialsProvider { providers: Vec::new() }
    }
}

/// Whether credentials `c` are usable: a non-empty key or profile.
pub open spec fn credential_usable(c: AnyProviderCredentials) -> bool {
    match c {
        AnyProviderCredentials::ApiKey(k) => k.api_key@.len() > 0,
        AnyProviderCredentials::Feishu(f) => f.profile@.len() > 0,
    }
}

/// The error for unusable credentials `c` of provider `name`, as (field, message).
pub open spec fn credential_error(name: Seq<char>, c: AnyProviderCredentials) -> (Seq<char>, Seq<char>) {
    match c {
        AnyProviderCredentials::ApiKey(_) => (name + ".api_key"@, "api_key cannot be empty"@),
        AnyProviderCredentials::Feishu(_) => (name + ".profile"@, "profile cannot be empty"@),
    }
}

/// Whether `e` is the value error with this field and message.
pub open spec fn is_value_error(e: ConfigError, field: Seq<char>, message: Seq<char>) -> bool {
    match e {
        ConfigError::ValueError { field: f, message: m } => f@ == field && m@ == message,
        _ => false,
    }
}

/// The conventional credential file of provider `id`, relative to the
/// configuration directory: `credentials/<id>.json`.
pub open spec fn convention_credential_file(id: Seq<char>) -> Seq<char> {
    "credentials/"@ + id + ".json"@
}

/// Whether a models provider `(id, credential path)` has credentials:
/// loaded ones, a non-empty credential path to a file that exists, or a
/// conventional file `credentials/<id>.json` that exists.
pub open spec fn provider_covered(
    creds: Seq<(String, AnyProviderCredentials)>,
    id: Seq<char>,
    path: Option<String>,
    existing: Seq<String>,
) -> bool {
    ||| assoc_has(creds, id)
    ||| match path {
        Some(p) => p@.len() > 0 && has_str(existing, p@),
        None => false,
    }
    ||| has_str(existing, convention_credential_file(id))
}

/// The conventional credential file of provider `id`, relative to the
/// configuration directory.
pub fn convention_credential_path(id: &str) -> (r: String)
    ensures
        r@ == convention_credential_file(id@),
{
    let mut r = owned("credentials/");
    push_str(&mut r, id);
    push_str(&mut r, ".json");
    r
}

/// The message for a models provider without credentials.
pub open spec fn missing_credentials_message(id: Seq<char>) -> Seq<char> {
    "provider '"@ + id
        + "' is referenced in models.json but has no credentials (set credentialPath in models.json, create a credentials file in config/credentials/, or check the provider ID)"@
}

impl CredentialsProvider {
    /// The credentials held under each name (the first entry of a name).
    pub open spec fn lookup(&self, name: Seq<char>) -> Option<AnyProviderCredentials> {
        assoc_lookup(self.providers@, name)
    }

    /// The credentials of provider `provider`.
    pub fn get(&self, provider: &str) -> (r: Option<&AnyProviderCredentials>)
        ensures
            match r {
                Some(c) => self.lookup(provider@) == Some(*c),
                None => self.lookup(provider@) is None,
            },
    {
        assoc_get(&self.providers, provider)
    }

    /// The API key of provider `provider`, when it has API-key credentials.
    pub fn get_api_key(&self, provider: &str) -> (r: Option<String>)
        ensures
            match self.lookup(provider@) {
                Some(AnyProviderCredentials::ApiKey(k)) => r matches Some(key) && key@ == k.api_key@,
                _ => r is None,
            },
    {
        match self.get(provider) {
            Some(AnyProviderCredentials::ApiKey(k)) => Some(k.api_key.clone()),
            _ => None,
        }
    }

    /// The first Feishu profile among the credentials.
    pub fn feishu_profile(&self) -> (r: Option<&FeishuProfile>)
        ensures
            match r {
                Some(f) => exists|i: int|
                    0 <= i < self.providers@.len() && self.providers@[i].1
                        == AnyProviderCredentials::Feishu(*f) && forall|j: int|
                        0 <= j < i ==> !((#[trigger] self.providers@[j]).1 is Feishu),
                None => forall|i: int|
                    0 <= i < self.providers@.len() ==> !((#[trigger] self.providers@[i]).1 is Feishu),
            },
    {
        let mut i: usize = 0;
        while i < self.providers.len()
            invariant
                i <= self.providers@.len(),
                forall|j: int| 0 <= j < i ==> !((#[trigger] self.providers@[j]).1 is Feishu),
            decreases self.providers.len() - i,
        {
            if let AnyProviderCredentials::Feishu(f) = &self.providers[i].1 {
                return Some(f);
            }
            i = i + 1;
        }
        None
    }

    /// Store `creds` under `name`, replacing what the name held.
    pub fn insert(&mut self, name: String, creds: AnyProviderCredentials)
        requires
            assoc_keys_distinct(old(self).providers@),
        ensures
            assoc_keys_distinct(final(self).providers@),
            final(self).lookup(name@) == Some(creds),
            forall|k: Seq<char>| k != name@ ==> final(self).lookup(k) == old(self).lookup(k),
    {
        assoc_put(&mut self.providers, name, creds);
    }

    /// Take every entry of `extra` over, replacing what its names held:
    /// credentials referenced explicitly win over those found by convention.
    pub fn merge_from(&mut self, extra: CredentialsProvider)
        requires
            assoc_keys_distinct(old(self).providers@),
            assoc_keys_distinct(extra.providers@),
        ensures
            assoc_keys_distinct(final(self).providers@),
            forall|k: Seq<char>|
                #[trigger] final(self).lookup(k) == match extra.lookup(k) {
                    Some(c) => Some(c),
                    None => old(self).lookup(k),
                },
    {
        let ghost all = extra.providers@;
        let ghost n = all.len();
        let mut rest = extra.providers;
        while rest.len() > 0
            invariant
                assoc_keys_distinct(all),
                rest@ == all.subrange(0, rest@.len() as int),
                rest@.len() <= n,
                n == all.len(),
                assoc_keys_distinct(self.providers@),
                forall|k: Seq<char>|
                    #[trigger] self.lookup(k) == match assoc_lookup(
                        all.subrange(rest@.len() as int, n as int),
                        k,
                    ) {
                        Some(c) => Some(c),
                        None => old(self).lookup(k),
                    },
            decreases rest@.len(),
        {
            let ghost i = rest@.len() - 1;
            let entry = rest.pop();
            match entry {
                Some((name, creds)) => {
                    let ghost key = name@;
                    let ghost tail = all.subrange(i, n as int);
                    let ghost before = *self;
                    proof {
                        assert(all[i] == (name, creds));
                        assert(tail.drop_first() =~= all.subrange(i + 1, n as int));
                        assert(tail[0] == (name, creds));
                    }
                    assoc_put(&mut self.providers, name, creds);
                    proof {
                        assert(rest@ =~= all.subrange(0, rest@.len() as int));
                        assert forall|k: Seq<char>|
                            #[trigger] self.lookup(k) == match assoc_lookup(tail, k) {
                                Some(c) => Some(c),
                                None => old(self).lookup(k),
                            } by {
                            if k != key {
                                assert(assoc_lookup(tail, k) == assoc_lookup(tail.drop_first(), k));
                                assert(self.lookup(k) == before.lookup(k));
                            }
                        }
                    }
                },
                None => {},
            }
        }
        proof {
            assert(all.subrange(0, n as int) =~= all);
        }
    }

    /// The configuration format version.
    pub fn version(&self) -> (r: &'static str)
        ensures
            r@ == "1.0.0"@,
    {
        "1.0.0"
    }

    /// The configuration location under the configuration directory.
    pub fn config_path() -> (r: &'static str)
        ensures
            r@ == "credentials/"@,
    {
        "credentials/"
    }

    /// Whether no credentials are loaded.
    pub fn is_default(&self) -> (r: bool)
        ensures
            r == (self.providers@.len() == 0),
    {
        self.providers.len() == 0
    }

    /// Check that every credential carries a non-empty key or profile; the
    /// first unusable one, in order, is reported.
    pub fn validate(&self) -> (r: Result<(), ConfigError>)
        ensures
            match r {
                Ok(_) => forall|i: int|
                    0 <= i < self.providers@.len() ==> credential_usable(
                        (#[trigger] self.providers@[i]).1,
                    ),
                Err(e) => exists|i: int|
                    0 <= i < self.providers@.len() && !credential_usable(self.providers@[i].1)
                        && (forall|j: int|
                        0 <= j < i ==> credential_usable((#[trigger] self.providers@[j]).1))
                        && is_value_error(
                        e,
                        credential_error(self.providers@[i].0@, self.providers@[i].1).0,
                        credential_error(self.providers@[i].0@, self.providers@[i].1).1,
                    ),
            },
    {
        let mut i: usize = 0;
        while i < self.providers.len()
            invariant
                i <= self.providers@.len(),
                forall|j: int|
                    0 <= j < i ==> credential_usable((#[trigger] self.providers@[j]).1),
            decreases self.providers.len() - i,
        {
            let name = self.providers[i].0.as_str();
            match &self.providers[i].1 {
                AnyProviderCredentials::ApiKey(k) => {
                    if k.api_key.as_str().is_empty() {
                        let mut field = owned(name);
                        push_str(&mut field, ".api_key");
                        return Err(
                            ConfigError::ValueError {
                                field,
                                message: owned("api_key cannot be empty"),
                            },
                        );
                    }
                },
                AnyProviderCredentials::Feishu(f) => {
                    if f.profile.as_str().is_empty() {
                        let mut field = owned(name);
                        push_str(&mut field, ".profile");
                        return Err(
                            ConfigError::ValueError {
                                field,
                                message: owned("profile cannot be empty"),
                            },
                        );
                    }
                },
            }
            i = i + 1;
        }
        Ok(())
    }

    /// Check that every provider referenced by the models configuration has
    /// credentials: loaded ones, a `credentialPath` to a file that exists,
    /// or a conventional file `credentials/<provider>.json` that exists.
    ///
    /// `models` lists the referenced providers with their credential paths,
    /// in order; `existing` lists the credential files, relative to the
    /// configuration directory, that exist.
    /// The first provider without credentials is reported.
    pub fn validate_model_references(
        &self,
        models: &Vec<(String, Option<String>)>,
        existing: &Vec<String>,
    ) -> (r: Result<(), ConfigError>)
        ensures
            match r {
                Ok(_) => forall|i: int|
                    0 <= i < models@.len() ==> provider_covered(
                        self.providers@,
                        (#[trigger] models@[i]).0@,
                        models@[i].1,
                        existing@,
                    ),
                Err(e) => exists|i: int|
                    0 <= i < models@.len() && !provider_covered(
                        self.providers@,
                        models@[i].0@,
                        models@[i].1,
                        existing@,
                    ) && (forall|j: int|
                        0 <= j < i ==> provider_covered(
                            self.providers@,
                            (#[trigger] models@[j]).0@,
                            models@[j].1,
                            existing@,
                        )) && is_value_error(
                        e,
                        "credentials."@ + models@[i].0@,
                        missing_credentials_message(models@[i].0@),
                    ),
            },
    {
        let mut i: usize = 0;
        while i < models.len()
            invariant
                i <= models@.len(),
                forall|j: int|
                    0 <= j < i ==> provider_covered(
                        self.providers@,
                        (#[trigger] models@[j]).0@,
                        models@[j].1,
                        existing@,
                    ),
            decreases models.len() - i,
        {
            let id = models[i].0.as_str();
            let mut covered = assoc_index(&self.providers, id).is_some();
            if !covered {
                if let Some(p) = &models[i].1 {
                    covered = !p.as_str().is_empty() && vec_has_str(existing, p.as_str());
                }
            }
            if !covered {
                let conventional = convention_credential_path(id);
                covered = vec_has_str(existing, conventional.as_str());
            }
            if !covered {
                let mut message = cat3("provider '", id, "' is referenced in models.json but has no credentials (set credentialPath in models.json, create a credentials file in config/credentials/, or check the provider ID)");
                let mut field = owned("credentials.");
                push_str(&mut field, id);
                proof {
                    assert(message@ == missing_credentials_message(id@));
                }
                return Err(ConfigError::ValueError { field, message });
            }
            i = i + 1;
        }
        Ok(())
    }
}

// ── Reading the credentials directory: decisions ──────────────────────

/// Whether a file name has the extension `json`: it ends with `.json`
/// and has a stem before that.
pub open spec fn json_file_name(n: Seq<char>) -> bool {
    n.len() > 5 && n.subrange(n.len() - 5, n.len() as int) == ".json"@
}

/// Whether the file at `path` is a credential file candidate, by its extension.
pub fn has_json_extension(path: &str) -> (r: bool)
    ensures
        r == match file_name(path@) {
            Some(n) => json_file_name(n),
            None => false,
        },
{
    match path_file_name(path) {
        Some(n) => {
            let v = chars_of(n.as_str());
            if v.len() <= 5 {
                return false;
            }
            let suffix = chars_of(".json");
            let r = occurs_at_exec(&v, &suffix, v.len() - 5);
            proof {
                reveal_strlit(".json");
            }
            r
        },
        None => false,
    }
}

/// The message for a credential file that matches no credential shape.
pub open spec fn unknown_shape_text() -> Seq<char> {
    "credential file does not match any known credential shape"@
}

/// Screen one credential file before it is converted: a file that is not
/// JSON or fails validation aborts a strict load and is skipped otherwise;
/// a valid file's value is handed on for conversion.
pub fn screen_credential_file(path: &str, parsed: Result<JsonValue, String>, strict: bool) -> (r:
    Result<Option<JsonValue>, ConfigError>)
    ensures
        match parsed {
            Err(e) => if strict {
                r matches Err(ConfigError::ParseError { path: p, error: m }) && p@ == path@ && m
                    == e
            } else {
                r matches Ok(None)
            },
            Ok(v) => match credentials_file_check(v) {
                Err(msg) => if strict {
                    r matches Err(ConfigError::ValidationError { path: p, message: m }) && p@
                        == path@ && m@ == msg
                } else {
                    r matches Ok(None)
                },
                Ok(_) => r == Ok::<Option<JsonValue>, ConfigError>(Some(v)),
            },
        },
{
    match parsed {
        Err(e) => {
            if strict {
                Err(ConfigError::ParseError { path: owned(path), error: e })
            } else {
                Ok(None)
            }
        },
        Ok(v) => {
            match validate_credentials(&v) {
                Err(msg) => {
                    if strict {
                        Err(ConfigError::ValidationError { path: owned(path), message: msg })
                    } else {
                        Ok(None)
                    }
                },
                Ok(()) => Ok(Some(v)),
            }
        },
    }
}

/// Accept the converted credentials of a file under their provider name;
/// `shape` is `None` when the value matched no credential shape, which
/// aborts a strict load and skips the file otherwise.
pub fn accept_credential_shape(
    path: &str,
    shape: Option<AnyProviderCredentials>,
    strict: bool,
) -> (r: Result<Option<(String, AnyProviderCredentials)>, ConfigError>)
    ensures
        match shape {
            Some(c) => r matches Ok(Some((n, d))) && n@ == credential_name(c) && d == c,
            None => if strict {
                r matches Err(ConfigError::ParseError { path: p, error: m }) && p@ == path@ && m@
                    == unknown_shape_text()
            } else {
                r matches Ok(None)
            },
        },
{
    match shape {
        Some(c) => {
            let n = c.provider_name();
            Ok(Some((n, c)))
        },
        None => {
            if strict {
                Err(
                    ConfigError::ParseError {
                        path: owned(path),
                        error: owned("credential file does not match any known credential shape"),
                    },
                )
            } else {
                Ok(None)
            }
        },
    }
}

/// The first credential, in order, whose value fails validation: its
/// name and the validator's message. `values` holds each credential's
/// name with its value as written to disk.
pub fn first_invalid_credential(values: &Vec<(String, JsonValue)>) -> (r: Option<(String, String)>)
    ensures
        match r {
            None => forall|i: int|
                0 <= i < values@.len() ==> (#[trigger] credentials_file_check(values@[i].1)) is Ok,
            Some((n, m)) => exists|i: int|
                0 <= i < values@.len() && n@ == values@[i].0@ && credentials_file_check(
                    values@[i].1,
                ) == Err::<(), Seq<char>>(m@) && forall|j: int|
                    0 <= j < i ==> (#[trigger] credentials_file_check(values@[j].1)) is Ok,
        },
{
    let mut i: usize = 0;
    while i < values.len()
        invariant
            i <= values@.len(),
            forall|j: int| 0 <= j < i ==> (#[trigger] credentials_file_check(values@[j].1)) is Ok,
        decreases values.len() - i,
    {
        match validate_credentials(&values[i].1) {
            Err(m) => {
                let n = owned(values[i].0.as_str());
                return Some((n, m));
            },
            Ok(()) => {},
        }
        i = i + 1;
    }
    None
}

/// The message reported when a credential fails validation on reload.
pub open spec fn invalid_credential_text(name: Seq<char>, msg: Seq<char>) -> Seq<char> {
    "credential '"@ + name + "' failed validation: "@ + msg
}

/// The message reported when a credential fails validation on reload.
pub fn invalid_credential_message(name: &str, msg: &str) -> (r: String)
    ensures
        r@ == invalid_credential_text(name@, msg@),
{
    let mut r = owned("credential '");
    push_str(&mut r, name);
    push_str(&mut r, "' failed validation: ");
    push_str(&mut r, msg);
    r
}

} // verus!
