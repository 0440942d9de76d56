//! Accounts configuration (`accounts.json`): identity mappings of IM
//! users to local accounts, and bot-to-agent bindings.

use vstd::prelude::*;

use crate::checks::{cat2, cat_index};
use crate::errors::ConfigError;
use crate::identity::IdentityMapping;
use crate::text::{decimal, owned, push_decimal, push_str, str_eq};

verus! {

/// Bot-to-agent binding: routes messages of a bot application to an agent.
#[derive(Debug, Clone, PartialEq, Eq)]
pub struct BotAgentBinding {
    /// Bot application id on the IM platform.
    pub bot_app_id: String,
    /// Local agent the bot is bound to.
    pub agent_id: String,
}

/// Root accounts configuration.
#[derive(Debug, Clone)]
pub struct AccountsConfigData {
    pub accounts: Vec<IdentityMapping>,
    /// Bot-to-agent bindings, looked up by `bot_app_id`.
    pub bindings: Vec<BotAgentBinding>,
}

impl Default for AccountsConfigData {
    fn default() -> (r: Self)
        ensures
            r.accounts@.len() == 0,
            r.bindings@.len() == 0,
    {
        AccountsConfigData { accounts: Vec::new(), bindings: Vec::new() }
    }
}

/// The accounts of `s` on `platform`, in order.
pub open spec fn on_platform(s: Seq<IdentityMapping>, platform: Seq<char>) -> Seq<IdentityMapping>
    decreases s.len(),
{
    if s.len() == 0 {
        Seq::empty()
    } else if s.last().platform@ == platform {
        on_platform(s.drop_last(), platform).push(s.last())
    } else {
        on_platform(s.drop_last(), platform)
    }
}

/// A failed check of the accounts: the field and the message.
pub open spec fn value_error_is(e: ConfigError, field: Seq<char>, message: Seq<char>) -> bool {
    match e {
        ConfigError::ValueError { field: f, message: m } => f@ == field && m@ == message,
        _ => false,
    }
}

/// Whether an account before `i` has the account id of account `i`.
pub open spec fn duplicate_id_before(s: Seq<IdentityMapping>, i: int) -> bool {
    exists|j: int| 0 <= j < i && (#[trigger] s[j]).account_id@ == s[i].account_id@
}

/// Whether an account before `i` has the platform, bot and sender of account `i`.
pub open spec fn duplicate_binding_before(s: Seq<IdentityMapping>, i: int) -> bool {
    exists|j: int|
        0 <= j < i && (#[trigger] s[j]).platform@ == s[i].platform@ && s[j].bot_app_id@
            == s[i].bot_app_id@ && s[j].sender_id@ == s[i].sender_id@
}

/// The error found at account `i`, as (field, message), if any.
pub open spec fn account_error(s: Seq<IdentityMapping>, i: int) -> Option<(Seq<char>, Seq<char>)> {
    let a = s[i];
    if a.account_id@.len() == 0 {
        Some(("accounts["@ + decimal(i as nat) + "].accountId"@, "account_id cannot be empty"@))
    } else if a.sender_id@.len() == 0 {
        Some(("accounts["@ + decimal(i as nat) + "].senderId"@, "sender_id cannot be empty"@))
    } else if duplicate_id_before(s, i) {
        Some(
            (
                "accountId"@,
                "duplicate account_id '"@ + a.account_id@ + "' at index "@ + decimal(i as nat),
            ),
        )
    } else if duplicate_binding_before(s, i) {
        Some(
            (
                "accounts["@ + decimal(i as nat) + "]"@,
                "duplicate binding: platform='"@ + a.platform@ + "', bot_app_id='"@ + a.bot_app_id@
                    + "', sender_id='"@ + a.sender_id@ + "' at index "@ + decimal(i as nat),
            ),
        )
    } else {
        None
    }
}

/// The first error among the accounts `s[i..]`, if any.
pub open spec fn first_account_error(s: Seq<IdentityMapping>, i: nat) -> Option<
    (Seq<char>, Seq<char>),
>
    decreases s.len() - i,
{
    if i >= s.len() {
        None
    } else {
        match account_error(s, i as int) {
            Some(e) => Some(e),
            None => first_account_error(s, i + 1),
        }
    }
}

/// Whether the account ids of `s` are non-empty and pairwise distinct.
pub open spec fn account_ids_unique(s: Seq<IdentityMapping>) -> bool {
    &&& forall|i: int| 0 <= i < s.len() ==> (#[trigger] s[i]).account_id@.len() > 0
    &&& forall|i: int, j: int|
        0 <= i < s.len() && 0 <= j < s.len() && i != j ==> (#[trigger] s[i]).account_id@
            != (#[trigger] s[j]).account_id@
}

impl AccountsConfigData {
    /// The first account whose id is `account_id`.
    pub fn get_account(&self, account_id: &str) -> (r: Option<&IdentityMapping>)
        ensures
            match r {
                Some(m) => exists|i: int|
                    0 <= i < self.accounts@.len() && *m == self.accounts@[i]
                        && self.accounts@[i].account_id@ == account_id@ && forall|j: int|
                        0 <= j < i ==> (#[trigger] self.accounts@[j]).account_id@ != account_id@,
                None => forall|i: int|
                    0 <= i < self.accounts@.len() ==> (#[trigger] self.accounts@[i]).account_id@
                        != account_id@,
            },
    {
        let mut i: usize = 0;
        while i < self.accounts.len()
            invariant
                i <= self.accounts@.len(),
                forall|j: int|
                    0 <= j < i ==> (#[trigger] self.accounts@[j]).account_id@ != account_id@,
            decreases self.accounts.len() - i,
        {
            if str_eq(self.accounts[i].account_id.as_str(), account_id) {
                return Some(&self.accounts[i]);
            }
            i = i + 1;
        }
        None
    }

    /// The accounts on `platform`, in order.
    pub fn accounts_by_platform(&self, platform: &str) -> (r: Vec<&IdentityMapping>)
        ensures
            r@.len() == on_platform(self.accounts@, platform@).len(),
            forall|k: int| 0 <= k < r@.len() ==> *r@[k] == on_platform(self.accounts@, platform@)[k],
    {
        let mut r: Vec<&IdentityMapping> = Vec::new();
        let mut i: usize = 0;
        assert(self.accounts@.subrange(0, 0) =~= Seq::<IdentityMapping>::empty());
        while i < self.accounts.len()
            invariant
                i <= self.accounts@.len(),
                r@.len() == on_platform(self.accounts@.subrange(0, i as int), platform@).len(),
                forall|k: int|
                    0 <= k < r@.len() ==> *r@[k] == on_platform(
                        self.accounts@.subrange(0, i as int),
                        platform@,
                    )[k],
            decreases self.accounts.len() - i,
        {
            assert(self.accounts@.subrange(0, i + 1).drop_last() =~= self.accounts@.subrange(
                0,
                i as int,
            ));
            if str_eq(self.accounts[i].platform.as_str(), platform) {
                r.push(&self.accounts[i]);
            }
            i = i + 1;
        }
        assert(self.accounts@.subrange(0, self.accounts@.len() as int) =~= self.accounts@);
        r
    }

    /// The first binding of the bot application `bot_app_id`.
    pub fn get_binding(&self, bot_app_id: &str) -> (r: Option<&BotAgentBinding>)
        ensures
            match r {
                Some(b) => exists|i: int|
                    0 <= i < self.bindings@.len() && *b == self.bindings@[i]
                        && self.bindings@[i].bot_app_id@ == bot_app_id@ && forall|j: int|
                        0 <= j < i ==> (#[trigger] self.bindings@[j]).bot_app_id@ != bot_app_id@,
                None => forall|i: int|
                    0 <= i < self.bindings@.len() ==> (#[trigger] self.bindings@[i]).bot_app_id@
                        != bot_app_id@,
            },
    {
        let mut i: usize = 0;
        while i < self.bindings.len()
            invariant
                i <= self.bindings@.len(),
                forall|j: int|
                    0 <= j < i ==> (#[trigger] self.bindings@[j]).bot_app_id@ != bot_app_id@,
            decreases self.bindings.len() - i,
        {
            if str_eq(self.bindings[i].bot_app_id.as_str(), bot_app_id) {
                return Some(&self.bindings[i]);
            }
            i = i + 1;
        }
        None
    }

    /// The configuration format version.
    pub fn version(&self) -> (r: &'static str)
        ensures
            r@ == "1.0.0"@,
    {
        "1.0.0"
    }

    /// The configuration file name.
    pub fn config_path() -> (r: &'static str)
        ensures
            r@ == "accounts.json"@,
    {
        "accounts.json"
    }

    /// Whether the configuration declares nothing.
    pub fn is_default(&self) -> (r: bool)
        ensures
            r == (self.accounts@.len() == 0 && self.bindings@.len() == 0),
    {
        self.accounts.len() == 0 && self.bindings.len() == 0
    }

    /// Check the accounts: ids and senders non-empty, ids unique, and the
    /// (platform, bot, sender) combination unique. The first failing
    /// account, in order, is reported.
    pub fn validate(&self) -> (r: Result<(), ConfigError>)
        ensures
            match first_account_error(self.accounts@, 0) {
                None => r is Ok,
                Some(e) => r matches Err(err) && value_error_is(err, e.0, e.1),
            },
    {
        let accs = &self.accounts;
        let mut i: usize = 0;
        while i < accs.len()
            invariant
                i <= accs@.len(),
                accs@ == self.accounts@,
                first_account_error(accs@, 0) == first_account_error(accs@, i as nat),
            decreases accs.len() - i,
        {
            let a = &accs[i];
            if a.account_id.as_str().is_empty() {
                return Err(
                    ConfigError::ValueError {
                        field: cat_index("accounts[", i, "].accountId"),
                        message: owned("account_id cannot be empty"),
                    },
                );
            }
            if a.sender_id.as_str().is_empty() {
                return Err(
                    ConfigError::ValueError {
                        field: cat_index("accounts[", i, "].senderId"),
                        message: owned("sender_id cannot be empty"),
                    },
                );
            }
            let mut dup_id = false;
            let mut dup_binding = false;
            let mut j: usize = 0;
            while j < i
                invariant
                    j <= i < accs@.len(),
                    *a == accs@[i as int],
                    dup_id == (exists|k: int|
                        0 <= k < j && (#[trigger] accs@[k]).account_id@ == accs@[i as int].account_id@),
                    dup_binding == (exists|k: int|
                        0 <= k < j && (#[trigger] accs@[k]).platform@ == accs@[i as int].platform@
                            && accs@[k].bot_app_id@ == accs@[i as int].bot_app_id@
                            && accs@[k].sender_id@ == accs@[i as int].sender_id@),
                decreases i - j,
            {
                let b = &accs[j];
                assert(*b == accs@[j as int]);
                if str_eq(b.account_id.as_str(), a.account_id.as_str()) {
                    dup_id = true;
                }
                if str_eq(b.platform.as_str(), a.platform.as_str()) && str_eq(
                    b.bot_app_id.as_str(),
                    a.bot_app_id.as_str(),
                ) && str_eq(b.sender_id.as_str(), a.sender_id.as_str()) {
                    dup_binding = true;
                }
                j = j + 1;
            }
            if dup_id {
                let mut message = cat2("duplicate account_id '", a.account_id.as_str());
                push_str(&mut message, "' at index ");
                push_decimal(&mut message, i as u64);
                return Err(ConfigError::ValueError { field: owned("accountId"), message });
            }
            if dup_binding {
                let mut message = cat2("duplicate binding: platform='", a.platform.as_str());
                push_str(&mut message, "', bot_app_id='");
                push_str(&mut message, a.bot_app_id.as_str());
                push_str(&mut message, "', sender_id='");
                push_str(&mut message, a.sender_id.as_str());
                push_str(&mut message, "' at index ");
                push_decimal(&mut message, i as u64);
                return Err(
                    ConfigError::ValueError { field: cat_index("accounts[", i, "]"), message },
                );
            }
            i = i + 1;
        }
        Ok(())
    }
}

/// Law: accounts that pass validation have non-empty, pairwise distinct
/// account ids, so `get_account` finds each of them by its id.
pub proof fn law_valid_accounts_have_unique_ids(s: Seq<IdentityMapping>)
    requires
        first_account_error(s, 0) is None,
    ensures
        account_ids_unique(s),
{
    assert forall|i: int| 0 <= i < s.len() implies account_error(s, i) is None by {
        lemma_no_error_from(s, 0, i);
    }
    assert forall|i: int, j: int|
        0 <= i < s.len() && 0 <= j < s.len() && i != j implies (#[trigger] s[i]).account_id@
        != (#[trigger] s[j]).account_id@ by {
        if i < j {
            assert(account_error(s, j) is None);
            assert(!duplicate_id_before(s, j));
        } else {
            assert(account_error(s, i) is None);
            assert(!duplicate_id_before(s, i));
        }
    }
    assert forall|i: int| 0 <= i < s.len() implies (#[trigger] s[i]).account_id@.len() > 0 by {
        assert(account_error(s, i) is None);
    }
}

/// With no error from `k` on, no account at or after `k` has an error.
proof fn lemma_no_error_from(s: Seq<IdentityMapping>, k: nat, i: int)
    requires
        first_account_error(s, k) is None,
        k <= i < s.len(),
    ensures
        account_error(s, i) is None,
    decreases i - k,
{
    if k < i {
        lemma_no_error_from(s, k + 1, i);
    }
}

} // verus!
