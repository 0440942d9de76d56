//! Cross-platform identity mapping backed by configuration.
//!
//! An [`IdentityMapping`] maps a `(platform, bot_app_id, sender_id)`
//! triple to a local account id. A [`ConfigIdentityResolver`] holds the
//! mappings as a map: when several entries share a triple, the last one
//! wins.

use vstd::prelude::*;

use crate::text::str_eq;

verus! {

/// A single identity mapping entry loaded from configuration.
///
/// An empty `bot_app_id` stands for the configuration without
/// application isolation.
#[derive(Debug, Clone)]
pub struct IdentityMapping {
    /// Platform identifier, such as `"feishu"` or `"discord"`.
    pub platform: String,
    /// Receiving bot application id on the IM platform.
    pub bot_app_id: String,
    /// Sender's platform-specific user id.
    pub sender_id: String,
    /// Local account identifier the sender maps to.
    pub account_id: String,
}

/// The triple a mapping is keyed by.
pub open spec fn mapping_key(m: IdentityMapping) -> (Seq<char>, Seq<char>, Seq<char>) {
    (m.platform@, m.bot_app_id@, m.sender_id@)
}

/// The map the entries `es` describe, later entries overriding earlier ones.
pub open spec fn mappings_map(es: Seq<IdentityMapping>) -> Map<
    (Seq<char>, Seq<char>, Seq<char>),
    Seq<char>,
>
    decreases es.len(),
{
    if es.len() == 0 {
        Map::empty()
    } else {
        mappings_map(es.drop_last()).insert(mapping_key(es.last()), es.last().account_id@)
    }
}

/// Whether no two entries of `es` share a key.
pub open spec fn keys_distinct(es: Seq<IdentityMapping>) -> bool {
    forall|i: int, j: int|
        0 <= i < es.len() && 0 <= j < es.len() && i != j ==> mapping_key(#[trigger] es[i])
            != mapping_key(#[trigger] es[j])
}

/// With distinct keys, the map holds exactly the entries, one key each.
pub proof fn lemma_mappings_map_distinct(es: Seq<IdentityMapping>)
    requires
        keys_distinct(es),
    ensures
        mappings_map(es).dom().finite(),
        mappings_map(es).dom().len() == es.len(),
        forall|i: int|
            0 <= i < es.len() ==> #[trigger] mappings_map(es).contains_key(mapping_key(es[i]))
                && mappings_map(es)[mapping_key(es[i])] == es[i].account_id@,
        forall|k: (Seq<char>, Seq<char>, Seq<char>)|
            #[trigger] mappings_map(es).contains_key(k) ==> exists|i: int|
                0 <= i < es.len() && mapping_key(es[i]) == k,
    decreases es.len(),
{
    if es.len() > 0 {
        let init = es.drop_last();
        assert(keys_distinct(init)) by {
            assert forall|i: int, j: int|
                0 <= i < init.len() && 0 <= j < init.len() && i != j implies mapping_key(
                #[trigger] init[i],
            ) != mapping_key(#[trigger] init[j]) by {
                assert(init[i] == es[i] && init[j] == es[j]);
            }
        }
        lemma_mappings_map_distinct(init);
        let last = es.last();
        assert(!mappings_map(init).contains_key(mapping_key(last))) by {
            if mappings_map(init).contains_key(mapping_key(last)) {
                let i = choose|i: int| 0 <= i < init.len() && mapping_key(init[i]) == mapping_key(last);
                assert(es[i] == init[i]);
                assert(mapping_key(es[i]) != mapping_key(es[es.len() - 1]));
            }
        }
        assert forall|i: int| 0 <= i < es.len() implies #[trigger] mappings_map(es).contains_key(
            mapping_key(es[i]),
        ) && mappings_map(es)[mapping_key(es[i])] == es[i].account_id@ by {
            if i < es.len() - 1 {
                assert(es[i] == init[i]);
                assert(mapping_key(es[i]) != mapping_key(last));
            }
        }
        assert forall|k: (Seq<char>, Seq<char>, Seq<char>)| #[trigger]
            mappings_map(es).contains_key(k) implies exists|i: int|
            0 <= i < es.len() && mapping_key(es[i]) == k by {
            if k == mapping_key(last) {
                assert(mapping_key(es[es.len() - 1]) == k);
            } else {
                assert(mappings_map(init).contains_key(k));
                let i = choose|i: int| 0 <= i < init.len() && mapping_key(init[i]) == k;
                assert(es[i] == init[i]);
            }
        }
    }
}

/// Replacing an entry by one with the same key updates the map at that key.
pub proof fn lemma_mappings_map_update(es: Seq<IdentityMapping>, j: int, m: IdentityMapping)
    requires
        keys_distinct(es),
        0 <= j < es.len(),
        mapping_key(m) == mapping_key(es[j]),
    ensures
        mappings_map(es.update(j, m)) == mappings_map(es).insert(mapping_key(m), m.account_id@),
    decreases es.len(),
{
    let up = es.update(j, m);
    if j == es.len() - 1 {
        assert(up.drop_last() =~= es.drop_last());
        assert(mappings_map(up) =~= mappings_map(es).insert(mapping_key(m), m.account_id@));
    } else {
        let init = es.drop_last();
        assert(keys_distinct(init)) by {
            assert forall|a: int, b: int|
                0 <= a < init.len() && 0 <= b < init.len() && a != b implies mapping_key(
                #[trigger] init[a],
            ) != mapping_key(#[trigger] init[b]) by {
                assert(init[a] == es[a] && init[b] == es[b]);
            }
        }
        assert(init[j] == es[j]);
        lemma_mappings_map_update(init, j, m);
        assert(up.drop_last() =~= init.update(j, m));
        assert(up.last() == es.last());
        assert(mapping_key(es.last()) != mapping_key(es[j]));
        assert(mappings_map(up) =~= mappings_map(es).insert(mapping_key(m), m.account_id@));
    }
}

/// An identity resolver over configured mappings.
#[derive(Debug, Clone)]
pub struct ConfigIdentityResolver {
    /// One entry per key.
    entries: Vec<IdentityMapping>,
}

impl View for ConfigIdentityResolver {
    type V = Map<(Seq<char>, Seq<char>, Seq<char>), Seq<char>>;

    closed spec fn view(&self) -> Self::V {
        mappings_map(self.entries@)
    }
}

/// Whether two mappings have the same key.
fn same_key(a: &IdentityMapping, b: &IdentityMapping) -> (r: bool)
    ensures
        r == (mapping_key(*a) == mapping_key(*b)),
{
    str_eq(a.platform.as_str(), b.platform.as_str()) && str_eq(
        a.bot_app_id.as_str(),
        b.bot_app_id.as_str(),
    ) && str_eq(a.sender_id.as_str(), b.sender_id.as_str())
}

/// A field-by-field copy of a mapping.
pub fn copy_mapping(m: &IdentityMapping) -> (r: IdentityMapping)
    ensures
        r == *m,
{
    IdentityMapping {
        platform: m.platform.clone(),
        bot_app_id: m.bot_app_id.clone(),
        sender_id: m.sender_id.clone(),
        account_id: m.account_id.clone(),
    }
}

/// The index of the entry with the key of `m`, if any.
fn find_key(entries: &Vec<IdentityMapping>, m: &IdentityMapping) -> (r: Option<usize>)
    ensures
        r matches Some(j) ==> j < entries@.len() && mapping_key(entries@[j as int]) == mapping_key(*m),
        r is None ==> forall|k: int|
            0 <= k < entries@.len() ==> mapping_key(#[trigger] entries@[k]) != mapping_key(*m),
{
    let mut j: usize = 0;
    while j < entries.len()
        invariant
            j <= entries@.len(),
            forall|k: int| 0 <= k < j ==> mapping_key(#[trigger] entries@[k]) != mapping_key(*m),
        decreases entries.len() - j,
    {
        if same_key(&entries[j], m) {
            return Some(j);
        }
        j = j + 1;
    }
    None
}

impl ConfigIdentityResolver {
    /// The resolver's entries have pairwise distinct keys.
    pub closed spec fn wf(&self) -> bool {
        keys_distinct(self.entries@)
    }

    /// Build a resolver from mapping entries; later entries override
    /// earlier ones with the same key.
    pub fn new(mappings: Vec<IdentityMapping>) -> (r: Self)
        ensures
            r.wf(),
            r@ == mappings_map(mappings@),
    {
        let mut entries: Vec<IdentityMapping> = Vec::new();
        let mut i: usize = 0;
        assert(mappings@.subrange(0, 0) =~= Seq::<IdentityMapping>::empty());
        assert(mappings_map(entries@) =~= mappings_map(mappings@.subrange(0, 0)));
        while i < mappings.len()
            invariant
                i <= mappings@.len(),
                keys_distinct(entries@),
                mappings_map(entries@) == mappings_map(mappings@.subrange(0, i as int)),
            decreases mappings.len() - i,
        {
            let m = copy_mapping(&mappings[i]);
            assert(mappings@.subrange(0, i + 1).drop_last() =~= mappings@.subrange(0, i as int));
            assert(mappings@.subrange(0, i + 1).last() == m);
            let ghost before = entries@;
            match find_key(&entries, &m) {
                Some(j) => {
                    proof {
                        lemma_mappings_map_update(before, j as int, m);
                    }
                    entries.set(j, m);
                    assert(entries@ == before.update(j as int, m));
                    assert(keys_distinct(entries@)) by {
                        assert forall|a: int, b: int|
                            0 <= a < entries@.len() && 0 <= b < entries@.len() && a != b implies mapping_key(
                            #[trigger] entries@[a],
                        ) != mapping_key(#[trigger] entries@[b]) by {
                            assert(mapping_key(entries@[a]) == mapping_key(before[a]));
                            assert(mapping_key(entries@[b]) == mapping_key(before[b]));
                        }
                    }
                },
                None => {
                    entries.push(m);
                    assert(entries@.drop_last() =~= before);
                    assert(keys_distinct(entries@)) by {
                        assert forall|a: int, b: int|
                            0 <= a < entries@.len() && 0 <= b < entries@.len() && a != b implies mapping_key(
                            #[trigger] entries@[a],
                        ) != mapping_key(#[trigger] entries@[b]) by {
                            if a < before.len() {
                                assert(entries@[a] == before[a]);
                            }
                            if b < before.len() {
                                assert(entries@[b] == before[b]);
                            }
                        }
                    }
                },
            }
            i = i + 1;
        }
        assert(mappings@.subrange(0, mappings@.len() as int) =~= mappings@);
        ConfigIdentityResolver { entries }
    }

    /// The number of configured mappings (distinct keys).
    pub fn len(&self) -> (r: usize)
        requires
            self.wf(),
        ensures
            r == self@.dom().len(),
    {
        proof {
            lemma_mappings_map_distinct(self.entries@);
        }
        self.entries.len()
    }

    /// Whether no mapping is configured.
    pub fn is_empty(&self) -> (r: bool)
        requires
            self.wf(),
        ensures
            r == (self@.dom().len() == 0),
    {
        self.len() == 0
    }

    /// The account id that `(platform, bot_app_id, sender_id)` maps to.
    pub fn resolve(&self, platform: &str, bot_app_id: &str, sender_id: &str) -> (r: Option<String>)
        requires
            self.wf(),
        ensures
            match r {
                Some(a) => self@.contains_key((platform@, bot_app_id@, sender_id@)) && a@
                    == self@[(platform@, bot_app_id@, sender_id@)],
                None => !self@.contains_key((platform@, bot_app_id@, sender_id@)),
            },
    {
        proof {
            lemma_mappings_map_distinct(self.entries@);
        }
        let mut j: usize = 0;
        while j < self.entries.len()
            invariant
                j <= self.entries@.len(),
                keys_distinct(self.entries@),
                forall|k: int|
                    0 <= k < j ==> mapping_key(#[trigger] self.entries@[k]) != (
                        platform@,
                        bot_app_id@,
                        sender_id@,
                    ),
            decreases self.entries.len() - j,
        {
            let e = &self.entries[j];
            if str_eq(e.platform.as_str(), platform) && str_eq(e.bot_app_id.as_str(), bot_app_id)
                && str_eq(e.sender_id.as_str(), sender_id) {
                proof {
                    lemma_mappings_map_distinct(self.entries@);
                    assert(mappings_map(self.entries@).contains_key(
                        mapping_key(self.entries@[j as int]),
                    ));
                }
                return Some(e.account_id.clone());
            }
            j = j + 1;
        }
        proof {
            assert forall|k: (Seq<char>, Seq<char>, Seq<char>)| #[trigger]
                mappings_map(self.entries@).contains_key(k) implies k != (
                platform@,
                bot_app_id@,
                sender_id@,
            ) by {
                let i = choose|i: int|
                    0 <= i < self.entries@.len() && mapping_key(self.entries@[i]) == k;
                assert(mapping_key(self.entries@[i]) != (platform@, bot_app_id@, sender_id@));
            }
        }
        None
    }
}

/// Law: a resolver answers for each triple with the account of the last
/// mapping given for it, and has no answer for a triple no mapping gives.
pub proof fn law_resolver_last_mapping_wins(
    mappings: Seq<IdentityMapping>,
    m: IdentityMapping,
    k: (Seq<char>, Seq<char>, Seq<char>),
)
    ensures
        mappings_map(mappings.push(m))[mapping_key(m)] == m.account_id@,
        k != mapping_key(m) ==> mappings_map(mappings.push(m)).contains_key(k)
            == mappings_map(mappings).contains_key(k),
        k != mapping_key(m) ==> mappings_map(mappings.push(m))[k] == mappings_map(mappings)[k],
        !mappings_map(Seq::<IdentityMapping>::empty()).contains_key(k),
{
    assert(mappings.push(m).drop_last() =~= mappings);
}

} // verus!
