//! The registry of loaded agents and their permissions.
//!
//! Loading the agents resolves each registered agent's configuration and
//! permissions; this registry checks the parent references, holds the
//! result, and gives every registered agent a permissions entry (a blank
//! one when the agent has no permissions file).

use vstd::prelude::*;

use crate::agent_config::ResolvedAgentConfig;
use crate::assoc::{
    assoc_get, assoc_has, assoc_index, assoc_keys_distinct, assoc_lookup, assoc_put,
    lemma_assoc_remove,
};
use crate::errors::ConfigLoadError;
use crate::permissions::AgentPermissions;
use crate::text::{has_str, owned, push_str, vec_has_str};

verus! {

/// Whether the agent's parent, if it names one, is among `registry`.
pub open spec fn parent_registered(a: ResolvedAgentConfig, registry: Seq<String>) -> bool {
    match a.parent_id {
        Some(p) => has_str(registry, p@),
        None => true,
    }
}

/// The message for an agent whose parent is not registered.
pub open spec fn unregistered_parent_text(id: Seq<char>, parent: Seq<char>) -> Seq<char> {
    "Agent '"@ + id + "' references unregistered parent '"@ + parent + "'"@
}

/// Check that every agent's parent is registered; the first agent, in
/// order, whose parent is not is reported against the registration file
/// `json_path`.
pub fn validate_parent_ids(
    agents: &Vec<ResolvedAgentConfig>,
    registry: &Vec<String>,
    json_path: &str,
) -> (r: Result<(), ConfigLoadError>)
    ensures
        r is Ok <==> forall|i: int|
            0 <= i < agents@.len() ==> parent_registered(#[trigger] agents@[i], registry@),
        r matches Err(e) ==> exists|i: int|
            0 <= i < agents@.len() && !parent_registered(agents@[i], registry@) && (forall|j: int|
                0 <= j < i ==> parent_registered(#[trigger] agents@[j], registry@)) && (
            e matches ConfigLoadError::ValidationError { path: p, message: m } && p@ == json_path@
                && m@ == unregistered_parent_text(agents@[i].id@, agents@[i].parent_id->0@)),
{
    let mut i: usize = 0;
    while i < agents.len()
        invariant
            i <= agents@.len(),
            forall|j: int| 0 <= j < i ==> parent_registered(#[trigger] agents@[j], registry@),
        decreases agents.len() - i,
    {
        match &agents[i].parent_id {
            Some(parent) => {
                if !vec_has_str(registry, parent.as_str()) {
                    let mut m = owned("Agent '");
                    push_str(&mut m, agents[i].id.as_str());
                    push_str(&mut m, "' references unregistered parent '");
                    push_str(&mut m, parent.as_str());
                    push_str(&mut m, "'");
                    return Err(ConfigLoadError::ValidationError { path: owned(json_path), message: m });
                }
            },
            None => {},
        }
        i = i + 1;
    }
    Ok(())
}

/// Whether `p` grants nothing to agent `id`: the entry of a registered
/// agent without a permissions file.
pub open spec fn blank_permissions_for(p: AgentPermissions, id: Seq<char>) -> bool {
    p.agent_id@ == id && p.permissions@.len() == 0 && p.inherited_from is None
}

/// The permissions a registered agent gets when permissions are synced
/// from `provided`: the provided entry, or a blank one.
pub open spec fn synced_entry(
    entry: Option<AgentPermissions>,
    provided: Seq<(String, AgentPermissions)>,
    id: Seq<char>,
) -> bool {
    match assoc_lookup(provided, id) {
        Some(p) => entry == Some(p),
        None => entry matches Some(q) && blank_permissions_for(q, id),
    }
}

/// The loaded agents, by id, and their permissions, by agent id.
pub struct AgentRegistry {
    agents: Vec<(String, ResolvedAgentConfig)>,
    permissions: Vec<(String, AgentPermissions)>,
}

impl AgentRegistry {
    /// Each id occurs once in each table.
    pub closed spec fn wf(&self) -> bool {
        assoc_keys_distinct(self.agents@) && assoc_keys_distinct(self.permissions@)
    }

    /// The configuration of agent `id`.
    pub closed spec fn agent_of(&self, id: Seq<char>) -> Option<ResolvedAgentConfig> {
        assoc_lookup(self.agents@, id)
    }

    /// The permissions of agent `id`.
    pub closed spec fn permissions_of(&self, id: Seq<char>) -> Option<AgentPermissions> {
        assoc_lookup(self.permissions@, id)
    }

    /// An empty registry.
    pub fn new() -> (r: Self)
        ensures
            r.wf(),
            forall|k: Seq<char>| #[trigger] r.agent_of(k) is None && r.permissions_of(k) is None,
    {
        AgentRegistry { agents: Vec::new(), permissions: Vec::new() }
    }

    /// The configuration of agent `id`.
    pub fn agent(&self, id: &str) -> (r: Option<&ResolvedAgentConfig>)
        ensures
            r matches Some(a) ==> self.agent_of(id@) == Some(*a),
            r is None ==> self.agent_of(id@) is None,
    {
        assoc_get(&self.agents, id)
    }

    /// The permissions of agent `id`.
    pub fn agent_permissions(&self, id: &str) -> (r: Option<&AgentPermissions>)
        ensures
            r matches Some(p) ==> self.permissions_of(id@) == Some(*p),
            r is None ==> self.permissions_of(id@) is None,
    {
        assoc_get(&self.permissions, id)
    }

    /// Put a loaded set of agents in place: the agent table is replaced by
    /// `agents`, and every id of `ids` gets its entry of `provided`, or a
    /// blank one; the permissions of agents outside `ids` stay as they were.
    pub fn install(
        &mut self,
        agents: Vec<(String, ResolvedAgentConfig)>,
        ids: &Vec<String>,
        provided: Vec<(String, AgentPermissions)>,
    )
        requires
            old(self).wf(),
            assoc_keys_distinct(agents@),
            assoc_keys_distinct(provided@),
        ensures
            final(self).wf(),
            forall|k: Seq<char>| #[trigger] final(self).agent_of(k) == assoc_lookup(agents@, k),
            forall|k: Seq<char>|
                has_str(ids@, k) ==> synced_entry(#[trigger] final(self).permissions_of(k), provided@, k),
            forall|k: Seq<char>|
                !has_str(ids@, k) ==> #[trigger] final(self).permissions_of(k) == old(
                    self,
                ).permissions_of(k),
    {
        self.agents = agents;
        self.sync_permissions(ids, provided);
    }

    /// Give every id of `ids` its entry of `provided`, or a blank one.
    fn sync_permissions(&mut self, ids: &Vec<String>, provided: Vec<(String, AgentPermissions)>)
        requires
            old(self).wf(),
            assoc_keys_distinct(provided@),
        ensures
            final(self).wf(),
            final(self).agents == old(self).agents,
            forall|k: Seq<char>|
                has_str(ids@, k) ==> synced_entry(#[trigger] final(self).permissions_of(k), provided@, k),
            forall|k: Seq<char>|
                !has_str(ids@, k) ==> #[trigger] final(self).permissions_of(k) == old(
                    self,
                ).permissions_of(k),
    {
        let ghost all = provided@;
        let mut rest = provided;
        let mut done: Vec<String> = Vec::new();
        let mut i: usize = 0;
        while i < ids.len()
            invariant
                i <= ids@.len(),
                done@ == ids@.subrange(0, i as int),
                self.wf(),
                self.agents == old(self).agents,
                assoc_keys_distinct(all),
                assoc_keys_distinct(rest@),
                forall|k: Seq<char>|
                    !has_str(done@, k) ==> #[trigger] assoc_lookup(rest@, k) == assoc_lookup(all, k),
                forall|k: Seq<char>|
                    has_str(done@, k) ==> synced_entry(#[trigger] self.permissions_of(k), all, k),
                forall|k: Seq<char>|
                    !has_str(done@, k) ==> #[trigger] self.permissions_of(k) == old(
                        self,
                    ).permissions_of(k),
            decreases ids.len() - i,
        {
            let id = &ids[i];
            let ghost key = id@;
            let ghost before = *self;
            let ghost done_before = done@;
            let ghost rest_start = rest@;
            let fresh = !vec_has_str(&done, id.as_str());
            if fresh {
                match assoc_index(&rest, id.as_str()) {
                    Some(j) => {
                        let ghost rest_before = rest@;
                        let (_, p) = rest.remove(j);
                        proof {
                            lemma_assoc_remove(rest_before, j as int);
                            assert(rest_before[j as int].0@ == key);
                        }
                        assoc_put(&mut self.permissions, id.clone(), p);
                    },
                    None => {
                        let blank = AgentPermissions {
                            agent_id: id.clone(),
                            permissions: Vec::new(),
                            inherited_from: None,
                        };
                        assoc_put(&mut self.permissions, id.clone(), blank);
                    },
                }
            }
            done.push(id.clone());
            proof {
                assert(done@ =~= ids@.subrange(0, i + 1));
                assert forall|k: Seq<char>| #[trigger] has_str(done@, k) == (has_str(done_before, k)
                    || k == key) by {
                    if has_str(done@, k) && k != key {
                        let w = choose|w: int| 0 <= w < done@.len() && done@[w]@ == k;
                        assert(done_before[w]@ == k);
                    }
                    if has_str(done_before, k) {
                        let w = choose|w: int| 0 <= w < done_before.len() && done_before[w]@ == k;
                        assert(done@[w]@ == k);
                    }
                    if k == key {
                        assert(done@[done@.len() - 1]@ == k);
                    }
                }
                assert forall|k: Seq<char>| k != key implies #[trigger] self.permissions_of(k)
                    == before.permissions_of(k) && assoc_lookup(rest@, k) == assoc_lookup(
                    rest_start,
                    k,
                ) by {}
                if fresh {
                    assert(synced_entry(self.permissions_of(key), all, key));
                } else {
                    assert(self.permissions_of(key) == before.permissions_of(key));
                }
                assert forall|k: Seq<char>| has_str(done@, k) implies synced_entry(
                    #[trigger] self.permissions_of(k),
                    all,
                    k,
                ) by {
                    if k != key {
                        assert(has_str(done_before, k));
                    }
                }
            }
            i = i + 1;
        }
        proof {
            assert(ids@.subrange(0, ids@.len() as int) =~= ids@);
        }
    }

    /// Put a snapshot of agents and permissions back in place.
    pub fn restore(
        &mut self,
        agents: Vec<(String, ResolvedAgentConfig)>,
        permissions: Vec<(String, AgentPermissions)>,
    )
        requires
            assoc_keys_distinct(agents@),
            assoc_keys_distinct(permissions@),
        ensures
            final(self).wf(),
            forall|k: Seq<char>| #[trigger] final(self).agent_of(k) == assoc_lookup(agents@, k),
            forall|k: Seq<char>|
                #[trigger] final(self).permissions_of(k) == assoc_lookup(permissions@, k),
    {
        self.agents = agents;
        self.permissions = permissions;
    }
}

} // verus!
