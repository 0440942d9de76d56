//! Lazily loaded agent permissions: where an agent's `permissions.json`
//! is looked for, and the cache of loaded files keyed by agent id.
//!
//! A project-level file (`<project agents dir>/<id>/permissions.json`)
//! wins over the user-level one (`<config dir>/agents/<id>/permissions.json`).
//! A cached entry is served while its file's modification time is the one
//! recorded when it was loaded.

use vstd::prelude::*;

use crate::common::FileStamp;
use crate::assoc::{assoc_get, assoc_keys_distinct, assoc_lookup, assoc_put};
use crate::permissions::AgentPermissions;
use crate::section::path_join;
use crate::text::{owned, push_str};

verus! {

/// Gives an agent's permissions, or nothing when the agent has no
/// permissions configuration.
pub trait AgentPermissionProvider {
    /// The permissions of agent `agent_id`.
    fn get(&self, agent_id: &str) -> Option<AgentPermissions>;
}

/// The provider used when none is configured: no agent has permissions.
pub struct NoopPermissionProvider;

impl AgentPermissionProvider for NoopPermissionProvider {
    fn get(&self, agent_id: &str) -> (r: Option<AgentPermissions>)
        ensures
            r is None,
    {
        None
    }
}

/// Which `permissions.json` of an agent is used.
#[derive(Debug, Clone, Copy, PartialEq, Eq, Structural)]
pub enum PermissionSource {
    /// The project-level file.
    Project,
    /// The user-level file.
    User,
}

/// The file to use: the project-level one when a project directory is set
/// (`project_exists` is `Some`) and its file exists, else the user-level
/// one when it exists, else none.
pub open spec fn permission_source_spec(project_exists: Option<bool>, user_exists: bool) -> Option<
    PermissionSource,
> {
    if project_exists == Some(true) {
        Some(PermissionSource::Project)
    } else if user_exists {
        Some(PermissionSource::User)
    } else {
        None
    }
}

/// The file to use (see [`permission_source_spec`]).
pub fn choose_permission_source(project_exists: Option<bool>, user_exists: bool) -> (r: Option<
    PermissionSource,
>)
    ensures
        r == permission_source_spec(project_exists, user_exists),
{
    match project_exists {
        Some(true) => Some(PermissionSource::Project),
        _ => if user_exists {
            Some(PermissionSource::User)
        } else {
            None
        },
    }
}

/// `dir` joined with the component `name`; an absolute `name` replaces `dir`.
pub open spec fn join_component(dir: Seq<char>, name: Seq<char>) -> Seq<char> {
    if name.len() > 0 && name[0] == '/' {
        name
    } else {
        path_join(dir, name)
    }
}

/// `dir` joined with `name`, as a path (see [`join_component`]).
fn join_path(dir: &str, name: &str) -> (r: String)
    ensures
        r@ == join_component(dir@, name@),
{
    let n = crate::text::chars_of(name);
    if n.len() > 0 && n[0] == '/' {
        return owned(name);
    }
    if dir.is_empty() {
        return owned(name);
    }
    let d = crate::text::chars_of(dir);
    let mut r = owned(dir);
    if d[d.len() - 1] != '/' {
        push_str(&mut r, "/");
    }
    push_str(&mut r, name);
    r
}

/// The user-level permissions file of agent `id` under `config_dir`.
pub open spec fn user_permissions_file(config_dir: Seq<char>, id: Seq<char>) -> Seq<char> {
    join_component(join_component(join_component(config_dir, "agents"@), id), "permissions.json"@)
}

/// The project-level permissions file of agent `id` under `project_agents_dir`.
pub open spec fn project_permissions_file(project_agents_dir: Seq<char>, id: Seq<char>) -> Seq<
    char,
> {
    join_component(join_component(project_agents_dir, id), "permissions.json"@)
}

/// The user-level permissions file of agent `id` under `config_dir`.
pub fn user_permissions_path(config_dir: &str, agent_id: &str) -> (r: String)
    ensures
        r@ == user_permissions_file(config_dir@, agent_id@),
{
    let agents = join_path(config_dir, "agents");
    let dir = join_path(agents.as_str(), agent_id);
    join_path(dir.as_str(), "permissions.json")
}

/// The project-level permissions file of agent `id` under `project_agents_dir`.
pub fn project_permissions_path(project_agents_dir: &str, agent_id: &str) -> (r: String)
    ensures
        r@ == project_permissions_file(project_agents_dir@, agent_id@),
{
    let dir = join_path(project_agents_dir, agent_id);
    join_path(dir.as_str(), "permissions.json")
}

/// A loaded permissions file.
#[derive(Debug)]
pub struct CachedPermissions {
    /// What the file holds.
    pub permissions: AgentPermissions,
    /// The file's modification time when it was loaded.
    pub stamp: FileStamp,
    /// The file it was loaded from.
    pub path: String,
}

/// Loaded permissions files by agent id.
pub struct PermissionCache {
    entries: Vec<(String, CachedPermissions)>,
}

impl PermissionCache {
    /// Each agent id occurs once.
    pub closed spec fn wf(&self) -> bool {
        assoc_keys_distinct(self.entries@)
    }

    /// The cached entry of agent `id`.
    pub closed spec fn entry(&self, id: Seq<char>) -> Option<CachedPermissions> {
        assoc_lookup(self.entries@, id)
    }

    /// What a lookup of agent `id` serves from the cache when the cached
    /// file's modification time is now `current`: the cached permissions
    /// while that time is the recorded one, else nothing.
    pub open spec fn served(&self, id: Seq<char>, current: Option<FileStamp>) -> Option<
        AgentPermissions,
    > {
        match self.entry(id) {
            Some(e) => if current == Some(e.stamp) {
                Some(e.permissions)
            } else {
                None
            },
            None => None,
        }
    }

    /// `self` is `before` with entry `e` recorded for agent `id`: the
    /// entry of `id` is `e` and every other agent's entry is unchanged.
    pub open spec fn after_record(&self, before: Self, id: Seq<char>, e: CachedPermissions) -> bool {
        &&& self.wf()
        &&& self.entry(id) == Some(e)
        &&& forall|k: Seq<char>| k != id ==> #[trigger] self.entry(k) == before.entry(k)
    }

    /// An empty cache.
    pub fn new() -> (r: Self)
        ensures
            r.wf(),
            forall|k: Seq<char>| #[trigger] r.entry(k) is None,
    {
        PermissionCache { entries: Vec::new() }
    }

    /// The file the entry of agent `id` was loaded from, if it is cached.
    pub fn cached_path(&self, id: &str) -> (r: Option<&str>)
        ensures
            match self.entry(id@) {
                Some(e) => r matches Some(p) && p@ == e.path@,
                None => r is None,
            },
    {
        match assoc_get(&self.entries, id) {
            Some(e) => Some(e.path.as_str()),
            None => None,
        }
    }

    /// The cached permissions of agent `id` when they are still current:
    /// `current` is the cached file's modification time now, `None` when
    /// the file is gone or its time cannot be read.
    pub fn fresh(&self, id: &str, current: Option<FileStamp>) -> (r: Option<&AgentPermissions>)
        ensures
            match self.entry(id@) {
                Some(e) => if current == Some(e.stamp) {
                    r == Some(&e.permissions)
                } else {
                    r is None
                },
                None => r is None,
            },
            self.served(id@, current) == (match r {
                Some(p) => Some(*p),
                None => None,
            }),
    {
        match assoc_get(&self.entries, id) {
            Some(e) => match current {
                Some(t) => if t == e.stamp {
                    Some(&e.permissions)
                } else {
                    None
                },
                None => None,
            },
            None => None,
        }
    }

    /// Record the permissions loaded for agent `id` from `path`, whose
    /// modification time was `stamp`, replacing any earlier entry.
    pub fn record(&mut self, id: String, permissions: AgentPermissions, stamp: FileStamp, path: String)
        requires
            old(self).wf(),
        ensures
            final(self).after_record(
                *old(self),
                id@,
                CachedPermissions { permissions: permissions, stamp: stamp, path: path },
            ),
    {
        let e = CachedPermissions { permissions, stamp, path };
        assoc_put(&mut self.entries, id, e);
    }
}

/// A cached entry is served only while its file keeps the modification
/// time it was loaded with. Once permissions `p1` of agent `id` are
/// recorded with time `t1`, a lookup serves `p1` while the file's time is
/// still `t1`, and serves nothing (so the file is read again) once the
/// file has been rewritten with another time `t2` or is gone. After the
/// reread permissions `p2` are recorded with `t2`, lookups serve `p2` and no
/// longer `p1`. Lookups of other agents are not affected.
pub proof fn lemma_stale_permissions_reloaded(
    c0: PermissionCache,
    c1: PermissionCache,
    c2: PermissionCache,
    id: Seq<char>,
    p1: AgentPermissions,
    t1: FileStamp,
    path1: String,
    p2: AgentPermissions,
    t2: FileStamp,
    path2: String,
    other: Seq<char>,
    current: Option<FileStamp>,
)
    requires
        c0.wf(),
        c1.after_record(c0, id, CachedPermissions { permissions: p1, stamp: t1, path: path1 }),
        c2.after_record(c1, id, CachedPermissions { permissions: p2, stamp: t2, path: path2 }),
        t1 != t2,
    ensures
        c1.served(id, Some(t1)) == Some(p1),
        c1.served(id, Some(t2)) is None,
        c1.served(id, None) is None,
        c2.served(id, Some(t2)) == Some(p2),
        c2.served(id, Some(t1)) is None,
        other != id ==> c2.served(other, current) == c0.served(other, current),
{
}

} // verus!
