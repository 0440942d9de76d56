//! Agent permission rules (`permissions.json`) and their intersection.
//!
//! An agent's permissions are a list of action categories, each either
//! allowed (with optional limits) or denied. A child agent's effective
//! permissions are the intersection with its parent's over the eight
//! permission dimensions: an action is allowed only when both allow it,
//! and the limits of an allowed action are narrowed to what both permit.

use vstd::prelude::*;

use crate::assoc::{assoc_get, assoc_has, assoc_keys_distinct, assoc_lookup, lemma_assoc_lookup, lemma_assoc_lookup_distinct};
use crate::text::owned;

verus! {

/// Limits attached to an allowed action category.
#[derive(Debug, Clone)]
pub struct PermissionLimits {
    /// Allowed commands (for exec).
    pub commands: Vec<String>,
    /// Allowed paths (for file_read/file_write).
    pub paths: Vec<String>,
    /// Timeout limit in milliseconds (for exec).
    pub timeout_ms: Option<u64>,
}

/// Whether the limits impose nothing (the default limits).
pub open spec fn limits_are_default(l: PermissionLimits) -> bool {
    l.commands@.len() == 0 && l.paths@.len() == 0 && l.timeout_ms is None
}

impl Default for PermissionLimits {
    fn default() -> (r: Self)
        ensures
            limits_are_default(r),
    {
        PermissionLimits { commands: Vec::new(), paths: Vec::new(), timeout_ms: None }
    }
}

/// Permission for a single action category.
#[derive(Debug, Clone)]
pub struct ActionPermission {
    /// Whether this action is allowed.
    pub allowed: bool,
    /// Optional limits when allowed.
    pub limits: PermissionLimits,
}

impl Default for ActionPermission {
    fn default() -> (r: Self)
        ensures
            !r.allowed,
            limits_are_default(r.limits),
    {
        ActionPermission { allowed: false, limits: PermissionLimits::default() }
    }
}

/// Full permissions configuration for an agent.
///
/// `permissions` maps action categories to rules; lookups use the first
/// entry for a category.
#[derive(Debug, Clone)]
pub struct AgentPermissions {
    /// Agent identifier these permissions apply to.
    pub agent_id: String,
    /// Permission rules by action category.
    pub permissions: Vec<(String, ActionPermission)>,
    /// ID of the agent from which these permissions are inherited.
    pub inherited_from: Option<String>,
}

impl Default for AgentPermissions {
    fn default() -> (r: Self)
        ensures
            r.agent_id@.len() == 0,
            r.permissions@.len() == 0,
            r.inherited_from is None,
    {
        AgentPermissions { agent_id: String::new(), permissions: Vec::new(), inherited_from: None }
    }
}

/// The eight permission dimensions, in order.
pub open spec fn dimension(i: int) -> Seq<char> {
    if i == 0 {
        "command"@
    } else if i == 1 {
        "file_read"@
    } else if i == 2 {
        "file_write"@
    } else if i == 3 {
        "network"@
    } else if i == 4 {
        "spawn"@
    } else if i == 5 {
        "tool_call"@
    } else if i == 6 {
        "config_write"@
    } else {
        "message"@
    }
}

/// Whether `d` names one of the eight permission dimensions.
pub open spec fn is_dimension(d: Seq<char>) -> bool {
    exists|i: int| 0 <= i < 8 && dimension(i) == d
}

/// The executable name of dimension `i`.
pub fn dimension_name(i: usize) -> (r: &'static str)
    requires
        i < 8,
    ensures
        r@ == dimension(i as int),
{
    if i == 0 {
        "command"
    } else if i == 1 {
        "file_read"
    } else if i == 2 {
        "file_write"
    } else if i == 3 {
        "network"
    } else if i == 4 {
        "spawn"
    } else if i == 5 {
        "tool_call"
    } else if i == 6 {
        "config_write"
    } else {
        "message"
    }
}

/// The dimension names are pairwise distinct.
pub proof fn lemma_dimensions_distinct()
    ensures
        forall|i: int, j: int| 0 <= i < 8 && 0 <= j < 8 && i != j ==> dimension(i) != dimension(j),
{
    reveal_strlit("command");
    reveal_strlit("file_read");
    reveal_strlit("file_write");
    reveal_strlit("network");
    reveal_strlit("spawn");
    reveal_strlit("tool_call");
    reveal_strlit("config_write");
    reveal_strlit("message");
    assert forall|i: int, j: int| 0 <= i < 8 && 0 <= j < 8 && i != j implies dimension(i)
        != dimension(j) by {
        if dimension(i).len() == dimension(j).len() {
            if i == 0 || j == 0 {
                assert(dimension(i)[0] != dimension(j)[0] || dimension(i)[1] != dimension(j)[1]);
            } else if (i == 1 && j == 2) || (i == 2 && j == 1) {
                assert(dimension(i)[5] != dimension(j)[5]);
            } else {
                assert(dimension(i)[0] != dimension(j)[0]);
            }
        }
    }
}

/// Whether the permissions allow `action` (absent actions are denied).
pub open spec fn perm_allowed(p: AgentPermissions, action: Seq<char>) -> bool {
    match assoc_lookup(p.permissions@, action) {
        Some(ap) => ap.allowed,
        None => false,
    }
}

/// The limits recorded for `action`, when it has an entry.
pub open spec fn perm_limits(p: AgentPermissions, action: Seq<char>) -> Option<PermissionLimits> {
    match assoc_lookup(p.permissions@, action) {
        Some(ap) => Some(ap.limits),
        None => None,
    }
}

/// Minimum of two optional limits; a missing limit imposes no restriction.
pub open spec fn min_limit(a: Option<u64>, b: Option<u64>) -> Option<u64> {
    match (a, b) {
        (Some(x), Some(y)) => Some(if x <= y { x } else { y }),
        (Some(x), None) => Some(x),
        (None, Some(y)) => Some(y),
        (None, None) => None,
    }
}

/// Items that can be compared and copied by key (used for limit lists).
pub trait ListItem: Sized {
    /// The identity of the item.
    spec fn item_key(&self) -> Seq<char>;

    /// Whether two items have the same key.
    fn same_item(&self, other: &Self) -> (r: bool)
        ensures
            r == (self.item_key() == other.item_key()),
    ;

    /// A copy of the item.
    fn copy_item(&self) -> (r: Self)
        ensures
            r == *self,
    ;
}

impl ListItem for String {
    open spec fn item_key(&self) -> Seq<char> {
        self@
    }

    fn same_item(&self, other: &Self) -> (r: bool) {
        crate::text::str_eq(self.as_str(), other.as_str())
    }

    fn copy_item(&self) -> (r: Self) {
        self.clone()
    }
}

/// Whether some element of `v` has the key `k`.
pub open spec fn has_item<T: ListItem>(v: Seq<T>, k: Seq<char>) -> bool {
    exists|j: int| 0 <= j < v.len() && v[j].item_key() == k
}

/// The elements of `a` whose key occurs in `b`, in the order of `a`.
pub open spec fn common_keyed<T: ListItem>(a: Seq<T>, b: Seq<T>) -> Seq<T>
    decreases a.len(),
{
    if a.len() == 0 {
        Seq::empty()
    } else {
        let rest = common_keyed(a.drop_last(), b);
        if has_item(b, a.last().item_key()) {
            rest.push(a.last())
        } else {
            rest
        }
    }
}

/// Set intersection: common elements when both lists are given; a
/// missing list imposes no restriction, so the other list is taken;
/// nothing when both are missing.
pub fn intersect_vec<T: ListItem>(a: Option<&Vec<T>>, b: Option<&Vec<T>>) -> (r: Vec<T>)
    ensures
        match (a, b) {
            (Some(x), Some(y)) => r@ == common_keyed(x@, y@),
            (Some(x), None) => r@ == x@,
            (None, Some(y)) => r@ == y@,
            (None, None) => r@.len() == 0,
        },
{
    match (a, b) {
        (Some(x), Some(y)) => {
            let mut r: Vec<T> = Vec::new();
            let mut i: usize = 0;
            while i < x.len()
                invariant
                    i <= x@.len(),
                    r@ == common_keyed(x@.subrange(0, i as int), y@),
                decreases x.len() - i,
            {
                let mut found = false;
                let mut j: usize = 0;
                while j < y.len()
                    invariant
                        i < x@.len(),
                        j <= y@.len(),
                        found == has_item(y@.subrange(0, j as int), x@[i as int].item_key()),
                    decreases y.len() - j,
                {
                    if !found && x[i].same_item(&y[j]) {
                        found = true;
                    }
                    proof {
                        let k = x@[i as int].item_key();
                        let s0 = y@.subrange(0, j as int);
                        let s1 = y@.subrange(0, j + 1);
                        if has_item(s1, k) && !has_item(s0, k) {
                            let w = choose|w: int| 0 <= w < s1.len() && s1[w].item_key() == k;
                            if w < j {
                                assert(s0[w].item_key() == k);
                            }
                        }
                        if has_item(s0, k) {
                            let w = choose|w: int| 0 <= w < s0.len() && s0[w].item_key() == k;
                            assert(s1[w].item_key() == k);
                        }
                        if found && !has_item(s0, k) {
                            assert(s1[j as int].item_key() == k);
                        }
                    }
                    j = j + 1;
                }
                assert(y@.subrange(0, y@.len() as int) =~= y@);
                assert(x@.subrange(0, i + 1).drop_last() =~= x@.subrange(0, i as int));
                if found {
                    r.push(x[i].copy_item());
                }
                i = i + 1;
            }
            assert(x@.subrange(0, x@.len() as int) =~= x@);
            r
        },
        (Some(x), None) => copy_items(x),
        (None, Some(y)) => copy_items(y),
        (None, None) => Vec::new(),
    }
}

/// A copy of a list of items.
fn copy_items<T: ListItem>(v: &Vec<T>) -> (r: Vec<T>)
    ensures
        r@ == v@,
{
    let mut r: Vec<T> = Vec::new();
    let mut i: usize = 0;
    while i < v.len()
        invariant
            i <= v@.len(),
            r@ == v@.subrange(0, i as int),
        decreases v.len() - i,
    {
        r.push(v[i].copy_item());
        i = i + 1;
    }
    assert(r@ =~= v@);
    r
}

/// Minimum of two optional values; if either is missing (no restriction),
/// the result is the other's value.
pub fn intersect_option_min(a: Option<u64>, b: Option<u64>) -> (r: Option<u64>)
    ensures
        r == min_limit(a, b),
{
    match (a, b) {
        (Some(x), Some(y)) => Some(if x <= y { x } else { y }),
        (Some(x), None) => Some(x),
        (None, Some(y)) => Some(y),
        (None, None) => None,
    }
}

/// The permission that the intersection assigns to dimension `d`.
pub open spec fn intersected_entry(
    child: AgentPermissions,
    parent: AgentPermissions,
    d: Seq<char>,
    ap: ActionPermission,
) -> bool {
    if perm_allowed(child, d) && perm_allowed(parent, d) {
        let cl = perm_limits(child, d)->0;
        let pl = perm_limits(parent, d)->0;
        &&& ap.allowed
        &&& ap.limits.commands@ == common_keyed(cl.commands@, pl.commands@)
        &&& ap.limits.paths@ == common_keyed(cl.paths@, pl.paths@)
        &&& ap.limits.timeout_ms == min_limit(cl.timeout_ms, pl.timeout_ms)
    } else {
        &&& !ap.allowed
        &&& limits_are_default(ap.limits)
    }
}

/// `r` is the intersection of `child` with `parent`: it belongs to the
/// child, records the parent as its origin, and holds exactly the eight
/// dimensions in order with their intersected rules.
pub open spec fn is_intersection(
    child: AgentPermissions,
    parent: AgentPermissions,
    r: AgentPermissions,
) -> bool {
    &&& r.agent_id@ == child.agent_id@
    &&& r.inherited_from == Some(parent.agent_id)
    &&& r.permissions@.len() == 8
    &&& forall|i: int|
        0 <= i < 8 ==> (#[trigger] r.permissions@[i]).0@ == dimension(i) && intersected_entry(
            child,
            parent,
            dimension(i),
            r.permissions@[i].1,
        )
}

/// In an intersection, lookups by dimension find the intersected rule
/// and other actions are absent.
pub proof fn lemma_intersection_lookup(
    child: AgentPermissions,
    parent: AgentPermissions,
    r: AgentPermissions,
)
    requires
        is_intersection(child, parent, r),
    ensures
        assoc_keys_distinct(r.permissions@),
        forall|i: int|
            0 <= i < 8 ==> assoc_lookup(r.permissions@, #[trigger] dimension(i)) == Some(
                r.permissions@[i].1,
            ),
        forall|d: Seq<char>| !is_dimension(d) ==> #[trigger] assoc_lookup(r.permissions@, d) is None,
{
    lemma_dimensions_distinct();
    assert(assoc_keys_distinct(r.permissions@)) by {
        assert forall|i: int, j: int|
            0 <= i < r.permissions@.len() && 0 <= j < r.permissions@.len() && i != j implies r.permissions@[i].0@
            != r.permissions@[j].0@ by {
            assert(r.permissions@[i].0@ == dimension(i));
            assert(r.permissions@[j].0@ == dimension(j));
        }
    }
    assert forall|i: int| 0 <= i < 8 implies assoc_lookup(r.permissions@, #[trigger] dimension(i))
        == Some(r.permissions@[i].1) by {
        assert(r.permissions@[i].0@ == dimension(i));
        lemma_assoc_lookup_distinct(r.permissions@, i);
    }
    assert forall|d: Seq<char>| !is_dimension(d) implies #[trigger] assoc_lookup(r.permissions@, d) is None by {
        lemma_assoc_lookup(r.permissions@, d);
        if assoc_has(r.permissions@, d) {
            let k = choose|k: int| 0 <= k < r.permissions@.len() && r.permissions@[k].0@ == d;
            assert(r.permissions@[k].0@ == dimension(k));
        }
    }
}

impl AgentPermissions {
    /// Check if a specific action is permitted (absent actions are denied).
    pub fn is_allowed(&self, action: &str) -> (r: bool)
        ensures
            r == perm_allowed(*self, action@),
    {
        match assoc_get(&self.permissions, action) {
            Some(p) => p.allowed,
            None => false,
        }
    }

    /// The rule recorded for `action`, if any.
    pub fn permission(&self, action: &str) -> (r: Option<&ActionPermission>)
        ensures
            r matches Some(p) ==> assoc_lookup(self.permissions@, action@) == Some(*p),
            r is None ==> assoc_lookup(self.permissions@, action@) is None,
    {
        assoc_get(&self.permissions, action)
    }

    /// Compute the intersection of this agent's permissions with a parent's.
    ///
    /// For each of the eight dimensions (command, file_read, file_write,
    /// network, spawn, tool_call, config_write, message): allowed only when
    /// both allow it; an allowed dimension's commands and paths are the
    /// common elements and its timeout the smaller one; a denied dimension
    /// gets default limits. The result belongs to this agent and records
    /// the parent as the agent it inherits from.
    pub fn intersect(&self, parent: &AgentPermissions) -> (r: Self)
        ensures
            is_intersection(*self, *parent, r),
            forall|d: Seq<char>|
                perm_allowed(r, d) == (is_dimension(d) && perm_allowed(*self, d) && perm_allowed(
                    *parent,
                    d,
                )),
    {
        let mut permissions: Vec<(String, ActionPermission)> = Vec::new();
        let mut i: usize = 0;
        while i < 8
            invariant
                i <= 8,
                permissions@.len() == i,
                forall|k: int|
                    0 <= k < i ==> (#[trigger] permissions@[k]).0@ == dimension(k) && intersected_entry(
                        *self,
                        *parent,
                        dimension(k),
                        permissions@[k].1,
                    ),
            decreases 8 - i,
        {
            let dim = dimension_name(i);
            let self_perm = assoc_get(&self.permissions, dim);
            let parent_perm = assoc_get(&parent.permissions, dim);
            let self_allowed = match self_perm {
                Some(p) => p.allowed,
                None => false,
            };
            let parent_allowed = match parent_perm {
                Some(p) => p.allowed,
                None => false,
            };
            let entry = if self_allowed && parent_allowed {
                let sl = &self_perm.unwrap().limits;
                let pl = &parent_perm.unwrap().limits;
                let limits = PermissionLimits {
                    commands: intersect_vec(Some(&sl.commands), Some(&pl.commands)),
                    paths: intersect_vec(Some(&sl.paths), Some(&pl.paths)),
                    timeout_ms: intersect_option_min(sl.timeout_ms, pl.timeout_ms),
                };
                ActionPermission { allowed: true, limits }
            } else {
                ActionPermission { allowed: false, limits: PermissionLimits::default() }
            };
            permissions.push((owned(dim), entry));
            i = i + 1;
        }
        let r = AgentPermissions {
            agent_id: self.agent_id.clone(),
            permissions,
            inherited_from: Some(parent.agent_id.clone()),
        };
        proof {
            lemma_intersection_lookup(*self, *parent, r);
            assert forall|d: Seq<char>|
                perm_allowed(r, d) == (is_dimension(d) && perm_allowed(*self, d) && perm_allowed(
                    *parent,
                    d,
                )) by {
                if is_dimension(d) {
                    let k = choose|k: int| 0 <= k < 8 && dimension(k) == d;
                    assert(assoc_lookup(r.permissions@, dimension(k)) == Some(r.permissions@[k].1));
                }
            }
        }
        r
    }

    /// Returns true if all eight permission dimensions are denied or absent.
    pub fn is_fully_denied(&self) -> (r: bool)
        ensures
            r == (forall|i: int| 0 <= i < 8 ==> !perm_allowed(*self, #[trigger] dimension(i))),
    {
        let mut i: usize = 0;
        while i < 8
            invariant
                i <= 8,
                forall|k: int| 0 <= k < i ==> !perm_allowed(*self, #[trigger] dimension(k)),
            decreases 8 - i,
        {
            if self.is_allowed(dimension_name(i)) {
                return false;
            }
            i = i + 1;
        }
        true
    }
}

/// Every element of `a` whose key occurs in `b` keeps its key in `common_keyed(a, b)`.
pub proof fn lemma_common_keyed_complete<T: ListItem>(a: Seq<T>, b: Seq<T>)
    ensures
        forall|j: int|
            0 <= j < a.len() && has_item(b, a[j].item_key()) ==> has_item(
                common_keyed(a, b),
                #[trigger] a[j].item_key(),
            ),
    decreases a.len(),
{
    if a.len() > 0 {
        lemma_common_keyed_complete(a.drop_last(), b);
        let rest = common_keyed(a.drop_last(), b);
        assert forall|j: int| 0 <= j < a.len() && has_item(b, a[j].item_key()) implies has_item(
            common_keyed(a, b),
            #[trigger] a[j].item_key(),
        ) by {
            if j < a.len() - 1 {
                assert(a.drop_last()[j] == a[j]);
                assert(has_item(rest, a.drop_last()[j].item_key()));
                let w = choose|w: int| 0 <= w < rest.len() && rest[w].item_key() == a[j].item_key();
                assert(common_keyed(a, b)[w] == rest[w]);
            } else {
                assert(a[j] == a.last());
                assert(common_keyed(a, b)[rest.len() as int] == a.last());
            }
        }
    }
}

/// Every element of `common_keyed(a, b)` has a key that occurs in both `a` and `b`.
pub proof fn lemma_common_keyed_subset<T: ListItem>(a: Seq<T>, b: Seq<T>)
    ensures
        forall|k: int|
            0 <= k < common_keyed(a, b).len() ==> has_item(a, #[trigger] common_keyed(a, b)[k].item_key())
                && has_item(b, common_keyed(a, b)[k].item_key()),
    decreases a.len(),
{
    if a.len() > 0 {
        lemma_common_keyed_subset(a.drop_last(), b);
        let rest = common_keyed(a.drop_last(), b);
        assert forall|k: int| 0 <= k < common_keyed(a, b).len() implies has_item(
            a,
            #[trigger] common_keyed(a, b)[k].item_key(),
        ) && has_item(b, common_keyed(a, b)[k].item_key()) by {
            if k < rest.len() {
                let key = rest[k].item_key();
                let w = choose|w: int| 0 <= w < a.drop_last().len() && a.drop_last()[w].item_key() == key;
                assert(a[w].item_key() == key);
            } else {
                assert(a[a.len() - 1].item_key() == a.last().item_key());
            }
        }
    }
}

/// Law: intersection only narrows. Whatever the intersection allows,
/// both the child and the parent allow.
pub proof fn law_intersect_narrows(child: AgentPermissions, parent: AgentPermissions, r: AgentPermissions)
    requires
        is_intersection(child, parent, r),
    ensures
        forall|d: Seq<char>| perm_allowed(r, d) ==> perm_allowed(child, d) && perm_allowed(parent, d),
{
    lemma_intersection_lookup(child, parent, r);
    assert forall|d: Seq<char>| perm_allowed(r, d) implies perm_allowed(child, d) && perm_allowed(parent, d) by {
        if is_dimension(d) {
            let k = choose|k: int| 0 <= k < 8 && dimension(k) == d;
            assert(assoc_lookup(r.permissions@, dimension(k)) == Some(r.permissions@[k].1));
        }
    }
}

/// Law: an action is allowed by the intersection exactly when it is one
/// of the eight dimensions and both sides allow it; so which actions are
/// allowed does not depend on which side is the child.
pub proof fn law_intersect_allowance_symmetric(
    a: AgentPermissions,
    b: AgentPermissions,
    ab: AgentPermissions,
    ba: AgentPermissions,
)
    requires
        is_intersection(a, b, ab),
        is_intersection(b, a, ba),
    ensures
        forall|d: Seq<char>| perm_allowed(ab, d) == perm_allowed(ba, d),
        forall|d: Seq<char>|
            perm_allowed(ab, d) == (is_dimension(d) && perm_allowed(a, d) && perm_allowed(b, d)),
{
    lemma_intersection_lookup(a, b, ab);
    lemma_intersection_lookup(b, a, ba);
    assert forall|d: Seq<char>|
        perm_allowed(ab, d) == (is_dimension(d) && perm_allowed(a, d) && perm_allowed(b, d))
            && perm_allowed(ba, d) == (is_dimension(d) && perm_allowed(a, d) && perm_allowed(b, d)) by {
        if is_dimension(d) {
            let k = choose|k: int| 0 <= k < 8 && dimension(k) == d;
            assert(assoc_lookup(ab.permissions@, dimension(k)) == Some(ab.permissions@[k].1));
            assert(assoc_lookup(ba.permissions@, dimension(k)) == Some(ba.permissions@[k].1));
        }
    }
}

/// Law: intersecting with an agent's own permissions keeps exactly the
/// dimensions that agent allows.
pub proof fn law_intersect_self(p: AgentPermissions, r: AgentPermissions)
    requires
        is_intersection(p, p, r),
    ensures
        forall|i: int| 0 <= i < 8 ==> perm_allowed(r, #[trigger] dimension(i)) == perm_allowed(p, dimension(i)),
{
    lemma_intersection_lookup(p, p, r);
}

/// Law: a fully denied parent yields a fully denied child, whatever the
/// child's own permissions.
pub proof fn law_intersect_denied_parent(child: AgentPermissions, parent: AgentPermissions, r: AgentPermissions)
    requires
        is_intersection(child, parent, r),
        forall|i: int| 0 <= i < 8 ==> !perm_allowed(parent, #[trigger] dimension(i)),
    ensures
        forall|i: int| 0 <= i < 8 ==> !perm_allowed(r, #[trigger] dimension(i)),
{
    lemma_intersection_lookup(child, parent, r);
}

/// Law: the limits of an allowed dimension never widen. Every command and
/// path the intersection permits is permitted by both sides, and every one
/// that both sides permit is kept. The timeout is
/// the smaller of the timeouts the two sides set: a timeout that either
/// side sets is never dropped, and there is none only when neither sets one.
pub proof fn law_intersect_limits_narrow(
    child: AgentPermissions,
    parent: AgentPermissions,
    r: AgentPermissions,
    i: int,
)
    requires
        is_intersection(child, parent, r),
        0 <= i < 8,
        r.permissions@[i].1.allowed,
    ensures
        ({
            let l = r.permissions@[i].1.limits;
            let cl = perm_limits(child, dimension(i))->0;
            let pl = perm_limits(parent, dimension(i))->0;
            &&& forall|k: int|
                0 <= k < l.commands@.len() ==> has_item(cl.commands@, #[trigger] l.commands@[k]@)
                    && has_item(pl.commands@, l.commands@[k]@)
            &&& forall|k: int|
                0 <= k < l.paths@.len() ==> has_item(cl.paths@, #[trigger] l.paths@[k]@) && has_item(
                    pl.paths@,
                    l.paths@[k]@,
                )
            &&& (l.timeout_ms matches Some(t) ==> (cl.timeout_ms matches Some(c) ==> t <= c) && (
            pl.timeout_ms matches Some(q) ==> t <= q))
            &&& forall|k: int|
                0 <= k < cl.commands@.len() && has_item(pl.commands@, cl.commands@[k]@) ==> has_item(
                    l.commands@,
                    #[trigger] cl.commands@[k]@,
                )
            &&& forall|k: int|
                0 <= k < cl.paths@.len() && has_item(pl.paths@, cl.paths@[k]@) ==> has_item(
                    l.paths@,
                    #[trigger] cl.paths@[k]@,
                )
            &&& (l.timeout_ms is Some <==> (cl.timeout_ms is Some || pl.timeout_ms is Some))
            &&& (l.timeout_ms matches Some(t) ==> (cl.timeout_ms == Some(t) || pl.timeout_ms
                == Some(t)))
        }),
{
    let d = dimension(i);
    assert(intersected_entry(child, parent, d, r.permissions@[i].1));
    let cl = perm_limits(child, d)->0;
    let pl = perm_limits(parent, d)->0;
    let l = r.permissions@[i].1.limits;
    lemma_common_keyed_subset(cl.commands@, pl.commands@);
    lemma_common_keyed_subset(cl.paths@, pl.paths@);
    lemma_common_keyed_complete(cl.commands@, pl.commands@);
    lemma_common_keyed_complete(cl.paths@, pl.paths@);
    assert forall|k: int|
        0 <= k < cl.commands@.len() && has_item(pl.commands@, cl.commands@[k]@) implies has_item(
        l.commands@,
        #[trigger] cl.commands@[k]@,
    ) by {
        assert(cl.commands@[k].item_key() == cl.commands@[k]@);
    }
    assert forall|k: int|
        0 <= k < cl.paths@.len() && has_item(pl.paths@, cl.paths@[k]@) implies has_item(
        l.paths@,
        #[trigger] cl.paths@[k]@,
    ) by {
        assert(cl.paths@[k].item_key() == cl.paths@[k]@);
    }
    assert(perm_allowed(child, d) && perm_allowed(parent, d));
    assert(l.commands@ == common_keyed(cl.commands@, pl.commands@));
    assert(l.paths@ == common_keyed(cl.paths@, pl.paths@));
    assert forall|k: int| 0 <= k < l.commands@.len() implies has_item(cl.commands@, #[trigger] l.commands@[k]@)
        && has_item(pl.commands@, l.commands@[k]@) by {
        assert(common_keyed(cl.commands@, pl.commands@)[k].item_key() == l.commands@[k]@);
    }
    assert forall|k: int| 0 <= k < l.paths@.len() implies has_item(cl.paths@, #[trigger] l.paths@[k]@)
        && has_item(pl.paths@, l.paths@[k]@) by {
        assert(common_keyed(cl.paths@, pl.paths@)[k].item_key() == l.paths@[k]@);
    }
}

} // verus!
