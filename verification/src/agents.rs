//! The agent registry (`agents.json`): the list of registered agent ids,
//! written in JSON with `//` line comments.

use vstd::prelude::*;

use crate::checks::cat_index;
use crate::errors::ConfigError;
use crate::text::{chars_of, decimal, owned, push_char, push_str, str_eq};

verus! {

// ── JSONC comments ───────────────────────────────────────────────────────

/// The index of the first `'\n'` at or after `i`, or the length of `s`.
pub open spec fn next_newline(s: Seq<char>, i: int) -> int
    decreases s.len() - i,
{
    if i >= s.len() {
        s.len() as int
    } else if s[i] == '\n' {
        i
    } else {
        next_newline(s, i + 1)
    }
}

/// The index of the first `//` at or after `i` in `line`, or its length.
pub open spec fn comment_start(line: Seq<char>, i: int) -> int
    decreases line.len() - i,
{
    if i + 1 >= line.len() {
        line.len() as int
    } else if line[i] == '/' && line[i + 1] == '/' {
        i
    } else {
        comment_start(line, i + 1)
    }
}

/// A line with its `//` comment removed.
pub open spec fn without_comment(line: Seq<char>) -> Seq<char> {
    line.subrange(0, comment_start(line, 0))
}

/// The line that starts at `start` and ends before the newline at `end`
/// (or the end of `s`), without a `'\r'` that precedes its newline.
pub open spec fn line_at(s: Seq<char>, start: int, end: int) -> Seq<char> {
    if end < s.len() && end > start && s[end - 1] == '\r' {
        s.subrange(start, end - 1)
    } else {
        s.subrange(start, end)
    }
}

/// The lines of `s` from position `start` on, each without its comment,
/// joined by `'\n'`. A final newline ends the last line and starts none.
pub open spec fn strip_from(s: Seq<char>, start: int) -> Seq<char>
    decreases s.len() - start,
{
    if start < 0 || start >= s.len() {
        Seq::empty()
    } else {
        let end = next_newline(s, start);
        let line = without_comment(line_at(s, start, end));
        if end + 1 >= s.len() {
            line
        } else {
            proof {
                lemma_next_newline_bounds(s, start);
            }
            line + seq!['\n'] + strip_from(s, end + 1)
        }
    }
}

/// Where the next newline can be.
pub proof fn lemma_next_newline_bounds(s: Seq<char>, i: int)
    requires
        0 <= i,
    ensures
        i <= next_newline(s, i) || i > s.len(),
        next_newline(s, i) <= s.len(),
        next_newline(s, i) < s.len() ==> s[next_newline(s, i)] == '\n',
        forall|k: int| i <= k < next_newline(s, i) ==> s[k] != '\n',
    decreases s.len() - i,
{
    if i < s.len() && s[i] != '\n' {
        lemma_next_newline_bounds(s, i + 1);
    }
}

/// Where a comment can start.
pub proof fn lemma_comment_start_bounds(line: Seq<char>, i: int)
    requires
        0 <= i,
    ensures
        comment_start(line, i) <= line.len(),
        i <= line.len() ==> i <= comment_start(line, i),
    decreases line.len() - i,
{
    if i + 1 < line.len() && !(line[i] == '/' && line[i + 1] == '/') {
        lemma_comment_start_bounds(line, i + 1);
    }
}

/// The index of the first newline at or after `i`, or the length.
fn find_newline(v: &Vec<char>, i: usize) -> (r: usize)
    requires
        i <= v@.len(),
    ensures
        r == next_newline(v@, i as int),
{
    let mut j = i;
    while j < v.len()
        invariant
            i <= j <= v@.len(),
            next_newline(v@, i as int) == next_newline(v@, j as int),
        decreases v.len() - j,
    {
        if v[j] == '\n' {
            return j;
        }
        j = j + 1;
    }
    j
}

/// Append `line` without its `//` comment to `out`.
fn push_without_comment(out: &mut String, line: &Vec<char>)
    ensures
        final(out)@ == old(out)@ + without_comment(line@),
{
    let mut i: usize = 0;
    proof {
        lemma_comment_start_bounds(line@, 0);
    }
    while i < line.len()
        invariant
            i <= line@.len(),
            comment_start(line@, 0) == comment_start(line@, i as int),
            out@ == old(out)@ + line@.subrange(0, i as int),
        decreases line.len() - i,
    {
        if i + 1 < line.len() && line[i] == '/' && line[i + 1] == '/' {
            return;
        }
        push_char(out, line[i]);
        assert(line@.subrange(0, i + 1) =~= line@.subrange(0, i as int).push(line@[i as int]));
        i = i + 1;
    }
    assert(i + 1 >= line@.len());
}

/// Strip `//` line comments: everything from `//` to the end of each line.
///
/// Lines end at `'\n'` or `"\r\n"` and are joined again with `'\n'`;
/// comment markers inside strings are not recognised.
pub fn strip_jsonc_comments(content: &str) -> (r: String)
    ensures
        r@ == strip_from(content@, 0),
{
    let v = chars_of(content);
    let mut out = String::new();
    let mut start: usize = 0;
    let ghost mut done: Seq<char> = Seq::empty();
    if v.len() == 0 {
        return out;
    }
    while start < v.len()
        invariant
            v@ == content@,
            start < v@.len() ==> out@ + strip_from(v@, start as int) == strip_from(v@, 0),
            start >= v@.len() ==> out@ == strip_from(v@, 0),
        decreases v.len() - start,
    {
        let end = find_newline(&v, start);
        proof {
            lemma_next_newline_bounds(v@, start as int);
        }
        let line_end = if end < v.len() && end > start && v[end - 1] == '\r' {
            end - 1
        } else {
            end
        };
        let mut line: Vec<char> = Vec::new();
        let mut k = start;
        while k < line_end
            invariant
                start <= k <= line_end <= v@.len(),
                line@ == v@.subrange(start as int, k as int),
            decreases line_end - k,
        {
            line.push(v[k]);
            assert(v@.subrange(start as int, k + 1) =~= v@.subrange(start as int, k as int).push(
                v@[k as int],
            ));
            k = k + 1;
        }
        assert(line@ == line_at(v@, start as int, end as int));
        let ghost before = out@;
        push_without_comment(&mut out, &line);
        if end >= v.len() - 1 {
            assert(out@ == strip_from(v@, 0));
            start = v.len();
        } else {
            push_char(&mut out, '\n');
            assert(out@ + strip_from(v@, end + 1) =~= before + strip_from(v@, start as int));
            start = end + 1;
        }
    }
    out
}

// ── Registry ─────────────────────────────────────────────────────────────

/// The registration list of `agents.json`.
#[derive(Debug, Clone, PartialEq, Eq)]
pub struct AgentsConfig {
    /// Registered agent ids.
    pub agents: Vec<String>,
}

impl Default for AgentsConfig {
    fn default() -> (r: Self)
        ensures
            r.agents@.len() == 0,
    {
        AgentsConfig { agents: Vec::new() }
    }
}

/// Whether an id before `i` equals the id at `i`.
pub open spec fn id_seen_before(ids: Seq<String>, i: int) -> bool {
    exists|j: int| 0 <= j < i && (#[trigger] ids[j])@ == ids[i]@
}

/// The first problem among the ids `ids[i..]`: an empty or repeated id,
/// as (field, message).
pub open spec fn first_id_error(ids: Seq<String>, i: nat) -> Option<(Seq<char>, Seq<char>)>
    decreases ids.len() - i,
{
    if i >= ids.len() {
        None
    } else if ids[i as int]@.len() == 0 {
        Some(("agents["@ + decimal(i) + "]"@, "agent id cannot be empty"@))
    } else if id_seen_before(ids, i as int) {
        Some(("agents["@ + decimal(i) + "]"@, "duplicate agent id '"@ + ids[i as int]@ + "'"@))
    } else {
        first_id_error(ids, i + 1)
    }
}

/// Check that every registered id is non-empty and registered once.
pub fn validate_agents_config(config: &AgentsConfig) -> (r: Result<(), ConfigError>)
    ensures
        match first_id_error(config.agents@, 0) {
            None => r is Ok,
            Some(e) => r matches Err(err) && crate::credentials::is_value_error(err, e.0, e.1),
        },
{
    let ids = &config.agents;
    let mut i: usize = 0;
    while i < ids.len()
        invariant
            i <= ids@.len(),
            ids@ == config.agents@,
            first_id_error(ids@, 0) == first_id_error(ids@, i as nat),
        decreases ids.len() - i,
    {
        if ids[i].as_str().is_empty() {
            return Err(
                ConfigError::ValueError {
                    field: cat_index("agents[", i, "]"),
                    message: owned("agent id cannot be empty"),
                },
            );
        }
        let mut j: usize = 0;
        while j < i
            invariant
                j <= i < ids@.len(),
                ids@ == config.agents@,
                ids@[i as int]@.len() > 0,
                first_id_error(ids@, 0) == first_id_error(ids@, i as nat),
                forall|k: int| 0 <= k < j ==> (#[trigger] ids@[k])@ != ids@[i as int]@,
            decreases i - j,
        {
            if str_eq(ids[j].as_str(), ids[i].as_str()) {
                assert(id_seen_before(ids@, i as int)) by {
                    assert(ids@[j as int]@ == ids@[i as int]@);
                }
                let mut message = owned("duplicate agent id '");
                push_str(&mut message, ids[i].as_str());
                push_str(&mut message, "'");
                return Err(ConfigError::ValueError { field: cat_index("agents[", i, "]"), message });
            }
            j = j + 1;
        }
        i = i + 1;
    }
    Ok(())
}

/// Whether an id among `ids[..n]` has the characters `s`.
pub open spec fn id_among(ids: Seq<String>, n: int, s: Seq<char>) -> bool {
    exists|j: int| 0 <= j < n && (#[trigger] ids[j])@ == s
}

/// Whether a string of `r` has the characters `s`.
pub open spec fn ref_among(r: Seq<&str>, s: Seq<char>) -> bool {
    exists|k: int| 0 <= k < r.len() && (#[trigger] r[k])@ == s
}

/// The `agents.json` provider.
#[derive(Debug, Clone)]
pub struct AgentsConfigProvider {
    pub config: AgentsConfig,
    /// The file the registry was loaded from; `memory` when it was not.
    pub config_path: String,
}

impl Default for AgentsConfigProvider {
    fn default() -> (r: Self)
        ensures
            r.config.agents@.len() == 0,
            r.config_path@ == "memory"@,
    {
        AgentsConfigProvider { config: AgentsConfig::default(), config_path: owned("memory") }
    }
}

impl AgentsConfigProvider {
    /// A provider for a registry loaded from `config_path`.
    pub fn from_config(config: AgentsConfig, config_path: &str) -> (r: Self)
        ensures
            r.config == config,
            r.config_path@ == config_path@,
    {
        AgentsConfigProvider { config, config_path: owned(config_path) }
    }

    /// The registry.
    pub fn inner(&self) -> (r: &AgentsConfig)
        ensures
            *r == self.config,
    {
        &self.config
    }

    /// Check the registry (see [`validate_agents_config`]).
    pub fn validate(&self) -> (r: Result<(), ConfigError>)
        ensures
            match first_id_error(self.config.agents@, 0) {
                None => r is Ok,
                Some(e) => r matches Err(err) && crate::credentials::is_value_error(err, e.0, e.1),
            },
    {
        validate_agents_config(&self.config)
    }

    /// The registered id equal to `id`, if any.
    pub fn get(&self, id: &str) -> (r: Option<&str>)
        ensures
            match r {
                Some(s) => s@ == id@ && crate::text::has_str(self.config.agents@, id@),
                None => !crate::text::has_str(self.config.agents@, id@),
            },
    {
        let ids = &self.config.agents;
        let mut i: usize = 0;
        while i < ids.len()
            invariant
                i <= ids@.len(),
                ids@ == self.config.agents@,
                forall|k: int| 0 <= k < i ==> (#[trigger] ids@[k])@ != id@,
            decreases ids.len() - i,
        {
            if str_eq(ids[i].as_str(), id) {
                return Some(ids[i].as_str());
            }
            i = i + 1;
        }
        None
    }

    /// All registered agent ids.
    pub fn agents(&self) -> (r: &[String])
        ensures
            r@ == self.config.agents@,
    {
        self.config.agents.as_slice()
    }

    /// The registered ids, each once, for membership tests.
    pub fn lookup(&self) -> (r: Vec<&str>)
        ensures
            forall|k: int, l: int| 0 <= k < l < r@.len() ==> r@[k]@ != r@[l]@,
            forall|s: Seq<char>|
                #[trigger] id_among(self.config.agents@, self.config.agents@.len() as int, s)
                    <==> ref_among(r@, s),
    {
        let ids = &self.config.agents;
        let mut r: Vec<&str> = Vec::new();
        let mut i: usize = 0;
        while i < ids.len()
            invariant
                i <= ids@.len(),
                ids@ == self.config.agents@,
                forall|k: int, l: int| 0 <= k < l < r@.len() ==> r@[k]@ != r@[l]@,
                forall|s: Seq<char>| #[trigger] id_among(ids@, i as int, s) <==> ref_among(r@, s),
            decreases ids.len() - i,
        {
            let id = ids[i].as_str();
            let mut present = false;
            let mut k: usize = 0;
            while k < r.len()
                invariant
                    k <= r@.len(),
                    present == exists|m: int| 0 <= m < k && (#[trigger] r@[m])@ == id@,
                decreases r.len() - k,
            {
                if str_eq(r[k], id) {
                    present = true;
                }
                k = k + 1;
            }
            let ghost before = r@;
            if !present {
                r.push(id);
            }
            assert forall|s: Seq<char>| #[trigger] id_among(ids@, i + 1, s) <==> ref_among(
                r@,
                s,
            ) by {
                if id_among(ids@, i + 1, s) {
                    let j = choose|j: int| 0 <= j < i + 1 && (#[trigger] ids@[j])@ == s;
                    if j < i {
                        assert(id_among(ids@, i as int, s));
                        assert(ref_among(before, s));
                        let m = choose|m: int| 0 <= m < before.len() && (#[trigger] before[m])@ == s;
                        assert(r@[m] == before[m]);
                    } else if !present {
                        assert(r@[r@.len() - 1]@ == s);
                    } else {
                        let m = choose|m: int| 0 <= m < r@.len() && (#[trigger] r@[m])@ == id@;
                    }
                }
                if ref_among(r@, s) {
                    let m = choose|m: int| 0 <= m < r@.len() && (#[trigger] r@[m])@ == s;
                    if m < before.len() {
                        assert(before[m] == r@[m]);
                        assert(ref_among(before, s));
                        assert(id_among(ids@, i as int, s));
                        let j = choose|j: int| 0 <= j < i && (#[trigger] ids@[j])@ == s;
                        assert(ids@[j]@ == s);
                    } else {
                        assert(ids@[i as int]@ == s);
                    }
                }
            }
            i = i + 1;
        }
        r
    }

    /// The configuration format version.
    pub fn version(&self) -> (r: &'static str)
        ensures
            r@ == "1.0.0"@,
    {
        "1.0.0"
    }

    /// The configuration file name.
    pub fn config_path() -> (r: &'static str)
        ensures
            r@ == "agents.json"@,
    {
        "agents.json"
    }

    /// Whether the registry was not loaded from a file.
    pub fn is_default(&self) -> (r: bool)
        ensures
            r == (self.config_path@ == "memory"@),
    {
        str_eq(self.config_path.as_str(), "memory")
    }
}

/// The union of two registries: the user's ids, then the project's new
/// ones, each id once, in first-seen order.
pub open spec fn union_ids(ids: Seq<String>) -> Seq<Seq<char>>
    decreases ids.len(),
{
    if ids.len() == 0 {
        Seq::empty()
    } else {
        let before = union_ids(ids.drop_last());
        if before.contains(ids.last()@) {
            before
        } else {
            before.push(ids.last()@)
        }
    }
}

/// The user's agent ids followed by the project's, each once.
pub fn merge_agent_ids(user: &[String], project: &[String]) -> (r: Vec<String>)
    requires
        user@.len() + project@.len() <= usize::MAX,
    ensures
        r@.map_values(|s: String| s@) == union_ids(user@ + project@),
{
    let ghost all = user@ + project@;
    let mut r: Vec<String> = Vec::new();
    let mut i: usize = 0;
    let n = user.len() + project.len();
    assert(all.subrange(0, 0) =~= Seq::<String>::empty());
    assert(r@.map_values(|s: String| s@) =~= Seq::<Seq<char>>::empty());
    while i < n
        invariant
            n == all.len(),
            all == user@ + project@,
            i <= n,
            r@.map_values(|s: String| s@) == union_ids(all.subrange(0, i as int)),
        decreases n - i,
    {
        let id: &String = if i < user.len() {
            &user[i]
        } else {
            &project[i - user.len()]
        };
        assert(*id == all[i as int]);
        let mut present = false;
        let mut k: usize = 0;
        while k < r.len()
            invariant
                k <= r@.len(),
                present == exists|m: int| 0 <= m < k && (#[trigger] r@[m])@ == id@,
            decreases r.len() - k,
        {
            if str_eq(r[k].as_str(), id.as_str()) {
                present = true;
            }
            k = k + 1;
        }
        assert(all.subrange(0, i + 1).drop_last() =~= all.subrange(0, i as int));
        let ghost views = r@.map_values(|s: String| s@);
        assert(present == views.contains(id@)) by {
            if present {
                let m = choose|m: int| 0 <= m < r@.len() && (#[trigger] r@[m])@ == id@;
                assert(views[m] == id@);
            }
            if views.contains(id@) {
                let m = choose|m: int| 0 <= m < views.len() && views[m] == id@;
                assert(r@[m]@ == id@);
            }
        }
        if !present {
            r.push(id.clone());
            assert(r@.map_values(|s: String| s@) =~= views.push(id@));
        }
        i = i + 1;
    }
    assert(all.subrange(0, n as int) =~= all);
    r
}

} // verus!
