//! The in-memory state of the configuration manager: the cached value of
//! each section, the sections blocked after a failed first load, and the
//! pending-restart area of restart-class sections.
//!
//! A section's value is *visible* when it is cached and not blocked.
//! Values staged for restart are not visible until
//! [`ConfigManager::apply_pending_restart`] moves them into the cache.

use vstd::prelude::*;

use crate::agents::union_ids;
use crate::json::JsonValue;
use crate::section::{path_join, section_filename, ConfigSection};
use crate::text::owned;

verus! {

/// The number of configuration sections.
pub const SECTION_COUNT: usize = 11;

/// The slot of a section in the per-section tables.
pub open spec fn slot(s: ConfigSection) -> int {
    match s {
        ConfigSection::Models => 0,
        ConfigSection::Channels => 1,
        ConfigSection::Gateway => 2,
        ConfigSection::Plugins => 3,
        ConfigSection::System => 4,
        ConfigSection::Session => 5,
        ConfigSection::Credentials => 6,
        ConfigSection::Accounts => 7,
        ConfigSection::Memory => 8,
        ConfigSection::Skills => 9,
        ConfigSection::Media => 10,
    }
}

/// The section in slot `i`.
pub open spec fn section_at(i: int) -> ConfigSection {
    if i == 0 {
        ConfigSection::Models
    } else if i == 1 {
        ConfigSection::Channels
    } else if i == 2 {
        ConfigSection::Gateway
    } else if i == 3 {
        ConfigSection::Plugins
    } else if i == 4 {
        ConfigSection::System
    } else if i == 5 {
        ConfigSection::Session
    } else if i == 6 {
        ConfigSection::Credentials
    } else if i == 7 {
        ConfigSection::Accounts
    } else if i == 8 {
        ConfigSection::Memory
    } else if i == 9 {
        ConfigSection::Skills
    } else {
        ConfigSection::Media
    }
}

/// The slot of a section.
pub fn section_slot(s: ConfigSection) -> (r: usize)
    ensures
        r == slot(s),
        r < SECTION_COUNT,
{
    match s {
        ConfigSection::Models => 0,
        ConfigSection::Channels => 1,
        ConfigSection::Gateway => 2,
        ConfigSection::Plugins => 3,
        ConfigSection::System => 4,
        ConfigSection::Session => 5,
        ConfigSection::Credentials => 6,
        ConfigSection::Accounts => 7,
        ConfigSection::Memory => 8,
        ConfigSection::Skills => 9,
        ConfigSection::Media => 10,
    }
}

/// The section in slot `i`.
fn slot_section(i: usize) -> (r: ConfigSection)
    requires
        i < SECTION_COUNT,
    ensures
        r == section_at(i as int),
        slot(r) == i,
{
    if i == 0 {
        ConfigSection::Models
    } else if i == 1 {
        ConfigSection::Channels
    } else if i == 2 {
        ConfigSection::Gateway
    } else if i == 3 {
        ConfigSection::Plugins
    } else if i == 4 {
        ConfigSection::System
    } else if i == 5 {
        ConfigSection::Session
    } else if i == 6 {
        ConfigSection::Credentials
    } else if i == 7 {
        ConfigSection::Accounts
    } else if i == 8 {
        ConfigSection::Memory
    } else if i == 9 {
        ConfigSection::Skills
    } else {
        ConfigSection::Media
    }
}

/// Slots and sections correspond one to one.
pub proof fn lemma_slot_section(s: ConfigSection, i: int)
    ensures
        section_at(slot(s)) == s,
        0 <= slot(s) < SECTION_COUNT,
        0 <= i < SECTION_COUNT ==> slot(section_at(i)) == i,
{
}

/// The configuration manager's state.
pub struct ConfigManager {
    /// Directory holding the configuration files.
    config_dir: String,
    /// The cached value of each section, by slot.
    sections: Vec<Option<JsonValue>>,
    /// Whether each section is blocked, by slot.
    blocked: Vec<bool>,
    /// The value staged for restart of each section, by slot.
    pending_restart: Vec<Option<JsonValue>>,
}

/// A table with no entry in any slot.
fn empty_table() -> (r: Vec<Option<JsonValue>>)
    ensures
        r@.len() == SECTION_COUNT,
        forall|i: int| 0 <= i < SECTION_COUNT ==> r@[i] is None,
{
    let mut r: Vec<Option<JsonValue>> = Vec::new();
    let mut i: usize = 0;
    while i < SECTION_COUNT
        invariant
            i <= SECTION_COUNT,
            r@.len() == i,
            forall|k: int| 0 <= k < i ==> r@[k] is None,
        decreases SECTION_COUNT - i,
    {
        r.push(None);
        i = i + 1;
    }
    r
}

impl ConfigManager {
    /// The tables cover every section.
    pub closed spec fn wf(&self) -> bool {
        &&& self.sections@.len() == SECTION_COUNT
        &&& self.blocked@.len() == SECTION_COUNT
        &&& self.pending_restart@.len() == SECTION_COUNT
    }

    /// The configuration directory.
    pub closed spec fn dir(&self) -> Seq<char> {
        self.config_dir@
    }

    /// The configuration directory.
    pub fn config_dir(&self) -> (r: &str)
        ensures
            r@ == self.dir(),
    {
        self.config_dir.as_str()
    }

    /// The cached value of a section.
    pub closed spec fn cached(&self, s: ConfigSection) -> Option<JsonValue> {
        self.sections@[slot(s)]
    }

    /// Whether a section is blocked.
    pub closed spec fn is_blocked_spec(&self, s: ConfigSection) -> bool {
        self.blocked@[slot(s)]
    }

    /// The value staged for restart of a section.
    pub closed spec fn pending(&self, s: ConfigSection) -> Option<JsonValue> {
        self.pending_restart@[slot(s)]
    }

    /// The value of a section in effect: cached and not blocked.
    pub open spec fn visible(&self, s: ConfigSection) -> Option<JsonValue> {
        if self.is_blocked_spec(s) {
            None
        } else {
            self.cached(s)
        }
    }

    /// A manager for `config_dir` with nothing loaded.
    pub fn new(config_dir: &str) -> (r: Self)
        ensures
            r.wf(),
            r.dir() == config_dir@,
            forall|s: ConfigSection| #[trigger] r.cached(s) is None,
            forall|s: ConfigSection| !#[trigger] r.is_blocked_spec(s),
            forall|s: ConfigSection| #[trigger] r.pending(s) is None,
    {
        let mut blocked: Vec<bool> = Vec::new();
        let mut i: usize = 0;
        while i < SECTION_COUNT
            invariant
                i <= SECTION_COUNT,
                blocked@.len() == i,
                forall|k: int| 0 <= k < i ==> !blocked@[k],
            decreases SECTION_COUNT - i,
        {
            blocked.push(false);
            i = i + 1;
        }
        ConfigManager {
            config_dir: owned(config_dir),
            sections: empty_table(),
            blocked,
            pending_restart: empty_table(),
        }
    }

    /// The path of a section's file under the configuration directory.
    pub fn section_path(&self, section: ConfigSection) -> (r: String)
        ensures
            r@ == path_join(self.dir(), section_filename(section)),
    {
        section.path(self.config_dir.as_str())
    }

    /// The value of a section in effect; `None` when unset or blocked.
    pub fn get_section_value(&self, section: ConfigSection) -> (r: Option<&JsonValue>)
        requires
            self.wf(),
        ensures
            match r {
                Some(v) => self.visible(section) == Some(*v),
                None => self.visible(section) is None,
            },
    {
        let i = section_slot(section);
        if self.blocked[i] {
            return None;
        }
        match &self.sections[i] {
            Some(v) => Some(v),
            None => None,
        }
    }

    /// The value of a section in effect (same as [`Self::get_section_value`]).
    pub fn section(&self, section: ConfigSection) -> (r: Option<&JsonValue>)
        requires
            self.wf(),
        ensures
            match r {
                Some(v) => self.visible(section) == Some(*v),
                None => self.visible(section) is None,
            },
    {
        self.get_section_value(section)
    }

    /// Whether a section is blocked.
    pub fn is_blocked(&self, section: ConfigSection) -> (r: bool)
        requires
            self.wf(),
        ensures
            r == self.is_blocked_spec(section),
    {
        self.blocked[section_slot(section)]
    }

    /// Block a section: it had no value and its load failed.
    pub fn block_section(&mut self, section: ConfigSection)
        requires
            old(self).wf(),
        ensures
            final(self).wf(),
            final(self).dir() == old(self).dir(),
            final(self).is_blocked_spec(section),
            forall|s: ConfigSection|
                s != section ==> #[trigger] final(self).is_blocked_spec(s) == old(
                    self,
                ).is_blocked_spec(s),
            forall|s: ConfigSection| #[trigger] final(self).cached(s) == old(self).cached(s),
            forall|s: ConfigSection| #[trigger] final(self).pending(s) == old(self).pending(s),
    {
        let i = section_slot(section);
        self.blocked.set(i, true);
        proof {
            assert forall|s: ConfigSection| s != section implies #[trigger] self.is_blocked_spec(s)
                == old(self).is_blocked_spec(s) by {
                lemma_slot_section(s, 0);
                lemma_slot_section(section, 0);
            }
        }
    }

    /// Unblock a section after a successful reload.
    pub fn unblock_section(&mut self, section: ConfigSection)
        requires
            old(self).wf(),
        ensures
            final(self).wf(),
            final(self).dir() == old(self).dir(),
            !final(self).is_blocked_spec(section),
            forall|s: ConfigSection|
                s != section ==> #[trigger] final(self).is_blocked_spec(s) == old(
                    self,
                ).is_blocked_spec(s),
            forall|s: ConfigSection| #[trigger] final(self).cached(s) == old(self).cached(s),
            forall|s: ConfigSection| #[trigger] final(self).pending(s) == old(self).pending(s),
    {
        let i = section_slot(section);
        self.blocked.set(i, false);
        proof {
            assert forall|s: ConfigSection| s != section implies #[trigger] self.is_blocked_spec(s)
                == old(self).is_blocked_spec(s) by {
                lemma_slot_section(s, 0);
                lemma_slot_section(section, 0);
            }
        }
    }

    /// Cache a value loaded at startup, leaving the blocked state as it is.
    pub fn load_section_value(&mut self, section: ConfigSection, value: JsonValue)
        requires
            old(self).wf(),
        ensures
            final(self).wf(),
            final(self).dir() == old(self).dir(),
            final(self).cached(section) == Some(value),
            forall|s: ConfigSection|
                s != section ==> #[trigger] final(self).cached(s) == old(self).cached(s),
            forall|s: ConfigSection|
                #[trigger] final(self).is_blocked_spec(s) == old(self).is_blocked_spec(s),
            forall|s: ConfigSection| #[trigger] final(self).pending(s) == old(self).pending(s),
    {
        let i = section_slot(section);
        self.sections.set(i, Some(value));
        proof {
            assert forall|s: ConfigSection| s != section implies #[trigger] self.cached(s) == old(
                self,
            ).cached(s) by {
                lemma_slot_section(s, 0);
                lemma_slot_section(section, 0);
            }
        }
    }

    /// Drop the cached value of a section whose file is gone, leaving the
    /// blocked state as it is.
    pub fn clear_section_value(&mut self, section: ConfigSection)
        requires
            old(self).wf(),
        ensures
            final(self).wf(),
            final(self).dir() == old(self).dir(),
            final(self).cached(section) is None,
            forall|s: ConfigSection|
                s != section ==> #[trigger] final(self).cached(s) == old(self).cached(s),
            forall|s: ConfigSection|
                #[trigger] final(self).is_blocked_spec(s) == old(self).is_blocked_spec(s),
            forall|s: ConfigSection| #[trigger] final(self).pending(s) == old(self).pending(s),
    {
        let i = section_slot(section);
        self.sections.set(i, None);
        proof {
            assert forall|s: ConfigSection| s != section implies #[trigger] self.cached(s) == old(
                self,
            ).cached(s) by {
                lemma_slot_section(s, 0);
                lemma_slot_section(section, 0);
            }
        }
    }

    /// Put a reloaded value in effect: unblock the section and cache it.
    pub fn update_section_cache(&mut self, section: ConfigSection, value: JsonValue)
        requires
            old(self).wf(),
        ensures
            final(self).wf(),
            final(self).dir() == old(self).dir(),
            final(self).visible(section) == Some(value),
            final(self).cached(section) == Some(value),
            !final(self).is_blocked_spec(section),
            forall|s: ConfigSection|
                s != section ==> #[trigger] final(self).cached(s) == old(self).cached(s)
                    && final(self).is_blocked_spec(s) == old(self).is_blocked_spec(s),
            forall|s: ConfigSection| #[trigger] final(self).pending(s) == old(self).pending(s),
    {
        self.unblock_section(section);
        self.load_section_value(section, value);
    }

    /// Stage a value of a restart-class section; what is in effect stays.
    pub fn stage_restart_value(&mut self, section: ConfigSection, value: JsonValue)
        requires
            old(self).wf(),
        ensures
            final(self).wf(),
            final(self).dir() == old(self).dir(),
            final(self).pending(section) == Some(value),
            forall|s: ConfigSection|
                s != section ==> #[trigger] final(self).pending(s) == old(self).pending(s),
            forall|s: ConfigSection| #[trigger] final(self).cached(s) == old(self).cached(s),
            forall|s: ConfigSection|
                #[trigger] final(self).is_blocked_spec(s) == old(self).is_blocked_spec(s),
            staged_from(*old(self), *final(self), section, value),
    {
        let i = section_slot(section);
        self.pending_restart.set(i, Some(value));
        proof {
            assert forall|s: ConfigSection| s != section implies #[trigger] self.pending(s) == old(
                self,
            ).pending(s) by {
                lemma_slot_section(s, 0);
                lemma_slot_section(section, 0);
            }
        }
    }

    /// The value staged for restart of a section, if any.
    pub fn pending_restart_value(&self, section: ConfigSection) -> (r: Option<&JsonValue>)
        requires
            self.wf(),
        ensures
            match r {
                Some(v) => self.pending(section) == Some(*v),
                None => self.pending(section) is None,
            },
    {
        match &self.pending_restart[section_slot(section)] {
            Some(v) => Some(v),
            None => None,
        }
    }

    /// Put every staged value in effect (after a gateway restart) and empty
    /// the staging area. Returns the sections that were applied, in slot order.
    pub fn apply_pending_restart(&mut self) -> (applied: Vec<ConfigSection>)
        requires
            old(self).wf(),
        ensures
            final(self).wf(),
            final(self).dir() == old(self).dir(),
            forall|s: ConfigSection| #[trigger] final(self).pending(s) is None,
            forall|s: ConfigSection|
                old(self).pending(s) is Some ==> #[trigger] final(self).visible(s) == old(
                    self,
                ).pending(s),
            forall|s: ConfigSection|
                old(self).pending(s) is None ==> #[trigger] final(self).cached(s) == old(self).cached(s)
                    && final(self).is_blocked_spec(s) == old(self).is_blocked_spec(s),
            forall|s: ConfigSection|
                #[trigger] applied@.contains(s) <==> old(self).pending(s) is Some,
            applied_from(*old(self), *final(self)),
    {
        let mut staged = empty_table();
        std::mem::swap(&mut staged, &mut self.pending_restart);
        let ghost before = *old(self);
        let mut applied: Vec<ConfigSection> = Vec::new();
        let mut i: usize = staged.len();
        while i > 0
            invariant
                i <= SECTION_COUNT,
                staged@.len() == i,
                self.wf(),
                self.config_dir@ == before.config_dir@,
                forall|k: int| 0 <= k < i ==> staged@[k] == before.pending_restart@[k],
                forall|k: int| 0 <= k < SECTION_COUNT ==> self.pending_restart@[k] is None,
                forall|k: int|
                    i <= k < SECTION_COUNT ==> (before.pending_restart@[k] is Some ==> (
                    !self.blocked@[k] && self.sections@[k] == before.pending_restart@[k])),
                forall|k: int|
                    0 <= k < SECTION_COUNT && (k < i || before.pending_restart@[k] is None) ==> (
                    self.sections@[k] == before.sections@[k] && self.blocked@[k]
                        == before.blocked@[k]),
                forall|k: int|
                    0 <= k < applied@.len() ==> slot(applied@[k]) >= i as int
                        && before.pending_restart@[slot(applied@[k])] is Some,
                forall|k: int|
                    i <= k < SECTION_COUNT && before.pending_restart@[k] is Some ==> applied@.contains(
                        section_at(k),
                    ),
            decreases i,
        {
            i = i - 1;
            let item = staged.pop().unwrap();
            if let Some(v) = item {
                let s = slot_section(i);
                let ghost pre_applied = applied@;
                self.blocked.set(i, false);
                self.sections.set(i, Some(v));
                applied.push(s);
                proof {
                    assert(applied@.last() == s);
                    assert forall|k: int|
                        i + 1 <= k < SECTION_COUNT && before.pending_restart@[k] is Some implies applied@.contains(
                        section_at(k),
                    ) by {
                        assert(pre_applied.contains(section_at(k)));
                        let m = choose|m: int| 0 <= m < pre_applied.len() && pre_applied[m] == section_at(k);
                        assert(applied@[m] == section_at(k));
                    }
                    assert(applied@[applied@.len() - 1] == section_at(i as int));
                }
            }
        }
        proof {
            assert forall|s: ConfigSection| #[trigger] self.pending(s) is None by {
                lemma_slot_section(s, 0);
            }
            assert forall|s: ConfigSection| #[trigger] applied@.contains(s) <==> before.pending(s) is Some by {
                lemma_slot_section(s, 0);
                if applied@.contains(s) {
                    let m = choose|m: int| 0 <= m < applied@.len() && applied@[m] == s;
                    assert(before.pending_restart@[slot(applied@[m])] is Some);
                }
            }
            assert forall|s: ConfigSection| before.pending(s) is Some implies #[trigger] self.visible(
                s,
            ) == before.pending(s) by {
                lemma_slot_section(s, 0);
            }
            assert forall|s: ConfigSection| before.pending(s) is None implies #[trigger] self.cached(
                s,
            ) == before.cached(s) && self.is_blocked_spec(s) == before.is_blocked_spec(s) by {
                lemma_slot_section(s, 0);
            }
        }
        applied
    }

    /// The user's agent ids followed by the project's new ones, each once.
    pub fn merge_agent_ids(user: &[String], project: &[String]) -> (r: Vec<String>)
        requires
            user@.len() + project@.len() <= usize::MAX,
        ensures
            r@.map_values(|s: String| s@) == union_ids(user@ + project@),
    {
        crate::agents::merge_agent_ids(user, project)
    }
}

/// Whether `new` is `old` with `v` staged for restart of section `s`.
pub open spec fn staged_from(old: ConfigManager, new: ConfigManager, s: ConfigSection, v: JsonValue) -> bool {
    &&& new.pending(s) == Some(v)
    &&& forall|t: ConfigSection| t != s ==> #[trigger] new.pending(t) == old.pending(t)
    &&& forall|t: ConfigSection|
        #[trigger] new.cached(t) == old.cached(t) && new.is_blocked_spec(t) == old.is_blocked_spec(t)
}

/// Whether `new` is `old` after the staged values were put in effect.
pub open spec fn applied_from(old: ConfigManager, new: ConfigManager) -> bool {
    &&& forall|t: ConfigSection| #[trigger] new.pending(t) is None
    &&& forall|t: ConfigSection|
        old.pending(t) is Some ==> #[trigger] new.visible(t) == old.pending(t)
    &&& forall|t: ConfigSection|
        old.pending(t) is None ==> #[trigger] new.cached(t) == old.cached(t)
            && new.is_blocked_spec(t) == old.is_blocked_spec(t)
}

/// Law: a value staged for restart changes nothing in effect until the
/// restart; once the staged values are applied, it is what the section
/// reads, and the staging area is empty.
pub proof fn law_staged_value_takes_effect_on_restart(
    m0: ConfigManager,
    m1: ConfigManager,
    m2: ConfigManager,
    s: ConfigSection,
    v: JsonValue,
)
    requires
        staged_from(m0, m1, s, v),
        applied_from(m1, m2),
    ensures
        forall|t: ConfigSection| #[trigger] m1.visible(t) == m0.visible(t),
        m2.visible(s) == Some(v),
        m2.pending(s) is None,
{
    assert forall|t: ConfigSection| #[trigger] m1.visible(t) == m0.visible(t) by {
        assert(m1.cached(t) == m0.cached(t));
    }
    assert(m1.pending(s) is Some);
    assert(m2.visible(s) == m1.pending(s));
}

/// Law: applying with nothing staged changes nothing in effect.
pub proof fn law_apply_without_staged_values(m1: ConfigManager, m2: ConfigManager)
    requires
        forall|t: ConfigSection| #[trigger] m1.pending(t) is None,
        applied_from(m1, m2),
    ensures
        forall|t: ConfigSection| #[trigger] m2.visible(t) == m1.visible(t),
{
    assert forall|t: ConfigSection| #[trigger] m2.visible(t) == m1.visible(t) by {
        assert(m1.pending(t) is None);
        assert(m2.cached(t) == m1.cached(t));
    }
}

} // verus!
