//! Configuration sections: one JSON file (or, for credentials, one
//! directory) under the configuration directory.

use vstd::prelude::*;

use crate::text::{owned, push_str, str_eq};

verus! {

/// A configuration section backed by a single JSON file.
#[derive(Debug, Clone, Copy, PartialEq, Eq, Hash, Structural)]
pub enum ConfigSection {
    Models,
    Channels,
    Gateway,
    Plugins,
    System,
    Session,
    Credentials,
    Accounts,
    Memory,
    Skills,
    Media,
}

/// The file (or directory) name of a section.
pub open spec fn section_filename(s: ConfigSection) -> Seq<char> {
    match s {
        ConfigSection::Models => "models.json"@,
        ConfigSection::Channels => "channels.json"@,
        ConfigSection::Gateway => "gateway.json"@,
        ConfigSection::Plugins => "plugins.json"@,
        ConfigSection::System => "system.json"@,
        ConfigSection::Session => "session.json"@,
        ConfigSection::Credentials => "credentials/"@,
        ConfigSection::Accounts => "accounts.json"@,
        ConfigSection::Memory => "memory.json"@,
        ConfigSection::Skills => "skills.json"@,
        ConfigSection::Media => "media.json"@,
    }
}

/// Whether a change to the section only takes effect after a gateway restart.
pub open spec fn restart_class(s: ConfigSection) -> bool {
    s == ConfigSection::Models || s == ConfigSection::Channels || s == ConfigSection::Gateway
        || s == ConfigSection::Credentials
}

/// `dir` joined with the relative name `name`, as a path.
pub open spec fn path_join(dir: Seq<char>, name: Seq<char>) -> Seq<char> {
    if dir.len() == 0 {
        name
    } else if dir.last() == '/' {
        dir + name
    } else {
        dir + "/"@ + name
    }
}

/// The section whose file has the name `name`, among the JSON sections.
pub open spec fn section_of_filename(name: Seq<char>) -> Option<ConfigSection> {
    if name == "models.json"@ {
        Some(ConfigSection::Models)
    } else if name == "channels.json"@ {
        Some(ConfigSection::Channels)
    } else if name == "gateway.json"@ {
        Some(ConfigSection::Gateway)
    } else if name == "plugins.json"@ {
        Some(ConfigSection::Plugins)
    } else if name == "system.json"@ {
        Some(ConfigSection::System)
    } else if name == "session.json"@ {
        Some(ConfigSection::Session)
    } else if name == "accounts.json"@ {
        Some(ConfigSection::Accounts)
    } else if name == "memory.json"@ {
        Some(ConfigSection::Memory)
    } else if name == "skills.json"@ {
        Some(ConfigSection::Skills)
    } else if name == "media.json"@ {
        Some(ConfigSection::Media)
    } else {
        None
    }
}

/// The sections backed by a JSON file (all but the credentials directory).
pub open spec fn is_file_section(s: ConfigSection) -> bool {
    s != ConfigSection::Credentials
}

impl ConfigSection {
    /// The file name associated with this section.
    pub fn filename(&self) -> (r: &'static str)
        ensures
            r@ == section_filename(*self),
    {
        match self {
            ConfigSection::Models => "models.json",
            ConfigSection::Channels => "channels.json",
            ConfigSection::Gateway => "gateway.json",
            ConfigSection::Plugins => "plugins.json",
            ConfigSection::System => "system.json",
            ConfigSection::Session => "session.json",
            ConfigSection::Credentials => "credentials/",
            ConfigSection::Accounts => "accounts.json",
            ConfigSection::Memory => "memory.json",
            ConfigSection::Skills => "skills.json",
            ConfigSection::Media => "media.json",
        }
    }

    /// The path of this section's file under `config_dir`.
    pub fn path(&self, config_dir: &str) -> (r: String)
        ensures
            r@ == path_join(config_dir@, section_filename(*self)),
    {
        let name = self.filename();
        let mut r = owned(config_dir);
        if config_dir.is_empty() {
            return owned(name);
        }
        let dir = crate::text::chars_of(config_dir);
        let last = dir[dir.len() - 1];
        if last != '/' {
            push_str(&mut r, "/");
        }
        push_str(&mut r, name);
        r
    }

    /// The displayed form of the section: its file name.
    pub fn to_string(&self) -> (r: String)
        ensures
            r@ == section_filename(*self),
    {
        owned(self.filename())
    }

    /// Whether changes to this section require a gateway restart.
    pub fn is_restart_class(&self) -> (r: bool)
        ensures
            r == restart_class(*self),
    {
        match self {
            ConfigSection::Models | ConfigSection::Channels | ConfigSection::Gateway
            | ConfigSection::Credentials => true,
            _ => false,
        }
    }
}

/// The JSON section whose file is named `filename`, if any.
pub fn filename_to_section(filename: &str) -> (r: Option<ConfigSection>)
    ensures
        r == section_of_filename(filename@),
{
    if str_eq(filename, "models.json") {
        Some(ConfigSection::Models)
    } else if str_eq(filename, "channels.json") {
        Some(ConfigSection::Channels)
    } else if str_eq(filename, "gateway.json") {
        Some(ConfigSection::Gateway)
    } else if str_eq(filename, "plugins.json") {
        Some(ConfigSection::Plugins)
    } else if str_eq(filename, "system.json") {
        Some(ConfigSection::System)
    } else if str_eq(filename, "session.json") {
        Some(ConfigSection::Session)
    } else if str_eq(filename, "accounts.json") {
        Some(ConfigSection::Accounts)
    } else if str_eq(filename, "memory.json") {
        Some(ConfigSection::Memory)
    } else if str_eq(filename, "skills.json") {
        Some(ConfigSection::Skills)
    } else if str_eq(filename, "media.json") {
        Some(ConfigSection::Media)
    } else {
        None
    }
}

/// Law: a file name maps only to the section that carries it.
pub proof fn law_filename_maps_to_its_section(name: Seq<char>)
    ensures
        match section_of_filename(name) {
            Some(t) => section_filename(t) == name && is_file_section(t),
            None => true,
        },
{
}

/// Law: a JSON section is found again from its own file name; the
/// credentials directory is not a JSON section.
pub proof fn law_filename_round_trip(s: ConfigSection)
    ensures
        is_file_section(s) ==> section_of_filename(section_filename(s)) == Some(s),
        section_of_filename(section_filename(ConfigSection::Credentials)) is None,
{
    reveal_strlit("models.json");
    reveal_strlit("channels.json");
    reveal_strlit("gateway.json");
    reveal_strlit("plugins.json");
    reveal_strlit("system.json");
    reveal_strlit("session.json");
    reveal_strlit("credentials/");
    reveal_strlit("accounts.json");
    reveal_strlit("memory.json");
    reveal_strlit("skills.json");
    reveal_strlit("media.json");
    let n = section_filename(s);
    assert("models.json"@.len() == 11 && "channels.json"@.len() == 13);
    assert("gateway.json"@.len() == 12 && "plugins.json"@.len() == 12);
    assert("system.json"@.len() == 11 && "session.json"@.len() == 12);
    assert("credentials/"@.len() == 12 && "accounts.json"@.len() == 13);
    assert("memory.json"@.len() == 11 && "skills.json"@.len() == 11);
    assert("media.json"@.len() == 10);
    match s {
        ConfigSection::Plugins => {
            assert(n[0] != "gateway.json"@[0]);
        },
        ConfigSection::System => {
            assert(n[0] != "models.json"@[0]);
        },
        ConfigSection::Session => {
            assert(n[0] != "gateway.json"@[0]);
            assert(n[0] != "plugins.json"@[0]);
        },
        ConfigSection::Accounts => {
            assert(n[0] != "channels.json"@[0]);
        },
        ConfigSection::Memory => {
            assert(n[1] != "models.json"@[1]);
            assert(n[0] != "system.json"@[0]);
        },
        ConfigSection::Skills => {
            assert(n[0] != "models.json"@[0]);
            assert(n[1] != "system.json"@[1]);
            assert(n[0] != "memory.json"@[0]);
        },
        _ => {},
    }
    let c = section_filename(ConfigSection::Credentials);
    assert(c[0] != "gateway.json"@[0]);
    assert(c[0] != "plugins.json"@[0]);
    assert(c[0] != "session.json"@[0]);
}

} // verus!
