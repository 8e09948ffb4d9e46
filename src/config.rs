use vstd::prelude::*;

verus! {

/// The key-name strings bound to each action.
#[derive(Debug, PartialEq)]
pub struct KeybindConfig {
    pub forward: String,
    pub backward: String,
    pub left: String,
    pub right: String,
    pub jump: String,
}

/// The network section: read and kept, but not used by the movement core.
#[derive(Debug, PartialEq)]
pub struct NetworkConfig {
    pub host: bool,
    pub host_address: Option<String>,
    pub port: u32,
}

/// The whole configuration.
#[derive(Debug, PartialEq)]
pub struct Config {
    pub network: NetworkConfig,
    pub keybinds: KeybindConfig,
}

/// The keybind fields that a configuration document sets; `None` where it is silent.
#[derive(Debug, PartialEq, Default)]
pub struct KeybindOverlay {
    pub forward: Option<String>,
    pub backward: Option<String>,
    pub left: Option<String>,
    pub right: Option<String>,
    pub jump: Option<String>,
}

/// The network fields that a configuration document sets; `None` where it is silent.
#[derive(Debug, PartialEq, Default)]
pub struct NetworkOverlay {
    pub host: Option<bool>,
    pub host_address: Option<String>,
    pub port: Option<u32>,
}

/// Everything a configuration document sets, section by section.
#[derive(Debug, PartialEq, Default)]
pub struct ConfigOverlay {
    pub network: NetworkOverlay,
    pub keybinds: KeybindOverlay,
}

pub const DEFAULT_PORT: u32 = 8080;

/// The view of a field that a document may set: its value if set, else the default.
pub open spec fn text_or(o: Option<String>, d: Seq<char>) -> Seq<char> {
    match o {
        Some(s) => s@,
        None => d,
    }
}

/// The view of an optional text.
pub open spec fn opt_view(o: Option<String>) -> Option<Seq<char>> {
    match o {
        Some(s) => Some(s@),
        None => None,
    }
}

impl KeybindConfig {
    pub open spec fn is_default(self) -> bool {
        &&& self.forward@ == "w"@
        &&& self.backward@ == "s"@
        &&& self.left@ == "a"@
        &&& self.right@ == "d"@
        &&& self.jump@ == " "@
    }

    /// This section is what overlaying `o` onto the defaults gives.
    pub open spec fn overlays(self, o: KeybindOverlay) -> bool {
        &&& self.forward@ == text_or(o.forward, "w"@)
        &&& self.backward@ == text_or(o.backward, "s"@)
        &&& self.left@ == text_or(o.left, "a"@)
        &&& self.right@ == text_or(o.right, "d"@)
        &&& self.jump@ == text_or(o.jump, " "@)
    }

    /// Overlays the fields that `o` sets onto the defaults.
    pub fn from_overlay(o: KeybindOverlay) -> (r: KeybindConfig)
        ensures
            r.overlays(o),
    {
        KeybindConfig {
            forward: text_or_default(o.forward, "w"),
            backward: text_or_default(o.backward, "s"),
            left: text_or_default(o.left, "a"),
            right: text_or_default(o.right, "d"),
            jump: text_or_default(o.jump, " "),
        }
    }
}

impl Default for KeybindConfig {
    fn default() -> (r: KeybindConfig)
        ensures
            r.is_default(),
    {
        KeybindConfig {
            forward: String::from_str("w"),
            backward: String::from_str("s"),
            left: String::from_str("a"),
            right: String::from_str("d"),
            jump: String::from_str(" "),
        }
    }
}

impl NetworkConfig {
    pub open spec fn is_default(self) -> bool {
        &&& self.host
        &&& self.host_address is None
        &&& self.port == DEFAULT_PORT
    }

    /// This section is what overlaying `o` onto the defaults gives.
    pub open spec fn overlays(self, o: NetworkOverlay) -> bool {
        &&& self.host == match o.host {
            Some(h) => h,
            None => true,
        }
        &&& opt_view(self.host_address) == opt_view(o.host_address)
        &&& self.port == match o.port {
            Some(p) => p,
            None => DEFAULT_PORT,
        }
    }

    /// Overlays the fields that `o` sets onto the defaults.
    pub fn from_overlay(o: NetworkOverlay) -> (r: NetworkConfig)
        ensures
            r.overlays(o),
    {
        let host = match o.host {
            Some(h) => h,
            None => true,
        };
        let port = match o.port {
            Some(p) => p,
            None => DEFAULT_PORT,
        };
        NetworkConfig { host, host_address: o.host_address, port }
    }
}

impl Default for NetworkConfig {
    fn default() -> (r: NetworkConfig)
        ensures
            r.is_default(),
    {
        NetworkConfig { host: true, host_address: None, port: DEFAULT_PORT }
    }
}

impl Config {
    pub open spec fn is_default(self) -> bool {
        self.network.is_default() && self.keybinds.is_default()
    }

    /// This configuration is what overlaying `o` onto the defaults gives.
    pub open spec fn overlays(self, o: ConfigOverlay) -> bool {
        self.network.overlays(o.network) && self.keybinds.overlays(o.keybinds)
    }

    /// Builds the configuration that a document describes: each field the
    /// document sets takes its value, every other field keeps its default.
    pub fn from_overlay(o: ConfigOverlay) -> (r: Config)
        ensures
            r.overlays(o),
    {
        Config {
            network: NetworkConfig::from_overlay(o.network),
            keybinds: KeybindConfig::from_overlay(o.keybinds),
        }
    }
}

impl Default for Config {
    fn default() -> (r: Config)
        ensures
            r.is_default(),
    {
        Config { network: NetworkConfig::default(), keybinds: KeybindConfig::default() }
    }
}

impl KeybindOverlay {
    pub open spec fn is_empty(self) -> bool {
        &&& self.forward is None
        &&& self.backward is None
        &&& self.left is None
        &&& self.right is None
        &&& self.jump is None
    }

    pub open spec fn is_full(self) -> bool {
        &&& self.forward is Some
        &&& self.backward is Some
        &&& self.left is Some
        &&& self.right is Some
        &&& self.jump is Some
    }
}

impl NetworkOverlay {
    pub open spec fn is_empty(self) -> bool {
        self.host is None && self.host_address is None && self.port is None
    }

    pub open spec fn is_full(self) -> bool {
        self.host is Some && self.host_address is Some && self.port is Some
    }
}

impl ConfigOverlay {
    /// The document sets no field.
    pub open spec fn is_empty(self) -> bool {
        self.network.is_empty() && self.keybinds.is_empty()
    }

    /// The document sets every field.
    pub open spec fn is_full(self) -> bool {
        self.network.is_full() && self.keybinds.is_full()
    }
}

fn text_or_default(o: Option<String>, d: &str) -> (r: String)
    ensures
        r@ == text_or(o, d@),
{
    match o {
        Some(s) => s,
        None => d.to_owned(),
    }
}

/// A document that sets nothing gives the all-defaults configuration.
pub proof fn lemma_empty_document_gives_defaults(o: ConfigOverlay, cfg: Config)
    requires
        o.is_empty(),
        cfg.overlays(o),
    ensures
        cfg.is_default(),
{
}

/// A document that sets every field gives a configuration holding exactly the
/// document's values: no default shows through.
pub proof fn lemma_full_document_verbatim(o: ConfigOverlay, cfg: Config)
    requires
        o.is_full(),
        cfg.overlays(o),
    ensures
        cfg.keybinds.forward@ == o.keybinds.forward->0@,
        cfg.keybinds.backward@ == o.keybinds.backward->0@,
        cfg.keybinds.left@ == o.keybinds.left->0@,
        cfg.keybinds.right@ == o.keybinds.right->0@,
        cfg.keybinds.jump@ == o.keybinds.jump->0@,
        cfg.network.host == o.network.host->0,
        opt_view(cfg.network.host_address) == Some(o.network.host_address->0@),
        cfg.network.port == o.network.port->0,
{
}

} // verus!
