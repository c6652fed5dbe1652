//! Stored defaults and presets, and the `config` and `preset` subcommands.
use vstd::prelude::*;
use crate::cli::{format_name, parse_format, OutputFormat};
use crate::text::{joined, join_with_spaces, same_text, texts};

verus! {

/// Defaults stored in the configuration file. `S` is the type in which
/// durations in seconds are held.
#[derive(Debug, Clone)]
pub struct Defaults<S> {
    /// Default timeout per request, in seconds.
    pub timeout: Option<S>,
    /// Default output format, by name.
    pub format: Option<String>,
    /// Whether to resolve IPv6 addresses only.
    pub ipv6_only: Option<bool>,
}

/// The stored arguments of a preset.
#[derive(Debug, Clone)]
pub struct PresetRecord {
    pub args: Vec<String>,
}

/// A named preset.
#[derive(Debug, Clone)]
pub struct PresetEntry {
    pub name: String,
    pub record: PresetRecord,
}

/// Stored defaults and presets. Presets keep the order in which they were
/// first stored, and no two have the same name.
#[derive(Debug, Clone)]
pub struct ConfigStore<S> {
    defaults: Defaults<S>,
    presets: Vec<PresetEntry>,
}

/// Whether some entry has this name.
pub open spec fn has_name(e: Seq<PresetEntry>, name: Seq<char>) -> bool {
    exists|i: int| 0 <= i < e.len() && (#[trigger] e[i]).name@ == name
}

/// The position of the entry with this name.
pub open spec fn position_of(e: Seq<PresetEntry>, name: Seq<char>) -> int {
    choose|i: int| 0 <= i < e.len() && (#[trigger] e[i]).name@ == name
}

/// No two entries share a name.
pub open spec fn names_unique(e: Seq<PresetEntry>) -> bool {
    forall|i: int, j: int| 0 <= i < e.len() && 0 <= j < e.len() && i != j
        ==> (#[trigger] e[i]).name@ != (#[trigger] e[j]).name@
}

/// The presets as a map from name to arguments.
pub open spec fn presets_map(e: Seq<PresetEntry>) -> Map<Seq<char>, Seq<Seq<char>>> {
    Map::new(|k: Seq<char>| has_name(e, k), |k: Seq<char>| texts(e[position_of(e, k)].record.args@))
}

impl<S> ConfigStore<S> {
    pub closed spec fn wf(&self) -> bool {
        names_unique(self.presets@)
    }

    /// The stored presets, by name.
    pub closed spec fn preset_map(&self) -> Map<Seq<char>, Seq<Seq<char>>> {
        presets_map(self.presets@)
    }

    /// The stored presets, in order.
    pub closed spec fn entries(&self) -> Seq<PresetEntry> {
        self.presets@
    }

    /// The arguments `preset` reports for this name, if one is stored.
    pub open spec fn stored(&self, name: Seq<char>) -> Option<Seq<Seq<char>>> {
        if self.preset_map().contains_key(name) {
            Some(self.preset_map()[name])
        } else {
            None
        }
    }

    pub closed spec fn spec_defaults(&self) -> Defaults<S> {
        self.defaults
    }

    /// The names of the entries are the keys of the map, each once.
    pub proof fn lemma_entries_match_map(&self)
        requires
            self.wf(),
        ensures
            names_unique(self.entries()),
            forall|i: int| 0 <= i < self.entries().len() ==> {
                &&& self.preset_map().contains_key((#[trigger] self.entries()[i]).name@)
                &&& self.preset_map()[self.entries()[i].name@] == texts(self.entries()[i].record.args@)
            },
            forall|k: Seq<char>| #[trigger] self.preset_map().contains_key(k)
                <==> has_name(self.entries(), k),
    {
        assert forall|i: int| 0 <= i < self.entries().len() implies {
            &&& self.preset_map().contains_key((#[trigger] self.entries()[i]).name@)
            &&& self.preset_map()[self.entries()[i].name@] == texts(self.entries()[i].record.args@)
        } by {
            let k = self.presets@[i].name@;
            assert(has_name(self.presets@, k));
            let p = position_of(self.presets@, k);
            assert(p == i);
        }
    }

    /// A store with no defaults and no presets.
    pub fn empty() -> (c: Self)
        ensures
            c.wf(),
            c.preset_map() == Map::<Seq<char>, Seq<Seq<char>>>::empty(),
            c.entries().len() == 0,
            c.spec_defaults().timeout is None,
            c.spec_defaults().format is None,
            c.spec_defaults().ipv6_only is None,
    {
        let c = ConfigStore {
            defaults: Defaults { timeout: None, format: None, ipv6_only: None },
            presets: Vec::new(),
        };
        assert(c.preset_map() =~= Map::<Seq<char>, Seq<Seq<char>>>::empty());
        c
    }

    /// A store holding these defaults and presets; `None` when two presets
    /// share a name.
    pub fn from_parts(defaults: Defaults<S>, presets: Vec<PresetEntry>) -> (c: Option<Self>)
        ensures
            c is Some <==> names_unique(presets@),
            c matches Some(c) ==> c.wf() && c.spec_defaults() == defaults && c.entries() == presets@,
    {
        let n: usize = presets.len();
        let mut i: usize = 0;
        while i < n
            invariant
                n == presets@.len(),
                i <= n,
                forall|a: int, b: int| 0 <= a < i && 0 <= b < n && a != b
                    ==> (#[trigger] presets@[a]).name@ != (#[trigger] presets@[b]).name@,
            decreases n - i,
        {
            let mut j: usize = 0;
            while j < n
                invariant
                    n == presets@.len(),
                    i < n,
                    j <= n,
                    forall|a: int, b: int| 0 <= a < i && 0 <= b < n && a != b
                        ==> (#[trigger] presets@[a]).name@ != (#[trigger] presets@[b]).name@,
                    forall|b: int| 0 <= b < j && b != i ==> presets@[i as int].name@ != (#[trigger] presets@[b]).name@,
                decreases n - j,
            {
                if j != i && presets[i].name == presets[j].name {
                    assert(!names_unique(presets@));
                    return None;
                }
                j = j + 1;
            }
            i = i + 1;
        }
        Some(ConfigStore { defaults, presets })
    }

    pub fn defaults(&self) -> (d: &Defaults<S>)
        ensures
            *d == self.spec_defaults(),
    {
        &self.defaults
    }

    /// The presets, in the order in which they were first stored.
    pub fn presets(&self) -> (p: &Vec<PresetEntry>)
        ensures
            p@ == self.entries(),
    {
        &self.presets
    }

    fn find(&self, name: &str) -> (r: Option<usize>)
        requires
            self.wf(),
        ensures
            r is Some <==> has_name(self.entries(), name@),
            r matches Some(i) ==> i < self.entries().len() && self.entries()[i as int].name@ == name@,
    {
        let mut i: usize = 0;
        while i < self.presets.len()
            invariant
                i <= self.presets@.len(),
                forall|j: int| 0 <= j < i ==> (#[trigger] self.presets@[j]).name@ != name@,
            decreases self.presets@.len() - i,
        {
            if crate::text::same_text(self.presets[i].name.as_str(), name) {
                return Some(i);
            }
            i = i + 1;
        }
        None
    }

    /// The preset with this name, if one is stored.
    pub fn preset(&self, name: &str) -> (r: Option<&PresetRecord>)
        requires
            self.wf(),
        ensures
            r is Some <==> self.preset_map().contains_key(name@),
            r matches Some(p) ==> texts(p.args@) == self.preset_map()[name@],
            match r {
                Some(p) => self.stored(name@) == Some(texts(p.args@)),
                None => self.stored(name@) is None,
            },
    {
        proof {
            self.lemma_entries_match_map();
        }
        match self.find(name) {
            Some(i) => Some(&self.presets[i].record),
            None => None,
        }
    }

    /// Stores a preset under this name. A preset of that name is replaced
    /// where it stands; a new name is appended after the others.
    pub fn add_preset(&mut self, name: String, args: Vec<String>)
        requires
            old(self).wf(),
        ensures
            final(self).wf(),
            final(self).preset_map() == old(self).preset_map().insert(name@, texts(args@)),
            final(self).spec_defaults() == old(self).spec_defaults(),
            has_name(old(self).entries(), name@) ==> {
                &&& final(self).entries().len() == old(self).entries().len()
                &&& forall|i: int| 0 <= i < final(self).entries().len()
                    ==> (#[trigger] final(self).entries()[i]).name@ == old(self).entries()[i].name@
            },
            !has_name(old(self).entries(), name@) ==> final(self).entries()
                == old(self).entries().push(PresetEntry { name, record: PresetRecord { args } }),
    {
        proof {
            self.lemma_entries_match_map();
        }
        let ghost old_e = self.presets@;
        let ghost key = name@;
        let ghost val = texts(args@);
        match self.find(name.as_str()) {
            Some(i) => {
                self.presets.set(i, PresetEntry { name, record: PresetRecord { args } });
                let ghost e = self.presets@;
                assert(e =~= old_e.update(i as int, e[i as int]));
                assert(names_unique(e));
                assert forall|k: Seq<char>| has_name(e, k) == (has_name(old_e, k) || k == key) by {
                    if has_name(old_e, k) {
                        let p = position_of(old_e, k);
                        if p != i { assert(e[p] == old_e[p]); } else { assert(e[i as int].name@ == k); }
                    }
                    if has_name(e, k) {
                        let p = position_of(e, k);
                        if p != i { assert(old_e[p] == e[p]); }
                    }
                }
                assert forall|k: Seq<char>| has_name(e, k) implies
                    texts(e[position_of(e, k)].record.args@)
                        == (if k == key { val } else { presets_map(old_e)[k] }) by {
                    let p = position_of(e, k);
                    if k != key {
                        assert(p != i);
                        assert(old_e[p] == e[p]);
                        assert(has_name(old_e, k));
                        let q = position_of(old_e, k);
                        assert(q == p);
                    } else {
                        assert(p == i);
                    }
                }
                assert(presets_map(e) =~= presets_map(old_e).insert(key, val));
            },
            None => {
                self.presets.push(PresetEntry { name, record: PresetRecord { args } });
                let ghost e = self.presets@;
                let ghost n = old_e.len() as int;
                assert(names_unique(e)) by {
                    assert forall|a: int, b: int| 0 <= a < e.len() && 0 <= b < e.len() && a != b
                        implies (#[trigger] e[a]).name@ != (#[trigger] e[b]).name@ by {
                        if a == n {
                            assert(!has_name(old_e, key));
                            assert(e[b] == old_e[b]);
                        } else if b == n {
                            assert(!has_name(old_e, key));
                            assert(e[a] == old_e[a]);
                        } else {
                            assert(e[a] == old_e[a] && e[b] == old_e[b]);
                        }
                    }
                }
                assert forall|k: Seq<char>| has_name(e, k) == (has_name(old_e, k) || k == key) by {
                    if has_name(old_e, k) {
                        let p = position_of(old_e, k);
                        assert(e[p] == old_e[p]);
                    }
                    if k == key {
                        assert(e[n].name@ == key);
                    }
                    if has_name(e, k) {
                        let p = position_of(e, k);
                        if p != n { assert(old_e[p] == e[p]); }
                    }
                }
                assert forall|k: Seq<char>| has_name(e, k) implies
                    texts(e[position_of(e, k)].record.args@)
                        == (if k == key { val } else { presets_map(old_e)[k] }) by {
                    let p = position_of(e, k);
                    if k != key {
                        assert(p != n);
                        assert(old_e[p] == e[p]);
                        assert(has_name(old_e, k));
                        let q = position_of(old_e, k);
                        assert(q == p);
                    } else {
                        assert(e[n].name@ == key);
                        assert(p == n);
                    }
                }
                assert(presets_map(e) =~= presets_map(old_e).insert(key, val));
            },
        }
    }

    /// Removes the preset with this name; whether one was stored.
    pub fn remove_preset(&mut self, name: &str) -> (removed: bool)
        requires
            old(self).wf(),
        ensures
            final(self).wf(),
            removed == old(self).preset_map().contains_key(name@),
            final(self).preset_map() == old(self).preset_map().remove(name@),
            removed ==> final(self).entries() == old(self).entries().remove(position_of(old(self).entries(), name@)),
            !removed ==> *final(self) == *old(self),
            final(self).spec_defaults() == old(self).spec_defaults(),
    {
        proof {
            self.lemma_entries_match_map();
        }
        let ghost old_e = self.presets@;
        let ghost key = name@;
        match self.find(name) {
            Some(i) => {
                self.presets.remove(i);
                let ghost e = self.presets@;
                assert(e =~= old_e.remove(i as int));
                assert(names_unique(e)) by {
                    assert forall|a: int, b: int| 0 <= a < e.len() && 0 <= b < e.len() && a != b
                        implies (#[trigger] e[a]).name@ != (#[trigger] e[b]).name@ by {
                        let a2 = if a < i { a } else { a + 1 };
                        let b2 = if b < i { b } else { b + 1 };
                        assert(e[a] == old_e[a2] && e[b] == old_e[b2]);
                    }
                }
                assert forall|k: Seq<char>| has_name(e, k) == (has_name(old_e, k) && k != key) by {
                    if has_name(old_e, k) && k != key {
                        let p = position_of(old_e, k);
                        assert(p != i);
                        if p < i { assert(e[p] == old_e[p]); } else { assert(e[p - 1] == old_e[p]); }
                    }
                    if has_name(e, k) {
                        let p = position_of(e, k);
                        let p2 = if p < i { p } else { p + 1 };
                        assert(e[p] == old_e[p2]);
                        assert(p2 != i);
                    }
                }
                assert forall|k: Seq<char>| has_name(e, k) implies
                    texts(e[position_of(e, k)].record.args@) == presets_map(old_e)[k] by {
                    let p = position_of(e, k);
                    let p2 = if p < i { p } else { p + 1 };
                    assert(e[p] == old_e[p2]);
                    assert(has_name(old_e, k));
                    let q = position_of(old_e, k);
                    assert(q == p2);
                }
                assert(presets_map(e) =~= presets_map(old_e).remove(key));
                true
            },
            None => {
                assert(presets_map(old_e) =~= presets_map(old_e).remove(key));
                false
            },
        }
    }

    pub fn update_timeout(&mut self, timeout: Option<S>)
        requires
            old(self).wf(),
        ensures
            final(self).wf(),
            final(self).spec_defaults() == (Defaults { timeout, ..old(self).spec_defaults() }),
            final(self).entries() == old(self).entries(),
    {
        self.defaults.timeout = timeout;
    }

    pub fn update_format(&mut self, format: Option<String>)
        requires
            old(self).wf(),
        ensures
            final(self).wf(),
            final(self).spec_defaults() == (Defaults { format, ..old(self).spec_defaults() }),
            final(self).entries() == old(self).entries(),
    {
        self.defaults.format = format;
    }

    pub fn update_ipv6(&mut self, ipv6_only: Option<bool>)
        requires
            old(self).wf(),
        ensures
            final(self).wf(),
            final(self).spec_defaults() == (Defaults { ipv6_only, ..old(self).spec_defaults() }),
            final(self).entries() == old(self).entries(),
    {
        self.defaults.ipv6_only = ipv6_only;
    }
}

/// The stored defaults that `rkik config` can get, set and clear.
#[derive(Debug, Clone, Copy, PartialEq, Eq, Structural)]
pub enum ConfigKey {
    Timeout,
    Format,
    Ipv6Only,
}

/// `rkik config ...`
#[derive(Debug, Clone)]
pub enum ConfigCommand {
    /// Show the configuration file path
    Path,
    /// List stored defaults
    List,
    /// Get default value
    Get { key: ConfigKey },
    /// Set default value
    SetValue { key: ConfigKey, value: String },
    /// Clear a default value
    Clear { key: ConfigKey },
}

/// `rkik preset ...`
#[derive(Debug, Clone)]
pub enum PresetCommand {
    /// List saved presets
    List,
    /// Store a preset from trailing arguments
    Add { name: String, args: Vec<String> },
    /// Remove a preset
    Remove { name: String },
    /// Show stored arguments
    Show { name: String },
    /// Execute a preset by spawning rkik with the stored arguments
    Run { name: String },
}

/// What the caller does after a `config` subcommand.
#[derive(Debug, Clone)]
pub enum ConfigOutcome {
    /// Print the configuration file's path.
    ShowPath,
    /// Print these lines.
    Print(Vec<String>),
    /// Save the changed store.
    Save,
}

/// What the caller does after a `preset` subcommand.
#[derive(Debug, Clone)]
pub enum PresetOutcome {
    /// Print these lines.
    Print(Vec<String>),
    /// Save the changed store, then print this line.
    SaveThenPrint(String),
    /// Run rkik with these arguments and exit with its status.
    Run(Vec<String>),
}

pub open spec fn unset_text() -> Seq<char> {
    "<unset>"@
}

pub open spec fn bool_text(b: bool) -> Seq<char> {
    if b { "true"@ } else { "false"@ }
}

/// A stored format as `config get`/`list` shows it.
pub open spec fn format_shown(f: Option<String>) -> Seq<char> {
    match f {
        Some(s) => s@,
        None => unset_text(),
    }
}

/// A stored IPv6 setting as `config get`/`list` shows it.
pub open spec fn ipv6_shown(b: Option<bool>) -> Seq<char> {
    match b {
        Some(v) => bool_text(v),
        None => unset_text(),
    }
}

pub open spec fn invalid_timeout_message(v: Seq<char>) -> Seq<char> {
    "Invalid timeout: "@ + v
}

pub open spec fn unknown_format_message() -> Seq<char> {
    "Unknown format. Use text, json, json-short, or simple."@
}

pub open spec fn invalid_bool_message(v: Seq<char>) -> Seq<char> {
    "Invalid bool: "@ + v
}

/// What a value reads as, as a boolean (`true` or `false` exactly).
pub open spec fn parse_bool(v: Seq<char>) -> Option<bool> {
    if v == "true"@ {
        Some(true)
    } else if v == "false"@ {
        Some(false)
    } else {
        None
    }
}

/// Why setting `key` to `v` failed.
pub open spec fn config_value_message(key: ConfigKey, v: Seq<char>) -> Seq<char> {
    match key {
        ConfigKey::Timeout => invalid_timeout_message(v),
        ConfigKey::Format => unknown_format_message(),
        ConfigKey::Ipv6Only => invalid_bool_message(v),
    }
}

/// Whether setting or clearing `key` to `value` fails.
pub open spec fn config_value_fails<S>(key: ConfigKey, value: Option<String>, timeout_reading: Option<S>) -> bool {
    match value {
        None => false,
        Some(v) => match key {
            ConfigKey::Timeout => timeout_reading is None,
            ConfigKey::Format => parse_format(v@) is None,
            ConfigKey::Ipv6Only => parse_bool(v@) is None,
        },
    }
}

/// The stored defaults after a successful set or clear.
pub open spec fn defaults_after<S>(
    d: Defaults<S>,
    new_d: Defaults<S>,
    key: ConfigKey,
    value: Option<String>,
    timeout_reading: Option<S>,
) -> bool {
    match key {
        ConfigKey::Timeout => new_d == Defaults {
            timeout: if value is None { None } else { timeout_reading },
            ..d
        },
        ConfigKey::Format => {
            &&& new_d.timeout == d.timeout
            &&& new_d.ipv6_only == d.ipv6_only
            &&& match value {
                None => new_d.format is None,
                Some(v) => new_d.format matches Some(s) && s@ == format_name(parse_format(v@)->Some_0),
            }
        },
        ConfigKey::Ipv6Only => new_d == Defaults {
            ipv6_only: match value { None => None, Some(v) => parse_bool(v@) },
            ..d
        },
    }
}

/// Sets (`Some`) or clears (`None`) a stored default. A timeout is the
/// caller's numeric reading of `value` (`timeout_reading`, `None` when it
/// does not read as a number); a format must be one of the format names and
/// is stored by that name; IPv6 must be `true` or `false`. On failure
/// nothing changes.
pub fn apply_config_value<S: Copy>(
    config: &mut ConfigStore<S>,
    key: ConfigKey,
    value: Option<String>,
    timeout_reading: Option<S>,
) -> (r: Result<(), String>)
    requires
        old(config).wf(),
    ensures
        final(config).wf(),
        final(config).entries() == old(config).entries(),
        r is Err <==> config_value_fails(key, value, timeout_reading),
        r is Ok ==> defaults_after(old(config).spec_defaults(), final(config).spec_defaults(), key, value, timeout_reading),
        value is None ==> r is Ok,
        value is None && key is Timeout ==> final(config).spec_defaults().timeout is None,
        value is None && key is Format ==> final(config).spec_defaults().format is None,
        value is None && key is Ipv6Only ==> final(config).spec_defaults().ipv6_only is None,
        (key is Timeout && value is Some) ==> (timeout_reading matches Some(t) ==> final(config).spec_defaults().timeout == Some(t)),
        (key is Ipv6Only && value is Some && value->Some_0@ == "true"@) ==> final(config).spec_defaults().ipv6_only == Some(true),
        (key is Ipv6Only && value is Some && value->Some_0@ == "false"@) ==> final(config).spec_defaults().ipv6_only == Some(false),
        !(key is Timeout) ==> final(config).spec_defaults().timeout == old(config).spec_defaults().timeout,
        !(key is Format) ==> final(config).spec_defaults().format == old(config).spec_defaults().format,
        !(key is Ipv6Only) ==> final(config).spec_defaults().ipv6_only == old(config).spec_defaults().ipv6_only,
        r matches Err(m) ==> {
            &&& final(config).spec_defaults() == old(config).spec_defaults()
            &&& m@ == config_value_message(key, value->Some_0@)
        },
{
    proof {
        reveal_strlit("true");
        reveal_strlit("false");
        assert("true"@.len() != "false"@.len());
    }
    match key {
        ConfigKey::Timeout => match value {
            None => {
                config.update_timeout(None);
            },
            Some(v) => match timeout_reading {
                Some(t) => {
                    config.update_timeout(Some(t));
                },
                None => {
                    let mut m = String::from_str("Invalid timeout: ");
                    m.append(v.as_str());
                    return Err(m);
                },
            },
        },
        ConfigKey::Format => match value {
            None => {
                config.update_format(None);
            },
            Some(v) => match OutputFormat::from_name(v.as_str()) {
                Some(f) => {
                    config.update_format(Some(String::from_str(f.as_str())));
                },
                None => {
                    return Err(String::from_str("Unknown format. Use text, json, json-short, or simple."));
                },
            },
        },
        ConfigKey::Ipv6Only => match value {
            None => {
                config.update_ipv6(None);
            },
            Some(v) => {
                if same_text(v.as_str(), "true") {
                    config.update_ipv6(Some(true));
                } else if same_text(v.as_str(), "false") {
                    config.update_ipv6(Some(false));
                } else {
                    let mut m = String::from_str("Invalid bool: ");
                    m.append(v.as_str());
                    return Err(m);
                }
            },
        },
    }
    Ok(())
}

fn format_text(f: &Option<String>) -> (s: String)
    ensures
        s@ == format_shown(*f),
{
    match f {
        Some(s) => s.clone(),
        None => String::from_str("<unset>"),
    }
}

fn ipv6_text(b: Option<bool>) -> (s: String)
    ensures
        s@ == ipv6_shown(b),
{
    match b {
        Some(true) => String::from_str("true"),
        Some(false) => String::from_str("false"),
        None => String::from_str("<unset>"),
    }
}

fn labelled(label: &str, value: String) -> (s: String)
    ensures
        s@ == label@ + value@,
{
    let mut s = String::from_str(label);
    s.append(value.as_str());
    s
}

/// The lines of `config list`.
pub open spec fn config_list_lines<S>(d: Defaults<S>, timeout_text: Seq<char>) -> Seq<Seq<char>> {
    seq!["timeout = "@ + timeout_text, "format = "@ + format_shown(d.format), "ipv6_only = "@ + ipv6_shown(d.ipv6_only)]
}

/// Runs a `config` subcommand on the store. `timeout_text` is how the
/// stored timeout is shown; `timeout_reading` is the numeric reading of the
/// value of `config set timeout`.
pub fn handle_config<S: Copy>(
    cmd: ConfigCommand,
    config: &mut ConfigStore<S>,
    timeout_text: &str,
    timeout_reading: Option<S>,
) -> (r: Result<ConfigOutcome, String>)
    requires
        old(config).wf(),
    ensures
        final(config).wf(),
        final(config).entries() == old(config).entries(),
        match cmd {
            ConfigCommand::Path => r matches Ok(ConfigOutcome::ShowPath) && *final(config) == *old(config),
            ConfigCommand::List => r matches Ok(ConfigOutcome::Print(lines))
                && texts(lines@) == config_list_lines(old(config).spec_defaults(), timeout_text@)
                && *final(config) == *old(config),
            ConfigCommand::Get { key } => r matches Ok(ConfigOutcome::Print(lines))
                && lines@.len() == 1
                && lines@[0]@ == match key {
                    ConfigKey::Timeout => timeout_text@,
                    ConfigKey::Format => format_shown(old(config).spec_defaults().format),
                    ConfigKey::Ipv6Only => ipv6_shown(old(config).spec_defaults().ipv6_only),
                }
                && *final(config) == *old(config),
            ConfigCommand::SetValue { key, value } => {
                &&& r is Err <==> config_value_fails(key, Some(value), timeout_reading)
                &&& r is Ok ==> (r matches Ok(ConfigOutcome::Save) && defaults_after(
                    old(config).spec_defaults(), final(config).spec_defaults(), key, Some(value), timeout_reading))
                &&& r is Err ==> final(config).spec_defaults() == old(config).spec_defaults()
                &&& r matches Err(m) ==> m@ == config_value_message(key, value@)
            },
            ConfigCommand::Clear { key } => {
                &&& r matches Ok(ConfigOutcome::Save)
                &&& defaults_after(old(config).spec_defaults(), final(config).spec_defaults(), key, None, timeout_reading)
                &&& key is Timeout ==> final(config).spec_defaults().timeout is None
                &&& key is Format ==> final(config).spec_defaults().format is None
                &&& key is Ipv6Only ==> final(config).spec_defaults().ipv6_only is None
            },
        },
{
    match cmd {
        ConfigCommand::Path => Ok(ConfigOutcome::ShowPath),
        ConfigCommand::List => {
            let d = config.defaults();
            let mut lines: Vec<String> = Vec::new();
            lines.push(labelled("timeout = ", String::from_str(timeout_text)));
            lines.push(labelled("format = ", format_text(&d.format)));
            lines.push(labelled("ipv6_only = ", ipv6_text(d.ipv6_only)));
            assert(texts(lines@) =~= config_list_lines(config.spec_defaults(), timeout_text@));
            Ok(ConfigOutcome::Print(lines))
        },
        ConfigCommand::Get { key } => {
            let line = match key {
                ConfigKey::Timeout => String::from_str(timeout_text),
                ConfigKey::Format => format_text(&config.defaults().format),
                ConfigKey::Ipv6Only => ipv6_text(config.defaults().ipv6_only),
            };
            let mut lines: Vec<String> = Vec::new();
            lines.push(line);
            Ok(ConfigOutcome::Print(lines))
        },
        ConfigCommand::SetValue { key, value } => {
            apply_config_value(config, key, Some(value), timeout_reading)?;
            Ok(ConfigOutcome::Save)
        },
        ConfigCommand::Clear { key } => {
            apply_config_value(config, key, None, timeout_reading)?;
            Ok(ConfigOutcome::Save)
        },
    }
}

pub open spec fn not_found_message(name: Seq<char>) -> Seq<char> {
    "Preset '"@ + name + "' not found"@
}

/// The line `preset list` shows for one preset.
pub open spec fn preset_line(e: PresetEntry) -> Seq<char> {
    e.name@ + ": "@ + joined(texts(e.record.args@), seq![' '])
}

fn quoted_message(before: &str, name: &str, after: &str) -> (s: String)
    ensures
        s@ == before@ + name@ + after@,
{
    let mut s = String::from_str(before);
    s.append(name);
    s.append(after);
    s
}

/// Runs a `preset` subcommand on the store.
pub fn handle_preset<S>(cmd: PresetCommand, config: &mut ConfigStore<S>) -> (r: Result<PresetOutcome, String>)
    requires
        old(config).wf(),
    ensures
        final(config).wf(),
        final(config).spec_defaults() == old(config).spec_defaults(),
        match cmd {
            PresetCommand::List => {
                &&& *final(config) == *old(config)
                &&& r matches Ok(PresetOutcome::Print(lines))
                &&& old(config).entries().len() == 0 ==> texts(lines@) == seq!["(no presets)"@]
                &&& old(config).entries().len() > 0 ==>
                    texts(lines@) == old(config).entries().map_values(|e: PresetEntry| preset_line(e))
            },
            PresetCommand::Add { name, args } => {
                &&& r is Err <==> args.len() == 0
                &&& r matches Err(m) ==> m@ == "Provide arguments after --"@ && *final(config) == *old(config)
                &&& r is Ok ==> {
                    &&& final(config).preset_map() == old(config).preset_map().insert(name@, texts(args@))
                    &&& r matches Ok(PresetOutcome::SaveThenPrint(m)) && m@ == "Preset '"@ + name@ + "' stored"@
                }
            },
            PresetCommand::Remove { name } => {
                &&& final(config).preset_map() == old(config).preset_map().remove(name@)
                &&& r is Ok <==> old(config).preset_map().contains_key(name@)
                &&& r matches Ok(o) ==> (o matches PresetOutcome::SaveThenPrint(m) && m@ == "Removed preset '"@ + name@ + "'"@)
                &&& r matches Err(m) ==> m@ == not_found_message(name@)
                &&& !old(config).preset_map().contains_key(name@) ==> *final(config) == *old(config)
            },
            PresetCommand::Show { name } => {
                &&& *final(config) == *old(config)
                &&& r is Ok <==> old(config).preset_map().contains_key(name@)
                &&& r matches Ok(o) ==> (o matches PresetOutcome::Print(lines) && lines@.len() == 1
                    && lines@[0]@ == joined(old(config).preset_map()[name@], seq![' ']))
                &&& r matches Err(m) ==> m@ == not_found_message(name@)
            },
            PresetCommand::Run { name } => {
                &&& *final(config) == *old(config)
                &&& r is Ok <==> (old(config).preset_map().contains_key(name@)
                    && old(config).preset_map()[name@].len() > 0)
                &&& r matches Ok(o) ==> (o matches PresetOutcome::Run(args)
                    && texts(args@) == old(config).preset_map()[name@])
                &&& r matches Err(m) ==> m@ == (if old(config).preset_map().contains_key(name@) {
                    "Preset is empty"@ } else { not_found_message(name@) })
            },
        },
{
    match cmd {
        PresetCommand::List => {
            let mut lines: Vec<String> = Vec::new();
            if config.presets().len() == 0 {
                lines.push(String::from_str("(no presets)"));
                assert(texts(lines@) =~= seq!["(no presets)"@]);
            } else {
                let entries = config.presets();
                let mut i: usize = 0;
                while i < entries.len()
                    invariant
                        i <= entries@.len(),
                        lines@.len() == i,
                        forall|j: int| 0 <= j < i ==> (#[trigger] lines@[j])@ == preset_line(entries@[j]),
                    decreases entries@.len() - i,
                {
                    let e = &entries[i];
                    let mut line = String::new();
                    line.append(e.name.as_str());
                    line.append(": ");
                    let joined_args = join_with_spaces(&e.record.args);
                    line.append(joined_args.as_str());
                    lines.push(line);
                    i = i + 1;
                }
                assert(texts(lines@) =~= entries@.map_values(|e: PresetEntry| preset_line(e)));
            }
            Ok(PresetOutcome::Print(lines))
        },
        PresetCommand::Add { name, args } => {
            if args.len() == 0 {
                return Err(String::from_str("Provide arguments after --"));
            }
            let m = quoted_message("Preset '", name.as_str(), "' stored");
            config.add_preset(name, args);
            Ok(PresetOutcome::SaveThenPrint(m))
        },
        PresetCommand::Remove { name } => {
            if config.remove_preset(name.as_str()) {
                Ok(PresetOutcome::SaveThenPrint(quoted_message("Removed preset '", name.as_str(), "'")))
            } else {
                Err(quoted_message("Preset '", name.as_str(), "' not found"))
            }
        },
        PresetCommand::Show { name } => match config.preset(name.as_str()) {
            Some(p) => {
                let mut lines: Vec<String> = Vec::new();
                let line = join_with_spaces(&p.args);
                lines.push(line);
                Ok(PresetOutcome::Print(lines))
            },
            None => Err(quoted_message("Preset '", name.as_str(), "' not found")),
        },
        PresetCommand::Run { name } => match config.preset(name.as_str()) {
            Some(p) => {
                if p.args.len() == 0 {
                    return Err(String::from_str("Preset is empty"));
                }
                let args = clone_args(&p.args);
                Ok(PresetOutcome::Run(args))
            },
            None => Err(quoted_message("Preset '", name.as_str(), "' not found")),
        },
    }
}

/// A copy of a list of strings.
fn clone_args(v: &Vec<String>) -> (c: Vec<String>)
    ensures
        texts(c@) == texts(v@),
{
    let mut c: Vec<String> = Vec::new();
    let mut i: usize = 0;
    while i < v.len()
        invariant
            i <= v@.len(),
            c@.len() == i,
            forall|j: int| 0 <= j < i ==> (#[trigger] c@[j])@ == v@[j]@,
        decreases v@.len() - i,
    {
        c.push(v[i].clone());
        i = i + 1;
    }
    assert(texts(c@) =~= texts(v@));
    c
}

/// After `add_preset(name, args)`, `preset(name)` reports `args`, and
/// `preset` reports every other name as before.
pub proof fn lemma_preset_read_after_add<S>(
    before: ConfigStore<S>,
    after: ConfigStore<S>,
    name: String,
    args: Vec<String>,
    other: Seq<char>,
)
    requires
        before.wf(),
        after.wf(),
        after.preset_map() == before.preset_map().insert(name@, texts(args@)),
    ensures
        after.stored(name@) == Some(texts(args@)),
        other != name@ ==> after.stored(other) == before.stored(other),
{
}

/// After `remove_preset(name)`, `preset(name)` reports nothing, and
/// `preset` reports every other name as before.
pub proof fn lemma_preset_gone_after_remove<S>(
    before: ConfigStore<S>,
    after: ConfigStore<S>,
    name: Seq<char>,
    other: Seq<char>,
)
    requires
        before.wf(),
        after.wf(),
        after.preset_map() == before.preset_map().remove(name),
    ensures
        after.stored(name) is None,
        other != name ==> after.stored(other) == before.stored(other),
{
}

/// A format accepted by `config set format` is stored under its name, and
/// a later run reads that stored default back as the same format.
pub proof fn lemma_stored_format_reads_back<S>(
    before: Defaults<S>,
    after: Defaults<S>,
    value: String,
    timeout_reading: Option<S>,
)
    requires
        !config_value_fails(ConfigKey::Format, Some(value), timeout_reading),
        defaults_after(before, after, ConfigKey::Format, Some(value), timeout_reading),
    ensures
        !crate::cli::stored_format_invalid(after.format),
        crate::cli::stored_format(after.format) == parse_format(value@),
{
    crate::cli::lemma_format_name_roundtrip(parse_format(value@)->Some_0);
}

/// Clearing a key removes its stored default, so later runs fall back to
/// the built-in value, and leaves the other two keys as they were.
pub proof fn lemma_clear_removes_default<S>(
    before: Defaults<S>,
    after: Defaults<S>,
    key: ConfigKey,
    timeout_reading: Option<S>,
)
    requires
        defaults_after(before, after, key, None, timeout_reading),
    ensures
        key is Timeout ==> after.timeout is None && after.format == before.format
            && after.ipv6_only == before.ipv6_only,
        key is Format ==> after.format is None && after.timeout == before.timeout
            && after.ipv6_only == before.ipv6_only,
        key is Ipv6Only ==> after.ipv6_only is None && after.timeout == before.timeout
            && after.format == before.format,
{
}

/// Setting a key that reads correctly stores that value under that key and
/// leaves the other two keys as they were: a timeout as its reading, the
/// IPv6 preference `true` or `false` as that boolean.
pub proof fn lemma_set_stores_value<S>(
    before: Defaults<S>,
    after: Defaults<S>,
    key: ConfigKey,
    value: String,
    timeout_reading: Option<S>,
)
    requires
        !config_value_fails(key, Some(value), timeout_reading),
        defaults_after(before, after, key, Some(value), timeout_reading),
    ensures
        key is Timeout ==> after.timeout == timeout_reading && timeout_reading is Some
            && after.format == before.format && after.ipv6_only == before.ipv6_only,
        key is Format ==> after.format is Some && after.timeout == before.timeout
            && after.ipv6_only == before.ipv6_only,
        key is Ipv6Only && value@ == "true"@ ==> after.ipv6_only == Some(true),
        key is Ipv6Only && value@ == "false"@ ==> after.ipv6_only == Some(false),
        key is Ipv6Only ==> after.timeout == before.timeout && after.format == before.format,
{
    reveal_strlit("true");
    reveal_strlit("false");
    assert("true"@.len() != "false"@.len());
}

} // verus!
