//! Saved endpoint configurations.

use crate::config::mode::{ConfigData, ConfigDataView, Mode};
use crate::provider::CloudConfig;
use crate::text::{decimal, opt_text, push_decimal, same_text};
use vstd::prelude::*;
use vstd::string::*;

pub mod mode;
pub mod resolve;
pub mod store;
pub mod wizard;

verus! {

/// Which pool of endpoints a build prefers.
#[derive(Debug, Clone, Copy, PartialEq, Eq, Structural)]
pub enum Priority {
    /// Prefer rented cloud servers.
    Cloud,
    /// Prefer manually configured hosts.
    Manual,
    /// Offer both pools.
    Ask,
}

impl Priority {
    /// The policy as it is shown.
    pub open spec fn text(self) -> Seq<char> {
        match self {
            Priority::Cloud => "Cloud"@,
            Priority::Manual => "Manual"@,
            Priority::Ask => "Ask"@,
        }
    }

    /// The policy as it is shown.
    pub fn label(&self) -> (r: &'static str)
        ensures
            r@ == self.text(),
    {
        match self {
            Priority::Cloud => "Cloud",
            Priority::Manual => "Manual",
            Priority::Ask => "Ask",
        }
    }

    /// The policies in the order in which they are offered.
    pub fn variants() -> (r: Vec<Priority>)
        ensures
            r@ == seq![Priority::Manual, Priority::Cloud, Priority::Ask],
    {
        let mut all: Vec<Priority> = Vec::new();
        all.push(Priority::Manual);
        all.push(Priority::Cloud);
        all.push(Priority::Ask);
        all
    }
}

/// A host that is reached over SSH as it stands.
#[derive(Debug)]
pub struct ManualConfig {
    pub name: String,
    pub user: String,
    pub host: String,
    pub port: u16,
    pub ssh_public_key_path: String,
    pub ssh_private_key_path: String,
}

/// A `ManualConfig` as plain data.
pub struct ManualConfigView {
    pub name: Seq<char>,
    pub user: Seq<char>,
    pub host: Seq<char>,
    pub port: u16,
    pub ssh_public_key_path: Seq<char>,
    pub ssh_private_key_path: Seq<char>,
}

impl View for ManualConfig {
    type V = ManualConfigView;

    open spec fn view(&self) -> ManualConfigView {
        ManualConfigView {
            name: self.name@,
            user: self.user@,
            host: self.host@,
            port: self.port,
            ssh_public_key_path: self.ssh_public_key_path@,
            ssh_private_key_path: self.ssh_private_key_path@,
        }
    }
}

impl Clone for ManualConfig {
    fn clone(&self) -> (r: Self)
        ensures
            r@ == self@,
    {
        ManualConfig {
            name: self.name.clone(),
            user: self.user.clone(),
            host: self.host.clone(),
            port: self.port,
            ssh_public_key_path: self.ssh_public_key_path.clone(),
            ssh_private_key_path: self.ssh_private_key_path.clone(),
        }
    }
}

impl CloudConfig for ManualConfig {
    open spec fn spec_name(&self) -> Seq<char> {
        self.name@
    }

    open spec fn spec_private_key_path(&self) -> Seq<char> {
        self.ssh_private_key_path@
    }

    fn name(&self) -> (r: &str) {
        self.name.as_str()
    }

    fn private_key_path(&self) -> (r: String) {
        self.ssh_private_key_path.clone()
    }
}

/// One named endpoint configuration.
#[derive(Debug)]
pub struct SavedConfig {
    pub mode: Mode,
    pub data: ConfigData,
}

/// A `SavedConfig` as plain data.
pub struct SavedConfigView {
    pub mode: Mode,
    pub data: ConfigDataView,
}

impl SavedConfigView {
    pub open spec fn name(self) -> Seq<char> {
        self.data.name()
    }

    pub open spec fn private_key_path(self) -> Seq<char> {
        self.data.private_key_path()
    }

    /// The tag and the data agree.
    pub open spec fn consistent(self) -> bool {
        match self.mode {
            Mode::Manual => self.data is Manual,
            Mode::Hetzner => self.data is Hetzner,
        }
    }
}

impl View for SavedConfig {
    type V = SavedConfigView;

    open spec fn view(&self) -> SavedConfigView {
        SavedConfigView { mode: self.mode, data: self.data@ }
    }
}

impl Clone for SavedConfig {
    fn clone(&self) -> (r: Self)
        ensures
            r@ == self@,
    {
        SavedConfig { mode: self.mode, data: self.data.clone() }
    }
}

/// How a manual configuration is shown.
pub open spec fn manual_text(m: ManualConfigView) -> Seq<char> {
    "SSHConfig("@ + m.user + "@"@ + m.host + ":"@ + decimal(m.port as nat) + ")"@
}

/// How a configuration is shown: the mode, then the data in brackets.
pub open spec fn config_text(c: SavedConfigView) -> Seq<char> {
    c.mode.text() + " ("@ + match c.data {
        ConfigDataView::Manual(m) => manual_text(m),
        ConfigDataView::Hetzner(h) => crate::provider::hetzner::config::hetzner_text(h),
    } + ")"@
}

impl ManualConfig {
    /// The text that stands for this configuration in a list.
    pub fn label(&self) -> (r: String)
        ensures
            r@ == manual_text(self@),
    {
        let mut out = String::from_str("SSHConfig(");
        out.append(self.user.as_str());
        out.append("@");
        out.append(self.host.as_str());
        out.append(":");
        push_decimal(&mut out, self.port as u64);
        out.append(")");
        out
    }
}

impl SavedConfig {
    /// The text that stands for this configuration in a list.
    pub fn label(&self) -> (r: String)
        ensures
            r@ == config_text(self@),
    {
        let mut out = String::from_str(self.mode.label());
        out.append(" (");
        match &self.data {
            ConfigData::Manual(m) => {
                out.append(m.label().as_str());
            },
            ConfigData::Hetzner(h) => {
                out.append(h.label().as_str());
            },
        }
        out.append(")");
        out
    }

    pub fn name(&self) -> (r: &str)
        ensures
            r@ == self@.name(),
    {
        self.data.name()
    }

    pub fn private_key_path(&self) -> (r: String)
        ensures
            r@ == self@.private_key_path(),
    {
        self.data.private_key_path()
    }
}

/// The configuration store: the saved endpoints in their order, the name of
/// the default one and the priority policy.
#[derive(Debug)]
pub struct SavedConfigs {
    pub default: Option<String>,
    pub priority: Option<Priority>,
    pub items: Vec<SavedConfig>,
}

/// A `SavedConfigs` as plain data.
pub struct SavedConfigsView {
    pub default: Option<Seq<char>>,
    pub priority: Option<Priority>,
    pub items: Seq<SavedConfigView>,
}

/// The views of a sequence of configurations, in order.
pub open spec fn config_views(v: Seq<SavedConfig>) -> Seq<SavedConfigView> {
    v.map_values(|c: SavedConfig| c@)
}

impl View for SavedConfigs {
    type V = SavedConfigsView;

    open spec fn view(&self) -> SavedConfigsView {
        SavedConfigsView {
            default: opt_text(self.default),
            priority: self.priority,
            items: config_views(self.items@),
        }
    }
}

impl Default for SavedConfigs {
    fn default() -> (r: Self)
        ensures
            r@.default is None,
            r@.priority is None,
            r@.items.len() == 0,
    {
        SavedConfigs { default: None, priority: None, items: Vec::new() }
    }
}

/// The index of the first configuration called `name`.
pub open spec fn first_named(items: Seq<SavedConfigView>, name: Seq<char>) -> Option<int>
    decreases items.len(),
{
    if items.len() == 0 {
        None
    } else {
        match first_named(items.drop_last(), name) {
            Some(i) => Some(i),
            None => if items.last().name() == name {
                Some(items.len() - 1)
            } else {
                None
            },
        }
    }
}

/// The index of the last configuration called `name`.
pub open spec fn last_named(items: Seq<SavedConfigView>, name: Seq<char>) -> Option<int>
    decreases items.len(),
{
    if items.len() == 0 {
        None
    } else if items.last().name() == name {
        Some(items.len() - 1)
    } else {
        last_named(items.drop_last(), name)
    }
}

/// The store after `cfg` was put into it: in the place of the first
/// configuration of its name, or after the last one.
pub open spec fn upserted(items: Seq<SavedConfigView>, cfg: SavedConfigView) -> Seq<
    SavedConfigView,
> {
    match first_named(items, cfg.name()) {
        Some(i) => items.update(i, cfg),
        None => items.push(cfg),
    }
}

/// No two configurations have the same name.
pub open spec fn names_unique(items: Seq<SavedConfigView>) -> bool {
    forall|i: int, j: int|
        0 <= i < j < items.len() ==> (#[trigger] items[i]).name() != (#[trigger] items[j]).name()
}

/// Whether some configuration is one of a cloud provider.
pub open spec fn any_cloud(items: Seq<SavedConfigView>) -> bool {
    exists|i: int| 0 <= i < items.len() && (#[trigger] items[i]).mode is Hetzner
}

/// `first_named` finds the least index with the name, and nothing where the
/// name does not occur.
pub proof fn lemma_first_named(items: Seq<SavedConfigView>, name: Seq<char>)
    ensures
        match first_named(items, name) {
            Some(i) => 0 <= i < items.len() && items[i].name() == name && forall|j: int|
                0 <= j < i ==> (#[trigger] items[j]).name() != name,
            None => forall|j: int| 0 <= j < items.len() ==> (#[trigger] items[j]).name() != name,
        },
    decreases items.len(),
{
    if items.len() > 0 {
        lemma_first_named(items.drop_last(), name);
        assert(forall|j: int| 0 <= j < items.len() - 1 ==> items.drop_last()[j] == items[j]);
    }
}

/// `last_named` finds the greatest index with the name, and nothing where
/// the name does not occur.
pub proof fn lemma_last_named(items: Seq<SavedConfigView>, name: Seq<char>)
    ensures
        match last_named(items, name) {
            Some(i) => 0 <= i < items.len() && items[i].name() == name && forall|j: int|
                i < j < items.len() ==> (#[trigger] items[j]).name() != name,
            None => forall|j: int| 0 <= j < items.len() ==> (#[trigger] items[j]).name() != name,
        },
    decreases items.len(),
{
    if items.len() > 0 {
        lemma_last_named(items.drop_last(), name);
        assert(forall|j: int| 0 <= j < items.len() - 1 ==> items.drop_last()[j] == items[j]);
    }
}

impl SavedConfigs {
    /// The position of the first configuration called `name`.
    pub fn position(&self, name: &str) -> (r: Option<usize>)
        ensures
            match r {
                Some(i) => i < self.items.len() && first_named(self@.items, name@) == Some(
                    i as int,
                ),
                None => first_named(self@.items, name@) is None,
            },
    {
        for i in 0..self.items.len()
            invariant
                forall|j: int| 0 <= j < i ==> (#[trigger] self@.items[j]).name() != name@,
        {
            if same_text(self.items[i].name(), name) {
                proof {
                    lemma_first_named(self@.items, name@);
                    assert(self@.items[i as int].name() == name@);
                }
                return Some(i);
            }
        }
        proof {
            lemma_first_named(self@.items, name@);
        }
        None
    }

    /// The position of the last configuration called `name`.
    pub fn last_position(&self, name: &str) -> (r: Option<usize>)
        ensures
            match r {
                Some(i) => i < self.items.len() && last_named(self@.items, name@) == Some(
                    i as int,
                ),
                None => last_named(self@.items, name@) is None,
            },
    {
        let mut i = self.items.len();
        while i > 0
            invariant
                i <= self.items.len(),
                forall|j: int|
                    i <= j < self.items.len() ==> (#[trigger] self@.items[j]).name() != name@,
            decreases i,
        {
            i = i - 1;
            if same_text(self.items[i].name(), name) {
                proof {
                    lemma_last_named(self@.items, name@);
                    assert(self@.items[i as int].name() == name@);
                }
                return Some(i);
            }
        }
        proof {
            lemma_last_named(self@.items, name@);
        }
        None
    }

    /// The first configuration called `name`.
    pub fn get(&self, name: &str) -> (r: Option<SavedConfig>)
        ensures
            match r {
                Some(c) => first_named(self@.items, name@) is Some && c@ == self@.items[first_named(
                    self@.items,
                    name@,
                )->0],
                None => first_named(self@.items, name@) is None,
            },
    {
        match self.position(name) {
            Some(i) => {
                proof {
                    lemma_first_named(self@.items, name@);
                }
                Some(self.items[i].clone())
            },
            None => None,
        }
    }

    /// Puts `cfg` in the place of the first configuration with its name, or
    /// after the last one where the name is new.
    pub fn upsert(&mut self, cfg: SavedConfig)
        ensures
            final(self)@.default == old(self)@.default,
            final(self)@.priority == old(self)@.priority,
            final(self)@.items == upserted(old(self)@.items, cfg@),
    {
        proof {
            lemma_first_named(self@.items, cfg@.name());
        }
        match self.position(cfg.name()) {
            Some(i) => {
                self.items.set(i, cfg);
                assert(final(self)@.items == old(self)@.items.update(i as int, cfg@));
            },
            None => {
                self.items.push(cfg);
                assert(final(self)@.items == old(self)@.items.push(cfg@));
            },
        }
    }

    /// Whether a server can be rented from some configuration.
    pub fn has_any_cloud(&self) -> (r: bool)
        ensures
            r == any_cloud(self@.items),
    {
        for i in 0..self.items.len()
            invariant
                forall|j: int| 0 <= j < i ==> !((#[trigger] self@.items[j]).mode is Hetzner),
        {
            if matches!(self.items[i].mode, Mode::Hetzner) {
                assert(self@.items[i as int].mode is Hetzner);
                return true;
            }
        }
        false
    }

    /// The policy in force: the saved one, or `Ask` where none is saved.
    pub fn effective_priority(&self) -> (r: Priority)
        ensures
            r == priority_or_ask(self@.priority),
    {
        match self.priority {
            Some(p) => p,
            None => Priority::Ask,
        }
    }
}

/// The policy in force: the saved one, or `Ask` where none is saved.
pub open spec fn priority_or_ask(p: Option<Priority>) -> Priority {
    match p {
        Some(p) => p,
        None => Priority::Ask,
    }
}

} // verus!
