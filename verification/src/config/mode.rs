//! The kind of an endpoint configuration and its data.

use crate::config::{ManualConfig, ManualConfigView};
use crate::provider::hetzner::config::{HetznerConfig, HetznerConfigView};
use crate::provider::CloudConfig;
use vstd::prelude::*;

verus! {

#[derive(Debug, Clone, Copy, PartialEq, Eq, Structural)]
pub enum Mode {
    Manual,
    Hetzner,
}

impl Mode {
    /// The mode as it is shown.
    pub open spec fn text(self) -> Seq<char> {
        match self {
            Mode::Manual => "Manual"@,
            Mode::Hetzner => "Hetzner"@,
        }
    }

    /// The mode as it is written in lists.
    pub open spec fn tag(self) -> Seq<char> {
        match self {
            Mode::Manual => "manual"@,
            Mode::Hetzner => "hetzner"@,
        }
    }

    /// The mode as it is shown.
    pub fn label(&self) -> (r: &'static str)
        ensures
            r@ == self.text(),
    {
        match self {
            Mode::Manual => "Manual",
            Mode::Hetzner => "Hetzner",
        }
    }

    /// The mode as it is written in lists.
    pub fn tag_text(&self) -> (r: &'static str)
        ensures
            r@ == self.tag(),
    {
        match self {
            Mode::Manual => "manual",
            Mode::Hetzner => "hetzner",
        }
    }

    /// The modes in the order in which they are offered.
    pub fn variants() -> (r: Vec<Mode>)
        ensures
            r@ == seq![Mode::Manual, Mode::Hetzner],
    {
        let mut all: Vec<Mode> = Vec::new();
        all.push(Mode::Manual);
        all.push(Mode::Hetzner);
        all
    }

    /// Whether servers of this mode are rented from a cloud provider.
    pub fn check_cloud_mode(mode: &Mode) -> (r: bool)
        ensures
            r == !(*mode is Manual),
    {
        !matches!(mode, Mode::Manual)
    }
}

/// The data of a configuration: a manual SSH target or the parameters of a
/// cloud server, never both.
#[derive(Debug)]
pub enum ConfigData {
    Manual(ManualConfig),
    Hetzner(HetznerConfig),
}

/// A `ConfigData` as plain data.
pub enum ConfigDataView {
    Manual(ManualConfigView),
    Hetzner(HetznerConfigView),
}

impl ConfigDataView {
    pub open spec fn name(self) -> Seq<char> {
        match self {
            ConfigDataView::Manual(m) => m.name,
            ConfigDataView::Hetzner(h) => h.name,
        }
    }

    pub open spec fn private_key_path(self) -> Seq<char> {
        match self {
            ConfigDataView::Manual(m) => m.ssh_private_key_path,
            ConfigDataView::Hetzner(h) => h.local_privat_key,
        }
    }
}

impl View for ConfigData {
    type V = ConfigDataView;

    open spec fn view(&self) -> ConfigDataView {
        match self {
            ConfigData::Manual(m) => ConfigDataView::Manual(m@),
            ConfigData::Hetzner(h) => ConfigDataView::Hetzner(h@),
        }
    }
}

impl Clone for ConfigData {
    fn clone(&self) -> (r: Self)
        ensures
            r@ == self@,
    {
        match self {
            ConfigData::Manual(m) => ConfigData::Manual(m.clone()),
            ConfigData::Hetzner(h) => ConfigData::Hetzner(h.clone()),
        }
    }
}

impl CloudConfig for ConfigData {
    open spec fn spec_name(&self) -> Seq<char> {
        self@.name()
    }

    open spec fn spec_private_key_path(&self) -> Seq<char> {
        self@.private_key_path()
    }

    fn name(&self) -> (r: &str) {
        match self {
            ConfigData::Manual(m) => m.name(),
            ConfigData::Hetzner(h) => h.name(),
        }
    }

    fn private_key_path(&self) -> (r: String) {
        match self {
            ConfigData::Manual(m) => m.private_key_path(),
            ConfigData::Hetzner(h) => h.private_key_path(),
        }
    }
}

} // verus!
