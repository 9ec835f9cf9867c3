//! The parameters a Hetzner server is rented with.

use crate::provider::CloudConfig;
use crate::text::opt_text;
use vstd::prelude::*;
use vstd::string::*;

verus! {

#[derive(Debug)]
pub struct HetznerConfig {
    pub name: String,
    pub api_key: String,
    pub location: String,
    pub server_type: String,
    pub image: String,
    pub username: Option<String>,
    /// Name of the key in the Hetzner account.
    pub ssh_key: String,
    /// Path of the local private key.
    pub local_privat_key: String,
}

/// A `HetznerConfig` as plain data.
pub struct HetznerConfigView {
    pub name: Seq<char>,
    pub api_key: Seq<char>,
    pub location: Seq<char>,
    pub server_type: Seq<char>,
    pub image: Seq<char>,
    pub username: Option<Seq<char>>,
    pub ssh_key: Seq<char>,
    pub local_privat_key: Seq<char>,
}

impl View for HetznerConfig {
    type V = HetznerConfigView;

    open spec fn view(&self) -> HetznerConfigView {
        HetznerConfigView {
            name: self.name@,
            api_key: self.api_key@,
            location: self.location@,
            server_type: self.server_type@,
            image: self.image@,
            username: opt_text(self.username),
            ssh_key: self.ssh_key@,
            local_privat_key: self.local_privat_key@,
        }
    }
}

impl Clone for HetznerConfig {
    fn clone(&self) -> (r: Self)
        ensures
            r@ == self@,
    {
        HetznerConfig {
            name: self.name.clone(),
            api_key: self.api_key.clone(),
            location: self.location.clone(),
            server_type: self.server_type.clone(),
            image: self.image.clone(),
            username: match &self.username {
                Some(u) => Some(u.clone()),
                None => None,
            },
            ssh_key: self.ssh_key.clone(),
            local_privat_key: self.local_privat_key.clone(),
        }
    }
}

/// How a Hetzner configuration is shown.
pub open spec fn hetzner_text(h: HetznerConfigView) -> Seq<char> {
    "HetznerConfig(location: "@ + h.location + ", server_type: "@ + h.server_type + ")"@
}

impl HetznerConfig {
    /// The text that stands for this configuration in a list.
    pub fn label(&self) -> (r: String)
        ensures
            r@ == hetzner_text(self@),
    {
        let mut out = String::from_str("HetznerConfig(location: ");
        out.append(self.location.as_str());
        out.append(", server_type: ");
        out.append(self.server_type.as_str());
        out.append(")");
        out
    }
}

impl CloudConfig for HetznerConfig {
    open spec fn spec_name(&self) -> Seq<char> {
        self.name@
    }

    open spec fn spec_private_key_path(&self) -> Seq<char> {
        self.local_privat_key@
    }

    fn name(&self) -> (r: &str) {
        self.name.as_str()
    }

    fn private_key_path(&self) -> (r: String) {
        self.local_privat_key.clone()
    }
}

} // verus!
