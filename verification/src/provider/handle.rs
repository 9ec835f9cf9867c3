//! The handle of a rented server.

use crate::provider::ProviderKind;
use vstd::prelude::*;
use vstd::string::*;

verus! {

/// A rented, running cloud server: who runs it, which configuration it was
/// rented from, its id there, and how to reach it.
#[derive(Debug)]
pub struct ServerHandle {
    pub provider: ProviderKind,
    /// Name of the configuration the server was created from.
    pub config: String,
    pub id: String,
    pub host: String,
    pub port: u16,
    pub username: String,
}

/// A `ServerHandle` as plain data.
pub struct ServerHandleView {
    pub provider: ProviderKind,
    pub config: Seq<char>,
    pub id: Seq<char>,
    pub host: Seq<char>,
    pub port: u16,
    pub username: Seq<char>,
}

impl View for ServerHandle {
    type V = ServerHandleView;

    open spec fn view(&self) -> ServerHandleView {
        ServerHandleView {
            provider: self.provider,
            config: self.config@,
            id: self.id@,
            host: self.host@,
            port: self.port,
            username: self.username@,
        }
    }
}

impl Clone for ServerHandle {
    fn clone(&self) -> (r: Self)
        ensures
            r@ == self@,
    {
        ServerHandle {
            provider: self.provider,
            config: self.config.clone(),
            id: self.id.clone(),
            host: self.host.clone(),
            port: self.port,
            username: self.username.clone(),
        }
    }
}

impl PartialEq for ServerHandle {
    fn eq(&self, other: &Self) -> (r: bool) {
        self.provider == other.provider && self.config == other.config && self.id == other.id
            && self.host == other.host && self.port == other.port && self.username
            == other.username
    }
}

impl vstd::std_specs::cmp::PartialEqSpecImpl for ServerHandle {
    open spec fn obeys_eq_spec() -> bool {
        true
    }

    open spec fn eq_spec(&self, other: &Self) -> bool {
        self@ == other@
    }
}

/// How a handle is shown in a list: the host, then the provider in brackets.
pub open spec fn handle_label(h: ServerHandleView) -> Seq<char> {
    h.host + " ("@ + h.provider.text() + ")"@
}

impl ServerHandle {
    /// The line that stands for this handle in a list of sessions.
    pub fn label(&self) -> (r: String)
        ensures
            r@ == handle_label(self@),
    {
        let mut out = self.host.clone();
        out.append(" (");
        out.append(self.provider.to_string().as_str());
        out.append(")");
        out
    }
}

} // verus!
