//! Cloud providers and the configurations they are created from.

use crate::config::mode::{ConfigData, ConfigDataView, Mode};
use crate::config::{SavedConfig, SavedConfigView};
use crate::error::{ProviderError, ProviderErrorView};
use crate::provider::handle::ServerHandle;
use crate::provider::hetzner::config::HetznerConfigView;
use crate::provider::hetzner::{probe_request, HetznerProvider};
use crate::text::texts;
use vstd::prelude::*;
use vstd::string::*;

pub mod handle;
pub mod hetzner;
pub mod json;

verus! {

/// What every endpoint configuration can tell about itself.
pub trait CloudConfig {
    /// The configuration's name, as a sequence of characters.
    spec fn spec_name(&self) -> Seq<char>;

    /// The path of the local private key, as a sequence of characters.
    spec fn spec_private_key_path(&self) -> Seq<char>;

    fn name(&self) -> (r: &str)
        ensures
            r@ == self.spec_name(),
    ;

    fn private_key_path(&self) -> (r: String)
        ensures
            r@ == self.spec_private_key_path(),
    ;
}

/// The providers that servers can be rented from.
#[derive(Debug, Clone, Copy, PartialEq, Eq, Structural)]
pub enum ProviderKind {
    Hetzner,
}

impl ProviderKind {
    /// The provider's name as it is shown.
    pub open spec fn text(self) -> Seq<char> {
        match self {
            ProviderKind::Hetzner => "Hetzner"@,
        }
    }

    pub fn to_string(&self) -> (r: String)
        ensures
            r@ == self.text(),
    {
        match self {
            ProviderKind::Hetzner => String::from_str("Hetzner"),
        }
    }
}

/// How a request is made.
#[derive(Debug, Clone, Copy, PartialEq, Eq, Structural)]
pub enum HttpMethod {
    Get,
    Post,
    Delete,
}

/// What a new server is asked for: the fields of the creation request.
#[derive(Debug)]
pub struct ServerSpec {
    pub name: String,
    pub server_type: String,
    pub image: String,
    pub location: String,
    pub ssh_keys: Vec<String>,
    pub user_data: String,
}

/// A `ServerSpec` as plain data.
pub struct ServerSpecView {
    pub name: Seq<char>,
    pub server_type: Seq<char>,
    pub image: Seq<char>,
    pub location: Seq<char>,
    pub ssh_keys: Seq<Seq<char>>,
    pub user_data: Seq<char>,
}

impl View for ServerSpec {
    type V = ServerSpecView;

    open spec fn view(&self) -> ServerSpecView {
        ServerSpecView {
            name: self.name@,
            server_type: self.server_type@,
            image: self.image@,
            location: self.location@,
            ssh_keys: texts(self.ssh_keys@),
            user_data: self.user_data@,
        }
    }
}

/// A request to the provider's API: the method, the address, the token
/// that authorises it, and for a creation the server asked for.
#[derive(Debug)]
pub struct ApiRequest {
    pub method: HttpMethod,
    pub url: String,
    pub bearer: String,
    pub body: Option<ServerSpec>,
}

/// An `ApiRequest` as plain data.
pub struct ApiRequestView {
    pub method: HttpMethod,
    pub url: Seq<char>,
    pub bearer: Seq<char>,
    pub body: Option<ServerSpecView>,
}

impl View for ApiRequest {
    type V = ApiRequestView;

    open spec fn view(&self) -> ApiRequestView {
        ApiRequestView {
            method: self.method,
            url: self.url@,
            bearer: self.bearer@,
            body: match self.body {
                Some(b) => Some(b@),
                None => None,
            },
        }
    }
}

/// The provider's answer: whether the status was one of success, and the
/// body as text.
#[derive(Debug)]
pub struct ApiReply {
    pub success: bool,
    pub body: String,
}

/// The provider of a configuration, where it has one.
pub open spec fn provider_of(c: SavedConfigView) -> Result<
    HetznerConfigView,
    ProviderErrorView,
> {
    match (c.mode, c.data) {
        (Mode::Hetzner, ConfigDataView::Hetzner(h)) => Ok(h),
        _ => Err(ProviderErrorView::Unsupported),
    }
}

/// The provider that the servers of a configuration are rented from. Only a
/// configuration that is tagged for a provider and holds that provider's
/// data has one.
pub fn get_provider(c: &SavedConfig) -> (r: Result<HetznerProvider, ProviderError>)
    ensures
        match r {
            Ok(p) => provider_of(c@) == Ok::<_, ProviderErrorView>(p.cfg@),
            Err(e) => provider_of(c@) == Err::<HetznerConfigView, _>(e@),
        },
{
    match (&c.mode, &c.data) {
        (Mode::Hetzner, ConfigData::Hetzner(h)) => Ok(HetznerProvider { cfg: h.clone() }),
        _ => Err(ProviderError::Unsupported),
    }
}

/// The request that probes whether a server still exists.
pub fn exists_probe(c: &SavedConfig, h: &ServerHandle) -> (r: Result<ApiRequest, ProviderError>)
    ensures
        match r {
            Ok(q) => provider_of(c@) is Ok && q@ == probe_request(
                provider_of(c@)->Ok_0,
                h@,
            ),
            Err(e) => provider_of(c@) == Err::<HetznerConfigView, _>(e@),
        },
{
    match get_provider(c) {
        Ok(p) => Ok(p.exists_request(h)),
        Err(e) => Err(e),
    }
}

/// Whether a server still exists, by the provider's answer to the probe: it
/// does where the answer's status is one of success.
pub fn provider_exists(c: &SavedConfig, reply: &ApiReply) -> (r: Result<bool, ProviderError>)
    ensures
        match r {
            Ok(b) => provider_of(c@) is Ok && b == reply.success,
            Err(e) => provider_of(c@) == Err::<HetznerConfigView, _>(e@),
        },
{
    match get_provider(c) {
        Ok(_) => Ok(HetznerProvider::still_exists(reply)),
        Err(e) => Err(e),
    }
}

} // verus!
