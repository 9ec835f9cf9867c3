//! The Hetzner cloud provider: the requests that rent, delete and probe a
//! server, and what the provider's answers mean.
//!
//! Nothing here talks to the network. A request is handed out as data, and
//! the answer is taken back as data.

use crate::error::{ApiCall, ProviderError, ProviderErrorView, ReplyField};
use crate::provider::handle::{ServerHandle, ServerHandleView};
use crate::provider::hetzner::config::{HetznerConfig, HetznerConfigView};
use crate::provider::json::{
    as_int, as_text, int_at, json_nodes, json_parsed, member, parse, present_along, text_at,
    JsonNodes,
};
use crate::provider::{
    ApiReply, ApiRequest, ApiRequestView, HttpMethod, ProviderKind, ServerSpec, ServerSpecView,
};
use crate::text::{decimal, push_decimal, i64_text, signed_decimal, texts, trim, trimmed};
use vstd::prelude::*;
use vstd::string::*;

pub mod config;
pub mod listing;

verus! {

/// The address of the provider's API.
pub const API_BASE: &'static str = "https://api.hetzner.cloud/v1";

/// The start of the cloud-init document: the packages every server gets.
pub const CLOUD_INIT_HEAD: &'static str =
    "#cloud-config\npackage_update: true\npackage_upgrade: true\npackages:\n - build-essential\n - gcc\n - make\n - musl\n - musl-tools\n - libssl-dev\n - pkg-config\n - llvm\n - clang\n - git\n - curl\n - ca-certificates\n";

/// The end of the cloud-init document: the commands that install the
/// toolchain and, last of all, put the marker file `/root/ready` there.
pub const CLOUD_INIT_TAIL: &'static str =
    "runcmd:\n - [bash, -lc, \"export DEBIAN_FRONTEND=noninteractive && apt-get update && apt-get -yq upgrade\"]\n - [bash, -lc, \"apt-get install -yqq curl ca-certificates\"]\n - [bash, -lc, \"curl --proto '=https' --tlsv1.2 -sSf https://sh.rustup.rs -o /root/rustup-init.sh\"]\n - [bash, -lc, \"chmod +x /root/rustup-init.sh\"]\n - [bash, -lc, \"/root/rustup-init.sh -y --profile minimal --default-toolchain stable\"]\n - [bash, -lc, \"echo 'export PATH=\\\"$HOME/.cargo/bin:$PATH\\\"' >> /root/.bashrc\"]\n - [bash, -lc, \"printf 'export PATH=\\\"/root/.cargo/bin:$PATH\\\"\\n' > /etc/profile.d/cargo.sh && chmod +x /etc/profile.d/cargo.sh\"]\n - [bash, -lc, \"/root/.cargo/bin/rustc --version && /root/.cargo/bin/cargo --version\"]\n - [bash, -lc, \"touch /root/ready\"]\n";

/// A provider for one configuration.
#[derive(Debug)]
pub struct HetznerProvider {
    pub cfg: HetznerConfig,
}

/// The list entries for the packages that are installed on request: one
/// line for each name that is not blank, with the name trimmed.
pub open spec fn package_lines(packages: Seq<Seq<char>>) -> Seq<char>
    decreases packages.len(),
{
    if packages.len() == 0 {
        Seq::empty()
    } else {
        let name = trimmed(packages.last());
        let line = if name.len() == 0 {
            Seq::empty()
        } else {
            " - "@ + name + "\n"@
        };
        package_lines(packages.drop_last()) + line
    }
}

/// The cloud-init document for a new server.
pub open spec fn cloud_init_text(packages: Seq<Seq<char>>) -> Seq<char> {
    CLOUD_INIT_HEAD@ + package_lines(packages) + CLOUD_INIT_TAIL@
}

/// The name of a new server: the project's key and the time of the request,
/// so that two servers of one project have different names.
pub open spec fn server_name(project_key: Seq<char>, timestamp: u64) -> Seq<char> {
    "cargo-remote-"@ + project_key + "-"@ + decimal(timestamp as nat)
}

/// The request that rents a server.
pub open spec fn create_request(
    cfg: HetznerConfigView,
    project_key: Seq<char>,
    timestamp: u64,
    packages: Seq<Seq<char>>,
) -> ApiRequestView {
    ApiRequestView {
        method: HttpMethod::Post,
        url: API_BASE@ + "/servers"@,
        bearer: cfg.api_key,
        body: Some(
            ServerSpecView {
                name: server_name(project_key, timestamp),
                server_type: cfg.server_type,
                image: cfg.image,
                location: cfg.location,
                ssh_keys: seq![cfg.ssh_key],
                user_data: cloud_init_text(packages),
            },
        ),
    }
}

/// The address of one server.
pub open spec fn server_url(id: Seq<char>) -> Seq<char> {
    API_BASE@ + "/servers/"@ + id
}

/// The request that deletes a server.
pub open spec fn delete_request(cfg: HetznerConfigView, h: ServerHandleView) -> ApiRequestView {
    ApiRequestView {
        method: HttpMethod::Delete,
        url: server_url(h.id),
        bearer: cfg.api_key,
        body: None,
    }
}

/// The request that probes whether a server exists.
pub open spec fn probe_request(cfg: HetznerConfigView, h: ServerHandleView) -> ApiRequestView {
    ApiRequestView { method: HttpMethod::Get, url: server_url(h.id), bearer: cfg.api_key, body: None }
}

/// The id and the public IPv4 address of the server that a creation answer
/// describes, or the first of `server`, `server.id` and
/// `server.public_net.ipv4.ip` that is not there as it should be.
pub open spec fn server_in(nodes: JsonNodes) -> Result<(i64, Seq<char>), ReplyField> {
    if !nodes.contains_key(seq!["server"@]) {
        Err(ReplyField::Server)
    } else {
        let ip_path = seq!["server"@, "public_net"@, "ipv4"@, "ip"@];
        match int_at(nodes, seq!["server"@, "id"@]) {
            None => Err(ReplyField::Id),
            Some(id) => if !present_along(nodes, ip_path) {
                Err(ReplyField::Ipv4)
            } else {
                match text_at(nodes, ip_path) {
                    None => Err(ReplyField::Ipv4),
                    Some(ip) => Ok((id, ip)),
                }
            },
        }
    }
}

/// The user to log in as: the configured one, or `root`.
pub open spec fn login_user(cfg: HetznerConfigView) -> Seq<char> {
    match cfg.username {
        Some(u) => u,
        None => "root"@,
    }
}

/// The handle of a server that was rented from `cfg`.
pub open spec fn new_handle(cfg: HetznerConfigView, id: i64, ip: Seq<char>) -> ServerHandleView {
    ServerHandleView {
        provider: ProviderKind::Hetzner,
        config: cfg.name,
        id: signed_decimal(id as int),
        host: ip,
        port: 22,
        username: login_user(cfg),
    }
}

/// What a creation answer with the given document means.
pub open spec fn rented_from(cfg: HetznerConfigView, nodes: JsonNodes) -> Result<
    ServerHandleView,
    ProviderErrorView,
> {
    match server_in(nodes) {
        Ok((id, ip)) => Ok(new_handle(cfg, id, ip)),
        Err(f) => Err(ProviderErrorView::Missing(f)),
    }
}

/// What the provider's answer to a creation request means: an error with the
/// answer's body where the status is not one of success, an error where the
/// body is no JSON or lacks a field, and else the new server's handle.
pub open spec fn rent_outcome(cfg: HetznerConfigView, success: bool, body: Seq<char>) -> Result<
    ServerHandleView,
    ProviderErrorView,
> {
    if !success {
        Err(ProviderErrorView::Api { call: ApiCall::Create, body })
    } else {
        match json_parsed(body) {
            None => Err(ProviderErrorView::InvalidBody),
            Some(nodes) => rented_from(cfg, nodes),
        }
    }
}

pub open spec fn handle_result(r: Result<ServerHandle, ProviderError>) -> Result<
    ServerHandleView,
    ProviderErrorView,
> {
    match r {
        Ok(h) => Ok(h@),
        Err(e) => Err(e@),
    }
}

impl HetznerProvider {
    /// The address of the provider's API.
    pub fn base() -> (r: &'static str)
        ensures
            r@ == API_BASE@,
    {
        API_BASE
    }

    /// The cloud-init document for a new server: the base packages, the
    /// packages asked for, and the commands that install the toolchain.
    pub fn cloud_init(&self, preinstall: &Vec<String>) -> (r: String)
        ensures
            r@ == cloud_init_text(texts(preinstall@)),
    {
        let mut s = String::from_str(CLOUD_INIT_HEAD);
        for i in 0..preinstall.len()
            invariant
                s@ == CLOUD_INIT_HEAD@ + package_lines(texts(preinstall@).take(i as int)),
        {
            proof {
                let all = texts(preinstall@);
                assert(all.take(i + 1).drop_last() == all.take(i as int));
                assert(all.take(i + 1).last() == preinstall@[i as int]@);
            }
            let name = trim(preinstall[i].as_str());
            if !name.is_empty() {
                s.append(" - ");
                s.append(name);
                s.append("\n");
            }
        }
        assert(texts(preinstall@).take(preinstall.len() as int) == texts(preinstall@));
        s.append(CLOUD_INIT_TAIL);
        s
    }

    /// The request that rents a server for the project with the given key.
    /// `timestamp` is the time of the request in seconds; it makes the
    /// server's name new.
    pub fn rent_request(&self, project_key: &str, timestamp: u64, preinstall: &Vec<String>) -> (r:
        ApiRequest)
        ensures
            r@ == create_request(self.cfg@, project_key@, timestamp, texts(preinstall@)),
    {
        let mut name = String::from_str("cargo-remote-");
        name.append(project_key);
        name.append("-");
        push_decimal(&mut name, timestamp);
        let mut url = String::from_str(API_BASE);
        url.append("/servers");
        let mut ssh_keys: Vec<String> = Vec::new();
        ssh_keys.push(self.cfg.ssh_key.clone());
        assert(texts(ssh_keys@) == seq![self.cfg@.ssh_key]);
        ApiRequest {
            method: HttpMethod::Post,
            url,
            bearer: self.cfg.api_key.clone(),
            body: Some(
                ServerSpec {
                    name,
                    server_type: self.cfg.server_type.clone(),
                    image: self.cfg.image.clone(),
                    location: self.cfg.location.clone(),
                    ssh_keys,
                    user_data: self.cloud_init(preinstall),
                },
            ),
        }
    }

    /// The handle of the server that a parsed creation answer describes.
    pub fn read_server(&self, reply: &serde_json::Value) -> (r: Result<ServerHandle, ProviderError>)
        ensures
            handle_result(r) == rented_from(self.cfg@, json_nodes(*reply)),
    {
        let ghost nodes = json_nodes(*reply);
        let ghost none = Seq::<Seq<char>>::empty();
        let ghost p1 = seq!["server"@];
        let ghost p2 = seq!["server"@, "public_net"@];
        let ghost p3 = seq!["server"@, "public_net"@, "ipv4"@];
        let ghost p4 = seq!["server"@, "public_net"@, "ipv4"@, "ip"@];
        let ghost id_path = seq!["server"@, "id"@];
        proof {
            assert(p4.drop_last() == p3);
            assert(p3.drop_last() == p2);
            assert(p2.drop_last() == p1);
            assert(p1.drop_last() == none);
            assert(present_along(nodes, none));
            assert(present_along(nodes, p1) == nodes.contains_key(p1));
            assert(present_along(nodes, p2) == (present_along(nodes, p1) && nodes.contains_key(p2)));
            assert(present_along(nodes, p3) == (present_along(nodes, p2) && nodes.contains_key(p3)));
            assert(present_along(nodes, p4) == (present_along(nodes, p3) && nodes.contains_key(p4)));
        }
        let server = match member(reply, "server") {
            Some(s) => s,
            None => {
                return Err(ProviderError::Missing(ReplyField::Server));
            },
        };
        let id = match member(server, "id") {
            Some(v) => {
                proof {
                    assert(seq!["id"@] + none == seq!["id"@]);
                    assert(p1 + seq!["id"@] == id_path);
                }
                as_int(v)
            },
            None => {
                assert(p1 + seq!["id"@] == id_path);
                None
            },
        };
        let id = match id {
            Some(i) => i,
            None => {
                return Err(ProviderError::Missing(ReplyField::Id));
            },
        };
        proof {
            assert(p1 + seq!["public_net"@] == p2);
        }
        let ip = match member(server, "public_net") {
            Some(net) => {
                proof {
                    assert(seq!["public_net"@] + seq!["ipv4"@] == seq!["public_net"@, "ipv4"@]);
                    assert(p1 + seq!["public_net"@, "ipv4"@] == p3);
                }
                match member(net, "ipv4") {
                    Some(v4) => {
                        proof {
                            assert(seq!["ipv4"@] + seq!["ip"@] == seq!["ipv4"@, "ip"@]);
                            assert(seq!["public_net"@] + seq!["ipv4"@, "ip"@] == seq![
                                "public_net"@,
                                "ipv4"@,
                                "ip"@,
                            ]);
                            assert(p1 + seq!["public_net"@, "ipv4"@, "ip"@] == p4);
                        }
                        match member(v4, "ip") {
                            Some(ip) => {
                                proof {
                                    assert(seq!["ip"@] + none == seq!["ip"@]);
                                    assert(seq!["ipv4"@] + seq!["ip"@] == seq!["ipv4"@, "ip"@]);
                                }
                                as_text(ip)
                            },
                            None => None,
                        }
                    },
                    None => None,
                }
            },
            None => None,
        };
        let ip = match ip {
            Some(s) => s,
            None => {
                return Err(ProviderError::Missing(ReplyField::Ipv4));
            },
        };
        Ok(
            ServerHandle {
                provider: ProviderKind::Hetzner,
                config: self.cfg.name.clone(),
                id: i64_text(id),
                host: String::from_str(ip),
                port: 22,
                username: match &self.cfg.username {
                    Some(u) => u.clone(),
                    None => String::from_str("root"),
                },
            },
        )
    }

    /// What the provider's answer to a creation request means.
    pub fn rent(&self, reply: &ApiReply) -> (r: Result<ServerHandle, ProviderError>)
        ensures
            handle_result(r) == rent_outcome(self.cfg@, reply.success, reply.body@),
    {
        if !reply.success {
            return Err(ProviderError::Api { call: ApiCall::Create, body: reply.body.clone() });
        }
        match parse(reply.body.as_str()) {
            Ok(v) => self.read_server(&v),
            Err(_) => Err(ProviderError::InvalidBody),
        }
    }

    /// The request that deletes the server of a handle.
    pub fn delete_request(&self, handle: &ServerHandle) -> (r: ApiRequest)
        ensures
            r@ == delete_request(self.cfg@, handle@),
    {
        let mut url = String::from_str(API_BASE);
        url.append("/servers/");
        url.append(handle.id.as_str());
        ApiRequest { method: HttpMethod::Delete, url, bearer: self.cfg.api_key.clone(), body: None }
    }

    /// What the provider's answer to a deletion request means: the server is
    /// gone where the status is one of success, and else the error holds the
    /// answer's body.
    pub fn delete(reply: &ApiReply) -> (r: Result<(), ProviderError>)
        ensures
            match r {
                Ok(_) => reply.success,
                Err(e) => !reply.success && e@ == (ProviderErrorView::Api {
                    call: ApiCall::Delete,
                    body: reply.body@,
                }),
            },
    {
        if reply.success {
            Ok(())
        } else {
            Err(ProviderError::Api { call: ApiCall::Delete, body: reply.body.clone() })
        }
    }

    /// The request that probes whether the server of a handle exists.
    pub fn exists_request(&self, handle: &ServerHandle) -> (r: ApiRequest)
        ensures
            r@ == probe_request(self.cfg@, handle@),
    {
        let mut url = String::from_str(API_BASE);
        url.append("/servers/");
        url.append(handle.id.as_str());
        ApiRequest { method: HttpMethod::Get, url, bearer: self.cfg.api_key.clone(), body: None }
    }

    /// What the provider's answer to a probe means: the server exists where
    /// the status is one of success.
    pub fn still_exists(reply: &ApiReply) -> (r: bool)
        ensures
            r == reply.success,
    {
        reply.success
    }
}

} // verus!
