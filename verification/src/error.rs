//! The errors of the crate, each with the message it is reported by.

use crate::config::Priority;
use vstd::prelude::*;
use vstd::string::*;

verus! {

/// What can go wrong when a configuration is looked up or changed.
#[derive(Debug, Clone, Copy, PartialEq, Eq, Structural)]
pub enum ConfigError {
    /// No configuration has the given name.
    NotFound,
    /// The given index is past the last configuration.
    IndexOutOfRange,
    /// Neither a name nor an index was given.
    NoSelector,
    /// The text given for the SSH port is no port number.
    InvalidPort,
}

impl ConfigError {
    pub open spec fn text(self) -> Seq<char> {
        match self {
            ConfigError::NotFound => "not found"@,
            ConfigError::IndexOutOfRange => "index"@,
            ConfigError::NoSelector => "provide name or index"@,
            ConfigError::InvalidPort => "invalid port"@,
        }
    }

    pub fn message(&self) -> (r: String)
        ensures
            r@ == self.text(),
    {
        match self {
            ConfigError::NotFound => String::from_str("not found"),
            ConfigError::IndexOutOfRange => String::from_str("index"),
            ConfigError::NoSelector => String::from_str("provide name or index"),
            ConfigError::InvalidPort => String::from_str("invalid port"),
        }
    }
}

/// Why no endpoint could be resolved.
#[derive(Debug, Clone, Copy, PartialEq, Eq, Structural)]
pub enum ResolutionError {
    /// The store holds no configuration at all.
    NoConfigured,
    /// The pool that the given priority asks for is empty.
    NoCandidates(Priority),
    /// The chosen label names no candidate.
    SelectionNotFound,
    /// The chosen configuration is tagged manual but holds no manual data.
    InvalidManual,
}

impl ResolutionError {
    pub open spec fn text(self) -> Seq<char> {
        match self {
            ResolutionError::NoConfigured =>
                "no configurations available; run `cargo remote configure`"@,
            ResolutionError::NoCandidates(Priority::Manual) =>
                "no manual server configured; run `cargo remote configure`"@,
            ResolutionError::NoCandidates(_) =>
                "no active cloud servers; start one with `cargo remote begin`"@,
            ResolutionError::SelectionNotFound => "selection not found"@,
            ResolutionError::InvalidManual => "invalid manual config"@,
        }
    }

    pub fn message(&self) -> (r: String)
        ensures
            r@ == self.text(),
    {
        match self {
            ResolutionError::NoConfigured => String::from_str(
                "no configurations available; run `cargo remote configure`",
            ),
            ResolutionError::NoCandidates(Priority::Manual) => String::from_str(
                "no manual server configured; run `cargo remote configure`",
            ),
            ResolutionError::NoCandidates(_) => String::from_str(
                "no active cloud servers; start one with `cargo remote begin`",
            ),
            ResolutionError::SelectionNotFound => String::from_str("selection not found"),
            ResolutionError::InvalidManual => String::from_str("invalid manual config"),
        }
    }
}

/// A file transfer that did not succeed.
#[derive(Debug, Clone, Copy, PartialEq, Eq, Structural)]
pub enum TransferError {
    /// The project could not be mirrored to the remote host.
    Mirror,
    /// The artifacts could not be fetched.
    CopyBack,
}

impl TransferError {
    pub open spec fn text(self) -> Seq<char> {
        match self {
            TransferError::Mirror => "rsync failed"@,
            TransferError::CopyBack => "rsync copy-back failed"@,
        }
    }

    pub fn message(&self) -> (r: String)
        ensures
            r@ == self.text(),
    {
        match self {
            TransferError::Mirror => String::from_str("rsync failed"),
            TransferError::CopyBack => String::from_str("rsync copy-back failed"),
        }
    }
}

/// Why a remote run was given up.
#[derive(Debug, Clone, Copy, PartialEq, Eq, Structural)]
pub enum RemoteError {
    /// The remote home directory could not be asked for.
    HomeUnavailable,
    /// The remote host reported no home directory.
    EmptyHome,
    /// Files could not be moved.
    Transfer(TransferError),
    /// The build could not be started, so there is no exit code of it.
    RemoteExec,
}

impl RemoteError {
    pub open spec fn text(self) -> Seq<char> {
        match self {
            RemoteError::HomeUnavailable => "could not get remote HOME"@,
            RemoteError::EmptyHome => "empty remote HOME"@,
            RemoteError::Transfer(t) => t.text(),
            RemoteError::RemoteExec => "remote command could not be run"@,
        }
    }

    pub fn message(&self) -> (r: String)
        ensures
            r@ == self.text(),
    {
        match self {
            RemoteError::HomeUnavailable => String::from_str("could not get remote HOME"),
            RemoteError::EmptyHome => String::from_str("empty remote HOME"),
            RemoteError::Transfer(t) => t.message(),
            RemoteError::RemoteExec => String::from_str("remote command could not be run"),
        }
    }
}

/// The request to the provider that was refused.
#[derive(Debug, Clone, Copy, PartialEq, Eq, Structural)]
pub enum ApiCall {
    Create,
    Delete,
}

/// A part of the provider's answer.
#[derive(Debug, Clone, Copy, PartialEq, Eq, Structural)]
pub enum ReplyField {
    /// The object `server`.
    Server,
    /// The integer `server.id`.
    Id,
    /// The string `server.public_net.ipv4.ip`.
    Ipv4,
}

/// What can go wrong with a cloud provider.
#[derive(Debug)]
pub enum ProviderError {
    /// The configuration is not one of a provider that servers can be
    /// rented from.
    Unsupported,
    /// The provider refused a request; `body` is what it answered.
    Api { call: ApiCall, body: String },
    /// The provider's answer is no JSON.
    InvalidBody,
    /// The provider's answer lacks a field, or holds something else there.
    Missing(ReplyField),
    /// The provider gave no answer, so nothing is known.
    NoAnswer,
}

/// A `ProviderError` as plain data.
pub enum ProviderErrorView {
    Unsupported,
    Api { call: ApiCall, body: Seq<char> },
    InvalidBody,
    Missing(ReplyField),
    NoAnswer,
}

impl View for ProviderError {
    type V = ProviderErrorView;

    open spec fn view(&self) -> ProviderErrorView {
        match self {
            ProviderError::Unsupported => ProviderErrorView::Unsupported,
            ProviderError::Api { call, body } => ProviderErrorView::Api {
                call: *call,
                body: body@,
            },
            ProviderError::InvalidBody => ProviderErrorView::InvalidBody,
            ProviderError::Missing(f) => ProviderErrorView::Missing(*f),
            ProviderError::NoAnswer => ProviderErrorView::NoAnswer,
        }
    }
}

impl ProviderErrorView {
    pub open spec fn text(self) -> Seq<char> {
        match self {
            ProviderErrorView::Unsupported => "unsupported provider for this config"@,
            ProviderErrorView::Api { call: ApiCall::Create, body } => "hetzner create failed: "@
                + body,
            ProviderErrorView::Api { call: ApiCall::Delete, body } => "hetzner delete failed: "@
                + body,
            ProviderErrorView::InvalidBody => "invalid response body"@,
            ProviderErrorView::Missing(ReplyField::Server) => "missing server"@,
            ProviderErrorView::Missing(ReplyField::Id) => "missing id"@,
            ProviderErrorView::Missing(ReplyField::Ipv4) => "missing IPv4"@,
            ProviderErrorView::NoAnswer => "no answer from the provider"@,
        }
    }
}

impl ProviderError {
    pub fn message(&self) -> (r: String)
        ensures
            r@ == self@.text(),
    {
        match self {
            ProviderError::Unsupported => String::from_str("unsupported provider for this config"),
            ProviderError::Api { call: ApiCall::Create, body } => {
                let mut out = String::from_str("hetzner create failed: ");
                out.append(body.as_str());
                out
            },
            ProviderError::Api { call: ApiCall::Delete, body } => {
                let mut out = String::from_str("hetzner delete failed: ");
                out.append(body.as_str());
                out
            },
            ProviderError::InvalidBody => String::from_str("invalid response body"),
            ProviderError::Missing(ReplyField::Server) => String::from_str("missing server"),
            ProviderError::Missing(ReplyField::Id) => String::from_str("missing id"),
            ProviderError::Missing(ReplyField::Ipv4) => String::from_str("missing IPv4"),
            ProviderError::NoAnswer => String::from_str("no answer from the provider"),
        }
    }
}

} // verus!
