//! The lifecycle of rented servers: begin, end and status.
//!
//! Each operation is cut into its decisions. What lies between them
//! (asking somebody to choose, looking for a key file, talking to the
//! provider, saving the state) is done by the caller, who hands the outcome
//! to the next decision.

use crate::config::mode::Mode;
use crate::config::resolve::cloud_ready;
use crate::config::{
    any_cloud, config_views, first_named, SavedConfig, SavedConfigView, SavedConfigs,
    SavedConfigsView,
};
use crate::error::{ApiCall, ProviderError, ProviderErrorView};
use crate::provider::handle::{handle_label, ServerHandleView};
use crate::provider::hetzner::{create_request, delete_request, rent_outcome, HetznerProvider};
use crate::provider::{get_provider, provider_of, ApiReply, ApiRequest, ApiRequestView};
use crate::state::{other_ids, State};
use crate::text::texts;
use vstd::prelude::*;
use vstd::string::*;

verus! {

/// What the caller of `begin` sets.
#[derive(Debug)]
pub struct BeginOpts {
    /// Name of the configuration to rent from.
    pub config: Option<String>,
    /// Packages to install on the new server.
    pub preinstall: Vec<String>,
}

/// Why a session could not be begun or ended.
#[derive(Debug)]
pub enum SessionError {
    /// No configuration is one of a cloud provider.
    NoCloudConfigured,
    /// The configuration to rent from is a manual one.
    NotCloud,
    /// The private key of the configuration is not where it is said to be.
    PrivateKeyMissing(String),
    /// There is no session to end.
    NoSession,
    /// The chosen session does not exist.
    NoSuchSession,
    /// The configuration of the session is gone, and no other one of its
    /// provider is saved.
    NoProviderConfig,
    /// The provider failed.
    Provider(ProviderError),
}

/// A `SessionError` as plain data.
pub enum SessionErrorView {
    NoCloudConfigured,
    NotCloud,
    PrivateKeyMissing(Seq<char>),
    NoSession,
    NoSuchSession,
    NoProviderConfig,
    Provider(ProviderErrorView),
}

impl View for SessionError {
    type V = SessionErrorView;

    open spec fn view(&self) -> SessionErrorView {
        match self {
            SessionError::NoCloudConfigured => SessionErrorView::NoCloudConfigured,
            SessionError::NotCloud => SessionErrorView::NotCloud,
            SessionError::PrivateKeyMissing(p) => SessionErrorView::PrivateKeyMissing(p@),
            SessionError::NoSession => SessionErrorView::NoSession,
            SessionError::NoSuchSession => SessionErrorView::NoSuchSession,
            SessionError::NoProviderConfig => SessionErrorView::NoProviderConfig,
            SessionError::Provider(e) => SessionErrorView::Provider(e@),
        }
    }
}

impl SessionErrorView {
    pub open spec fn text(self) -> Seq<char> {
        match self {
            SessionErrorView::NoCloudConfigured =>
                "no cloud provider configured; add one via `cargo remote configure`"@,
            SessionErrorView::NotCloud =>
                "`begin` requires a cloud provider config (e.g., Hetzner)"@,
            SessionErrorView::PrivateKeyMissing(p) => "private key missing at "@ + p,
            SessionErrorView::NoSession => "no session"@,
            SessionErrorView::NoSuchSession => "selection not found"@,
            SessionErrorView::NoProviderConfig => "config not found"@,
            SessionErrorView::Provider(e) => e.text(),
        }
    }
}

impl SessionError {
    pub fn message(&self) -> (r: String)
        ensures
            r@ == self@.text(),
    {
        match self {
            SessionError::NoCloudConfigured => String::from_str(
                "no cloud provider configured; add one via `cargo remote configure`",
            ),
            SessionError::NotCloud => String::from_str(
                "`begin` requires a cloud provider config (e.g., Hetzner)",
            ),
            SessionError::PrivateKeyMissing(p) => {
                let mut out = String::from_str("private key missing at ");
                out.append(p.as_str());
                out
            },
            SessionError::NoSession => String::from_str("no session"),
            SessionError::NoSuchSession => String::from_str("selection not found"),
            SessionError::NoProviderConfig => String::from_str("config not found"),
            SessionError::Provider(e) => e.message(),
        }
    }
}

/// From which configuration a server is rented: this one, or one of these,
/// to be chosen.
#[derive(Debug)]
pub enum BeginPlan {
    Rent(SavedConfig),
    Choose(Vec<SavedConfig>),
}

/// A `BeginPlan` as plain data.
pub enum BeginPlanView {
    Rent(SavedConfigView),
    Choose(Seq<SavedConfigView>),
}

impl View for BeginPlan {
    type V = BeginPlanView;

    open spec fn view(&self) -> BeginPlanView {
        match self {
            BeginPlan::Rent(c) => BeginPlanView::Rent(c@),
            BeginPlan::Choose(v) => BeginPlanView::Choose(config_views(v@)),
        }
    }
}

pub open spec fn tagged_cloud() -> spec_fn(SavedConfigView) -> bool {
    |c: SavedConfigView| !(c.mode is Manual)
}

/// The configurations that servers can be rented from, in the order of the
/// store.
pub open spec fn cloud_configs(items: Seq<SavedConfigView>) -> Seq<SavedConfigView> {
    items.filter(tagged_cloud())
}

/// The configuration that is asked for by name: the requested one, or the
/// default where none is requested; it counts only if it is saved and is a
/// cloud configuration.
pub open spec fn named_cloud(cfgs: SavedConfigsView, requested: Option<Seq<char>>) -> Option<
    SavedConfigView,
> {
    let name = match requested {
        Some(n) => Some(n),
        None => cfgs.default,
    };
    match name {
        Some(n) => match first_named(cfgs.items, n) {
            Some(i) => if !(cfgs.items[i].mode is Manual) {
                Some(cfgs.items[i])
            } else {
                None
            },
            None => None,
        },
        None => None,
    }
}

/// From which configuration `begin` rents.
///
/// Without any cloud configuration there is nothing to rent from. Else the
/// configuration asked for by name is taken; where that gives none, the
/// only cloud configuration; and where there are several, they are handed
/// out to choose from.
pub open spec fn begin_spec(cfgs: SavedConfigsView, requested: Option<Seq<char>>) -> Result<
    BeginPlanView,
    SessionErrorView,
> {
    let pool = cloud_configs(cfgs.items);
    if pool.len() == 0 {
        Err(SessionErrorView::NoCloudConfigured)
    } else {
        match named_cloud(cfgs, requested) {
            Some(c) => Ok(BeginPlanView::Rent(c)),
            None => if pool.len() == 1 {
                Ok(BeginPlanView::Rent(pool[0]))
            } else {
                Ok(BeginPlanView::Choose(pool))
            },
        }
    }
}

/// `begin` finds something to rent from exactly where the store holds a
/// configuration of a cloud provider.
pub proof fn lemma_begin_needs_cloud(cfgs: SavedConfigsView, requested: Option<Seq<char>>)
    ensures
        any_cloud(cfgs.items) <==> cloud_configs(cfgs.items).len() > 0,
        any_cloud(cfgs.items) <==> begin_spec(cfgs, requested) is Ok,
{
    let items = cfgs.items;
    let pool = cloud_configs(items);
    if any_cloud(items) {
        let i = choose|i: int| 0 <= i < items.len() && (#[trigger] items[i]).mode is Hetzner;
        assert(tagged_cloud()(items[i]));
        items.lemma_filter_contains(tagged_cloud(), i);
        assert(pool.contains(items[i]));
    }
    if pool.len() > 0 {
        items.lemma_filter_pred(tagged_cloud(), 0);
        assert(pool.contains(pool[0]));
        items.lemma_filter_contains_rev(tagged_cloud(), pool[0]);
        let i = choose|i: int| 0 <= i < items.len() && items[i] == pool[0];
        assert(items[i].mode is Hetzner);
    }
}

pub open spec fn plan_result(r: Result<BeginPlan, SessionError>) -> Result<
    BeginPlanView,
    SessionErrorView,
> {
    match r {
        Ok(p) => Ok(p@),
        Err(e) => Err(e@),
    }
}

pub open spec fn request_result(r: Result<ApiRequest, SessionError>) -> Result<
    ApiRequestView,
    SessionErrorView,
> {
    match r {
        Ok(q) => Ok(q@),
        Err(e) => Err(e@),
    }
}

/// The request that rents a server from `c`.
///
/// A manual configuration has no servers to rent. The private key has to be
/// there before anything is rented, so that nobody pays for a server that
/// cannot be reached. A configuration whose data is not that of its
/// provider is not supported.
pub open spec fn begin_request_spec(
    c: SavedConfigView,
    key_exists: bool,
    project_key: Seq<char>,
    timestamp: u64,
    packages: Seq<Seq<char>>,
) -> Result<ApiRequestView, SessionErrorView> {
    if c.mode is Manual {
        Err(SessionErrorView::NotCloud)
    } else if !key_exists {
        Err(SessionErrorView::PrivateKeyMissing(c.private_key_path()))
    } else {
        match provider_of(c) {
            Ok(h) => Ok(create_request(h, project_key, timestamp, packages)),
            Err(e) => Err(SessionErrorView::Provider(e)),
        }
    }
}

/// The configuration through which the server of `h` is deleted: the first
/// one of the name that the handle holds, or, where that is gone, the first
/// one of the handle's provider.
pub open spec fn end_config(items: Seq<SavedConfigView>, h: ServerHandleView) -> Option<
    SavedConfigView,
> {
    match first_named(items, h.config) {
        Some(i) => Some(items[i]),
        None => first_ready(items),
    }
}

/// The first configuration that is one of a cloud provider and holds its
/// data.
pub open spec fn first_ready(items: Seq<SavedConfigView>) -> Option<SavedConfigView>
    decreases items.len(),
{
    if items.len() == 0 {
        None
    } else {
        match first_ready(items.drop_last()) {
            Some(c) => Some(c),
            None => if cloud_ready(items.last()) {
                Some(items.last())
            } else {
                None
            },
        }
    }
}

/// The request that deletes the server of the session at `index`.
pub open spec fn end_request_spec(
    cfgs: SavedConfigsView,
    handles: Seq<ServerHandleView>,
    index: int,
) -> Result<ApiRequestView, SessionErrorView> {
    if !(0 <= index < handles.len()) {
        Err(SessionErrorView::NoSuchSession)
    } else {
        match end_config(cfgs.items, handles[index]) {
            None => Err(SessionErrorView::NoProviderConfig),
            Some(c) => match provider_of(c) {
                Ok(h) => Ok(delete_request(h, handles[index])),
                Err(e) => Err(SessionErrorView::Provider(e)),
            },
        }
    }
}

/// Which session `end` ends.
#[derive(Debug)]
pub enum EndPlan {
    /// The only one there is.
    Only(usize),
    /// One of these, to be chosen; the labels stand in the order of the
    /// sessions.
    Choose(Vec<String>),
}

/// An `EndPlan` as plain data.
pub enum EndPlanView {
    Only(usize),
    Choose(Seq<Seq<char>>),
}

impl View for EndPlan {
    type V = EndPlanView;

    open spec fn view(&self) -> EndPlanView {
        match self {
            EndPlan::Only(i) => EndPlanView::Only(*i),
            EndPlan::Choose(labels) => EndPlanView::Choose(texts(labels@)),
        }
    }
}

/// The labels of the sessions, in order.
pub open spec fn session_labels(handles: Seq<ServerHandleView>) -> Seq<Seq<char>> {
    handles.map_values(|h: ServerHandleView| handle_label(h))
}

fn first_ready_config(cfgs: &SavedConfigs) -> (r: Option<usize>)
    ensures
        match r {
            Some(i) => i < cfgs.items.len() && first_ready(cfgs@.items) == Some(
                cfgs@.items[i as int],
            ),
            None => first_ready(cfgs@.items) is None,
        },
{
    for i in 0..cfgs.items.len()
        invariant
            first_ready(cfgs@.items.take(i as int)) is None,
    {
        let c = &cfgs.items[i];
        proof {
            assert(cfgs@.items.take(i + 1).drop_last() == cfgs@.items.take(i as int));
        }
        if matches!(c.mode, Mode::Hetzner) && matches!(
            c.data,
            crate::config::mode::ConfigData::Hetzner(_)
        ) {
            proof {
                lemma_first_ready_extends(cfgs@.items, i + 1);
            }
            return Some(i);
        }
    }
    assert(cfgs@.items.take(cfgs.items.len() as int) == cfgs@.items);
    None
}

proof fn lemma_first_ready_extends(items: Seq<SavedConfigView>, n: int)
    requires
        0 <= n <= items.len(),
        first_ready(items.take(n)) is Some,
    ensures
        first_ready(items) == first_ready(items.take(n)),
    decreases items.len() - n,
{
    if n == items.len() {
        assert(items.take(n) == items);
    } else {
        assert(items.take(n + 1).drop_last() == items.take(n));
        lemma_first_ready_extends(items, n + 1);
    }
}

/// Decides from which configuration `begin` rents.
pub fn begin_plan(cfgs: &SavedConfigs, requested: Option<&str>) -> (r: Result<
    BeginPlan,
    SessionError,
>)
    ensures
        plan_result(r) == begin_spec(
            cfgs@,
            match requested {
                Some(n) => Some(n@),
                None => None,
            },
        ),
{
    let mut pool: Vec<SavedConfig> = Vec::new();
    for i in 0..cfgs.items.len()
        invariant
            config_views(pool@) == cfgs@.items.take(i as int).filter(tagged_cloud()),
    {
        proof {
            reveal(Seq::filter);
            assert(cfgs@.items.take(i + 1).drop_last() == cfgs@.items.take(i as int));
        }
        if Mode::check_cloud_mode(&cfgs.items[i].mode) {
            pool.push(cfgs.items[i].clone());
        }
        assert(config_views(pool@) == cfgs@.items.take(i + 1).filter(tagged_cloud()));
    }
    assert(cfgs@.items.take(cfgs.items.len() as int) == cfgs@.items);
    if pool.len() == 0 {
        return Err(SessionError::NoCloudConfigured);
    }
    let named = match requested {
        Some(n) => cfgs.get(n),
        None => match &cfgs.default {
            Some(d) => cfgs.get(d.as_str()),
            None => None,
        },
    };
    match named {
        Some(c) => {
            if Mode::check_cloud_mode(&c.mode) {
                return Ok(BeginPlan::Rent(c));
            }
        },
        None => {},
    }
    if pool.len() == 1 {
        Ok(BeginPlan::Rent(pool[0].clone()))
    } else {
        Ok(BeginPlan::Choose(pool))
    }
}

/// The request that rents a server from `c`, once it is known whether the
/// private key of `c` is there.
pub fn begin_request(
    c: &SavedConfig,
    key_exists: bool,
    project_key: &str,
    timestamp: u64,
    preinstall: &Vec<String>,
) -> (r: Result<ApiRequest, SessionError>)
    ensures
        request_result(r) == begin_request_spec(
            c@,
            key_exists,
            project_key@,
            timestamp,
            texts(preinstall@),
        ),
{
    if !Mode::check_cloud_mode(&c.mode) {
        return Err(SessionError::NotCloud);
    }
    if !key_exists {
        return Err(SessionError::PrivateKeyMissing(c.private_key_path()));
    }
    match get_provider(c) {
        Ok(p) => Ok(p.rent_request(project_key, timestamp, preinstall)),
        Err(e) => Err(SessionError::Provider(e)),
    }
}

/// Takes the provider's answer to the request of `begin_request`: where a
/// server was rented its handle is put at the end of the state, which is
/// then to be saved; else the state stays as it is.
pub fn begin_record(state: &mut State, c: &SavedConfig, reply: &ApiReply) -> (r: Result<
    (),
    SessionError,
>)
    ensures
        match provider_of(c@) {
            Ok(h) => match rent_outcome(h, reply.success, reply.body@) {
                Ok(handle) => r is Ok && final(state)@ == old(state)@.push(handle),
                Err(e) => r is Err && r->Err_0@ == SessionErrorView::Provider(e) && final(state)@
                    == old(state)@,
            },
            Err(e) => r is Err && r->Err_0@ == SessionErrorView::Provider(e) && final(state)@
                == old(state)@,
        },
{
    let provider = match get_provider(c) {
        Ok(p) => p,
        Err(e) => {
            return Err(SessionError::Provider(e));
        },
    };
    match provider.rent(reply) {
        Ok(handle) => {
            state.add(handle);
            Ok(())
        },
        Err(e) => Err(SessionError::Provider(e)),
    }
}

/// Decides which session `end` ends: the only one, or one to be chosen.
pub fn end_plan(state: &State) -> (r: Result<EndPlan, SessionError>)
    ensures
        match r {
            Ok(p) => state@.len() > 0 && p@ == if state@.len() == 1 {
                EndPlanView::Only(0)
            } else {
                EndPlanView::Choose(session_labels(state@))
            },
            Err(e) => state@.len() == 0 && e@ == SessionErrorView::NoSession,
        },
{
    if state.projects.len() == 0 {
        return Err(SessionError::NoSession);
    }
    if state.projects.len() == 1 {
        return Ok(EndPlan::Only(0));
    }
    let mut labels: Vec<String> = Vec::new();
    for i in 0..state.projects.len()
        invariant
            texts(labels@) == session_labels(state@).take(i as int),
    {
        let ghost prev = labels@;
        let label = state.projects[i].label();
        labels.push(label);
        proof {
            let all = session_labels(state@);
            assert(texts(labels@) == texts(prev).push(label@));
            assert(all.take(i + 1) == all.take(i as int).push(label@));
        }
    }
    assert(session_labels(state@).take(state.projects.len() as int) == session_labels(state@));
    Ok(EndPlan::Choose(labels))
}

/// The request that deletes the server of the session at `index`.
pub fn end_request(cfgs: &SavedConfigs, state: &State, index: usize) -> (r: Result<
    ApiRequest,
    SessionError,
>)
    ensures
        request_result(r) == end_request_spec(cfgs@, state@, index as int),
{
    if index >= state.projects.len() {
        return Err(SessionError::NoSuchSession);
    }
    let handle = &state.projects[index];
    let config = match cfgs.get(handle.config.as_str()) {
        Some(c) => c,
        None => match first_ready_config(cfgs) {
            Some(i) => cfgs.items[i].clone(),
            None => {
                return Err(SessionError::NoProviderConfig);
            },
        },
    };
    match get_provider(&config) {
        Ok(p) => Ok(p.delete_request(handle)),
        Err(e) => Err(SessionError::Provider(e)),
    }
}

/// Takes the provider's answer to the request of `end_request`: where the
/// server is gone, every handle with the id of the session at `index`
/// leaves the state, which is then to be saved; else the state stays as it
/// is.
pub fn end_record(state: &mut State, index: usize, reply: &ApiReply) -> (r: Result<
    (),
    SessionError,
>)
    ensures
        if !(index < old(state)@.len()) {
            r is Err && r->Err_0@ == SessionErrorView::NoSuchSession && final(state)@ == old(
                state,
            )@
        } else if !reply.success {
            r is Err && r->Err_0@ == SessionErrorView::Provider(
                ProviderErrorView::Api { call: ApiCall::Delete, body: reply.body@ },
            ) && final(state)@ == old(state)@
        } else {
            r is Ok && final(state)@ == old(state)@.filter(
                other_ids(old(state)@[index as int].id),
            )
        },
{
    if index >= state.projects.len() {
        return Err(SessionError::NoSuchSession);
    }
    match HetznerProvider::delete(reply) {
        Ok(_) => {
            let id = state.projects[index].id.clone();
            state.remove_id(id.as_str());
            Ok(())
        },
        Err(e) => Err(SessionError::Provider(e)),
    }
}

} // verus!
