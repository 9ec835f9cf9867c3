//! The endpoint resolver: which host a build goes to, given the saved
//! configurations, the servers that are rented and the priority policy.
//!
//! The resolver never asks anybody anything. Where a choice is needed it
//! hands out the labels to choose from. `resolve_choice` takes the position
//! of the chosen label back, `resolve_selection` the label itself.

use crate::config::mode::{ConfigData, ConfigDataView, Mode};
use crate::config::{
    config_views, first_named, last_named, lemma_first_named, priority_or_ask, Priority,
    SavedConfig, SavedConfigView, SavedConfigs, SavedConfigsView,
};
use crate::error::ResolutionError;
use crate::provider::handle::{ServerHandle, ServerHandleView};
use crate::state::State;
use crate::text::{label_name, label_prefix, decimal, push_decimal, same_text, texts};
use vstd::prelude::*;
use vstd::string::*;

verus! {

/// Where a build runs: the host, the user to log in as, the SSH port and
/// the path of the private key.
#[derive(Debug)]
pub struct RemoteTarget {
    pub host: String,
    pub user: String,
    pub port: u16,
    pub private_key: String,
}

/// A `RemoteTarget` as plain data.
pub struct RemoteTargetView {
    pub host: Seq<char>,
    pub user: Seq<char>,
    pub port: u16,
    pub private_key: Seq<char>,
}

impl View for RemoteTarget {
    type V = RemoteTargetView;

    open spec fn view(&self) -> RemoteTargetView {
        RemoteTargetView {
            host: self.host@,
            user: self.user@,
            port: self.port,
            private_key: self.private_key@,
        }
    }
}

/// What the resolver found: the one endpoint, or the labels among which
/// somebody has to choose.
#[derive(Debug)]
pub enum Resolution {
    Target(RemoteTarget),
    Choose(Vec<String>),
}

/// A `Resolution` as plain data.
pub enum ResolutionView {
    Target(RemoteTargetView),
    Choose(Seq<Seq<char>>),
}

impl View for Resolution {
    type V = ResolutionView;

    open spec fn view(&self) -> ResolutionView {
        match self {
            Resolution::Target(t) => ResolutionView::Target(t@),
            Resolution::Choose(labels) => ResolutionView::Choose(texts(labels@)),
        }
    }
}

/// A rented server together with the configuration that owns it.
pub type CloudPair = (ServerHandleView, SavedConfigView);

/// The views of a sequence of servers with their configurations.
pub open spec fn pair_views(v: Seq<(ServerHandle, SavedConfig)>) -> Seq<CloudPair> {
    v.map_values(|p: (ServerHandle, SavedConfig)| (p.0@, p.1@))
}

/// A configuration that a live server can be reached through: tagged as a
/// cloud configuration and holding cloud data.
pub open spec fn cloud_ready(c: SavedConfigView) -> bool {
    c.mode is Hetzner && c.data is Hetzner
}

/// The handle with the configuration that owns it, where one of its name
/// is saved (the last one of that name) and is a cloud configuration.
pub open spec fn cloud_owner(items: Seq<SavedConfigView>) -> spec_fn(ServerHandleView) -> Option<
    CloudPair,
> {
    |h: ServerHandleView|
        match last_named(items, h.config) {
            Some(i) => if cloud_ready(items[i]) {
                Some((h, items[i]))
            } else {
                None
            },
            None => None,
        }
}

/// The cloud candidates: the live servers whose owner still exists and is
/// a cloud configuration, in the order of the session state.
pub open spec fn cloud_pool(items: Seq<SavedConfigView>, handles: Seq<ServerHandleView>) -> Seq<
    CloudPair,
> {
    handles.filter_map(cloud_owner(items))
}

pub open spec fn tagged_manual() -> spec_fn(SavedConfigView) -> bool {
    |c: SavedConfigView| c.mode is Manual
}

/// The manual candidates: the configurations tagged manual, in the order of
/// the store.
pub open spec fn manual_pool(items: Seq<SavedConfigView>) -> Seq<SavedConfigView> {
    items.filter(tagged_manual())
}

/// The label of a cloud candidate: the configuration's name, then the
/// provider, `host:port` and the server's id in square brackets.
pub open spec fn cloud_label(p: CloudPair) -> Seq<char> {
    p.1.name() + " ["@ + p.0.provider.text() + " "@ + p.0.host + ":"@ + decimal(p.0.port as nat)
        + " id="@ + p.0.id + "]"@
}

/// The label of a manual candidate: the configuration's name, then
/// `manual host:port` in square brackets.
pub open spec fn manual_label(c: SavedConfigView) -> Seq<char> {
    match c.data {
        ConfigDataView::Manual(m) => c.name() + " [manual "@ + m.host + ":"@ + decimal(
            m.port as nat,
        ) + "]"@,
        _ => c.name(),
    }
}

pub open spec fn cloud_labels(pool: Seq<CloudPair>) -> Seq<Seq<char>> {
    pool.map_values(|p: CloudPair| cloud_label(p))
}

pub open spec fn manual_labels(pool: Seq<SavedConfigView>) -> Seq<Seq<char>> {
    pool.map_values(|c: SavedConfigView| manual_label(c))
}

/// A cloud pick is reached at the address that the server was given when it
/// was rented, with the key of its configuration.
pub open spec fn cloud_target(p: CloudPair) -> RemoteTargetView {
    RemoteTargetView {
        host: p.0.host,
        user: p.0.username,
        port: p.0.port,
        private_key: p.1.private_key_path(),
    }
}

/// A manual pick is reached as its configuration says.
pub open spec fn manual_target(c: SavedConfigView) -> Result<RemoteTargetView, ResolutionError> {
    match c.data {
        ConfigDataView::Manual(m) => Ok(
            RemoteTargetView {
                host: m.host,
                user: m.user,
                port: m.port,
                private_key: m.ssh_private_key_path,
            },
        ),
        _ => Err(ResolutionError::InvalidManual),
    }
}

pub open spec fn as_target(t: Result<RemoteTargetView, ResolutionError>) -> Result<
    ResolutionView,
    ResolutionError,
> {
    match t {
        Ok(t) => Ok(ResolutionView::Target(t)),
        Err(e) => Err(e),
    }
}

/// The resolver's answer over the two pools.
///
/// An empty store is `NoConfigured`. Otherwise the policy picks the pool
/// (`Ask`: both, cloud first); an empty pool is `NoCandidates`, a single
/// candidate is the answer, and more than one are handed out as labels.
pub open spec fn resolve_pools(
    store_len: nat,
    priority: Priority,
    cloud: Seq<CloudPair>,
    manual: Seq<SavedConfigView>,
) -> Result<ResolutionView, ResolutionError> {
    if store_len == 0 {
        Err(ResolutionError::NoConfigured)
    } else {
        match priority {
            Priority::Cloud => if cloud.len() == 0 {
                Err(ResolutionError::NoCandidates(Priority::Cloud))
            } else if cloud.len() == 1 {
                Ok(ResolutionView::Target(cloud_target(cloud[0])))
            } else {
                Ok(ResolutionView::Choose(cloud_labels(cloud)))
            },
            Priority::Manual => if manual.len() == 0 {
                Err(ResolutionError::NoCandidates(Priority::Manual))
            } else if manual.len() == 1 {
                as_target(manual_target(manual[0]))
            } else {
                Ok(ResolutionView::Choose(manual_labels(manual)))
            },
            Priority::Ask => if cloud.len() + manual.len() == 0 {
                Err(ResolutionError::NoCandidates(Priority::Ask))
            } else if cloud.len() + manual.len() == 1 {
                if cloud.len() == 1 {
                    Ok(ResolutionView::Target(cloud_target(cloud[0])))
                } else {
                    as_target(manual_target(manual[0]))
                }
            } else {
                Ok(ResolutionView::Choose(cloud_labels(cloud) + manual_labels(manual)))
            },
        }
    }
}

/// The resolver's answer for a store and the servers that are rented.
pub open spec fn resolve(cfgs: SavedConfigsView, handles: Seq<ServerHandleView>) -> Result<
    ResolutionView,
    ResolutionError,
> {
    resolve_pools(
        cfgs.items.len(),
        priority_or_ask(cfgs.priority),
        cloud_pool(cfgs.items, handles),
        manual_pool(cfgs.items),
    )
}

/// The configurations of the cloud candidates, in order.
pub open spec fn owners(pool: Seq<CloudPair>) -> Seq<SavedConfigView> {
    pool.map_values(|p: CloudPair| p.1)
}

/// The labels that are handed out where there is a choice: those of the
/// pool of the policy (`Ask`: the cloud pool's, then the manual pool's).
pub open spec fn offered(priority: Priority, cloud: Seq<CloudPair>, manual: Seq<SavedConfigView>)
    -> Seq<Seq<char>> {
    match priority {
        Priority::Cloud => cloud_labels(cloud),
        Priority::Manual => manual_labels(manual),
        Priority::Ask => cloud_labels(cloud) + manual_labels(manual),
    }
}

/// The endpoint of the candidate whose label stands at position `i` of the
/// labels that are handed out, or `SelectionNotFound` where there is no
/// such position.
pub open spec fn pick_at(
    priority: Priority,
    cloud: Seq<CloudPair>,
    manual: Seq<SavedConfigView>,
    i: int,
) -> Result<RemoteTargetView, ResolutionError> {
    match priority {
        Priority::Cloud => if 0 <= i < cloud.len() {
            Ok(cloud_target(cloud[i]))
        } else {
            Err(ResolutionError::SelectionNotFound)
        },
        Priority::Manual => if 0 <= i < manual.len() {
            manual_target(manual[i])
        } else {
            Err(ResolutionError::SelectionNotFound)
        },
        Priority::Ask => if 0 <= i < cloud.len() {
            Ok(cloud_target(cloud[i]))
        } else if cloud.len() <= i < cloud.len() + manual.len() {
            manual_target(manual[i - cloud.len()])
        } else {
            Err(ResolutionError::SelectionNotFound)
        },
    }
}

/// The first position at which `label` stands among `labels`.
pub open spec fn first_equal(labels: Seq<Seq<char>>, label: Seq<char>) -> Option<int>
    decreases labels.len(),
{
    if labels.len() == 0 {
        None
    } else {
        match first_equal(labels.drop_last(), label) {
            Some(i) => Some(i),
            None => if labels.last() == label {
                Some(labels.len() - 1)
            } else {
                None
            },
        }
    }
}

/// The endpoint that a label stands for where it is none of the labels that
/// were handed out: the first candidate whose configuration has the name
/// that the label starts with (`Ask`: the cloud pool, then the manual one).
pub open spec fn pick_by_name(
    priority: Priority,
    cloud: Seq<CloudPair>,
    manual: Seq<SavedConfigView>,
    label: Seq<char>,
) -> Result<RemoteTargetView, ResolutionError> {
    let name = label_name(label);
    let in_cloud = first_named(owners(cloud), name);
    let in_manual = first_named(manual, name);
    match priority {
        Priority::Cloud => match in_cloud {
            Some(i) => Ok(cloud_target(cloud[i])),
            None => Err(ResolutionError::SelectionNotFound),
        },
        Priority::Manual => match in_manual {
            Some(i) => manual_target(manual[i]),
            None => Err(ResolutionError::SelectionNotFound),
        },
        Priority::Ask => match in_cloud {
            Some(i) => Ok(cloud_target(cloud[i])),
            None => match in_manual {
                Some(i) => manual_target(manual[i]),
                None => Err(ResolutionError::SelectionNotFound),
            },
        },
    }
}

/// The endpoint that a chosen label stands for.
///
/// A label that was handed out stands for the candidate it was made for:
/// the one at the first position at which that very label stands. Only a
/// label that was not handed out counts by the name it starts with; where
/// no candidate has that name the answer is `SelectionNotFound`.
pub open spec fn pick_pools(
    priority: Priority,
    cloud: Seq<CloudPair>,
    manual: Seq<SavedConfigView>,
    label: Seq<char>,
) -> Result<RemoteTargetView, ResolutionError> {
    match first_equal(offered(priority, cloud, manual), label) {
        Some(i) => pick_at(priority, cloud, manual, i),
        None => pick_by_name(priority, cloud, manual, label),
    }
}

/// The endpoint that a chosen label stands for, for a store and the servers
/// that are rented.
pub open spec fn pick(cfgs: SavedConfigsView, handles: Seq<ServerHandleView>, label: Seq<char>)
    -> Result<RemoteTargetView, ResolutionError> {
    pick_pools(
        priority_or_ask(cfgs.priority),
        cloud_pool(cfgs.items, handles),
        manual_pool(cfgs.items),
        label,
    )
}

pub open spec fn resolved(r: Result<Resolution, ResolutionError>) -> Result<
    ResolutionView,
    ResolutionError,
> {
    match r {
        Ok(x) => Ok(x@),
        Err(e) => Err(e),
    }
}

pub open spec fn targeted(r: Result<RemoteTarget, ResolutionError>) -> Result<
    RemoteTargetView,
    ResolutionError,
> {
    match r {
        Ok(x) => Ok(x@),
        Err(e) => Err(e),
    }
}

fn cloud_target_of(pair: &(ServerHandle, SavedConfig)) -> (r: RemoteTarget)
    ensures
        r@ == cloud_target((pair.0@, pair.1@)),
{
    RemoteTarget {
        host: pair.0.host.clone(),
        user: pair.0.username.clone(),
        port: pair.0.port,
        private_key: pair.1.private_key_path(),
    }
}

fn manual_target_of(c: &SavedConfig) -> (r: Result<RemoteTarget, ResolutionError>)
    ensures
        targeted(r) == manual_target(c@),
{
    match &c.data {
        ConfigData::Manual(m) => Ok(
            RemoteTarget {
                host: m.host.clone(),
                user: m.user.clone(),
                port: m.port,
                private_key: m.ssh_private_key_path.clone(),
            },
        ),
        _ => Err(ResolutionError::InvalidManual),
    }
}

fn cloud_label_of(pair: &(ServerHandle, SavedConfig)) -> (r: String)
    ensures
        r@ == cloud_label((pair.0@, pair.1@)),
{
    let mut out = String::from_str(pair.1.name());
    out.append(" [");
    out.append(pair.0.provider.to_string().as_str());
    out.append(" ");
    out.append(pair.0.host.as_str());
    out.append(":");
    push_decimal(&mut out, pair.0.port as u64);
    out.append(" id=");
    out.append(pair.0.id.as_str());
    out.append("]");
    out
}

fn manual_label_of(c: &SavedConfig) -> (r: String)
    ensures
        r@ == manual_label(c@),
{
    let mut out = String::from_str(c.name());
    match &c.data {
        ConfigData::Manual(m) => {
            out.append(" [manual ");
            out.append(m.host.as_str());
            out.append(":");
            push_decimal(&mut out, m.port as u64);
            out.append("]");
        },
        _ => {},
    }
    out
}

fn push_cloud_labels(labels: &mut Vec<String>, cloud: &Vec<(ServerHandle, SavedConfig)>)
    ensures
        texts(final(labels)@) == texts(old(labels)@) + cloud_labels(pair_views(cloud@)),
{
    let ghost before = texts(labels@);
    for i in 0..cloud.len()
        invariant
            texts(labels@) == before + cloud_labels(pair_views(cloud@)).take(i as int),
    {
        let ghost prev = labels@;
        let label = cloud_label_of(&cloud[i]);
        labels.push(label);
        proof {
            let all = cloud_labels(pair_views(cloud@));
            assert(texts(labels@) == texts(prev).push(label@));
            assert(all.take(i + 1) == all.take(i as int).push(label@));
        }
    }
    assert(cloud_labels(pair_views(cloud@)).take(cloud.len() as int) == cloud_labels(
        pair_views(cloud@),
    ));
}

fn push_manual_labels(labels: &mut Vec<String>, manual: &Vec<SavedConfig>)
    ensures
        texts(final(labels)@) == texts(old(labels)@) + manual_labels(config_views(manual@)),
{
    let ghost before = texts(labels@);
    for i in 0..manual.len()
        invariant
            texts(labels@) == before + manual_labels(config_views(manual@)).take(i as int),
    {
        let ghost prev = labels@;
        let label = manual_label_of(&manual[i]);
        labels.push(label);
        proof {
            let all = manual_labels(config_views(manual@));
            assert(texts(labels@) == texts(prev).push(label@));
            assert(all.take(i + 1) == all.take(i as int).push(label@));
        }
    }
    assert(manual_labels(config_views(manual@)).take(manual.len() as int) == manual_labels(
        config_views(manual@),
    ));
}

fn position_in_cloud(cloud: &Vec<(ServerHandle, SavedConfig)>, name: &str) -> (r: Option<usize>)
    ensures
        match r {
            Some(i) => i < cloud.len() && first_named(owners(pair_views(cloud@)), name@) == Some(
                i as int,
            ),
            None => first_named(owners(pair_views(cloud@)), name@) is None,
        },
{
    let ghost configs = owners(pair_views(cloud@));
    for i in 0..cloud.len()
        invariant
            configs == owners(pair_views(cloud@)),
            forall|j: int| 0 <= j < i ==> (#[trigger] configs[j]).name() != name@,
    {
        if same_text(cloud[i].1.name(), name) {
            proof {
                lemma_first_named(configs, name@);
                assert(configs[i as int].name() == name@);
            }
            return Some(i);
        }
    }
    proof {
        lemma_first_named(configs, name@);
    }
    None
}

fn position_in_manual(manual: &Vec<SavedConfig>, name: &str) -> (r: Option<usize>)
    ensures
        match r {
            Some(i) => i < manual.len() && first_named(config_views(manual@), name@) == Some(
                i as int,
            ),
            None => first_named(config_views(manual@), name@) is None,
        },
{
    let ghost configs = config_views(manual@);
    for i in 0..manual.len()
        invariant
            configs == config_views(manual@),
            forall|j: int| 0 <= j < i ==> (#[trigger] configs[j]).name() != name@,
    {
        if same_text(manual[i].name(), name) {
            proof {
                lemma_first_named(configs, name@);
                assert(configs[i as int].name() == name@);
            }
            return Some(i);
        }
    }
    proof {
        lemma_first_named(configs, name@);
    }
    None
}

/// `first_equal` finds the least position of the label, and nothing where
/// the label does not occur.
pub proof fn lemma_first_equal(labels: Seq<Seq<char>>, label: Seq<char>)
    ensures
        match first_equal(labels, label) {
            Some(i) => 0 <= i < labels.len() && labels[i] == label && forall|j: int|
                0 <= j < i ==> #[trigger] labels[j] != label,
            None => forall|j: int| 0 <= j < labels.len() ==> #[trigger] labels[j] != label,
        },
    decreases labels.len(),
{
    if labels.len() > 0 {
        lemma_first_equal(labels.drop_last(), label);
        assert(forall|j: int| 0 <= j < labels.len() - 1 ==> labels.drop_last()[j] == labels[j]);
    }
}

fn position_of_label(labels: &Vec<String>, label: &str) -> (r: Option<usize>)
    ensures
        match r {
            Some(i) => i < labels.len() && first_equal(texts(labels@), label@) == Some(i as int),
            None => first_equal(texts(labels@), label@) is None,
        },
{
    let ghost all = texts(labels@);
    for i in 0..labels.len()
        invariant
            all == texts(labels@),
            forall|j: int| 0 <= j < i ==> #[trigger] all[j] != label@,
    {
        if same_text(labels[i].as_str(), label) {
            proof {
                lemma_first_equal(all, label@);
                assert(all[i as int] == label@);
            }
            return Some(i);
        }
    }
    proof {
        lemma_first_equal(all, label@);
    }
    None
}

impl SavedConfigs {
    /// The cloud candidates: each live server whose configuration is still
    /// saved as a cloud configuration, with that configuration.
    pub fn cloud_candidates(&self, state: &State) -> (r: Vec<(ServerHandle, SavedConfig)>)
        ensures
            pair_views(r@) == cloud_pool(self@.items, state@),
    {
        let mut out: Vec<(ServerHandle, SavedConfig)> = Vec::new();
        let ghost f = cloud_owner(self@.items);
        for i in 0..state.projects.len()
            invariant
                f == cloud_owner(self@.items),
                pair_views(out@) == state@.take(i as int).filter_map(f),
        {
            let h = &state.projects[i];
            proof {
                assert(state@.take(i + 1).drop_last() == state@.take(i as int));
                assert(state@.take(i + 1).last() == h@);
            }
            match self.last_position(h.config.as_str()) {
                Some(at) => {
                    let c = &self.items[at];
                    if matches!(c.mode, Mode::Hetzner) && matches!(c.data, ConfigData::Hetzner(_)) {
                        out.push((h.clone(), c.clone()));
                    }
                },
                None => {},
            }
            assert(pair_views(out@) == state@.take(i + 1).filter_map(f));
        }
        assert(state@.take(state.projects.len() as int) == state@);
        out
    }

    /// The manual candidates: the configurations tagged manual.
    pub fn manual_candidates(&self) -> (r: Vec<SavedConfig>)
        ensures
            config_views(r@) == manual_pool(self@.items),
    {
        let mut out: Vec<SavedConfig> = Vec::new();
        for i in 0..self.items.len()
            invariant
                config_views(out@) == self@.items.take(i as int).filter(tagged_manual()),
        {
            proof {
                reveal(Seq::filter);
                assert(self@.items.take(i + 1).drop_last() == self@.items.take(i as int));
            }
            if matches!(self.items[i].mode, Mode::Manual) {
                out.push(self.items[i].clone());
            }
            assert(config_views(out@) == self@.items.take(i + 1).filter(tagged_manual()));
        }
        assert(self@.items.take(self.items.len() as int) == self@.items);
        out
    }

    /// Resolves the endpoint of a build: the one candidate of the pool that
    /// the policy asks for, or the labels to choose from where the pool holds
    /// several.
    pub fn select_remote_host(&self, state: &State) -> (r: Result<Resolution, ResolutionError>)
        ensures
            resolved(r) == resolve(self@, state@),
    {
        if self.items.len() == 0 {
            return Err(ResolutionError::NoConfigured);
        }
        let cloud = self.cloud_candidates(state);
        let manual = self.manual_candidates();
        let mut labels: Vec<String> = Vec::new();
        assert(texts(labels@) == Seq::<Seq<char>>::empty());
        match self.effective_priority() {
            Priority::Cloud => {
                if cloud.len() == 0 {
                    Err(ResolutionError::NoCandidates(Priority::Cloud))
                } else if cloud.len() == 1 {
                    Ok(Resolution::Target(cloud_target_of(&cloud[0])))
                } else {
                    push_cloud_labels(&mut labels, &cloud);
                    assert(texts(labels@) == cloud_labels(pair_views(cloud@)));
                    Ok(Resolution::Choose(labels))
                }
            },
            Priority::Manual => {
                if manual.len() == 0 {
                    Err(ResolutionError::NoCandidates(Priority::Manual))
                } else if manual.len() == 1 {
                    match manual_target_of(&manual[0]) {
                        Ok(t) => Ok(Resolution::Target(t)),
                        Err(e) => Err(e),
                    }
                } else {
                    push_manual_labels(&mut labels, &manual);
                    assert(texts(labels@) == manual_labels(config_views(manual@)));
                    Ok(Resolution::Choose(labels))
                }
            },
            Priority::Ask => {
                if cloud.len() == 0 && manual.len() == 0 {
                    Err(ResolutionError::NoCandidates(Priority::Ask))
                } else if cloud.len() == 1 && manual.len() == 0 {
                    Ok(Resolution::Target(cloud_target_of(&cloud[0])))
                } else if cloud.len() == 0 && manual.len() == 1 {
                    match manual_target_of(&manual[0]) {
                        Ok(t) => Ok(Resolution::Target(t)),
                        Err(e) => Err(e),
                    }
                } else {
                    push_cloud_labels(&mut labels, &cloud);
                    push_manual_labels(&mut labels, &manual);
                    assert(texts(labels@) == cloud_labels(pair_views(cloud@)) + manual_labels(
                        config_views(manual@),
                    ));
                    Ok(Resolution::Choose(labels))
                }
            },
        }
    }

    /// The labels that `select_remote_host` hands out where there is a
    /// choice, for the candidates given.
    fn offered_labels(
        priority: Priority,
        cloud: &Vec<(ServerHandle, SavedConfig)>,
        manual: &Vec<SavedConfig>,
    ) -> (labels: Vec<String>)
        ensures
            texts(labels@) == offered(priority, pair_views(cloud@), config_views(manual@)),
    {
        let mut labels: Vec<String> = Vec::new();
        assert(texts(labels@) == Seq::<Seq<char>>::empty());
        match priority {
            Priority::Cloud => {
                push_cloud_labels(&mut labels, cloud);
            },
            Priority::Manual => {
                push_manual_labels(&mut labels, manual);
            },
            Priority::Ask => {
                push_cloud_labels(&mut labels, cloud);
                push_manual_labels(&mut labels, manual);
            },
        }
        assert(texts(labels@) == offered(priority, pair_views(cloud@), config_views(manual@)));
        labels
    }

    fn target_at(
        priority: Priority,
        cloud: &Vec<(ServerHandle, SavedConfig)>,
        manual: &Vec<SavedConfig>,
        index: usize,
    ) -> (r: Result<RemoteTarget, ResolutionError>)
        ensures
            targeted(r) == pick_at(
                priority,
                pair_views(cloud@),
                config_views(manual@),
                index as int,
            ),
    {
        match priority {
            Priority::Cloud => {
                if index < cloud.len() {
                    Ok(cloud_target_of(&cloud[index]))
                } else {
                    Err(ResolutionError::SelectionNotFound)
                }
            },
            Priority::Manual => {
                if index < manual.len() {
                    manual_target_of(&manual[index])
                } else {
                    Err(ResolutionError::SelectionNotFound)
                }
            },
            Priority::Ask => {
                if index < cloud.len() {
                    Ok(cloud_target_of(&cloud[index]))
                } else if index - cloud.len() < manual.len() {
                    manual_target_of(&manual[index - cloud.len()])
                } else {
                    Err(ResolutionError::SelectionNotFound)
                }
            },
        }
    }

    /// Resolves a choice, given by the position of the chosen label among
    /// the labels that `select_remote_host` handed out, to the endpoint of
    /// the candidate that the label was made for.
    pub fn resolve_choice(&self, state: &State, index: usize) -> (r: Result<
        RemoteTarget,
        ResolutionError,
    >)
        ensures
            targeted(r) == pick_at(
                priority_or_ask(self@.priority),
                cloud_pool(self@.items, state@),
                manual_pool(self@.items),
                index as int,
            ),
    {
        let cloud = self.cloud_candidates(state);
        let manual = self.manual_candidates();
        Self::target_at(self.effective_priority(), &cloud, &manual, index)
    }

    /// Resolves a chosen label to the endpoint that it stands for: the
    /// candidate that the label was made for, or, for a label that was not
    /// handed out, the first candidate of the name that the label starts
    /// with.
    pub fn resolve_selection(&self, state: &State, label: &str) -> (r: Result<
        RemoteTarget,
        ResolutionError,
    >)
        ensures
            targeted(r) == pick(self@, state@, label@),
    {
        let cloud = self.cloud_candidates(state);
        let manual = self.manual_candidates();
        let priority = self.effective_priority();
        let labels = Self::offered_labels(priority, &cloud, &manual);
        match position_of_label(&labels, label) {
            Some(i) => {
                return Self::target_at(priority, &cloud, &manual, i);
            },
            None => {},
        }
        let name = label_prefix(label);
        if !matches!(priority, Priority::Manual) {
            match position_in_cloud(&cloud, name) {
                Some(i) => {
                    return Ok(cloud_target_of(&cloud[i]));
                },
                None => {},
            }
        }
        if !matches!(priority, Priority::Cloud) {
            match position_in_manual(&manual, name) {
                Some(i) => {
                    return manual_target_of(&manual[i]);
                },
                None => {},
            }
        }
        Err(ResolutionError::SelectionNotFound)
    }
}

} // verus!

verus! {

/// With the policy `Ask`, a store that is not empty and exactly one
/// candidate in the two pools together, the resolver hands out no labels:
/// nobody is asked to choose. The answer is the candidate's endpoint, or
/// `InvalidManual` where the candidate is tagged manual without manual data.
pub proof fn lemma_single_candidate_never_asks(
    cfgs: SavedConfigsView,
    handles: Seq<ServerHandleView>,
)
    requires
        cfgs.items.len() > 0,
        priority_or_ask(cfgs.priority) == Priority::Ask,
        cloud_pool(cfgs.items, handles).len() + manual_pool(cfgs.items).len() == 1,
    ensures
        !(resolve(cfgs, handles) matches Ok(ResolutionView::Choose(_))),
        cloud_pool(cfgs.items, handles).len() == 1 ==> resolve(cfgs, handles) == Ok::<
            ResolutionView,
            ResolutionError,
        >(ResolutionView::Target(cloud_target(cloud_pool(cfgs.items, handles)[0]))),
        manual_pool(cfgs.items).len() == 1 ==> resolve(cfgs, handles) == as_target(
            manual_target(manual_pool(cfgs.items)[0]),
        ),
{
}

/// Whatever the policy, a pool with a single candidate is never a matter
/// of choice, and labels are handed out only where the pool that the policy
/// asks for holds at least two candidates.
pub proof fn lemma_labels_only_for_several(
    store_len: nat,
    priority: Priority,
    cloud: Seq<CloudPair>,
    manual: Seq<SavedConfigView>,
)
    ensures
        resolve_pools(store_len, priority, cloud, manual) matches Ok(ResolutionView::Choose(labels))
            ==> labels.len() >= 2 && labels.len() == match priority {
            Priority::Cloud => cloud.len(),
            Priority::Manual => manual.len(),
            Priority::Ask => cloud.len() + manual.len(),
        },
{
}

/// Every manual candidate is tagged manual, and every cloud candidate is a
/// live server whose configuration is saved under the name that the handle
/// holds, is tagged for a provider and holds that provider's data.
pub proof fn lemma_pools_hold_candidates(
    items: Seq<SavedConfigView>,
    handles: Seq<ServerHandleView>,
)
    ensures
        forall|i: int|
            0 <= i < manual_pool(items).len() ==> (#[trigger] manual_pool(items)[i]).mode is Manual,
        forall|i: int|
            0 <= i < cloud_pool(items, handles).len() ==> {
                let p = #[trigger] cloud_pool(items, handles)[i];
                &&& handles.contains(p.0)
                &&& items.contains(p.1)
                &&& p.1.name() == p.0.config
                &&& cloud_ready(p.1)
            },
{
    broadcast use vstd::seq_lib::group_filter_ensures;

    assert forall|i: int| 0 <= i < manual_pool(items).len() implies (#[trigger] manual_pool(
        items,
    )[i]).mode is Manual by {
        items.lemma_filter_pred(tagged_manual(), i);
    }
    let f = cloud_owner(items);
    assert forall|i: int| 0 <= i < cloud_pool(items, handles).len() implies {
        let p = #[trigger] cloud_pool(items, handles)[i];
        &&& handles.contains(p.0)
        &&& items.contains(p.1)
        &&& p.1.name() == p.0.config
        &&& cloud_ready(p.1)
    } by {
        let p = cloud_pool(items, handles)[i];
        assert(handles.filter_map(f).contains(p));
        handles.lemma_filter_map_contains(f, p);
        let h = choose|h: ServerHandleView| handles.contains(h) && f(h) == Some(p);
        crate::config::lemma_last_named(items, h.config);
    }
}

/// The labels that the resolver hands out are `offered`, and the label at
/// each position is the label of the very candidate that `pick_at` takes
/// for that position.
pub proof fn lemma_choice_matches_candidate(
    store_len: nat,
    priority: Priority,
    cloud: Seq<CloudPair>,
    manual: Seq<SavedConfigView>,
    i: int,
)
    requires
        0 <= i < offered(priority, cloud, manual).len(),
    ensures
        resolve_pools(store_len, priority, cloud, manual) matches Ok(ResolutionView::Choose(labels))
            ==> labels == offered(priority, cloud, manual),
        match priority {
            Priority::Cloud => offered(priority, cloud, manual)[i] == cloud_label(cloud[i])
                && pick_at(priority, cloud, manual, i) == Ok::<RemoteTargetView, ResolutionError>(
                cloud_target(cloud[i]),
            ),
            Priority::Manual => offered(priority, cloud, manual)[i] == manual_label(manual[i])
                && pick_at(priority, cloud, manual, i) == manual_target(manual[i]),
            Priority::Ask => if i < cloud.len() {
                offered(priority, cloud, manual)[i] == cloud_label(cloud[i]) && pick_at(
                    priority,
                    cloud,
                    manual,
                    i,
                ) == Ok::<RemoteTargetView, ResolutionError>(cloud_target(cloud[i]))
            } else {
                offered(priority, cloud, manual)[i] == manual_label(manual[i - cloud.len()])
                    && pick_at(priority, cloud, manual, i) == manual_target(
                    manual[i - cloud.len()],
                )
            },
        },
{
}

/// A label that was handed out, chosen back, stands for the candidate that
/// it was made for: the candidate at the label's position, where no label
/// before it reads the same.
pub proof fn lemma_label_picks_its_candidate(
    priority: Priority,
    cloud: Seq<CloudPair>,
    manual: Seq<SavedConfigView>,
    i: int,
)
    requires
        0 <= i < offered(priority, cloud, manual).len(),
        forall|j: int|
            0 <= j < i ==> #[trigger] offered(priority, cloud, manual)[j] != offered(
                priority,
                cloud,
                manual,
            )[i],
    ensures
        pick_pools(priority, cloud, manual, offered(priority, cloud, manual)[i]) == pick_at(
            priority,
            cloud,
            manual,
            i,
        ),
{
    let labels = offered(priority, cloud, manual);
    lemma_first_equal(labels, labels[i]);
}

/// With the policy `Ask`, a store in which tag and data of every
/// configuration agree, and exactly one candidate, the resolver answers
/// with that candidate's endpoint.
pub proof fn lemma_single_consistent_candidate_resolves(
    cfgs: SavedConfigsView,
    handles: Seq<ServerHandleView>,
)
    requires
        cfgs.items.len() > 0,
        priority_or_ask(cfgs.priority) == Priority::Ask,
        cloud_pool(cfgs.items, handles).len() + manual_pool(cfgs.items).len() == 1,
        forall|i: int| 0 <= i < cfgs.items.len() ==> (#[trigger] cfgs.items[i]).consistent(),
    ensures
        resolve(cfgs, handles) matches Ok(ResolutionView::Target(_)),
{
    let manual = manual_pool(cfgs.items);
    if manual.len() == 1 {
        cfgs.items.lemma_filter_pred(tagged_manual(), 0);
        assert(manual.contains(manual[0]));
        cfgs.items.lemma_filter_contains_rev(tagged_manual(), manual[0]);
        let i = choose|i: int| 0 <= i < cfgs.items.len() && cfgs.items[i] == manual[0];
        assert(cfgs.items[i].consistent());
    }
}

} // verus!
