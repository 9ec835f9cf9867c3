//! Status: which manual hosts are probed, and the reconciliation of the
//! session state with what the provider says.
//!
//! The reconciler walks the handles of the state in order. A handle whose
//! configuration is gone is marked without asking anybody; for each other
//! one the caller probes the provider and reports the answer. Nothing is
//! removed before the walk is over: `finish` removes all marked handles at
//! once and says whether the state has to be saved.

use crate::config::mode::{ConfigData, ConfigDataView, Mode};
use crate::config::{
    first_named, ManualConfig, ManualConfigView, SavedConfig, SavedConfigView, SavedConfigs,
};
use crate::error::{ProviderError, ProviderErrorView};
use crate::provider::handle::{ServerHandle, ServerHandleView};
use crate::provider::{get_provider, provider_of, ApiReply};
use crate::state::{handle_views, not_among, State};
use crate::text::{has_char, same_text};
use vstd::prelude::*;
use vstd::string::*;

verus! {

/// The views of a sequence of manual configurations, in order.
pub open spec fn manual_views(v: Seq<ManualConfig>) -> Seq<ManualConfigView> {
    v.map_values(|m: ManualConfig| m@)
}

/// The manual data of a configuration that is tagged manual.
pub open spec fn manual_data() -> spec_fn(SavedConfigView) -> Option<ManualConfigView> {
    |c: SavedConfigView|
        match (c.mode, c.data) {
            (Mode::Manual, ConfigDataView::Manual(m)) => Some(m),
            _ => None,
        }
}

/// The manual hosts whose reachability is reported, in the order of the
/// store.
pub open spec fn manual_hosts_of(items: Seq<SavedConfigView>) -> Seq<ManualConfigView> {
    items.filter_map(manual_data())
}

/// The manual hosts whose reachability is reported.
pub fn manual_hosts(cfgs: &SavedConfigs) -> (r: Vec<ManualConfig>)
    ensures
        manual_views(r@) == manual_hosts_of(cfgs@.items),
{
    let mut out: Vec<ManualConfig> = Vec::new();
    let ghost f = manual_data();
    for i in 0..cfgs.items.len()
        invariant
            f == manual_data(),
            manual_views(out@) == cfgs@.items.take(i as int).filter_map(f),
    {
        let c = &cfgs.items[i];
        proof {
            assert(cfgs@.items.take(i + 1).drop_last() == cfgs@.items.take(i as int));
            assert(cfgs@.items.take(i + 1).last() == c@);
        }
        if !Mode::check_cloud_mode(&c.mode) {
            match &c.data {
                ConfigData::Manual(m) => {
                    out.push(m.clone());
                },
                _ => {},
            }
        }
        assert(manual_views(out@) == cfgs@.items.take(i + 1).filter_map(f));
    }
    assert(cfgs@.items.take(cfgs.items.len() as int) == cfgs@.items);
    out
}

/// How the address of a host is found.
#[derive(Debug)]
pub enum HostLookup {
    /// The host is this machine.
    Loopback,
    /// The name is looked up as it stands; where that gives nothing and
    /// `fallback` holds a name, that name is looked up.
    Query { name: String, fallback: Option<String> },
}

/// A `HostLookup` as plain data.
pub enum HostLookupView {
    Loopback,
    Query { name: Seq<char>, fallback: Option<Seq<char>> },
}

impl View for HostLookup {
    type V = HostLookupView;

    open spec fn view(&self) -> HostLookupView {
        match self {
            HostLookup::Loopback => HostLookupView::Loopback,
            HostLookup::Query { name, fallback } => HostLookupView::Query {
                name: name@,
                fallback: crate::text::opt_text(*fallback),
            },
        }
    }
}

/// How the address of `host` is found: `localhost` is this machine; any
/// other name is looked up, and a name without a dot is tried once more
/// with `.local` behind it.
pub open spec fn lookup_of(host: Seq<char>) -> HostLookupView {
    if host == "localhost"@ {
        HostLookupView::Loopback
    } else {
        HostLookupView::Query {
            name: host,
            fallback: if host.contains('.') {
                None
            } else {
                Some(host + ".local"@)
            },
        }
    }
}

/// How the address of `host` is found.
pub fn host_lookup(host: &str) -> (r: HostLookup)
    ensures
        r@ == lookup_of(host@),
{
    if same_text(host, "localhost") {
        return HostLookup::Loopback;
    }
    let fallback = if has_char(host, '.') {
        None
    } else {
        let mut local = String::from_str(host);
        local.append(".local");
        Some(local)
    };
    HostLookup::Query { name: String::from_str(host), fallback }
}

/// The walk of a reconciliation: how many handles are dealt with, and which
/// of them are marked for removal.
#[derive(Debug)]
pub struct Reconciler {
    pub next: usize,
    pub gone: Vec<ServerHandle>,
}

/// A `Reconciler` as plain data.
pub struct ReconcilerView {
    pub next: nat,
    pub gone: Seq<ServerHandleView>,
}

impl View for Reconciler {
    type V = ReconcilerView;

    open spec fn view(&self) -> ReconcilerView {
        ReconcilerView { next: self.next as nat, gone: handle_views(self.gone@) }
    }
}

/// What the caller does next.
#[derive(Debug)]
pub enum Probe {
    /// Ask the provider of `config` whether the server of `handle` exists,
    /// and report the answer.
    Ask { handle: ServerHandle, config: SavedConfig },
    /// Every handle is dealt with.
    Finished,
}

/// A `Probe` as plain data.
pub enum ProbeView {
    Ask { handle: ServerHandleView, config: SavedConfigView },
    Finished,
}

impl View for Probe {
    type V = ProbeView;

    open spec fn view(&self) -> ProbeView {
        match self {
            Probe::Ask { handle, config } => ProbeView::Ask { handle: handle@, config: config@ },
            Probe::Finished => ProbeView::Finished,
        }
    }
}

/// Whether the configuration that a handle was rented from is gone.
pub open spec fn orphan(items: Seq<SavedConfigView>, h: ServerHandleView) -> bool {
    first_named(items, h.config) is None
}

/// The walk after every orphan at its front is marked.
pub open spec fn skip_orphans(
    items: Seq<SavedConfigView>,
    handles: Seq<ServerHandleView>,
    r: ReconcilerView,
) -> ReconcilerView
    decreases handles.len() - r.next,
{
    if r.next < handles.len() && orphan(items, handles[r.next as int]) {
        skip_orphans(
            items,
            handles,
            ReconcilerView { next: r.next + 1, gone: r.gone.push(handles[r.next as int]) },
        )
    } else {
        r
    }
}

/// What is asked next, with the walk at `r`.
pub open spec fn probe_at(
    items: Seq<SavedConfigView>,
    handles: Seq<ServerHandleView>,
    r: ReconcilerView,
) -> ProbeView {
    if r.next < handles.len() && !orphan(items, handles[r.next as int]) {
        ProbeView::Ask {
            handle: handles[r.next as int],
            config: items[first_named(items, handles[r.next as int].config)->0],
        }
    } else {
        ProbeView::Finished
    }
}

/// The walk after the provider's answer for the handle at its front.
pub open spec fn reported(handles: Seq<ServerHandleView>, r: ReconcilerView, found: bool)
    -> ReconcilerView {
    if r.next < handles.len() {
        ReconcilerView {
            next: r.next + 1,
            gone: if found {
                r.gone
            } else {
                r.gone.push(handles[r.next as int])
            },
        }
    } else {
        r
    }
}

/// What a probe brought.
#[derive(Debug, Clone, Copy, PartialEq, Eq, Structural)]
pub enum ProbeOutcome {
    /// The provider knows the server.
    Found,
    /// The provider does not know the server.
    Gone,
    /// The provider did not answer: the server may be there or not.
    Unknown,
}

/// What a probe of a server of `c` brought: nothing is known where no
/// answer came; else the server is there where the answer's status is one
/// of success.
pub open spec fn outcome_of(c: SavedConfigView, answered: bool, success: bool) -> Result<
    ProbeOutcome,
    ProviderErrorView,
> {
    match provider_of(c) {
        Err(e) => Err(e),
        Ok(_) => if !answered {
            Ok(ProbeOutcome::Unknown)
        } else if success {
            Ok(ProbeOutcome::Found)
        } else {
            Ok(ProbeOutcome::Gone)
        },
    }
}

/// What a probe of a server of `c` brought, from the provider's answer or
/// from there being none.
pub fn probe_outcome(c: &SavedConfig, answer: Option<&ApiReply>) -> (r: Result<
    ProbeOutcome,
    ProviderError,
>)
    ensures
        match r {
            Ok(o) => outcome_of(
                c@,
                answer is Some,
                answer is Some && answer->0.success,
            ) == Ok::<ProbeOutcome, ProviderErrorView>(o),
            Err(e) => outcome_of(
                c@,
                answer is Some,
                answer is Some && answer->0.success,
            ) == Err::<ProbeOutcome, ProviderErrorView>(e@),
        },
{
    match get_provider(c) {
        Err(e) => Err(e),
        Ok(_) => match answer {
            None => Ok(ProbeOutcome::Unknown),
            Some(reply) => if reply.success {
                Ok(ProbeOutcome::Found)
            } else {
                Ok(ProbeOutcome::Gone)
            },
        },
    }
}

/// The walk after the outcome of the probe for the handle at its front. An
/// unknown outcome changes nothing: the handle is not marked and the walk
/// does not go on.
pub open spec fn recorded(handles: Seq<ServerHandleView>, r: ReconcilerView, outcome: ProbeOutcome)
    -> ReconcilerView {
    match outcome {
        ProbeOutcome::Found => reported(handles, r, true),
        ProbeOutcome::Gone => reported(handles, r, false),
        ProbeOutcome::Unknown => r,
    }
}

/// The handles before position `upto` that are to go: those whose
/// configuration is gone and those whose server the provider did not find.
/// `alive` holds the provider's answer for each position that was asked for.
pub open spec fn marked(
    items: Seq<SavedConfigView>,
    handles: Seq<ServerHandleView>,
    alive: Map<int, bool>,
    upto: int,
) -> Seq<ServerHandleView>
    decreases upto,
{
    if upto <= 0 {
        Seq::empty()
    } else {
        let before = marked(items, handles, alive, upto - 1);
        let h = handles[upto - 1];
        if orphan(items, h) || !alive[upto - 1] {
            before.push(h)
        } else {
            before
        }
    }
}

/// Marking the orphans at the front keeps the walk in step with `marked`,
/// whatever the provider answered for other handles.
pub proof fn lemma_skip_orphans_marks(
    items: Seq<SavedConfigView>,
    handles: Seq<ServerHandleView>,
    alive: Map<int, bool>,
    r: ReconcilerView,
)
    requires
        r.next <= handles.len(),
        r.gone == marked(items, handles, alive, r.next as int),
    ensures
        ({
            let after = skip_orphans(items, handles, r);
            &&& r.next <= after.next <= handles.len()
            &&& after.gone == marked(items, handles, alive, after.next as int)
            &&& after.next < handles.len() ==> !orphan(items, handles[after.next as int])
        }),
    decreases handles.len() - r.next,
{
    if r.next < handles.len() && orphan(items, handles[r.next as int]) {
        let step = ReconcilerView { next: r.next + 1, gone: r.gone.push(handles[r.next as int]) };
        lemma_skip_orphans_marks(items, handles, alive, step);
    }
}

/// Reporting the provider's answer keeps the walk in step with `marked`.
pub proof fn lemma_report_marks(
    items: Seq<SavedConfigView>,
    handles: Seq<ServerHandleView>,
    alive: Map<int, bool>,
    r: ReconcilerView,
    found: bool,
)
    requires
        r.next < handles.len(),
        !orphan(items, handles[r.next as int]),
        alive[r.next as int] == found,
        r.gone == marked(items, handles, alive, r.next as int),
    ensures
        reported(handles, r, found).gone == marked(
            items,
            handles,
            alive,
            reported(handles, r, found).next as int,
        ),
{
}

impl Reconciler {
    /// A walk that has not begun.
    pub fn new() -> (r: Self)
        ensures
            r@ == (ReconcilerView { next: 0, gone: Seq::empty() }),
    {
        let r = Reconciler { next: 0, gone: Vec::new() };
        assert(r@.gone == Seq::<ServerHandleView>::empty());
        r
    }

    /// Marks the handles without a configuration that stand at the front,
    /// and says what to ask the provider next.
    pub fn next_probe(&mut self, cfgs: &SavedConfigs, state: &State) -> (p: Probe)
        ensures
            final(self)@ == skip_orphans(cfgs@.items, state@, old(self)@),
            p@ == probe_at(cfgs@.items, state@, final(self)@),
    {
        while self.next < state.projects.len()
            invariant
                skip_orphans(cfgs@.items, state@, self@) == skip_orphans(
                    cfgs@.items,
                    state@,
                    old(self)@,
                ),
            decreases state.projects.len() - self.next,
        {
            let handle = &state.projects[self.next];
            match cfgs.get(handle.config.as_str()) {
                Some(config) => {
                    return Probe::Ask { handle: handle.clone(), config };
                },
                None => {
                    let ghost before = self@;
                    self.gone.push(handle.clone());
                    self.next = self.next + 1;
                    assert(self@.gone == before.gone.push(state@[before.next as int]));
                    assert(self@ == (ReconcilerView {
                        next: before.next + 1,
                        gone: before.gone.push(state@[before.next as int]),
                    }));
                },
            }
        }
        Probe::Finished
    }

    /// Takes the provider's answer for the handle at the front: a server
    /// that does not exist any more is marked.
    pub fn report(&mut self, state: &State, found: bool)
        ensures
            final(self)@ == reported(state@, old(self)@, found),
    {
        if self.next < state.projects.len() {
            if !found {
                self.gone.push(state.projects[self.next].clone());
                assert(self@.gone == old(self)@.gone.push(state@[self.next as int]));
            }
            self.next = self.next + 1;
        }
    }

    /// Takes the outcome of the probe for the handle at the front. Where the
    /// provider did not answer nothing is marked, the walk stays where it
    /// is, and the error says that it cannot go on: a server of which
    /// nothing is known is never taken for gone.
    pub fn record(&mut self, state: &State, outcome: ProbeOutcome) -> (r: Result<
        (),
        ProviderError,
    >)
        ensures
            final(self)@ == recorded(state@, old(self)@, outcome),
            match r {
                Ok(_) => outcome != ProbeOutcome::Unknown,
                Err(e) => outcome == ProbeOutcome::Unknown && e@ == ProviderErrorView::NoAnswer,
            },
    {
        match outcome {
            ProbeOutcome::Found => {
                self.report(state, true);
                Ok(())
            },
            ProbeOutcome::Gone => {
                self.report(state, false);
                Ok(())
            },
            ProbeOutcome::Unknown => Err(ProviderError::NoAnswer),
        }
    }

    /// Removes the marked handles from the state, all at once, and says
    /// whether the state has to be saved: it has as soon as one handle was
    /// marked.
    pub fn finish(&self, state: &mut State) -> (changed: bool)
        ensures
            final(state)@ == old(state)@.filter(not_among(self@.gone)),
            changed == (self@.gone.len() > 0),
    {
        state.prune(&self.gone)
    }
}

} // verus!
