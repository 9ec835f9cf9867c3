use cargo_remote::config::mode::{ConfigData, Mode};
use cargo_remote::config::{ManualConfig, SavedConfig, SavedConfigs};
use cargo_remote::error::{ProviderError, ReplyField};
use cargo_remote::provider::handle::ServerHandle;
use cargo_remote::provider::hetzner::config::HetznerConfig;
use cargo_remote::provider::{ApiReply, HttpMethod, ProviderKind};
use cargo_remote::session::{
    begin_plan, begin_record, begin_request, end_plan, end_record, end_request, BeginPlan,
    EndPlan, SessionError,
};
use cargo_remote::state::State;
use cargo_remote::status::{
    host_lookup, manual_hosts, probe_outcome, HostLookup, Probe, ProbeOutcome, Reconciler,
};

fn manual(name: &str) -> SavedConfig {
    SavedConfig {
        mode: Mode::Manual,
        data: ConfigData::Manual(ManualConfig {
            name: name.to_string(),
            user: "dev".to_string(),
            host: format!("{}.lan", name),
            port: 22,
            ssh_public_key_path: "/k.pub".to_string(),
            ssh_private_key_path: "/k".to_string(),
        }),
    }
}

fn cloud(name: &str) -> SavedConfig {
    SavedConfig {
        mode: Mode::Hetzner,
        data: ConfigData::Hetzner(HetznerConfig {
            name: name.to_string(),
            api_key: format!("token-{}", name),
            location: "nbg1".to_string(),
            server_type: "cpx21".to_string(),
            image: "ubuntu-22.04".to_string(),
            username: None,
            ssh_key: "key-1".to_string(),
            local_privat_key: format!("/keys/{}", name),
        }),
    }
}

fn handle(config: &str, id: &str) -> ServerHandle {
    ServerHandle {
        provider: ProviderKind::Hetzner,
        config: config.to_string(),
        id: id.to_string(),
        host: format!("10.0.0.{}", id),
        port: 22,
        username: "root".to_string(),
    }
}

fn store(default: Option<&str>, items: Vec<SavedConfig>) -> SavedConfigs {
    SavedConfigs { default: default.map(|d| d.to_string()), priority: None, items }
}

fn rented(p: Result<BeginPlan, SessionError>) -> String {
    match p {
        Ok(BeginPlan::Rent(c)) => c.name().to_string(),
        other => panic!("{:?}", other),
    }
}

fn ok(body: &str) -> ApiReply {
    ApiReply { success: true, body: body.to_string() }
}

fn refused(body: &str) -> ApiReply {
    ApiReply { success: false, body: body.to_string() }
}

#[test]
fn begin_needs_a_cloud_config() {
    let cfgs = store(Some("box"), vec![manual("box")]);
    assert!(matches!(begin_plan(&cfgs, Some("box")), Err(SessionError::NoCloudConfigured)));
    assert!(matches!(begin_plan(&store(None, vec![]), None), Err(SessionError::NoCloudConfigured)));
    assert_eq!(
        SessionError::NoCloudConfigured.message(),
        "no cloud provider configured; add one via `cargo remote configure`"
    );
}

#[test]
fn begin_takes_the_requested_config_before_the_default() {
    let cfgs = store(Some("a"), vec![cloud("a"), manual("box"), cloud("b")]);
    assert_eq!(rented(begin_plan(&cfgs, Some("b"))), "b");
    assert_eq!(rented(begin_plan(&cfgs, None)), "a");
}

#[test]
fn begin_takes_the_only_cloud_config_where_the_name_gives_none() {
    let cfgs = store(Some("box"), vec![manual("box"), cloud("a")]);
    assert_eq!(rented(begin_plan(&cfgs, None)), "a");
    assert_eq!(rented(begin_plan(&cfgs, Some("missing"))), "a");
    assert_eq!(rented(begin_plan(&store(None, vec![cloud("a")]), None)), "a");
}

#[test]
fn begin_hands_out_the_cloud_configs_where_there_are_several() {
    let cfgs = store(None, vec![cloud("a"), manual("box"), cloud("b")]);
    match begin_plan(&cfgs, None) {
        Ok(BeginPlan::Choose(pool)) => {
            let names: Vec<&str> = pool.iter().map(|c| c.name()).collect();
            assert_eq!(names, vec!["a", "b"]);
        }
        other => panic!("{:?}", other),
    }
    let cfgs = store(Some("a"), cfgs.items);
    assert!(matches!(begin_plan(&cfgs, Some("box")), Ok(BeginPlan::Choose(_))));
}

#[test]
fn begin_rents_only_with_the_private_key_in_place() {
    let none: Vec<String> = vec![];
    let r = begin_request(&cloud("a"), false, "77", 5, &none);
    match r {
        Err(e @ SessionError::PrivateKeyMissing(_)) => {
            assert_eq!(e.message(), "private key missing at /keys/a");
        }
        other => panic!("{:?}", other),
    }
    let q = begin_request(&cloud("a"), true, "77", 5, &none).unwrap();
    assert_eq!(q.method, HttpMethod::Post);
    assert_eq!(q.bearer, "token-a");
    assert_eq!(q.body.unwrap().name, "cargo-remote-77-5");
}

#[test]
fn begin_refuses_manual_and_mismatched_configs() {
    let none: Vec<String> = vec![];
    let r = begin_request(&manual("box"), true, "77", 5, &none);
    assert!(matches!(r, Err(SessionError::NotCloud)));
    assert_eq!(
        SessionError::NotCloud.message(),
        "`begin` requires a cloud provider config (e.g., Hetzner)"
    );
    let mut odd = manual("box");
    odd.mode = Mode::Hetzner;
    let r = begin_request(&odd, true, "77", 5, &none);
    assert!(matches!(r, Err(SessionError::Provider(ProviderError::Unsupported))));
}

#[test]
fn begin_records_the_new_server_after_the_others() {
    let mut state = State { projects: vec![handle("a", "1")] };
    let reply = ok(r#"{"server":{"id":2,"public_net":{"ipv4":{"ip":"10.0.0.2"}}}}"#);
    begin_record(&mut state, &cloud("a"), &reply).unwrap();
    assert_eq!(state.projects.len(), 2);
    assert_eq!(state.projects[0], handle("a", "1"));
    assert_eq!(state.projects[1], handle("a", "2"));
}

#[test]
fn begin_records_nothing_without_a_server() {
    let mut state = State { projects: vec![handle("a", "1")] };
    let reply = ok(r#"{"server":{"id":2}}"#);
    let r = begin_record(&mut state, &cloud("a"), &reply);
    assert!(matches!(r, Err(SessionError::Provider(ProviderError::Missing(ReplyField::Ipv4)))));
    assert_eq!(state.projects, vec![handle("a", "1")]);
    let r = begin_record(&mut state, &cloud("a"), &refused("quota"));
    assert_eq!(r.unwrap_err().message(), "hetzner create failed: quota");
    assert_eq!(state.projects, vec![handle("a", "1")]);
    let r = begin_record(&mut state, &manual("box"), &reply);
    assert!(matches!(r, Err(SessionError::Provider(ProviderError::Unsupported))));
    assert_eq!(state.projects, vec![handle("a", "1")]);
}

#[test]
fn end_asks_only_where_there_are_several_sessions() {
    assert!(matches!(end_plan(&State { projects: vec![] }), Err(SessionError::NoSession)));
    assert_eq!(SessionError::NoSession.message(), "no session");
    let one = State { projects: vec![handle("a", "1")] };
    assert!(matches!(end_plan(&one), Ok(EndPlan::Only(0))));
    let two = State { projects: vec![handle("a", "1"), handle("b", "2")] };
    match end_plan(&two) {
        Ok(EndPlan::Choose(labels)) => {
            assert_eq!(labels, vec!["10.0.0.1 (Hetzner)", "10.0.0.2 (Hetzner)"]);
        }
        other => panic!("{:?}", other),
    }
}

#[test]
fn end_deletes_through_the_config_of_the_handle() {
    let cfgs = store(None, vec![cloud("a"), cloud("b")]);
    let state = State { projects: vec![handle("a", "1"), handle("b", "2")] };
    let q = end_request(&cfgs, &state, 1).unwrap();
    assert_eq!(q.method, HttpMethod::Delete);
    assert_eq!(q.url, "https://api.hetzner.cloud/v1/servers/2");
    assert_eq!(q.bearer, "token-b");
    assert!(matches!(end_request(&cfgs, &state, 2), Err(SessionError::NoSuchSession)));
}

#[test]
fn end_of_a_dangling_handle_uses_another_config_of_the_provider() {
    let cfgs = store(None, vec![manual("box"), cloud("b")]);
    let state = State { projects: vec![handle("deleted", "1")] };
    let q = end_request(&cfgs, &state, 0).unwrap();
    assert_eq!(q.url, "https://api.hetzner.cloud/v1/servers/1");
    assert_eq!(q.bearer, "token-b");
    let cfgs = store(None, vec![manual("box")]);
    let r = end_request(&cfgs, &state, 0);
    assert!(matches!(r, Err(SessionError::NoProviderConfig)));
    assert_eq!(r.unwrap_err().message(), "config not found");
    let state = State { projects: vec![handle("box", "1")] };
    let r = end_request(&cfgs, &state, 0);
    assert!(matches!(r, Err(SessionError::Provider(ProviderError::Unsupported))));
}

#[test]
fn end_forgets_the_handle_once_the_server_is_gone() {
    let mut state =
        State { projects: vec![handle("a", "1"), handle("b", "2"), handle("c", "1")] };
    end_record(&mut state, 0, &ok("")).unwrap();
    assert_eq!(state.projects, vec![handle("b", "2")]);
}

#[test]
fn end_keeps_the_handle_where_the_delete_failed() {
    let mut state = State { projects: vec![handle("a", "1"), handle("b", "2")] };
    let r = end_record(&mut state, 0, &refused("locked"));
    assert_eq!(r.unwrap_err().message(), "hetzner delete failed: locked");
    assert_eq!(state.projects.len(), 2);
    let r = end_record(&mut state, 5, &ok(""));
    assert!(matches!(r, Err(SessionError::NoSuchSession)));
    assert_eq!(state.projects.len(), 2);
    assert_eq!(SessionError::NoSuchSession.message(), "selection not found");
}

#[test]
fn a_server_that_is_gone_is_pruned_and_the_state_saved_once() {
    let cfgs = store(None, vec![cloud("a")]);
    let mut state = State { projects: vec![handle("a", "1")] };
    let mut walk = Reconciler::new();
    let mut writes = 0;
    loop {
        match walk.next_probe(&cfgs, &state) {
            Probe::Ask { handle: h, config } => {
                assert_eq!(h, handle("a", "1"));
                assert_eq!(config.name(), "a");
                walk.report(&state, false);
            }
            Probe::Finished => break,
        }
    }
    if walk.finish(&mut state) {
        writes += 1;
    }
    assert!(state.projects.is_empty());
    assert_eq!(writes, 1);
}

#[test]
fn a_live_server_is_kept_and_nothing_is_saved() {
    let cfgs = store(None, vec![cloud("a")]);
    let mut state = State { projects: vec![handle("a", "1")] };
    let mut walk = Reconciler::new();
    assert!(matches!(walk.next_probe(&cfgs, &state), Probe::Ask { .. }));
    walk.report(&state, true);
    assert!(matches!(walk.next_probe(&cfgs, &state), Probe::Finished));
    assert!(!walk.finish(&mut state));
    assert_eq!(state.projects, vec![handle("a", "1")]);
}

#[test]
fn orphans_are_pruned_without_asking() {
    let cfgs = store(None, vec![cloud("a")]);
    let mut state = State {
        projects: vec![
            handle("gone", "1"),
            handle("a", "2"),
            handle("gone", "3"),
            handle("a", "4"),
            handle("gone", "5"),
        ],
    };
    let mut walk = Reconciler::new();
    let mut asked = vec![];
    loop {
        match walk.next_probe(&cfgs, &state) {
            Probe::Ask { handle: h, .. } => {
                let alive = h.id == "2";
                asked.push(h.id);
                walk.report(&state, alive);
            }
            Probe::Finished => break,
        }
    }
    assert_eq!(asked, vec!["2", "4"]);
    assert_eq!(walk.next, 5);
    assert!(walk.finish(&mut state));
    assert_eq!(state.projects, vec![handle("a", "2")]);
}

#[test]
fn reports_after_the_walk_change_nothing() {
    let mut state = State { projects: vec![handle("a", "1")] };
    let mut walk = Reconciler { next: 1, gone: vec![] };
    walk.report(&state, false);
    assert_eq!(walk.next, 1);
    assert!(!walk.finish(&mut state));
    assert_eq!(state.projects.len(), 1);
}

#[test]
fn state_operations() {
    let mut state = State::default();
    assert!(state.projects.is_empty());
    state.add(handle("a", "1"));
    state.add(handle("a", "2"));
    let copy = state.clone();
    assert_eq!(copy.projects, state.projects);
    state.remove_id("1");
    assert_eq!(state.projects, vec![handle("a", "2")]);
    state.remove_id("9");
    assert_eq!(state.projects, vec![handle("a", "2")]);
    let mut other = copy;
    assert!(other.prune(&vec![handle("a", "2"), handle("zz", "0")]));
    assert_eq!(other.projects, vec![handle("a", "1")]);
    assert!(!other.prune(&vec![]));
    let mut differs = handle("a", "1");
    differs.port = 23;
    assert!(other.prune(&vec![differs]));
    assert_eq!(other.projects, vec![handle("a", "1")]);
}

#[test]
fn manual_hosts_are_the_consistent_manual_configs() {
    let mut odd = cloud("odd");
    odd.mode = Mode::Manual;
    let cfgs = store(None, vec![manual("box"), cloud("a"), odd, manual("nas")]);
    let hosts: Vec<String> = manual_hosts(&cfgs).into_iter().map(|m| m.host).collect();
    assert_eq!(hosts, vec!["box.lan", "nas.lan"]);
}

#[test]
fn names_without_a_dot_fall_back_to_local() {
    assert!(matches!(host_lookup("localhost"), HostLookup::Loopback));
    match host_lookup("buildbox") {
        HostLookup::Query { name, fallback } => {
            assert_eq!(name, "buildbox");
            assert_eq!(fallback.as_deref(), Some("buildbox.local"));
        }
        other => panic!("{:?}", other),
    }
    match host_lookup("10.0.0.5") {
        HostLookup::Query { name, fallback } => {
            assert_eq!(name, "10.0.0.5");
            assert_eq!(fallback, None);
        }
        other => panic!("{:?}", other),
    }
    assert!(matches!(host_lookup("Localhost"), HostLookup::Query { .. }));
}

#[test]
fn a_probe_without_an_answer_marks_nothing_and_stops_the_walk() {
    let cfgs = store(None, vec![cloud("a")]);
    let mut state = State { projects: vec![handle("gone", "1"), handle("a", "2")] };
    let mut walk = Reconciler::new();
    let config = match walk.next_probe(&cfgs, &state) {
        Probe::Ask { config, .. } => config,
        other => panic!("{:?}", other),
    };
    let outcome = probe_outcome(&config, None).unwrap();
    assert_eq!(outcome, ProbeOutcome::Unknown);
    let marked = walk.gone.clone();
    let r = walk.record(&state, outcome);
    assert!(matches!(r, Err(ProviderError::NoAnswer)));
    assert_eq!(r.unwrap_err().message(), "no answer from the provider");
    assert_eq!(walk.next, 1);
    assert_eq!(walk.gone, marked);
    assert_eq!(walk.gone, vec![handle("gone", "1")]);
    assert_eq!(state.projects.len(), 2);
    assert!(matches!(walk.next_probe(&cfgs, &state), Probe::Ask { .. }));
}

#[test]
fn probe_outcomes() {
    let c = cloud("a");
    assert_eq!(probe_outcome(&c, Some(&ok("{}"))).unwrap(), ProbeOutcome::Found);
    assert_eq!(probe_outcome(&c, Some(&refused("nope"))).unwrap(), ProbeOutcome::Gone);
    assert_eq!(probe_outcome(&c, None).unwrap(), ProbeOutcome::Unknown);
    assert!(matches!(probe_outcome(&manual("box"), None), Err(ProviderError::Unsupported)));
    assert!(matches!(
        probe_outcome(&manual("box"), Some(&ok(""))),
        Err(ProviderError::Unsupported)
    ));
}

#[test]
fn recorded_outcomes_move_the_walk() {
    let cfgs = store(None, vec![cloud("a")]);
    let mut state = State { projects: vec![handle("a", "1"), handle("a", "2")] };
    let mut walk = Reconciler::new();
    assert!(matches!(walk.next_probe(&cfgs, &state), Probe::Ask { .. }));
    walk.record(&state, ProbeOutcome::Gone).unwrap();
    assert!(matches!(walk.next_probe(&cfgs, &state), Probe::Ask { .. }));
    walk.record(&state, ProbeOutcome::Found).unwrap();
    assert!(matches!(walk.next_probe(&cfgs, &state), Probe::Finished));
    assert!(walk.finish(&mut state));
    assert_eq!(state.projects, vec![handle("a", "2")]);
}
