use cargo_remote::config::mode::{ConfigData, Mode};
use cargo_remote::config::resolve::Resolution;
use cargo_remote::config::{ManualConfig, Priority, SavedConfig, SavedConfigs};
use cargo_remote::error::ResolutionError;
use cargo_remote::provider::handle::ServerHandle;
use cargo_remote::provider::hetzner::config::HetznerConfig;
use cargo_remote::provider::ProviderKind;
use cargo_remote::state::State;

fn manual(name: &str, host: &str, port: u16) -> SavedConfig {
    SavedConfig {
        mode: Mode::Manual,
        data: ConfigData::Manual(ManualConfig {
            name: name.to_string(),
            user: "dev".to_string(),
            host: host.to_string(),
            port,
            ssh_public_key_path: "/keys/id.pub".to_string(),
            ssh_private_key_path: "/keys/id".to_string(),
        }),
    }
}

fn cloud(name: &str) -> SavedConfig {
    SavedConfig {
        mode: Mode::Hetzner,
        data: ConfigData::Hetzner(HetznerConfig {
            name: name.to_string(),
            api_key: "token".to_string(),
            location: "nbg1".to_string(),
            server_type: "cpx21".to_string(),
            image: "ubuntu-22.04".to_string(),
            username: Some("root".to_string()),
            ssh_key: "key-1".to_string(),
            local_privat_key: format!("/keys/{}", name),
        }),
    }
}

fn handle(config: &str, id: &str, host: &str) -> ServerHandle {
    ServerHandle {
        provider: ProviderKind::Hetzner,
        config: config.to_string(),
        id: id.to_string(),
        host: host.to_string(),
        port: 22,
        username: "root".to_string(),
    }
}

fn store(priority: Option<Priority>, items: Vec<SavedConfig>) -> SavedConfigs {
    SavedConfigs { default: None, priority, items }
}

fn target(r: Result<Resolution, ResolutionError>) -> (String, String, u16, String) {
    match r {
        Ok(Resolution::Target(t)) => (t.host, t.user, t.port, t.private_key),
        other => panic!("no target: {:?}", other),
    }
}

fn labels(r: Result<Resolution, ResolutionError>) -> Vec<String> {
    match r {
        Ok(Resolution::Choose(l)) => l,
        other => panic!("no choice: {:?}", other),
    }
}

#[test]
fn single_manual_config_is_taken_without_asking() {
    let cfgs = store(Some(Priority::Ask), vec![manual("box", "10.0.0.5", 2222)]);
    let state = State { projects: vec![] };
    assert_eq!(
        target(cfgs.select_remote_host(&state)),
        ("10.0.0.5".to_string(), "dev".to_string(), 2222, "/keys/id".to_string())
    );
}

#[test]
fn missing_priority_means_ask() {
    let cfgs = store(None, vec![manual("box", "10.0.0.5", 22)]);
    let state = State { projects: vec![] };
    assert_eq!(target(cfgs.select_remote_host(&state)).0, "10.0.0.5");
}

#[test]
fn empty_store_is_not_configured() {
    let state = State { projects: vec![handle("gone", "1", "1.2.3.4")] };
    for p in [Priority::Ask, Priority::Cloud, Priority::Manual] {
        let cfgs = store(Some(p), vec![]);
        assert!(matches!(cfgs.select_remote_host(&state), Err(ResolutionError::NoConfigured)));
    }
}

#[test]
fn empty_pool_has_no_candidates() {
    let state = State { projects: vec![] };
    let cfgs = store(Some(Priority::Cloud), vec![manual("box", "h", 22), cloud("hz")]);
    assert!(matches!(
        cfgs.select_remote_host(&state),
        Err(ResolutionError::NoCandidates(Priority::Cloud))
    ));
    let cfgs = store(Some(Priority::Manual), vec![cloud("hz")]);
    assert!(matches!(
        cfgs.select_remote_host(&state),
        Err(ResolutionError::NoCandidates(Priority::Manual))
    ));
    let cfgs = store(Some(Priority::Ask), vec![cloud("hz")]);
    assert!(matches!(
        cfgs.select_remote_host(&state),
        Err(ResolutionError::NoCandidates(Priority::Ask))
    ));
}

#[test]
fn cloud_pick_uses_the_address_of_the_handle_and_the_key_of_the_config() {
    let cfgs = store(Some(Priority::Cloud), vec![manual("box", "h", 22), cloud("hz")]);
    let state = State { projects: vec![handle("hz", "42", "5.6.7.8")] };
    assert_eq!(
        target(cfgs.select_remote_host(&state)),
        ("5.6.7.8".to_string(), "root".to_string(), 22, "/keys/hz".to_string())
    );
}

#[test]
fn handles_without_a_cloud_config_are_no_candidates() {
    let cfgs = store(Some(Priority::Cloud), vec![manual("box", "h", 22), cloud("hz")]);
    let state = State {
        projects: vec![
            handle("deleted", "1", "1.1.1.1"),
            handle("box", "2", "2.2.2.2"),
            handle("hz", "3", "3.3.3.3"),
        ],
    };
    assert_eq!(target(cfgs.select_remote_host(&state)).0, "3.3.3.3");
    assert_eq!(cfgs.cloud_candidates(&state).len(), 1);
}

#[test]
fn mismatched_cloud_config_is_no_candidate() {
    let mut broken = manual("hz", "h", 22);
    broken.mode = Mode::Hetzner;
    let cfgs = store(Some(Priority::Cloud), vec![broken]);
    let state = State { projects: vec![handle("hz", "3", "3.3.3.3")] };
    assert!(matches!(
        cfgs.select_remote_host(&state),
        Err(ResolutionError::NoCandidates(Priority::Cloud))
    ));
}

#[test]
fn manual_tag_without_manual_data_is_invalid() {
    let mut broken = cloud("odd");
    broken.mode = Mode::Manual;
    let cfgs = store(Some(Priority::Manual), vec![broken]);
    let state = State { projects: vec![] };
    assert!(matches!(cfgs.select_remote_host(&state), Err(ResolutionError::InvalidManual)));
}

#[test]
fn several_candidates_are_handed_out_as_labels() {
    let cfgs = store(
        Some(Priority::Ask),
        vec![manual("box", "10.0.0.5", 2222), cloud("hz"), manual("nas", "nas.lan", 22)],
    );
    let state = State { projects: vec![handle("hz", "42", "5.6.7.8")] };
    assert_eq!(
        labels(cfgs.select_remote_host(&state)),
        vec![
            "hz [Hetzner 5.6.7.8:22 id=42]".to_string(),
            "box [manual 10.0.0.5:2222]".to_string(),
            "nas [manual nas.lan:22]".to_string(),
        ]
    );
    let only_manual = store(Some(Priority::Manual), cfgs.items);
    assert_eq!(
        labels(only_manual.select_remote_host(&state)),
        vec!["box [manual 10.0.0.5:2222]".to_string(), "nas [manual nas.lan:22]".to_string()]
    );
}

#[test]
fn a_label_is_matched_by_the_name_it_starts_with() {
    let cfgs = store(
        Some(Priority::Ask),
        vec![manual("box", "10.0.0.5", 2222), cloud("hz"), manual("nas", "nas.lan", 22)],
    );
    let state = State { projects: vec![handle("hz", "42", "5.6.7.8")] };
    let t = cfgs.resolve_selection(&state, "nas [manual nas.lan:22]").unwrap();
    assert_eq!((t.host.as_str(), t.port), ("nas.lan", 22));
    let t = cfgs.resolve_selection(&state, "hz [anything at all").unwrap();
    assert_eq!((t.host.as_str(), t.private_key.as_str()), ("5.6.7.8", "/keys/hz"));
    let t = cfgs.resolve_selection(&state, "box").unwrap();
    assert_eq!(t.host, "10.0.0.5");
}

#[test]
fn a_label_that_names_nothing_is_not_found() {
    let cfgs = store(Some(Priority::Ask), vec![manual("box", "h", 22), manual("nas", "n", 22)]);
    let state = State { projects: vec![] };
    assert!(matches!(
        cfgs.resolve_selection(&state, "other [manual h:22]"),
        Err(ResolutionError::SelectionNotFound)
    ));
    let cloud_only = store(Some(Priority::Cloud), cfgs.items);
    assert!(matches!(
        cloud_only.resolve_selection(&state, "box [manual h:22]"),
        Err(ResolutionError::SelectionNotFound)
    ));
}

#[test]
fn resolution_errors_have_messages() {
    assert_eq!(
        ResolutionError::NoConfigured.message(),
        "no configurations available; run `cargo remote configure`"
    );
    assert_eq!(
        ResolutionError::NoCandidates(Priority::Manual).message(),
        "no manual server configured; run `cargo remote configure`"
    );
    assert_eq!(
        ResolutionError::NoCandidates(Priority::Cloud).message(),
        "no active cloud servers; start one with `cargo remote begin`"
    );
    assert_eq!(ResolutionError::SelectionNotFound.message(), "selection not found");
    assert_eq!(ResolutionError::InvalidManual.message(), "invalid manual config");
}

#[test]
fn the_second_server_of_one_config_is_reached_by_its_own_label() {
    let cfgs = store(Some(Priority::Cloud), vec![cloud("hz")]);
    let state = State { projects: vec![handle("hz", "1", "1.1.1.1"), handle("hz", "2", "2.2.2.2")] };
    let offered = labels(cfgs.select_remote_host(&state));
    assert_eq!(offered, vec!["hz [Hetzner 1.1.1.1:22 id=1]", "hz [Hetzner 2.2.2.2:22 id=2]"]);
    let t = cfgs.resolve_choice(&state, 1).unwrap();
    assert_eq!(
        (t.host, t.user, t.port, t.private_key),
        ("2.2.2.2".to_string(), "root".to_string(), 22, "/keys/hz".to_string())
    );
    let t = cfgs.resolve_selection(&state, &offered[1]).unwrap();
    assert_eq!(t.host, "2.2.2.2");
    let t = cfgs.resolve_selection(&state, &offered[0]).unwrap();
    assert_eq!(t.host, "1.1.1.1");
    assert_eq!(cfgs.resolve_choice(&state, 0).unwrap().host, "1.1.1.1");
}

#[test]
fn a_manual_candidate_named_like_a_cloud_one_is_reached_by_its_own_label() {
    let cfgs = store(Some(Priority::Ask), vec![manual("hz", "10.0.0.9", 2200), cloud("hz")]);
    let state = State { projects: vec![] };
    assert_eq!(target(cfgs.select_remote_host(&state)).0, "10.0.0.9");
    let state = State { projects: vec![handle("hz", "1", "1.1.1.1")] };
    let offered = labels(cfgs.select_remote_host(&state));
    assert_eq!(offered, vec!["hz [Hetzner 1.1.1.1:22 id=1]", "hz [manual 10.0.0.9:2200]"]);
    assert_eq!(cfgs.resolve_selection(&state, &offered[1]).unwrap().host, "10.0.0.9");
    assert_eq!(cfgs.resolve_choice(&state, 1).unwrap().host, "10.0.0.9");
    assert_eq!(cfgs.resolve_selection(&state, &offered[0]).unwrap().host, "1.1.1.1");
}

#[test]
fn under_ask_each_position_stands_for_its_own_candidate() {
    let cfgs = store(
        Some(Priority::Ask),
        vec![manual("box", "10.0.0.5", 2222), manual("hz", "manual.lan", 22), cloud("hz")],
    );
    let state = State { projects: vec![handle("hz", "1", "1.1.1.1"), handle("hz", "2", "2.2.2.2")] };
    let offered = labels(cfgs.select_remote_host(&state));
    assert_eq!(
        offered,
        vec![
            "hz [Hetzner 1.1.1.1:22 id=1]",
            "hz [Hetzner 2.2.2.2:22 id=2]",
            "box [manual 10.0.0.5:2222]",
            "hz [manual manual.lan:22]",
        ]
    );
    let hosts = ["1.1.1.1", "2.2.2.2", "10.0.0.5", "manual.lan"];
    for (i, host) in hosts.iter().enumerate() {
        assert_eq!(cfgs.resolve_choice(&state, i).unwrap().host, *host);
        assert_eq!(cfgs.resolve_selection(&state, &offered[i]).unwrap().host, *host);
    }
    assert!(matches!(cfgs.resolve_choice(&state, 4), Err(ResolutionError::SelectionNotFound)));
}

#[test]
fn a_choice_out_of_range_is_not_found() {
    let state = State { projects: vec![handle("hz", "1", "1.1.1.1")] };
    let cfgs = store(Some(Priority::Cloud), vec![cloud("hz"), manual("box", "h", 22)]);
    assert!(matches!(cfgs.resolve_choice(&state, 1), Err(ResolutionError::SelectionNotFound)));
    let cfgs = store(Some(Priority::Manual), cfgs.items);
    assert_eq!(cfgs.resolve_choice(&state, 0).unwrap().host, "h");
    assert!(matches!(cfgs.resolve_choice(&state, 1), Err(ResolutionError::SelectionNotFound)));
    assert!(matches!(
        cfgs.resolve_choice(&state, usize::MAX),
        Err(ResolutionError::SelectionNotFound)
    ));
}
