use cargo_remote::config::mode::{ConfigData, Mode};
use cargo_remote::config::wizard::{
    hetzner_config_wizzard, manual_wizzard, HetznerAnswers, ManualAnswers,
};
use cargo_remote::config::{ManualConfig, Priority, SavedConfig, SavedConfigs};
use cargo_remote::error::ConfigError;
use cargo_remote::provider::hetzner::config::HetznerConfig;
use cargo_remote::provider::hetzner::listing::{Location, SSHKey, ServerTypes};

fn manual(name: &str, host: &str) -> SavedConfig {
    SavedConfig {
        mode: Mode::Manual,
        data: ConfigData::Manual(ManualConfig {
            name: name.to_string(),
            user: "dev".to_string(),
            host: host.to_string(),
            port: 22,
            ssh_public_key_path: "/k.pub".to_string(),
            ssh_private_key_path: "/k".to_string(),
        }),
    }
}

fn cloud(name: &str) -> SavedConfig {
    SavedConfig {
        mode: Mode::Hetzner,
        data: ConfigData::Hetzner(HetznerConfig {
            name: name.to_string(),
            api_key: "token".to_string(),
            location: "nbg1".to_string(),
            server_type: "cpx21".to_string(),
            image: "ubuntu-22.04".to_string(),
            username: None,
            ssh_key: "key-1".to_string(),
            local_privat_key: "/keys/hz".to_string(),
        }),
    }
}

fn host_of(c: &SavedConfig) -> &str {
    match &c.data {
        ConfigData::Manual(m) => m.host.as_str(),
        ConfigData::Hetzner(_) => "",
    }
}

fn store(default: Option<&str>) -> SavedConfigs {
    SavedConfigs {
        default: default.map(|d| d.to_string()),
        priority: Some(Priority::Ask),
        items: vec![manual("box", "one"), cloud("hz"), manual("box", "two"), manual("nas", "n")],
    }
}

fn names(cfgs: &SavedConfigs) -> Vec<&str> {
    cfgs.items.iter().map(|c| c.name()).collect()
}

#[test]
fn get_finds_the_first_of_a_name() {
    let cfgs = store(None);
    assert_eq!(host_of(&cfgs.get("box").unwrap()), "one");
    assert_eq!(cfgs.get("hz").unwrap().mode, Mode::Hetzner);
    assert!(cfgs.get("missing").is_none());
    assert!(cfgs.get("").is_none());
    assert_eq!(cfgs.position("box"), Some(0));
    assert_eq!(cfgs.last_position("box"), Some(2));
    assert_eq!(cfgs.position("nas"), Some(3));
    assert_eq!(cfgs.last_position("missing"), None);
}

#[test]
fn upsert_replaces_or_appends() {
    let mut cfgs = store(Some("box"));
    cfgs.upsert(manual("box", "new"));
    assert_eq!(names(&cfgs), vec!["box", "hz", "box", "nas"]);
    assert_eq!(host_of(&cfgs.items[0]), "new");
    assert_eq!(host_of(&cfgs.items[2]), "two");
    cfgs.upsert(manual("fresh", "f"));
    assert_eq!(names(&cfgs), vec!["box", "hz", "box", "nas", "fresh"]);
    assert_eq!(cfgs.default.as_deref(), Some("box"));
    assert_eq!(cfgs.priority, Some(Priority::Ask));
}

#[test]
fn has_any_cloud() {
    assert!(store(None).has_any_cloud());
    let mut cfgs = store(None);
    cfgs.items.remove(1);
    assert!(!cfgs.has_any_cloud());
    assert!(!SavedConfigs::default().has_any_cloud());
    assert!(Mode::check_cloud_mode(&Mode::Hetzner));
    assert!(!Mode::check_cloud_mode(&Mode::Manual));
}

#[test]
fn deleting_the_default_clears_it() {
    let mut cfgs = store(Some("hz"));
    let removed = cfgs.delete(Some("hz"), None).unwrap();
    assert_eq!(removed.name(), "hz");
    assert_eq!(cfgs.default, None);
    assert_eq!(names(&cfgs), vec!["box", "box", "nas"]);
    let mut cfgs = store(Some("nas"));
    cfgs.delete(None, Some(3)).unwrap();
    assert_eq!(cfgs.default, None);
}

#[test]
fn deleting_another_config_keeps_the_default() {
    let mut cfgs = store(Some("hz"));
    cfgs.delete(None, Some(0)).unwrap();
    assert_eq!(cfgs.default.as_deref(), Some("hz"));
    assert_eq!(names(&cfgs), vec!["hz", "box", "nas"]);
    assert_eq!(host_of(&cfgs.items[1]), "two");
}

#[test]
fn the_name_counts_before_the_index() {
    let mut cfgs = store(None);
    let removed = cfgs.delete(Some("nas"), Some(0)).unwrap();
    assert_eq!(removed.name(), "nas");
    assert_eq!(cfgs.items.len(), 3);
}

#[test]
fn delete_without_a_match_changes_nothing() {
    let mut cfgs = store(Some("hz"));
    assert!(matches!(cfgs.delete(Some("missing"), Some(0)), Err(ConfigError::NotFound)));
    assert!(matches!(cfgs.delete(None, Some(4)), Err(ConfigError::IndexOutOfRange)));
    assert!(matches!(cfgs.delete(None, None), Err(ConfigError::NoSelector)));
    assert_eq!(cfgs.items.len(), 4);
    assert_eq!(cfgs.default.as_deref(), Some("hz"));
    assert_eq!(ConfigError::NotFound.message(), "not found");
    assert_eq!(ConfigError::IndexOutOfRange.message(), "index");
    assert_eq!(ConfigError::NoSelector.message(), "provide name or index");
    assert_eq!(ConfigError::InvalidPort.message(), "invalid port");
}

#[test]
fn show_selects_like_delete() {
    let cfgs = store(None);
    assert_eq!(host_of(&cfgs.show(Some("box"), None).unwrap().unwrap()), "one");
    assert_eq!(host_of(&cfgs.show(None, Some(2)).unwrap().unwrap()), "two");
    assert!(matches!(cfgs.show(None, None), Err(ConfigError::NoSelector)));
    assert!(matches!(cfgs.show(Some("x"), None), Err(ConfigError::NotFound)));
    assert!(matches!(cfgs.show(None, Some(9)), Err(ConfigError::IndexOutOfRange)));
}

#[test]
fn show_of_small_stores() {
    let empty = SavedConfigs::default();
    assert!(empty.show(Some("x"), None).unwrap().is_none());
    let one = SavedConfigs { default: None, priority: None, items: vec![cloud("hz")] };
    assert_eq!(one.show(None, None).unwrap().unwrap().name(), "hz");
    assert_eq!(one.show(Some("other"), Some(7)).unwrap().unwrap().name(), "hz");
}

#[test]
fn the_list_marks_the_default() {
    let cfgs = store(Some("box"));
    assert_eq!(
        cfgs.list(),
        vec!["0 [*] box manual", "1 [ ] hz hetzner", "2 [*] box manual", "3 [ ] nas manual"]
    );
    assert!(SavedConfigs::default().list().is_empty());
    assert!(cfgs.is_default("box"));
    assert!(!cfgs.is_default("hz"));
}

#[test]
fn a_default_is_wanted_from_two_configs_on() {
    assert!(store(None).wants_default());
    assert!(!store(Some("box")).wants_default());
    let one = SavedConfigs { default: None, priority: None, items: vec![cloud("hz")] };
    assert!(!one.wants_default());
    assert_eq!(store(None).effective_priority(), Priority::Ask);
    assert_eq!(SavedConfigs::default().effective_priority(), Priority::Ask);
    let mut cfgs = store(None);
    cfgs.priority = Some(Priority::Cloud);
    assert_eq!(cfgs.effective_priority(), Priority::Cloud);
}

#[test]
fn labels() {
    assert_eq!(manual("box", "h").label(), "Manual (SSHConfig(dev@h:22))");
    assert_eq!(
        cloud("hz").label(),
        "Hetzner (HetznerConfig(location: nbg1, server_type: cpx21))"
    );
    assert_eq!(Priority::Cloud.label(), "Cloud");
    assert_eq!(Priority::Manual.label(), "Manual");
    assert_eq!(Priority::Ask.label(), "Ask");
    assert_eq!(Mode::Manual.label(), "Manual");
    assert_eq!(Mode::Hetzner.tag_text(), "hetzner");
    assert_eq!(Priority::variants(), vec![Priority::Manual, Priority::Cloud, Priority::Ask]);
    assert_eq!(Mode::variants(), vec![Mode::Manual, Mode::Hetzner]);
    let l = Location {
        name: "nbg1".to_string(),
        country: "DE".to_string(),
        description: "Nuremberg".to_string(),
    };
    assert_eq!(l.label(), "nbg1 (Country: DE, Description: Nuremberg)");
    let k = SSHKey { name: "key-1".to_string(), fingerprint: "ab:cd".to_string() };
    assert_eq!(k.label(), "key-1 (ab:cd)");
    let t = ServerTypes {
        name: "cpx21".to_string(),
        cores: 3,
        memory: 4,
        architecture: "x86".to_string(),
        category: "shared".to_string(),
    };
    assert_eq!(t.label(), "cpx21 (x86-Cores: 3 Ram: 4, Category: shared)");
}

#[test]
fn answers_make_configs() {
    let answers = ManualAnswers {
        host: "h".to_string(),
        port: "2222".to_string(),
        user: "dev".to_string(),
        ssh_public_key_path: "/k.pub".to_string(),
        ssh_private_key_path: "/k".to_string(),
    };
    let c = manual_wizzard("box".to_string(), answers).unwrap();
    assert_eq!(c.mode, Mode::Manual);
    match &c.data {
        ConfigData::Manual(m) => {
            assert_eq!((m.name.as_str(), m.host.as_str(), m.port), ("box", "h", 2222));
            assert_eq!(m.ssh_private_key_path, "/k");
        }
        other => panic!("{:?}", other),
    }
    let bad = ManualAnswers {
        host: "h".to_string(),
        port: "ssh".to_string(),
        user: "dev".to_string(),
        ssh_public_key_path: "/k.pub".to_string(),
        ssh_private_key_path: "/k".to_string(),
    };
    assert!(matches!(manual_wizzard("box".to_string(), bad), Err(ConfigError::InvalidPort)));
    let c = hetzner_config_wizzard(
        "hz".to_string(),
        HetznerAnswers {
            api_key: "t".to_string(),
            location: "fsn1".to_string(),
            server_type: "cx22".to_string(),
            image: "debian-12".to_string(),
            ssh_key: "mine".to_string(),
            local_privat_key: "/k".to_string(),
        },
    );
    assert_eq!(c.mode, Mode::Hetzner);
    match &c.data {
        ConfigData::Hetzner(h) => {
            assert_eq!(h.username.as_deref(), Some("root"));
            assert_eq!((h.location.as_str(), h.ssh_key.as_str()), ("fsn1", "mine"));
        }
        other => panic!("{:?}", other),
    }
}
