use cargo_remote::cmds::Failure;
use cargo_remote::config::resolve::RemoteTarget;
use cargo_remote::error::{RemoteError, TransferError};
use cargo_remote::remote::command::{
    build_path, cloud_init_command, home_command, not_ready_message, ready_command, CommandLine,
};
use cargo_remote::remote::quote::sh_quote;
use cargo_remote::remote::{
    project_key_from_dir, remote_exec, Action, Event, ExecOpts, Phase, RemoteRun,
};

fn target() -> RemoteTarget {
    RemoteTarget {
        host: "10.0.0.5".to_string(),
        user: "dev".to_string(),
        port: 2222,
        private_key: "/keys/id".to_string(),
    }
}

fn opts(copy_back: Option<&str>, no_copy_lock: bool, hidden: bool) -> ExecOpts {
    ExecOpts {
        build_env: "RUST_BACKTRACE=1".to_string(),
        rustup_default: "stable".to_string(),
        copy_back: copy_back.map(|s| s.to_string()),
        no_copy_lock,
        manifest_path: "Cargo.toml".to_string(),
        hidden,
    }
}

fn exited(code: i32) -> Event {
    Event::Exited { code: Some(code), stdout: String::new() }
}

fn printed(text: &str) -> Event {
    Event::Exited { code: Some(0), stdout: text.to_string() }
}

fn command(a: Action) -> CommandLine {
    match a {
        Action::Run(c) => c,
        other => panic!("no command: {:?}", other),
    }
}

fn line(c: &CommandLine) -> Vec<&str> {
    let mut all = vec![c.program.as_str()];
    all.extend(c.args.iter().map(|a| a.as_str()));
    all
}

fn start(o: ExecOpts, options: Vec<&str>) -> (RemoteRun, CommandLine) {
    let options = options.into_iter().map(|s| s.to_string()).collect();
    let (run, first) = remote_exec(o, "build", options, "/work/proj".to_string(), &target());
    (run, command(first))
}

fn uploaded(o: ExecOpts, options: Vec<&str>) -> RemoteRun {
    let (mut run, _) = start(o, options);
    command(run.advance(&printed("/home/dev\n")));
    command(run.advance(&exited(0)));
    run
}

#[test]
fn the_run_starts_by_asking_for_the_home_directory() {
    let (run, first) = start(opts(None, false, false), vec![]);
    assert_eq!(run.phase, Phase::Home);
    assert_eq!(run.session.server_ssh, "dev@10.0.0.5");
    assert_eq!(run.session.build_path, "");
    assert_eq!(run.key, project_key_from_dir("/work/proj"));
    assert!(first.capture);
    assert_eq!(
        line(&first),
        vec![
            "ssh",
            "-i",
            "/keys/id",
            "-p",
            "2222",
            "dev@10.0.0.5",
            "bash -lc 'printf %s \"$HOME\"'"
        ]
    );
    assert_eq!(line(&first), line(&home_command("/keys/id", 2222, "dev@10.0.0.5")));
}

#[test]
fn the_project_key_is_stable_and_decimal() {
    let key = project_key_from_dir("/work/proj");
    assert_eq!(key, project_key_from_dir("/work/proj"));
    assert_ne!(key, project_key_from_dir("/work/other"));
    assert!(!key.is_empty() && key.chars().all(|c| c.is_ascii_digit()));
    assert_eq!(key.parse::<u64>().unwrap().to_string(), key);
}

#[test]
fn the_build_path_lies_under_remote_builds() {
    assert_eq!(build_path("/home/dev", "123"), "/home/dev/remote-builds/123/");
}

#[test]
fn the_home_directory_gives_the_remote_directory() {
    let (mut run, _) = start(opts(None, false, false), vec![]);
    let key = run.key.clone();
    let mkdir = command(run.advance(&printed("  /home/dev\n")));
    assert_eq!(run.phase, Phase::MakeDir);
    assert_eq!(run.session.build_path, format!("/home/dev/remote-builds/{}/", key));
    assert!(!mkdir.capture);
    assert_eq!(
        mkdir.args.last().unwrap(),
        &format!("bash -lc 'mkdir -p '\"'\"'/home/dev/remote-builds/{}'\"'\"''", key)
    );
    assert_eq!(&line(&mkdir)[..6], &["ssh", "-i", "/keys/id", "-p", "2222", "dev@10.0.0.5"]);
}

#[test]
fn an_empty_home_directory_ends_the_run() {
    for text in ["", "  \n\t"] {
        let (mut run, _) = start(opts(None, false, false), vec![]);
        let a = run.advance(&printed(text));
        assert!(matches!(a, Action::Abort(RemoteError::EmptyHome)));
        assert_eq!(run.phase, Phase::Failed(RemoteError::EmptyHome));
    }
    assert_eq!(RemoteError::EmptyHome.message(), "empty remote HOME");
}

#[test]
fn a_failed_home_probe_ends_the_run() {
    for event in [
        exited(255),
        Event::NotStarted,
        Event::Exited { code: None, stdout: "/home/dev".to_string() },
    ] {
        let (mut run, _) = start(opts(None, false, false), vec![]);
        let a = run.advance(&event);
        assert!(matches!(a, Action::Abort(RemoteError::HomeUnavailable)));
    }
    assert_eq!(RemoteError::HomeUnavailable.message(), "could not get remote HOME");
}

#[test]
fn the_mirror_follows_the_mkdir_whatever_its_exit_code() {
    for hidden in [false, true] {
        let (mut run, _) = start(opts(None, false, hidden), vec![]);
        command(run.advance(&printed("/home/dev")));
        let mirror = command(run.advance(&exited(1)));
        assert_eq!(run.phase, Phase::Mirror);
        let to = format!("dev@10.0.0.5:{}", run.session.build_path);
        let mut expected = vec![
            "rsync",
            "-a",
            "--delete",
            "--compress",
            "-e",
            "ssh -i /keys/id -p 2222",
            "--exclude",
            "target",
        ];
        if !hidden {
            expected.extend(["--exclude", ".*", "--exclude", "*/.*"]);
        }
        expected.extend(["/work/proj/", to.as_str()]);
        assert_eq!(line(&mirror), expected);
    }
}

#[test]
fn a_mkdir_that_cannot_be_started_ends_the_run() {
    let (mut run, _) = start(opts(None, false, false), vec![]);
    command(run.advance(&printed("/home/dev")));
    let a = run.advance(&Event::NotStarted);
    assert!(matches!(a, Action::Abort(RemoteError::Transfer(TransferError::Mirror))));
}

#[test]
fn a_failed_mirror_aborts_before_anything_runs_remotely() {
    for event in [exited(23), Event::NotStarted, Event::Exited { code: None, stdout: String::new() }]
    {
        let (mut run, _) = start(opts(Some("release"), false, false), vec![]);
        command(run.advance(&printed("/home/dev")));
        command(run.advance(&exited(0)));
        let a = run.advance(&event);
        assert!(matches!(a, Action::Abort(RemoteError::Transfer(TransferError::Mirror))));
        assert_eq!(run.phase, Phase::Failed(RemoteError::Transfer(TransferError::Mirror)));
        for later in [exited(0), Event::NotStarted] {
            let a = run.advance(&later);
            assert!(matches!(a, Action::Abort(RemoteError::Transfer(TransferError::Mirror))));
        }
    }
    assert_eq!(RemoteError::Transfer(TransferError::Mirror).message(), "rsync failed");
    assert_eq!(TransferError::Mirror.message(), "rsync failed");
}

#[test]
fn the_build_runs_with_quoted_arguments() {
    let mut run = uploaded(opts(None, false, false), vec!["--release", "it's", "a b", "$HOME"]);
    let build = command(run.advance(&exited(0)));
    let path = run.session.build_path.clone();
    assert_eq!(run.phase, Phase::Run);
    assert!(!build.capture);
    let script = format!(
        "cd '{}' && rustup default 'stable' >/dev/null 2>&1 || true; RUST_BACKTRACE=1 cargo build '--release' 'it'\"'\"'s' 'a b' '$HOME'",
        path
    );
    assert_eq!(build.args.last().unwrap(), &format!("bash -lc {}", sh_quote(&script)));
    assert_eq!(build.args.len(), 6);
}

#[test]
fn the_script_is_one_single_quoted_word() {
    let mut run = uploaded(opts(None, false, false), vec!["$(reboot)", "`id`", "a\"b", "\\"]);
    let build = command(run.advance(&exited(0)));
    let word = build.args.last().unwrap().strip_prefix("bash -lc ").unwrap();
    assert!(word.starts_with('\'') && word.ends_with('\''));
    let mut inside_single = false;
    let mut inside_double = false;
    for c in word.chars() {
        match c {
            '\'' if !inside_double => inside_single = !inside_single,
            '"' if !inside_single => inside_double = !inside_double,
            _ if inside_single => {}
            _ => assert!(inside_double && c == '\'', "{:?} stands open in {}", c, word),
        }
    }
    assert!(!inside_single && !inside_double);
}

#[test]
fn the_build_without_arguments() {
    let mut run = uploaded(opts(None, false, false), vec![]);
    let build = command(run.advance(&exited(0)));
    let path = run.session.build_path.clone();
    let script = format!(
        "cd '{}' && rustup default 'stable' >/dev/null 2>&1 || true; RUST_BACKTRACE=1 cargo build ",
        path
    );
    assert_eq!(build.args.last().unwrap(), &format!("bash -lc {}", sh_quote(&script)));
}

#[test]
fn the_exit_code_of_the_build_is_reported() {
    let mut run = uploaded(opts(None, true, false), vec![]);
    command(run.advance(&exited(0)));
    let a = run.advance(&exited(101));
    assert!(matches!(a, Action::Finish(101)));
    assert_eq!(run.phase, Phase::Done);
    assert!(matches!(run.advance(&exited(0)), Action::Finish(101)));
}

#[test]
fn a_build_without_exit_code_reports_one() {
    let mut run = uploaded(opts(None, true, false), vec![]);
    command(run.advance(&exited(0)));
    let a = run.advance(&Event::Exited { code: None, stdout: String::new() });
    assert!(matches!(a, Action::Finish(1)));
}

#[test]
fn a_build_that_cannot_be_started_ends_the_run() {
    let mut run = uploaded(opts(Some("release"), false, false), vec![]);
    command(run.advance(&exited(0)));
    let a = run.advance(&Event::NotStarted);
    assert!(matches!(a, Action::Abort(RemoteError::RemoteExec)));
    assert_eq!(RemoteError::RemoteExec.message(), "remote command could not be run");
}

#[test]
fn artifacts_and_lock_file_are_fetched() {
    let mut run = uploaded(opts(Some("release"), false, false), vec![]);
    command(run.advance(&exited(0)));
    let fetch = command(run.advance(&exited(3)));
    let path = run.session.build_path.clone();
    let bare = path.trim_end_matches('/').to_string();
    assert_eq!(run.phase, Phase::CopyBack);
    assert_eq!(
        line(&fetch),
        vec![
            "rsync",
            "-a",
            "--compress",
            "-e",
            "ssh -i /keys/id -p 2222",
            format!("dev@10.0.0.5:'{}/target/release/'", bare).as_str(),
            "/work/proj/target/release/",
        ]
    );
    let lock = command(run.advance(&exited(0)));
    assert_eq!(run.phase, Phase::CopyLock);
    assert_eq!(
        line(&lock),
        vec![
            "rsync",
            "-a",
            "-e",
            "ssh -i /keys/id -p 2222",
            format!("dev@10.0.0.5:'{}Cargo.lock'", path).as_str(),
            "/work/proj/Cargo.lock",
        ]
    );
    assert!(matches!(run.advance(&exited(0)), Action::Finish(3)));
}

#[test]
fn failed_artifacts_fail_the_run_after_the_build() {
    for event in [exited(12), Event::NotStarted] {
        let mut run = uploaded(opts(Some("release"), false, false), vec![]);
        command(run.advance(&exited(0)));
        command(run.advance(&exited(0)));
        let a = run.advance(&event);
        assert!(matches!(a, Action::Abort(RemoteError::Transfer(TransferError::CopyBack))));
    }
    assert_eq!(TransferError::CopyBack.message(), "rsync copy-back failed");
}

#[test]
fn a_failed_lock_file_is_tolerated() {
    for event in [exited(23), Event::NotStarted] {
        let mut run = uploaded(opts(None, false, false), vec![]);
        command(run.advance(&exited(0)));
        let lock = command(run.advance(&exited(7)));
        assert_eq!(lock.program, "rsync");
        assert!(matches!(run.advance(&event), Action::Finish(7)));
        assert_eq!(run.phase, Phase::Done);
    }
}

#[test]
fn artifacts_without_lock_file() {
    let mut run = uploaded(opts(Some("debug"), true, false), vec![]);
    command(run.advance(&exited(0)));
    command(run.advance(&exited(0)));
    assert!(matches!(run.advance(&exited(0)), Action::Finish(0)));
}

#[test]
fn readiness_commands() {
    let ready = ready_command("/k", 22, "root@h");
    assert_eq!(line(&ready), vec!["ssh", "-i", "/k", "-p", "22", "root@h", "test", "-f", "/root/ready"]);
    assert!(!ready.capture);
    let status = cloud_init_command("/k", 22, "root@h");
    assert_eq!(line(&status), vec!["ssh", "-i", "/k", "-p", "22", "root@h", "cloud-init", "status"]);
    assert!(status.capture);
    assert_eq!(not_ready_message("  status: running\n"), "cloud-init not ready\nstatus: running");
}

#[test]
fn default_options() {
    let o = ExecOpts::default();
    assert_eq!(o.build_env, "RUST_BACKTRACE=1");
    assert_eq!(o.rustup_default, "stable");
    assert_eq!(o.manifest_path, "Cargo.toml");
    assert_eq!(o.copy_back, None);
    assert!(!o.no_copy_lock && !o.hidden);
}

#[test]
fn exit_codes_tell_the_failures_apart() {
    assert_eq!(Failure::Config.exit_code(), 2);
    assert_eq!(Failure::Session.exit_code(), 3);
    assert_eq!(Failure::Exec.exit_code(), 4);
}
