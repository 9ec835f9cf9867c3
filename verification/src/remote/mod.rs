//! The remote execution protocol: ask for the remote home directory, derive
//! the project's directory there, mirror the project up, run the build, and
//! fetch artifacts and the lock file.
//!
//! The protocol is a state machine. `remote_exec` starts it and hands out
//! the first command; whoever runs the commands reports what became of each
//! to `RemoteRun::advance` and is told what to do next. Nothing is retried.

use crate::config::resolve::{RemoteTarget, RemoteTargetView};
use crate::error::{RemoteError, TransferError};
use crate::remote::command::{
    build_path, build_path_of, cargo_command, cargo_line, copy_back_command, copy_back_line,
    home_command, home_line, lock_command, lock_line, mirror_command, mirror_line, mkdir_command,
    mkdir_line, CommandLine, CommandLineView, SessionRemote, SessionRemoteView,
};
use crate::text::{decimal, opt_text, push_decimal, texts, trim, trimmed};
use std::hash::BuildHasher;
use vstd::prelude::*;
use vstd::string::*;

pub mod command;
pub mod quote;

verus! {

/// What the caller of a build sets.
#[derive(Debug)]
pub struct ExecOpts {
    /// Environment assignments that stand before `cargo`.
    pub build_env: String,
    /// Toolchain channel that is selected before the build.
    pub rustup_default: String,
    /// Subdirectory of `target` that is fetched after the build.
    pub copy_back: Option<String>,
    /// Leave the local lock file alone.
    pub no_copy_lock: bool,
    /// Path of the project's manifest.
    pub manifest_path: String,
    /// Upload dot files too.
    pub hidden: bool,
}

/// An `ExecOpts` as plain data.
pub struct ExecOptsView {
    pub build_env: Seq<char>,
    pub rustup_default: Seq<char>,
    pub copy_back: Option<Seq<char>>,
    pub no_copy_lock: bool,
    pub manifest_path: Seq<char>,
    pub hidden: bool,
}

impl View for ExecOpts {
    type V = ExecOptsView;

    open spec fn view(&self) -> ExecOptsView {
        ExecOptsView {
            build_env: self.build_env@,
            rustup_default: self.rustup_default@,
            copy_back: opt_text(self.copy_back),
            no_copy_lock: self.no_copy_lock,
            manifest_path: self.manifest_path@,
            hidden: self.hidden,
        }
    }
}

impl Default for ExecOpts {
    fn default() -> (r: Self)
        ensures
            r@ == (ExecOptsView {
                build_env: "RUST_BACKTRACE=1"@,
                rustup_default: "stable"@,
                copy_back: None,
                no_copy_lock: false,
                manifest_path: "Cargo.toml"@,
                hidden: false,
            }),
    {
        ExecOpts {
            build_env: String::from_str("RUST_BACKTRACE=1"),
            rustup_default: String::from_str("stable"),
            copy_back: None,
            no_copy_lock: false,
            manifest_path: String::from_str("Cargo.toml"),
            hidden: false,
        }
    }
}

/// The hash that the standard library's default hasher gives a path.
pub uninterp spec fn path_hash(dir: Seq<char>) -> u64;

/// `BuildHasher::hash_one` of the standard library's default hasher, which
/// is not seeded, on the path that `dir` names: the hash depends on the
/// path alone, so the same path always has the same hash.
#[verifier::external_body]
fn hash_path(dir: &str) -> (r: u64)
    ensures
        r == path_hash(dir@),
{
    std::hash::BuildHasherDefault::<std::collections::hash_map::DefaultHasher>::default().hash_one(
        std::path::Path::new(dir),
    )
}

/// The key of a project: the hash of its root directory, in decimal. As
/// long as the program is built with one toolchain, the same directory has
/// the same key; the standard library may change its hasher between
/// releases.
pub fn project_key_from_dir(dir: &str) -> (r: String)
    ensures
        r@ == decimal(path_hash(dir@) as nat),
{
    let mut out = String::new();
    push_decimal(&mut out, hash_path(dir));
    out
}

/// How far a run has come: the step whose command is under way, or how the
/// run ended.
#[derive(Debug, Clone, Copy, PartialEq, Eq, Structural)]
pub enum Phase {
    /// Asking for the remote home directory.
    Home,
    /// Making the remote directory.
    MakeDir,
    /// Mirroring the project to the remote host.
    Mirror,
    /// Building.
    Run,
    /// Fetching the artifacts.
    CopyBack,
    /// Fetching the lock file.
    CopyLock,
    /// The run is over and has an exit code.
    Done,
    /// The run was given up.
    Failed(RemoteError),
}

/// A remote run under way.
#[derive(Debug)]
pub struct RemoteRun {
    pub phase: Phase,
    pub session: SessionRemote,
    /// The project's key.
    pub key: String,
    /// The exit code of the build, once it has run.
    pub code: i32,
}

/// A `RemoteRun` as plain data.
pub struct RemoteRunView {
    pub phase: Phase,
    pub session: SessionRemoteView,
    pub key: Seq<char>,
    pub code: i32,
}

impl View for RemoteRun {
    type V = RemoteRunView;

    open spec fn view(&self) -> RemoteRunView {
        RemoteRunView {
            phase: self.phase,
            session: self.session@,
            key: self.key@,
            code: self.code,
        }
    }
}

/// What became of a command.
#[derive(Debug)]
pub enum Event {
    /// The command ran. `code` is its exit code, if it has one (it has none
    /// when a signal ended it); `stdout` is what it printed, where that was
    /// collected.
    Exited { code: Option<i32>, stdout: String },
    /// The command could not be started.
    NotStarted,
}

/// An `Event` as plain data.
pub enum EventView {
    Exited { code: Option<i32>, stdout: Seq<char> },
    NotStarted,
}

impl EventView {
    /// The command ran and reported success.
    pub open spec fn success(self) -> bool {
        self matches EventView::Exited { code, .. } && code == Some(0i32)
    }
}

impl View for Event {
    type V = EventView;

    open spec fn view(&self) -> EventView {
        match self {
            Event::Exited { code, stdout } => EventView::Exited { code: *code, stdout: stdout@ },
            Event::NotStarted => EventView::NotStarted,
        }
    }
}

impl Event {
    /// Whether the command ran and reported success.
    pub fn success(&self) -> (r: bool)
        ensures
            r == self@.success(),
    {
        match self {
            Event::Exited { code: Some(c), .. } => *c == 0,
            _ => false,
        }
    }
}

/// What is to be done next.
#[derive(Debug)]
pub enum Action {
    /// Run this command and report what became of it.
    Run(CommandLine),
    /// The run is over; this is its exit code.
    Finish(i32),
    /// The run is given up.
    Abort(RemoteError),
}

/// An `Action` as plain data.
pub enum ActionView {
    Run(CommandLineView),
    Finish(i32),
    Abort(RemoteError),
}

impl View for Action {
    type V = ActionView;

    open spec fn view(&self) -> ActionView {
        match self {
            Action::Run(c) => ActionView::Run(c@),
            Action::Finish(code) => ActionView::Finish(*code),
            Action::Abort(e) => ActionView::Abort(*e),
        }
    }
}

/// `user@host`.
pub open spec fn login(t: RemoteTargetView) -> Seq<char> {
    t.user + "@"@ + t.host
}

/// The run before its first command: nothing is known of the remote host
/// yet, so the remote directory is still empty.
pub open spec fn start_of(
    exec: ExecOptsView,
    command: Seq<char>,
    options: Seq<Seq<char>>,
    project_dir: Seq<char>,
    target: RemoteTargetView,
) -> RemoteRunView {
    RemoteRunView {
        phase: Phase::Home,
        session: SessionRemoteView {
            project_dir,
            server_ssh: login(target),
            ssh_key: target.private_key,
            ssh_port: target.port,
            build_path: Seq::empty(),
            build_env: exec.build_env,
            rustup_default: exec.rustup_default,
            copy_back: exec.copy_back,
            no_copy_lock: exec.no_copy_lock,
            hidden: exec.hidden,
            command,
            options,
        },
        key: decimal(path_hash(project_dir) as nat),
        code: 0,
    }
}

/// The exit code that a run reports for a build: the build's own, or 1
/// where it has none.
pub open spec fn reported_code(code: Option<i32>) -> i32 {
    match code {
        Some(c) => c,
        None => 1,
    }
}

pub open spec fn give_up(run: RemoteRunView, e: RemoteError) -> (RemoteRunView, ActionView) {
    (RemoteRunView { phase: Phase::Failed(e), ..run }, ActionView::Abort(e))
}

/// What follows the artifacts: the lock file, unless it is to be left alone.
pub open spec fn after_copy_back(run: RemoteRunView) -> (RemoteRunView, ActionView) {
    if run.session.no_copy_lock {
        (RemoteRunView { phase: Phase::Done, ..run }, ActionView::Finish(run.code))
    } else {
        (RemoteRunView { phase: Phase::CopyLock, ..run }, ActionView::Run(lock_line(run.session)))
    }
}

/// What follows the build: the artifacts, where a directory was named.
pub open spec fn after_build(run: RemoteRunView) -> (RemoteRunView, ActionView) {
    match run.session.copy_back {
        Some(name) => (
            RemoteRunView { phase: Phase::CopyBack, ..run },
            ActionView::Run(copy_back_line(run.session, name)),
        ),
        None => after_copy_back(run),
    }
}

/// One step of the protocol: the run and the action after `event` was
/// reported for the command under way.
///
/// - `Home`: the trimmed output is the home directory; without success the
///   run fails with `HomeUnavailable`, with an empty directory with
///   `EmptyHome`. Otherwise the remote directory is derived and made.
/// - `MakeDir`: whatever the command's exit code, the mirror follows.
/// - `Mirror`: without success the run fails with a transfer error and
///   nothing is run on the remote host. Otherwise the build follows.
/// - `Run`: the exit code is kept; a build that could not be started fails
///   the run.
/// - `CopyBack`: without success the run fails with a transfer error.
/// - `CopyLock`: the run is over, whatever became of the command.
/// - `Done`, `Failed`: nothing changes any more.
pub open spec fn advance_spec(run: RemoteRunView, event: EventView) -> (RemoteRunView, ActionView) {
    match run.phase {
        Phase::Home => match event {
            EventView::Exited { code, stdout } => if code != Some(0i32) {
                give_up(run, RemoteError::HomeUnavailable)
            } else if trimmed(stdout).len() == 0 {
                give_up(run, RemoteError::EmptyHome)
            } else {
                let session = SessionRemoteView {
                    build_path: build_path_of(trimmed(stdout), run.key),
                    ..run.session
                };
                (
                    RemoteRunView { phase: Phase::MakeDir, session, ..run },
                    ActionView::Run(mkdir_line(session)),
                )
            },
            EventView::NotStarted => give_up(run, RemoteError::HomeUnavailable),
        },
        Phase::MakeDir => match event {
            EventView::Exited { .. } => (
                RemoteRunView { phase: Phase::Mirror, ..run },
                ActionView::Run(mirror_line(run.session)),
            ),
            EventView::NotStarted => give_up(run, RemoteError::Transfer(TransferError::Mirror)),
        },
        Phase::Mirror => if event.success() {
            (RemoteRunView { phase: Phase::Run, ..run }, ActionView::Run(cargo_line(run.session)))
        } else {
            give_up(run, RemoteError::Transfer(TransferError::Mirror))
        },
        Phase::Run => match event {
            EventView::Exited { code, .. } => after_build(
                RemoteRunView { code: reported_code(code), ..run },
            ),
            EventView::NotStarted => give_up(run, RemoteError::RemoteExec),
        },
        Phase::CopyBack => if event.success() {
            after_copy_back(run)
        } else {
            give_up(run, RemoteError::Transfer(TransferError::CopyBack))
        },
        Phase::CopyLock => (RemoteRunView { phase: Phase::Done, ..run }, ActionView::Finish(run.code)),
        Phase::Done => (run, ActionView::Finish(run.code)),
        Phase::Failed(e) => (run, ActionView::Abort(e)),
    }
}

/// Starts a remote run of `cargo cmd options` for the project in
/// `project_dir` on `target`, and hands out the command that asks for the
/// remote home directory.
pub fn remote_exec(
    exec: ExecOpts,
    cmd: &str,
    options: Vec<String>,
    project_dir: String,
    target: &RemoteTarget,
) -> (r: (RemoteRun, Action))
    ensures
        r.0@ == start_of(exec@, cmd@, texts(options@), project_dir@, target@),
        r.1@ == ActionView::Run(home_line(r.0@.session.ssh_key, r.0@.session.ssh_port, r.0@.session.server_ssh)),
{
    let key = project_key_from_dir(project_dir.as_str());
    let mut server_ssh = target.user.clone();
    server_ssh.append("@");
    server_ssh.append(target.host.as_str());
    let first = home_command(target.private_key.as_str(), target.port, server_ssh.as_str());
    let session = SessionRemote {
        project_dir,
        server_ssh,
        ssh_key: target.private_key.clone(),
        ssh_port: target.port,
        build_path: String::new(),
        build_env: exec.build_env,
        rustup_default: exec.rustup_default,
        copy_back: exec.copy_back,
        no_copy_lock: exec.no_copy_lock,
        hidden: exec.hidden,
        command: String::from_str(cmd),
        options,
    };
    (RemoteRun { phase: Phase::Home, session, key, code: 0 }, Action::Run(first))
}

impl RemoteRun {
    fn give_up(&mut self, e: RemoteError) -> (a: Action)
        ensures
            (final(self)@, a@) == give_up(old(self)@, e),
    {
        self.phase = Phase::Failed(e);
        Action::Abort(e)
    }

    fn after_copy_back(&mut self) -> (a: Action)
        ensures
            (final(self)@, a@) == after_copy_back(old(self)@),
    {
        if self.session.no_copy_lock {
            self.phase = Phase::Done;
            Action::Finish(self.code)
        } else {
            self.phase = Phase::CopyLock;
            Action::Run(lock_command(&self.session))
        }
    }

    fn after_build(&mut self) -> (a: Action)
        ensures
            (final(self)@, a@) == after_build(old(self)@),
    {
        let fetch = match &self.session.copy_back {
            Some(name) => Some(copy_back_command(&self.session, name.as_str())),
            None => None,
        };
        match fetch {
            Some(c) => {
                self.phase = Phase::CopyBack;
                Action::Run(c)
            },
            None => self.after_copy_back(),
        }
    }

    /// Takes the report on the command under way and says what to do next.
    pub fn advance(&mut self, event: &Event) -> (a: Action)
        ensures
            (final(self)@, a@) == advance_spec(old(self)@, event@),
    {
        match self.phase {
            Phase::Home => match event {
                Event::Exited { code: Some(0), stdout } => {
                    let home = trim(stdout.as_str());
                    if home.is_empty() {
                        self.give_up(RemoteError::EmptyHome)
                    } else {
                        self.session.build_path = build_path(home, self.key.as_str());
                        self.phase = Phase::MakeDir;
                        Action::Run(mkdir_command(&self.session))
                    }
                },
                _ => self.give_up(RemoteError::HomeUnavailable),
            },
            Phase::MakeDir => match event {
                Event::Exited { .. } => {
                    self.phase = Phase::Mirror;
                    Action::Run(mirror_command(&self.session))
                },
                Event::NotStarted => self.give_up(RemoteError::Transfer(TransferError::Mirror)),
            },
            Phase::Mirror => {
                if event.success() {
                    self.phase = Phase::Run;
                    Action::Run(cargo_command(&self.session))
                } else {
                    self.give_up(RemoteError::Transfer(TransferError::Mirror))
                }
            },
            Phase::Run => match event {
                Event::Exited { code, .. } => {
                    self.code = match code {
                        Some(c) => *c,
                        None => 1,
                    };
                    self.after_build()
                },
                Event::NotStarted => self.give_up(RemoteError::RemoteExec),
            },
            Phase::CopyBack => {
                if event.success() {
                    self.after_copy_back()
                } else {
                    self.give_up(RemoteError::Transfer(TransferError::CopyBack))
                }
            },
            Phase::CopyLock => {
                self.phase = Phase::Done;
                Action::Finish(self.code)
            },
            Phase::Done => Action::Finish(self.code),
            Phase::Failed(e) => Action::Abort(e),
        }
    }
}

} // verus!

verus! {

/// A mirror that does not succeed ends the run with a transfer error: the
/// build is not started, and nothing is started after that, whatever is
/// reported.
pub proof fn lemma_failed_mirror_runs_nothing(run: RemoteRunView, event: EventView, later: EventView)
    requires
        run.phase == Phase::Mirror,
        !event.success(),
    ensures
        advance_spec(run, event).1 == ActionView::Abort(
            RemoteError::Transfer(TransferError::Mirror),
        ),
        advance_spec(run, event).0.phase == Phase::Failed(
            RemoteError::Transfer(TransferError::Mirror),
        ),
        advance_spec(advance_spec(run, event).0, later) == (
            advance_spec(run, event).0,
            ActionView::Abort(RemoteError::Transfer(TransferError::Mirror)),
        ),
{
}

/// The build is started in one way only: from the mirror, after it has
/// succeeded. So a run that fails before or while it uploads never runs a
/// command in the remote project.
pub proof fn lemma_build_only_after_mirror(run: RemoteRunView, event: EventView)
    requires
        advance_spec(run, event).0.phase == Phase::Run,
        run.phase != Phase::Run,
    ensures
        run.phase == Phase::Mirror,
        event.success(),
        advance_spec(run, event).1 == ActionView::Run(cargo_line(run.session)),
{
}

/// A run that is over stays over: it hands out no command any more, and
/// the exit code or the error that it ended with does not change.
pub proof fn lemma_ended_run_stays(run: RemoteRunView, event: EventView)
    requires
        run.phase == Phase::Done || run.phase is Failed,
    ensures
        advance_spec(run, event).0 == run,
        !(advance_spec(run, event).1 is Run),
{
}

/// A run is given up exactly where an action says so, and the error of the
/// action is the error that the run keeps.
pub proof fn lemma_abort_is_failure(run: RemoteRunView, event: EventView)
    ensures
        advance_spec(run, event).1 matches ActionView::Abort(e) <==> advance_spec(
            run,
            event,
        ).0.phase is Failed,
        advance_spec(run, event).1 matches ActionView::Abort(e) ==> advance_spec(
            run,
            event,
        ).0.phase == Phase::Failed(e),
{
}

/// Artifacts that cannot be fetched fail the run although the build has
/// run, and a lock file that cannot be fetched does not: after the lock
/// file the run reports the exit code of the build.
pub proof fn lemma_copy_back_counts_lock_does_not(run: RemoteRunView, event: EventView)
    ensures
        run.phase == Phase::CopyBack && !event.success() ==> advance_spec(run, event).1
            == ActionView::Abort(RemoteError::Transfer(TransferError::CopyBack)),
        run.phase == Phase::CopyLock ==> advance_spec(run, event).1 == ActionView::Finish(
            run.code,
        ),
{
}

} // verus!
