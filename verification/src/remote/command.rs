//! The command lines of the protocol: what is run locally to reach the
//! remote host, to mirror files and to start the build there.

use crate::remote::quote::{
    join_quoted, lemma_arguments_read_back, lemma_quote_round_trip, quoted, sh_quote, shell_args,
    shell_read, Quoting,
};
use crate::text::{
    decimal, opt_text, push_decimal, strip_trailing, texts, trim, trim_end_char, trimmed,
};
use vstd::prelude::*;
use vstd::string::*;

verus! {

/// Everything one remote run needs to know. Built for each run and never
/// saved.
#[derive(Debug)]
pub struct SessionRemote {
    /// Root directory of the local project.
    pub project_dir: String,
    /// `user@host`.
    pub server_ssh: String,
    pub ssh_key: String,
    pub ssh_port: u16,
    /// Directory of the project on the remote host, ending in `/`.
    pub build_path: String,
    /// Environment assignments that stand before `cargo`.
    pub build_env: String,
    /// Toolchain channel that is selected before the build.
    pub rustup_default: String,
    /// Subdirectory of `target` that is fetched after the build.
    pub copy_back: Option<String>,
    pub no_copy_lock: bool,
    /// Whether dot files are uploaded too.
    pub hidden: bool,
    /// The cargo subcommand.
    pub command: String,
    /// Its arguments.
    pub options: Vec<String>,
}

/// A `SessionRemote` as plain data.
pub struct SessionRemoteView {
    pub project_dir: Seq<char>,
    pub server_ssh: Seq<char>,
    pub ssh_key: Seq<char>,
    pub ssh_port: u16,
    pub build_path: Seq<char>,
    pub build_env: Seq<char>,
    pub rustup_default: Seq<char>,
    pub copy_back: Option<Seq<char>>,
    pub no_copy_lock: bool,
    pub hidden: bool,
    pub command: Seq<char>,
    pub options: Seq<Seq<char>>,
}

impl View for SessionRemote {
    type V = SessionRemoteView;

    open spec fn view(&self) -> SessionRemoteView {
        SessionRemoteView {
            project_dir: self.project_dir@,
            server_ssh: self.server_ssh@,
            ssh_key: self.ssh_key@,
            ssh_port: self.ssh_port,
            build_path: self.build_path@,
            build_env: self.build_env@,
            rustup_default: self.rustup_default@,
            copy_back: opt_text(self.copy_back),
            no_copy_lock: self.no_copy_lock,
            hidden: self.hidden,
            command: self.command@,
            options: texts(self.options@),
        }
    }
}

/// A local command: the program, its arguments, and whether its output is
/// collected instead of shown.
#[derive(Debug)]
pub struct CommandLine {
    pub program: String,
    pub args: Vec<String>,
    /// The caller reads what the command prints; otherwise the command
    /// shares the terminal.
    pub capture: bool,
}

/// A `CommandLine` as plain data.
pub struct CommandLineView {
    pub program: Seq<char>,
    pub args: Seq<Seq<char>>,
    pub capture: bool,
}

impl View for CommandLine {
    type V = CommandLineView;

    open spec fn view(&self) -> CommandLineView {
        CommandLineView { program: self.program@, args: texts(self.args@), capture: self.capture }
    }
}

/// `ssh` with the key, the port and the host, running `remote` there.
pub open spec fn ssh_line(
    key: Seq<char>,
    port: u16,
    server: Seq<char>,
    remote: Seq<Seq<char>>,
    capture: bool,
) -> CommandLineView {
    CommandLineView {
        program: "ssh"@,
        args: seq!["-i"@, key, "-p"@, decimal(port as nat), server] + remote,
        capture,
    }
}

/// What `rsync` is told to connect with.
pub open spec fn transport(key: Seq<char>, port: u16) -> Seq<char> {
    "ssh -i "@ + key + " -p "@ + decimal(port as nat)
}

/// The command that prints the remote home directory.
pub open spec fn home_line(key: Seq<char>, port: u16, server: Seq<char>) -> CommandLineView {
    ssh_line(key, port, server, seq!["bash -lc 'printf %s \"$HOME\"'"@], true)
}

/// The project's directory on the remote host: under `remote-builds` in the
/// home directory, named by the project's key.
pub open spec fn build_path_of(home: Seq<char>, key: Seq<char>) -> Seq<char> {
    home + "/remote-builds/"@ + key + "/"@
}

/// What the remote host is asked to run: a login shell with `script` as
/// one quoted word, so that the shell which starts it reads the script as
/// it is written here and expands nothing in it.
pub open spec fn login_shell(script: Seq<char>) -> Seq<char> {
    "bash -lc "@ + quoted(script)
}

/// The script that makes the remote directory.
pub open spec fn mkdir_script(s: SessionRemoteView) -> Seq<char> {
    "mkdir -p "@ + quoted(strip_trailing(s.build_path, '/'))
}

/// The command that makes sure the remote directory exists.
pub open spec fn mkdir_line(s: SessionRemoteView) -> CommandLineView {
    ssh_line(s.ssh_key, s.ssh_port, s.server_ssh, seq![login_shell(mkdir_script(s))], false)
}

/// What the upload leaves out: the build artifacts always, dot files unless
/// they were asked for.
pub open spec fn excludes(hidden: bool) -> Seq<Seq<char>> {
    if hidden {
        seq!["--exclude"@, "target"@]
    } else {
        seq!["--exclude"@, "target"@, "--exclude"@, ".*"@, "--exclude"@, "*/.*"@]
    }
}

/// The command that mirrors the project to the remote directory, deleting
/// there what is not here.
pub open spec fn mirror_line(s: SessionRemoteView) -> CommandLineView {
    CommandLineView {
        program: "rsync"@,
        args: seq!["-a"@, "--delete"@, "--compress"@, "-e"@, transport(s.ssh_key, s.ssh_port)]
            + excludes(s.hidden) + seq![
            s.project_dir + "/"@,
            s.server_ssh + ":"@ + s.build_path,
        ],
        capture: false,
    }
}

/// The script up to the arguments: go to the project, select the toolchain
/// (it does not matter whether that works), then cargo with the
/// environment and the subcommand. The directory and the channel are
/// quoted; the environment and the subcommand stand as they are given.
pub open spec fn script_head(s: SessionRemoteView) -> Seq<char> {
    "cd "@ + quoted(s.build_path) + " && rustup default "@ + quoted(s.rustup_default)
        + " >/dev/null 2>&1 || true; "@ + s.build_env + " cargo "@ + s.command + " "@
}

/// The script that runs the build: the head, then the arguments, each
/// quoted on its own.
pub open spec fn remote_script(s: SessionRemoteView) -> Seq<char> {
    script_head(s) + join_quoted(s.options)
}

/// The command that runs the build on the remote host.
pub open spec fn cargo_line(s: SessionRemoteView) -> CommandLineView {
    ssh_line(s.ssh_key, s.ssh_port, s.server_ssh, seq![login_shell(remote_script(s))], false)
}

/// The command that fetches the artifact directory `name`; it deletes
/// nothing here.
pub open spec fn copy_back_line(s: SessionRemoteView, name: Seq<char>) -> CommandLineView {
    CommandLineView {
        program: "rsync"@,
        args: seq![
            "-a"@,
            "--compress"@,
            "-e"@,
            transport(s.ssh_key, s.ssh_port),
            s.server_ssh + ":"@ + quoted(
                strip_trailing(s.build_path, '/') + "/target/"@ + name + "/"@,
            ),
            s.project_dir + "/target/"@ + name + "/"@,
        ],
        capture: false,
    }
}

/// The command that fetches the remote lock file over the local one.
pub open spec fn lock_line(s: SessionRemoteView) -> CommandLineView {
    CommandLineView {
        program: "rsync"@,
        args: seq![
            "-a"@,
            "-e"@,
            transport(s.ssh_key, s.ssh_port),
            s.server_ssh + ":"@ + quoted(s.build_path + "Cargo.lock"@),
            s.project_dir + "/Cargo.lock"@,
        ],
        capture: false,
    }
}

/// The command that tests for the marker file of a finished installation.
pub open spec fn ready_line(key: Seq<char>, port: u16, server: Seq<char>) -> CommandLineView {
    ssh_line(key, port, server, seq!["test"@, "-f"@, "/root/ready"@], false)
}

/// The command that asks cloud-init how far it is.
pub open spec fn cloud_init_line(key: Seq<char>, port: u16, server: Seq<char>)
    -> CommandLineView {
    ssh_line(key, port, server, seq!["cloud-init"@, "status"@], true)
}

fn arg(args: &mut Vec<String>, s: &str)
    ensures
        texts(final(args)@) == texts(old(args)@).push(s@),
{
    args.push(String::from_str(s));
    assert(texts(final(args)@) == texts(old(args)@).push(s@));
}

fn arg_owned(args: &mut Vec<String>, s: String)
    ensures
        texts(final(args)@) == texts(old(args)@).push(s@),
{
    args.push(s);
    assert(texts(final(args)@) == texts(old(args)@).push(s@));
}

fn ssh_args(key: &str, port: u16, server: &str) -> (args: Vec<String>)
    ensures
        texts(args@) == seq!["-i"@, key@, "-p"@, decimal(port as nat), server@],
{
    let mut args: Vec<String> = Vec::new();
    assert(texts(args@) == Seq::<Seq<char>>::empty());
    arg(&mut args, "-i");
    arg(&mut args, key);
    arg(&mut args, "-p");
    let mut digits = String::new();
    push_decimal(&mut digits, port as u64);
    arg_owned(&mut args, digits);
    arg(&mut args, server);
    args
}

fn login_shell_of(script: &str) -> (r: String)
    ensures
        r@ == login_shell(script@),
{
    let mut out = String::from_str("bash -lc ");
    out.append(sh_quote(script).as_str());
    out
}

fn transport_of(key: &str, port: u16) -> (r: String)
    ensures
        r@ == transport(key@, port),
{
    let mut out = String::from_str("ssh -i ");
    out.append(key);
    out.append(" -p ");
    push_decimal(&mut out, port as u64);
    out
}

/// The command that prints the remote home directory.
pub fn home_command(ssh_key: &str, ssh_port: u16, server_ssh: &str) -> (r: CommandLine)
    ensures
        r@ == home_line(ssh_key@, ssh_port, server_ssh@),
{
    let mut args = ssh_args(ssh_key, ssh_port, server_ssh);
    arg(&mut args, "bash -lc 'printf %s \"$HOME\"'");
    assert(texts(args@) == home_line(ssh_key@, ssh_port, server_ssh@).args);
    CommandLine { program: String::from_str("ssh"), args, capture: true }
}

/// The project's directory on the remote host.
pub fn build_path(home: &str, key: &str) -> (r: String)
    ensures
        r@ == build_path_of(home@, key@),
{
    let mut out = String::from_str(home);
    out.append("/remote-builds/");
    out.append(key);
    out.append("/");
    out
}

/// The command that makes sure the remote directory exists.
pub fn mkdir_command(s: &SessionRemote) -> (r: CommandLine)
    ensures
        r@ == mkdir_line(s@),
{
    let mut args = ssh_args(s.ssh_key.as_str(), s.ssh_port, s.server_ssh.as_str());
    let mut script = String::from_str("mkdir -p ");
    script.append(sh_quote(trim_end_char(s.build_path.as_str(), '/')).as_str());
    arg_owned(&mut args, login_shell_of(script.as_str()));
    assert(texts(args@) == mkdir_line(s@).args);
    CommandLine { program: String::from_str("ssh"), args, capture: false }
}

/// The command that mirrors the project to the remote directory.
pub fn mirror_command(s: &SessionRemote) -> (r: CommandLine)
    ensures
        r@ == mirror_line(s@),
{
    let mut args: Vec<String> = Vec::new();
    assert(texts(args@) == Seq::<Seq<char>>::empty());
    arg(&mut args, "-a");
    arg(&mut args, "--delete");
    arg(&mut args, "--compress");
    arg(&mut args, "-e");
    arg_owned(&mut args, transport_of(s.ssh_key.as_str(), s.ssh_port));
    arg(&mut args, "--exclude");
    arg(&mut args, "target");
    if !s.hidden {
        arg(&mut args, "--exclude");
        arg(&mut args, ".*");
        arg(&mut args, "--exclude");
        arg(&mut args, "*/.*");
    }
    let mut from = s.project_dir.clone();
    from.append("/");
    arg_owned(&mut args, from);
    let mut to = s.server_ssh.clone();
    to.append(":");
    to.append(s.build_path.as_str());
    arg_owned(&mut args, to);
    assert(texts(args@) == mirror_line(s@).args);
    CommandLine { program: String::from_str("rsync"), args, capture: false }
}

fn joined_options(options: &Vec<String>) -> (r: String)
    ensures
        r@ == join_quoted(texts(options@)),
{
    let mut out = String::new();
    for i in 0..options.len()
        invariant
            out@ == join_quoted(texts(options@).take(i as int)),
    {
        proof {
            let all = texts(options@);
            assert(all.take(i + 1).drop_last() == all.take(i as int));
            assert(all.take(i + 1).last() == options@[i as int]@);
            if i == 0 {
                assert(all.take(1)[0] == options@[0]@);
            }
        }
        if i > 0 {
            out.append(" ");
        }
        out.append(sh_quote(options[i].as_str()).as_str());
    }
    assert(texts(options@).take(options.len() as int) == texts(options@));
    out
}

/// The command that runs the build on the remote host.
pub fn cargo_command(s: &SessionRemote) -> (r: CommandLine)
    ensures
        r@ == cargo_line(s@),
{
    let mut args = ssh_args(s.ssh_key.as_str(), s.ssh_port, s.server_ssh.as_str());
    let mut script = String::from_str("cd ");
    script.append(sh_quote(s.build_path.as_str()).as_str());
    script.append(" && rustup default ");
    script.append(sh_quote(s.rustup_default.as_str()).as_str());
    script.append(" >/dev/null 2>&1 || true; ");
    script.append(s.build_env.as_str());
    script.append(" cargo ");
    script.append(s.command.as_str());
    script.append(" ");
    script.append(joined_options(&s.options).as_str());
    assert(script@ == remote_script(s@));
    arg_owned(&mut args, login_shell_of(script.as_str()));
    assert(texts(args@) == cargo_line(s@).args);
    CommandLine { program: String::from_str("ssh"), args, capture: false }
}

/// The command that fetches the artifact directory `name`.
pub fn copy_back_command(s: &SessionRemote, name: &str) -> (r: CommandLine)
    ensures
        r@ == copy_back_line(s@, name@),
{
    let mut args: Vec<String> = Vec::new();
    assert(texts(args@) == Seq::<Seq<char>>::empty());
    arg(&mut args, "-a");
    arg(&mut args, "--compress");
    arg(&mut args, "-e");
    arg_owned(&mut args, transport_of(s.ssh_key.as_str(), s.ssh_port));
    let mut path = String::from_str(trim_end_char(s.build_path.as_str(), '/'));
    path.append("/target/");
    path.append(name);
    path.append("/");
    let mut from = s.server_ssh.clone();
    from.append(":");
    from.append(sh_quote(path.as_str()).as_str());
    arg_owned(&mut args, from);
    let mut to = s.project_dir.clone();
    to.append("/target/");
    to.append(name);
    to.append("/");
    arg_owned(&mut args, to);
    assert(texts(args@) == copy_back_line(s@, name@).args);
    CommandLine { program: String::from_str("rsync"), args, capture: false }
}

/// The command that fetches the remote lock file over the local one.
pub fn lock_command(s: &SessionRemote) -> (r: CommandLine)
    ensures
        r@ == lock_line(s@),
{
    let mut args: Vec<String> = Vec::new();
    assert(texts(args@) == Seq::<Seq<char>>::empty());
    arg(&mut args, "-a");
    arg(&mut args, "-e");
    arg_owned(&mut args, transport_of(s.ssh_key.as_str(), s.ssh_port));
    let mut path = s.build_path.clone();
    path.append("Cargo.lock");
    let mut from = s.server_ssh.clone();
    from.append(":");
    from.append(sh_quote(path.as_str()).as_str());
    arg_owned(&mut args, from);
    let mut to = s.project_dir.clone();
    to.append("/Cargo.lock");
    arg_owned(&mut args, to);
    assert(texts(args@) == lock_line(s@).args);
    CommandLine { program: String::from_str("rsync"), args, capture: false }
}

/// The command that tests for the marker file of a finished installation.
pub fn ready_command(ssh_key: &str, ssh_port: u16, server_ssh: &str) -> (r: CommandLine)
    ensures
        r@ == ready_line(ssh_key@, ssh_port, server_ssh@),
{
    let mut args = ssh_args(ssh_key, ssh_port, server_ssh);
    arg(&mut args, "test");
    arg(&mut args, "-f");
    arg(&mut args, "/root/ready");
    assert(texts(args@) == ready_line(ssh_key@, ssh_port, server_ssh@).args);
    CommandLine { program: String::from_str("ssh"), args, capture: false }
}

/// The command that asks cloud-init how far it is.
pub fn cloud_init_command(ssh_key: &str, ssh_port: u16, server_ssh: &str) -> (r: CommandLine)
    ensures
        r@ == cloud_init_line(ssh_key@, ssh_port, server_ssh@),
{
    let mut args = ssh_args(ssh_key, ssh_port, server_ssh);
    arg(&mut args, "cloud-init");
    arg(&mut args, "status");
    assert(texts(args@) == cloud_init_line(ssh_key@, ssh_port, server_ssh@).args);
    CommandLine { program: String::from_str("ssh"), args, capture: true }
}

/// What is reported of a server whose installation is not finished: that
/// cloud-init is not ready, and below that what cloud-init says of itself.
pub open spec fn not_ready_text(status: Seq<char>) -> Seq<char> {
    "cloud-init not ready\n"@ + trimmed(status)
}

/// The message for a server whose installation is not finished, from what
/// the command of `cloud_init_command` printed.
pub fn not_ready_message(status: &str) -> (r: String)
    ensures
        r@ == not_ready_text(status@),
{
    let mut out = String::from_str("cloud-init not ready\n");
    out.append(trim(status));
    out
}

/// The shell that starts the login shell reads the script back as it was
/// written, whatever characters it holds: nothing in it is expanded, split
/// or run before the login shell gets it.
pub proof fn lemma_login_shell_gets_script(script: Seq<char>)
    ensures
        login_shell(script) == "bash -lc "@ + quoted(script),
        shell_read(quoted(script), Quoting::Bare) == Some(script),
{
    lemma_quote_round_trip(script);
}

/// The build is started with its arguments as they were given.
///
/// The remote host gets the build script as one quoted word, which is read
/// back as the script itself. In the script the arguments stand behind the
/// head, each quoted on its own, and a shell splits that text into exactly
/// the arguments: as many, in their order, none expanded, split or run.
/// The directory stands in the script quoted too.
pub proof fn lemma_build_gets_its_arguments(s: SessionRemoteView)
    ensures
        cargo_line(s).args.last() == "bash -lc "@ + quoted(remote_script(s)),
        shell_read(quoted(remote_script(s)), Quoting::Bare) == Some(remote_script(s)),
        remote_script(s) == script_head(s) + join_quoted(s.options),
        shell_args(join_quoted(s.options)) == Some(s.options),
        shell_read(quoted(s.build_path), Quoting::Bare) == Some(s.build_path),
{
    lemma_quote_round_trip(remote_script(s));
    lemma_quote_round_trip(s.build_path);
    lemma_arguments_read_back(s.options);
}

} // verus!
