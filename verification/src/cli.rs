//! The command line of the program, and what a session does at its edges.
use crate::paths::{push_path, pushed_path};
use crate::text::{
    after_prefix, chars_of, find_char, index_of_char, lemma_index_of_char, opt_view, same_str,
    split_words, string_of, strip_prefix, views, words,
};
use vstd::prelude::*;
use vstd::string::*;

verus! {

#[derive(Debug)]
pub struct AppArgs {
    pub agent_exec: Option<String>,
    pub ssh_target: Option<String>,
    pub path: Option<String>,
}

/// What the arguments ask for.
#[derive(Debug)]
pub enum CliCommand {
    ShowUsage,
    Start(AppArgs),
}

pub enum CliModel {
    ShowUsage,
    Start { agent_exec: Option<Seq<char>>, ssh_target: Option<Seq<char>>, path: Option<Seq<char>> },
    Fault(Seq<char>),
}

/// How many of the three ways to choose a workspace were used.
pub open spec fn modes<T>(a: Option<T>, b: Option<T>, c: Option<T>) -> int {
    (if a is Some {
        1int
    } else {
        0
    }) + (if b is Some {
        1int
    } else {
        0
    }) + (if c is Some {
        1int
    } else {
        0
    })
}

/// What the arguments from position `i` on ask for, after those before it
/// have given the three values. The first fault, or request for help, decides.
pub open spec fn cli_from(
    args: Seq<Seq<char>>,
    i: int,
    agent_exec: Option<Seq<char>>,
    ssh_target: Option<Seq<char>>,
    path: Option<Seq<char>>,
) -> CliModel
    decreases
            (if i < args.len() {
                args.len() - i
            } else {
                0
            }),
{
    if i >= args.len() {
        if modes(agent_exec, ssh_target, path) > 1 {
            CliModel::Fault("--agent-exec, --ssh, and <PATH> are mutually exclusive"@)
        } else {
            CliModel::Start { agent_exec, ssh_target, path }
        }
    } else if args[i] == "--help"@ || args[i] == "-h"@ {
        CliModel::ShowUsage
    } else if args[i] == "--agent-exec"@ {
        if i + 1 < args.len() {
            cli_from(args, i + 2, Some(args[i + 1]), ssh_target, path)
        } else {
            CliModel::Fault("--agent-exec requires a value"@)
        }
    } else if args[i] == "--ssh"@ {
        if i + 1 < args.len() {
            cli_from(args, i + 2, agent_exec, Some(args[i + 1]), path)
        } else {
            CliModel::Fault("--ssh requires a [user@]host[:path] value"@)
        }
    } else if args[i].len() > 0 && args[i][0] == '-' {
        CliModel::Fault("unknown argument: "@ + args[i])
    } else if path is Some {
        CliModel::Fault("unexpected extra path argument: "@ + args[i])
    } else {
        cli_from(args, i + 1, agent_exec, ssh_target, Some(args[i]))
    }
}

pub open spec fn cli_model(r: Result<CliCommand, String>) -> CliModel {
    match r {
        Ok(CliCommand::ShowUsage) => CliModel::ShowUsage,
        Ok(CliCommand::Start(a)) => CliModel::Start {
            agent_exec: opt_view(a.agent_exec),
            ssh_target: opt_view(a.ssh_target),
            path: opt_view(a.path),
        },
        Err(e) => CliModel::Fault(e@),
    }
}

fn fault(what: &str, arg: &str) -> (r: Result<CliCommand, String>)
    ensures
        cli_model(r) == CliModel::Fault(what@ + arg@),
{
    let mut m = what.to_owned();
    m.append(arg);
    Err(m)
}

/// Reads the arguments behind the program's name.
pub fn parse_args(argv: &Vec<String>) -> (r: Result<CliCommand, String>)
    ensures
        cli_model(r) == cli_from(views(argv@), 0, None, None, None),
{
    let ghost all = views(argv@);
    let mut args = AppArgs { agent_exec: None, ssh_target: None, path: None };
    let n: usize = argv.len();
    let mut i: usize = 0;
    while i < n
        invariant
            i <= n == argv@.len(),
            all == views(argv@),
            cli_from(
                all,
                i as int,
                opt_view(args.agent_exec),
                opt_view(args.ssh_target),
                opt_view(args.path),
            ) == cli_from(all, 0, None, None, None),
        decreases n - i,
    {
        assert(all[i as int] == argv@[i as int]@);
        let arg = argv[i].as_str();
        if same_str(arg, "--help") || same_str(arg, "-h") {
            return Ok(CliCommand::ShowUsage);
        }
        if same_str(arg, "--agent-exec") {
            if i + 1 >= n {
                return Err("--agent-exec requires a value".to_owned());
            }
            assert(all[i + 1] == argv@[i + 1]@);
            args.agent_exec = Some(argv[i + 1].clone());
            i = i + 2;
        } else if same_str(arg, "--ssh") {
            if i + 1 >= n {
                return Err("--ssh requires a [user@]host[:path] value".to_owned());
            }
            assert(all[i + 1] == argv@[i + 1]@);
            args.ssh_target = Some(argv[i + 1].clone());
            i = i + 2;
        } else {
            let v = chars_of(arg);
            if v.len() > 0 && v[0] == '-' {
                return fault("unknown argument: ", arg);
            }
            if args.path.is_some() {
                return fault("unexpected extra path argument: ", arg);
            }
            args.path = Some(argv[i].clone());
            i = i + 1;
        }
    }
    let two = (args.agent_exec.is_some() && args.ssh_target.is_some()) || (
    args.agent_exec.is_some() && args.path.is_some()) || (args.ssh_target.is_some()
        && args.path.is_some());
    if two {
        return Err("--agent-exec, --ssh, and <PATH> are mutually exclusive".to_owned());
    }
    Ok(CliCommand::Start(args))
}

// ── Where to work ────────────────────────────────────────────────────────

/// `raw` with a leading `~` read as the home directory; `None` where that is
/// needed and there is none.
pub open spec fn expanded(raw: Seq<char>, home: Option<Seq<char>>) -> Option<Seq<char>> {
    if raw == "~"@ {
        home
    } else {
        match after_prefix(raw, "~/"@) {
            Some(rest) => match home {
                Some(h) => Some(pushed_path(h, rest)),
                None => None,
            },
            None => Some(raw),
        }
    }
}

pub fn expand_tilde(raw: &str, home: &Option<String>) -> (r: Result<String, String>)
    ensures
        match expanded(raw@, opt_view(*home)) {
            Some(p) => r matches Ok(s) && s@ == p,
            None => r matches Err(e) && e@ == "cannot expand `~`: $HOME not set"@,
        },
{
    if same_str(raw, "~") {
        return match home {
            Some(h) => Ok(h.clone()),
            None => Err("cannot expand `~`: $HOME not set".to_owned()),
        };
    }
    match strip_prefix(raw, "~/") {
        Some(rest) => match home {
            Some(h) => Ok(push_path(h.as_str(), rest.as_str())),
            None => Err("cannot expand `~`: $HOME not set".to_owned()),
        },
        None => Ok(raw.to_owned()),
    }
}

/// What the file system says about a path: its canonical form and whether it
/// is a directory, or why it cannot be opened.
#[derive(Debug)]
pub enum Found {
    At { path: String, is_dir: bool },
    Unreachable(String),
}

/// Accepts `raw` as a workspace if what it names is a directory.
pub fn resolve_local_path(raw: &str, found: Found) -> (r: Result<String, String>)
    ensures
        match found {
            Found::At { path, is_dir } => if is_dir {
                r == Ok::<String, String>(path)
            } else {
                r matches Err(e) && e@ == "`"@ + raw@ + "` is not a directory"@
            },
            Found::Unreachable(why) => r matches Err(e) && e@ == "cannot open `"@ + raw@ + "`: "@
                + why@,
        },
{
    match found {
        Found::At { path, is_dir } => {
            if is_dir {
                return Ok(path);
            }
            let mut m = "`".to_owned();
            m.append(raw);
            m.append("` is not a directory");
            Err(m)
        },
        Found::Unreachable(why) => {
            let mut m = "cannot open `".to_owned();
            m.append(raw);
            m.append("`: ");
            m.append(why.as_str());
            Err(m)
        },
    }
}

/// The host and the directory of a `[user@]host[:path]` target: cut at the
/// first colon, with `.` for a directory that is not given.
pub open spec fn target_parts(target: Seq<char>) -> (Seq<char>, Seq<char>) {
    let k = index_of_char(target, ':');
    if k >= target.len() {
        (target, "."@)
    } else if k + 1 == target.len() {
        (target.take(k), "."@)
    } else {
        (target.take(k), target.skip(k + 1))
    }
}

pub fn split_ssh_target(target: &str) -> (r: (String, String))
    ensures
        (r.0@, r.1@) == target_parts(target@),
{
    let v = chars_of(target);
    let n: usize = v.len();
    let k: usize = find_char(v.as_slice(), ':');
    if k == n {
        return (target.to_owned(), ".".to_owned());
    }
    let host = string_of(v.as_slice(), 0, k);
    assert(host@ =~= target@.take(k as int));
    if k + 1 == n {
        return (host, ".".to_owned());
    }
    let path = string_of(v.as_slice(), k + 1, n);
    assert(path@ =~= target@.skip(k + 1));
    (host, path)
}

/// How a remote directory is shown behind its host.
pub open spec fn suffix_of(path: Seq<char>) -> Seq<char> {
    if path == "."@ {
        Seq::empty()
    } else {
        ":"@ + path
    }
}

pub fn remote_path_suffix(path: &str) -> (r: String)
    ensures
        r@ == suffix_of(path@),
{
    if same_str(path, ".") {
        return String::new();
    }
    let mut s = ":".to_owned();
    s.append(path);
    s
}

/// Where the program works.
#[derive(Debug)]
pub enum Launch {
    Ssh { host: String, workdir: String },
    Agent { argv: Vec<String> },
    Directory { raw: String },
    CurrentDirectory,
}

pub enum LaunchModel {
    Ssh { host: Seq<char>, workdir: Seq<char> },
    Agent { argv: Seq<Seq<char>> },
    Directory { raw: Seq<char> },
    CurrentDirectory,
    Fault(Seq<char>),
}

pub open spec fn launch_model(r: Result<Launch, String>) -> LaunchModel {
    match r {
        Ok(Launch::Ssh { host, workdir }) => LaunchModel::Ssh { host: host@, workdir: workdir@ },
        Ok(Launch::Agent { argv }) => LaunchModel::Agent { argv: views(argv@) },
        Ok(Launch::Directory { raw }) => LaunchModel::Directory { raw: raw@ },
        Ok(Launch::CurrentDirectory) => LaunchModel::CurrentDirectory,
        Err(e) => LaunchModel::Fault(e@),
    }
}

/// A remote target comes first, then an agent command, then a directory.
pub open spec fn launch_of(
    agent_exec: Option<Seq<char>>,
    ssh_target: Option<Seq<char>>,
    path: Option<Seq<char>>,
) -> LaunchModel {
    match ssh_target {
        Some(t) => {
            let (host, workdir) = target_parts(t);
            if host.len() == 0 {
                LaunchModel::Fault("--ssh value is missing a host"@)
            } else {
                LaunchModel::Ssh { host, workdir }
            }
        },
        None => match agent_exec {
            Some(spec) => if words(spec).len() == 0 {
                LaunchModel::Fault("--agent-exec value is empty"@)
            } else {
                LaunchModel::Agent { argv: words(spec) }
            },
            None => match path {
                Some(raw) => LaunchModel::Directory { raw },
                None => LaunchModel::CurrentDirectory,
            },
        },
    }
}

pub fn launch_plan(args: &AppArgs) -> (r: Result<Launch, String>)
    ensures
        launch_model(r) == launch_of(
            opt_view(args.agent_exec),
            opt_view(args.ssh_target),
            opt_view(args.path),
        ),
{
    if let Some(t) = &args.ssh_target {
        return ssh_plan(t.as_str());
    }
    if let Some(spec) = &args.agent_exec {
        let argv = split_words(spec.as_str());
        if argv.len() == 0 {
            return Err("--agent-exec value is empty".to_owned());
        }
        return Ok(Launch::Agent { argv });
    }
    match &args.path {
        Some(raw) => Ok(Launch::Directory { raw: raw.clone() }),
        None => Ok(Launch::CurrentDirectory),
    }
}

/// The plan for a remote target; also used when a session moves to another
/// host.
pub fn ssh_plan(target: &str) -> (r: Result<Launch, String>)
    ensures
        launch_model(r) == launch_of(None, Some(target@), None),
{
    let (host, workdir) = split_ssh_target(target);
    if host.as_str().is_empty() {
        return Err("--ssh value is missing a host".to_owned());
    }
    Ok(Launch::Ssh { host, workdir })
}

/// The line that is printed before connecting.
pub fn connecting_line(host: &str, workdir: &str) -> (r: String)
    ensures
        r@ == "reef: connecting to "@ + host@ + suffix_of(workdir@),
{
    let mut s = "reef: connecting to ".to_owned();
    s.append(host);
    let tail = remote_path_suffix(workdir);
    s.append(tail.as_str());
    s
}

/// How the agent came to be on the remote host.
#[derive(Debug, Clone, Copy, PartialEq, Eq, Structural)]
pub enum InstallPath {
    AlreadyInstalled,
    Downloaded,
    Uploaded,
}

pub open spec fn via_text(via: InstallPath) -> Seq<char> {
    match via {
        InstallPath::AlreadyInstalled => "already installed"@,
        InstallPath::Downloaded => "downloaded from release"@,
        InstallPath::Uploaded => "uploaded from local build"@,
    }
}

/// The line that is printed once the remote agent is in place.
pub fn agent_ready_line(via: InstallPath, host: &str, remote_path: &str) -> (r: String)
    ensures
        r@ == "reef: remote agent ready ("@ + via_text(via) + ") at "@ + host@ + ":"@
            + remote_path@,
{
    let mut s = "reef: remote agent ready (".to_owned();
    match via {
        InstallPath::AlreadyInstalled => s.append("already installed"),
        InstallPath::Downloaded => s.append("downloaded from release"),
        InstallPath::Uploaded => s.append("uploaded from local build"),
    }
    s.append(") at ");
    s.append(host);
    s.append(":");
    s.append(remote_path);
    s
}

// ── The session ──────────────────────────────────────────────────────────

/// Whether a session starts with the list of hosts: after a connection that
/// failed, and when the program was started bare, outside any repository, and
/// no host is listed yet.
pub fn opens_hosts_picker(
    args: &AppArgs,
    connect_failed: bool,
    has_repo: bool,
    hosts_listed: usize,
) -> (r: bool)
    ensures
        r == (connect_failed || (modes(args.agent_exec, args.ssh_target, args.path) == 0
            && !has_repo && hosts_listed == 0)),
{
    connect_failed || (args.ssh_target.is_none() && args.agent_exec.is_none()
        && args.path.is_none() && !has_repo && hosts_listed == 0)
}

/// What becomes of a key press.
#[derive(Debug, Clone, Copy, PartialEq, Eq, Structural)]
pub enum KeyRoute {
    Drop,
    ToggleSelectMode,
    CloseHelp,
    Handle,
}

/// Only presses count. `Alt+V` toggles the selection mode before anything
/// else sees the key, and any other key closes the help page if it is up.
pub fn route_key(pressed: bool, c: Option<char>, alt: bool, ctrl: bool, show_help: bool) -> (r:
    KeyRoute)
    ensures
        r == (if !pressed {
            KeyRoute::Drop
        } else if (c == Some('v') || c == Some('V')) && alt && !ctrl {
            KeyRoute::ToggleSelectMode
        } else if show_help {
            KeyRoute::CloseHelp
        } else {
            KeyRoute::Handle
        }),
{
    if !pressed {
        return KeyRoute::Drop;
    }
    let v = match c {
        Some(c) => c == 'v' || c == 'V',
        None => false,
    };
    if v && alt && !ctrl {
        KeyRoute::ToggleSelectMode
    } else if show_help {
        KeyRoute::CloseHelp
    } else {
        KeyRoute::Handle
    }
}

/// How the event loop goes on after a frame.
#[derive(Debug, Clone, Copy, PartialEq, Eq, Structural)]
pub enum Turn {
    NextFrame,
    /// Build a backend for the chosen host and start over.
    Reconnect,
    Leave,
}

/// Quitting wins. Leaving the session starts the next one if a host was
/// chosen, and ends the program if none was.
pub fn after_frame(should_quit: bool, should_quit_session: bool, host_chosen: bool) -> (r: Turn)
    ensures
        r == (if should_quit || (should_quit_session && !host_chosen) {
            Turn::Leave
        } else if should_quit_session {
            Turn::Reconnect
        } else {
            Turn::NextFrame
        }),
{
    if should_quit {
        Turn::Leave
    } else if should_quit_session {
        if host_chosen {
            Turn::Reconnect
        } else {
            Turn::Leave
        }
    } else {
        Turn::NextFrame
    }
}

/// Arguments that are accepted choose at most one workspace.
pub proof fn law_one_workspace(args: Seq<Seq<char>>, i: int, a: Option<Seq<char>>, s: Option<
    Seq<char>,
>, p: Option<Seq<char>>)
    requires
        0 <= i,
    ensures
        cli_from(args, i, a, s, p) matches CliModel::Start { agent_exec, ssh_target, path } ==> modes(
            agent_exec,
            ssh_target,
            path,
        ) <= 1,
    decreases
            (if i < args.len() {
                args.len() - i
            } else {
                0
            }),
{
    if i < args.len() {
        law_one_workspace(args, i + 2, Some(args[i + 1]), s, p);
        law_one_workspace(args, i + 2, a, Some(args[i + 1]), p);
        law_one_workspace(args, i + 1, a, s, Some(args[i]));
    }
}

/// The host of a target holds no colon.
pub proof fn law_host_has_no_colon(target: Seq<char>, j: int)
    requires
        0 <= j < target_parts(target).0.len(),
    ensures
        target_parts(target).0[j] != ':',
{
    lemma_index_of_char(target, ':');
}

} // verus!
