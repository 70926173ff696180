//! The `git` commands that the program runs: their arguments, the checks made
//! before one is run, and what its outcome means.
use crate::text::{bytes_text, opt_view, text_of_bytes, trim, trimmed, views};
use vstd::prelude::*;
use vstd::string::*;

verus! {

/// How running a command ended.
#[derive(Debug)]
pub enum CommandOutcome {
    /// There is no such executable.
    NotFound,
    SpawnFailed(String),
    StdinMissing,
    WriteFailed(String),
    WaitFailed(String),
    Exited {
        success: bool,
        stdout: Vec<u8>,
        stderr: Vec<u8>,
    },
}

/// What a failed command has to say: its error output, else its output, else
/// the fallback.
pub open spec fn complaint(stderr: Seq<u8>, stdout: Seq<u8>, fallback: Seq<char>) -> Seq<char> {
    let e = trimmed(bytes_text(stderr));
    let o = trimmed(bytes_text(stdout));
    if e.len() > 0 {
        e
    } else if o.len() > 0 {
        o
    } else {
        fallback
    }
}

/// The error of a command's outcome, or none when it succeeded.
pub open spec fn outcome_error(
    o: CommandOutcome,
    missing: Seq<char>,
    fallback: Seq<char>,
) -> Option<Seq<char>> {
    match o {
        CommandOutcome::NotFound => Some(missing),
        CommandOutcome::SpawnFailed(e) => Some("failed to run git: "@ + e@),
        CommandOutcome::StdinMissing => Some("failed to open git stdin"@),
        CommandOutcome::WriteFailed(e) => Some("failed to write commit message: "@ + e@),
        CommandOutcome::WaitFailed(e) => Some("failed to wait on git: "@ + e@),
        CommandOutcome::Exited { success, stdout, stderr } => if success {
            None
        } else {
            Some(complaint(stderr@, stdout@, fallback))
        },
    }
}

pub open spec fn error_view(r: Result<(), String>) -> Option<Seq<char>> {
    match r {
        Ok(_) => None,
        Err(e) => Some(e@),
    }
}

fn prefixed(prefix: &str, e: &String) -> (r: String)
    ensures
        r@ == prefix@ + e@,
{
    let mut s = prefix.to_owned();
    s.append(e.as_str());
    s
}

fn failure_text(stderr: &Vec<u8>, stdout: &Vec<u8>, fallback: &str) -> (r: String)
    ensures
        r@ == complaint(stderr@, stdout@, fallback@),
{
    let e = trim(text_of_bytes(stderr.as_slice()).as_str());
    if !e.as_str().is_empty() {
        return e;
    }
    let o = trim(text_of_bytes(stdout.as_slice()).as_str());
    if !o.as_str().is_empty() {
        return o;
    }
    fallback.to_owned()
}

/// Success or the command's error.
pub fn command_result(o: &CommandOutcome, missing: &str, fallback: &str) -> (r: Result<(), String>)
    ensures
        error_view(r) == outcome_error(*o, missing@, fallback@),
{
    match o {
        CommandOutcome::NotFound => Err(missing.to_owned()),
        CommandOutcome::SpawnFailed(e) => Err(prefixed("failed to run git: ", e)),
        CommandOutcome::StdinMissing => Err("failed to open git stdin".to_owned()),
        CommandOutcome::WriteFailed(e) => Err(prefixed("failed to write commit message: ", e)),
        CommandOutcome::WaitFailed(e) => Err(prefixed("failed to wait on git: ", e)),
        CommandOutcome::Exited { success, stdout, stderr } => if *success {
            Ok(())
        } else {
            Err(failure_text(stderr, stdout, fallback))
        },
    }
}

/// The words of `args` with one space between neighbours.
pub open spec fn spaced(args: Seq<Seq<char>>) -> Seq<char>
    decreases args.len(),
{
    if args.len() == 0 {
        Seq::empty()
    } else if args.len() == 1 {
        args[0]
    } else {
        spaced(args.drop_last()).push(' ') + args.last()
    }
}

fn join_spaced(args: &Vec<String>) -> (r: String)
    ensures
        r@ == spaced(views(args@)),
{
    let mut out = String::new();
    let mut i: usize = 0;
    let ghost all = views(args@);
    assert(all.take(0) =~= Seq::empty());
    while i < args.len()
        invariant
            i <= args@.len(),
            all == views(args@),
            out@ == spaced(all.take(i as int)),
        decreases args@.len() - i,
    {
        if i > 0 {
            out.push(' ');
        }
        out.append(args[i].as_str());
        proof {
            assert(all[i as int] == args@[i as int]@);
            assert(all.take(i + 1).drop_last() =~= all.take(i as int));
            if i == 0 {
                assert(out@ =~= all[0]);
                assert(all.take(1)[0] == all[0]);
            }
        }
        i = i + 1;
    }
    assert(all.take(args@.len() as int) =~= all);
    out
}

/// The standard output of a plain git command, or its error.
pub fn run_git_command(o: &CommandOutcome, args: &Vec<String>) -> (r: Result<String, String>)
    ensures
        ({
            let err = outcome_error(
                *o,
                "git executable not found on PATH"@,
                "git "@ + spaced(views(args@)) + " failed"@,
            );
            match r {
                Ok(out) => err is None && out@ == bytes_text((o->stdout)@),
                Err(e) => err == Some(e@),
            }
        }),
{
    let mut fallback = "git ".to_owned();
    fallback.append(join_spaced(args).as_str());
    fallback.append(" failed");
    match command_result(o, "git executable not found on PATH", fallback.as_str()) {
        Ok(_) => match o {
            CommandOutcome::Exited { success, stdout, stderr } => Ok(
                text_of_bytes(stdout.as_slice()),
            ),
            _ => Ok(String::new()),
        },
        Err(e) => Err(e),
    }
}

fn word(s: &str) -> (r: String)
    ensures
        r@ == s@,
{
    s.to_owned()
}

/// `git push`, with a lease when forced.
pub open spec fn push_words(force: bool) -> Seq<Seq<char>> {
    if force {
        seq!["push"@, "--force-with-lease"@]
    } else {
        seq!["push"@]
    }
}

/// The arguments of a push of the current branch to its upstream. A forced
/// push still refuses to overwrite commits that were never fetched.
pub fn push_at(force: bool) -> (r: Vec<String>)
    ensures
        views(r@) == push_words(force),
{
    let mut args: Vec<String> = Vec::new();
    args.push(word("push"));
    if force {
        args.push(word("--force-with-lease"));
    }
    assert(views(args@) =~= push_words(force));
    args
}

pub open spec fn push_missing() -> Seq<char> {
    "git executable not found on PATH — push requires a `git` binary on the host running the backend (install git on the remote to enable push)"@
}

/// What a push came to. Its output is not consulted, only its error output.
pub open spec fn push_error(o: CommandOutcome) -> Option<Seq<char>> {
    match o {
        CommandOutcome::Exited { success, stdout, stderr } => if success {
            None
        } else {
            Some(
                if trimmed(bytes_text(stderr@)).len() > 0 {
                    trimmed(bytes_text(stderr@))
                } else {
                    "push failed"@
                },
            )
        },
        _ => outcome_error(o, push_missing(), "push failed"@),
    }
}

pub fn push_result(o: &CommandOutcome) -> (r: Result<(), String>)
    ensures
        error_view(r) == push_error(*o),
{
    match o {
        CommandOutcome::Exited { success, stdout, stderr } => if *success {
            Ok(())
        } else {
            let e = trim(text_of_bytes(stderr.as_slice()).as_str());
            if e.as_str().is_empty() {
                Err("push failed".to_owned())
            } else {
                Err(e)
            }
        },
        _ => command_result(
            o,
            "git executable not found on PATH — push requires a `git` binary on the host running the backend (install git on the remote to enable push)",
            "push failed",
        ),
    }
}

/// The arguments that publish the current branch and set its upstream, or why
/// it cannot be published. `on_branch` is git's error, or whether the head is
/// a branch.
pub fn publish_branch_at(on_branch: Result<bool, String>, has_origin: bool) -> (r: Result<
    Vec<String>,
    String,
>)
    ensures
        match on_branch {
            Err(e) => r == Err::<Vec<String>, String>(e),
            Ok(is_branch) => if !is_branch {
                r is Err && (r->Err_0)@ == "cannot publish detached HEAD"@
            } else if !has_origin {
                r is Err && (r->Err_0)@ == "remote 'origin' not found"@
            } else {
                r is Ok && views((r->Ok_0)@) == seq!["push"@, "-u"@, "origin"@, "HEAD"@]
            },
        },
{
    match on_branch {
        Err(e) => Err(e),
        Ok(is_branch) => {
            if !is_branch {
                return Err("cannot publish detached HEAD".to_owned());
            }
            if !has_origin {
                return Err("remote 'origin' not found".to_owned());
            }
            let mut args: Vec<String> = Vec::new();
            args.push(word("push"));
            args.push(word("-u"));
            args.push(word("origin"));
            args.push(word("HEAD"));
            assert(views(args@) =~= seq!["push"@, "-u"@, "origin"@, "HEAD"@]);
            Ok(args)
        },
    }
}

pub fn publish_result(o: &CommandOutcome) -> (r: Result<(), String>)
    ensures
        error_view(r) == outcome_error(
            *o,
            "git executable not found on PATH - publish requires a `git` binary"@,
            "publish failed"@,
        ),
{
    command_result(
        o,
        "git executable not found on PATH - publish requires a `git` binary",
        "publish failed",
    )
}

/// The arguments of a pull that only fast-forwards.
pub fn pull_at() -> (r: Vec<String>)
    ensures
        views(r@) == seq!["pull"@, "--ff-only"@],
{
    let mut args: Vec<String> = Vec::new();
    args.push(word("pull"));
    args.push(word("--ff-only"));
    assert(views(args@) =~= seq!["pull"@, "--ff-only"@]);
    args
}

pub fn pull_result(o: &CommandOutcome) -> (r: Result<(), String>)
    ensures
        error_view(r) == outcome_error(
            *o,
            "git executable not found on PATH — pull requires a `git` binary"@,
            "pull failed"@,
        ),
{
    command_result(
        o,
        "git executable not found on PATH — pull requires a `git` binary",
        "pull failed",
    )
}

/// The arguments of a commit whose message comes on standard input. A blank
/// message is refused before git is run.
pub fn commit_at(message: &str) -> (r: Result<Vec<String>, String>)
    ensures
        trimmed(message@).len() == 0 <==> r is Err,
        r matches Err(e) ==> e@ == "empty commit message"@,
        r matches Ok(args) ==> views(args@) == seq!["commit"@, "-F"@, "-"@],
{
    if trim(message).as_str().is_empty() {
        return Err("empty commit message".to_owned());
    }
    let mut args: Vec<String> = Vec::new();
    args.push(word("commit"));
    args.push(word("-F"));
    args.push(word("-"));
    assert(views(args@) =~= seq!["commit"@, "-F"@, "-"@]);
    Ok(args)
}

pub fn commit_result(o: &CommandOutcome) -> (r: Result<(), String>)
    ensures
        error_view(r) == outcome_error(
            *o,
            "git executable not found on PATH — commit requires a `git` binary on the host running the backend (install git on the remote to enable commit)"@,
            "commit failed"@,
        ),
{
    command_result(
        o,
        "git executable not found on PATH — commit requires a `git` binary on the host running the backend (install git on the remote to enable commit)",
        "commit failed",
    )
}

/// A control character: below the space, or the delete character.
pub open spec fn is_control(c: char) -> bool {
    (c as u32) < 0x20 || c as u32 == 0x7f
}

/// Names that git would read as an option, or that hold control characters.
pub open spec fn unsafe_name(s: Seq<char>) -> bool {
    (s.len() > 0 && s[0] == '-') || exists|i: int| 0 <= i < s.len() && is_control(#[trigger] s[i])
}

fn name_unsafe(s: &str) -> (r: bool)
    ensures
        r == unsafe_name(s@),
{
    let v = crate::text::chars_of(s);
    if v.len() > 0 && v[0] == '-' {
        return true;
    }
    let mut i: usize = 0;
    while i < v.len()
        invariant
            i <= v@.len(),
            v@ == s@,
            v@.len() > 0 ==> v@[0] != '-',
            forall|j: int| 0 <= j < i ==> !is_control(#[trigger] v@[j]),
        decreases v@.len() - i,
    {
        let c: char = v[i];
        if (c as u32) < 0x20 || c as u32 == 0x7f {
            assert(is_control(v@[i as int]));
            return true;
        }
        i = i + 1;
    }
    false
}

/// What is wrong with a branch name, judged without its surrounding blanks.
pub open spec fn branch_fault(name: Seq<char>) -> Option<Seq<char>> {
    let n = trimmed(name);
    if n.len() == 0 {
        Some("empty branch name"@)
    } else if unsafe_name(n) {
        Some("invalid branch name"@)
    } else {
        None
    }
}

/// The branch name to work with, or why it is refused.
pub fn branch_name(branch: &str) -> (r: Result<String, String>)
    ensures
        match r {
            Ok(n) => branch_fault(branch@) is None && n@ == trimmed(branch@),
            Err(e) => branch_fault(branch@) == Some(e@),
        },
{
    let n = trim(branch);
    if n.as_str().is_empty() {
        return Err("empty branch name".to_owned());
    }
    if name_unsafe(n.as_str()) {
        return Err("invalid branch name".to_owned());
    }
    Ok(n)
}

/// The arguments that switch to an existing local branch, or why not. `found`
/// is git's error, or whether there is such a branch.
pub fn checkout_branch_at(branch: &str, found: Result<bool, String>) -> (r: Result<
    Vec<String>,
    String,
>)
    ensures
        match branch_fault(branch@) {
            Some(e) => r is Err && (r->Err_0)@ == e,
            None => match found {
                Err(e) => r == Err::<Vec<String>, String>(e),
                Ok(is_there) => if is_there {
                    r is Ok && views((r->Ok_0)@) == seq!["checkout"@, trimmed(branch@)]
                } else {
                    r is Err && (r->Err_0)@ == "branch not found: "@ + trimmed(branch@)
                },
            },
        },
{
    let n = match branch_name(branch) {
        Ok(n) => n,
        Err(e) => return Err(e),
    };
    match found {
        Err(e) => Err(e),
        Ok(is_there) => {
            if !is_there {
                return Err(prefixed("branch not found: ", &n));
            }
            let mut args: Vec<String> = Vec::new();
            args.push(word("checkout"));
            args.push(n);
            assert(views(args@) =~= seq!["checkout"@, trimmed(branch@)]);
            Ok(args)
        },
    }
}

pub fn checkout_result(o: &CommandOutcome) -> (r: Result<(), String>)
    ensures
        error_view(r) == outcome_error(
            *o,
            "git executable not found on PATH — branch switching requires a `git` binary"@,
            "checkout failed"@,
        ),
{
    command_result(
        o,
        "git executable not found on PATH — branch switching requires a `git` binary",
        "checkout failed",
    )
}

pub open spec fn create_missing() -> Seq<char> {
    "git executable not found on PATH — branch creation requires a `git` binary"@
}

/// Why a branch cannot be created, in the order in which the checks are made:
/// its name, its existence, git's own format check, and the base.
pub open spec fn create_fault(
    branch: Seq<char>,
    exists_already: bool,
    check: CommandOutcome,
    base: Option<Seq<char>>,
    base_found: bool,
) -> Option<Seq<char>> {
    if branch_fault(branch) is Some {
        branch_fault(branch)
    } else if exists_already {
        Some("branch already exists: "@ + trimmed(branch))
    } else if check is Exited {
        if !(check->success) {
            Some("invalid branch name"@)
        } else {
            match base_of(base) {
                Some(b) => if unsafe_name(b) {
                    Some("invalid base branch"@)
                } else if !base_found {
                    Some("base branch not found: "@ + b)
                } else {
                    None
                },
                None => None,
            }
        }
    } else {
        outcome_error(check, create_missing(), Seq::empty())
    }
}

/// The base to branch from; a blank one is none.
pub open spec fn base_of(base: Option<Seq<char>>) -> Option<Seq<char>> {
    match base {
        Some(b) => if trimmed(b).len() == 0 {
            None
        } else {
            Some(trimmed(b))
        },
        None => None,
    }
}

/// The arguments that create a branch and switch to it, or why not.
pub fn create_branch_at(
    branch: &str,
    exists_already: bool,
    check: &CommandOutcome,
    base: &Option<String>,
    base_found: bool,
) -> (r: Result<Vec<String>, String>)
    ensures
        ({
            let base_view = opt_view(*base);
            match r {
                Err(e) => create_fault(branch@, exists_already, *check, base_view, base_found)
                    == Some(e@),
                Ok(args) => create_fault(branch@, exists_already, *check, base_view, base_found)
                    is None && views(args@) == (match base_of(base_view) {
                    Some(b) => seq!["checkout"@, "-b"@, trimmed(branch@), b],
                    None => seq!["checkout"@, "-b"@, trimmed(branch@)],
                }),
            }
        }),
{
    let n = match branch_name(branch) {
        Ok(n) => n,
        Err(e) => return Err(e),
    };
    if exists_already {
        return Err(prefixed("branch already exists: ", &n));
    }
    match check {
        CommandOutcome::Exited { success, stdout, stderr } => {
            if !*success {
                return Err("invalid branch name".to_owned());
            }
        },
        _ => {
            return match command_result(
                check,
                "git executable not found on PATH — branch creation requires a `git` binary",
                "",
            ) {
                Ok(_) => Err(String::new()),
                Err(e) => Err(e),
            };
        },
    }
    let mut args: Vec<String> = Vec::new();
    args.push(word("checkout"));
    args.push(word("-b"));
    args.push(n);
    match base {
        Some(b) => {
            let t = trim(b.as_str());
            if !t.as_str().is_empty() {
                if name_unsafe(t.as_str()) {
                    return Err("invalid base branch".to_owned());
                }
                if !base_found {
                    return Err(prefixed("base branch not found: ", &t));
                }
                args.push(t);
                assert(views(args@) =~= seq!["checkout"@, "-b"@, trimmed(branch@), trimmed(b@)]);
                return Ok(args);
            }
        },
        None => {},
    }
    assert(views(args@) =~= seq!["checkout"@, "-b"@, trimmed(branch@)]);
    Ok(args)
}

pub fn create_result(o: &CommandOutcome) -> (r: Result<(), String>)
    ensures
        error_view(r) == outcome_error(*o, create_missing(), "branch creation failed"@),
{
    command_result(
        o,
        "git executable not found on PATH — branch creation requires a `git` binary",
        "branch creation failed",
    )
}

} // verus!
