use reef::git::{
    collect_diff_line_counts, collect_files_from_diff, commit_to_info, get_diff, get_status,
    get_untracked_diff, parse_git2_diff, restore_file, stage_file, unstage_file, DeltaKind,
    DiffSource, FileDelta, FileStatus, FileStep, LineTag, PatchLine, RefLabel, StashEntry,
    StashPushOptions, StatusFlags, StatusRecord,
};
use reef::git_command::{
    branch_name, checkout_branch_at, command_result, commit_at, commit_result, create_branch_at,
    create_result, publish_branch_at, pull_at, pull_result, push_at, push_result, run_git_command,
    CommandOutcome,
};
use reef::refs::{list_refs, ref_label, RefRecord};
use reef::stash::{
    list_stashes_at, parse_numstat_z, parse_stash_branch, stash_apply_at, stash_branch_at,
    stash_detail_at, stash_drop_at, stash_entry, stash_files, stash_list_args, stash_pop_at,
    stash_push_at, stash_show_args, stash_stats_at, StashFormat,
};

fn s(t: &str) -> String {
    t.to_string()
}

fn exited(success: bool, stdout: &str, stderr: &str) -> CommandOutcome {
    CommandOutcome::Exited {
        success,
        stdout: stdout.as_bytes().to_vec(),
        stderr: stderr.as_bytes().to_vec(),
    }
}

#[test]
fn a_failed_command_says_why() {
    let result = |o: &CommandOutcome| command_result(o, "no git", "it failed");
    assert_eq!(result(&exited(true, "out", "warning")), Ok(()));
    assert_eq!(result(&exited(false, "out", " fatal: bad \n")), Err(s("fatal: bad")));
    assert_eq!(result(&exited(false, " rejected\n", " \n")), Err(s("rejected")));
    assert_eq!(result(&exited(false, "", "")), Err(s("it failed")));
    assert_eq!(result(&CommandOutcome::NotFound), Err(s("no git")));
    assert_eq!(
        result(&CommandOutcome::SpawnFailed(s("denied"))),
        Err(s("failed to run git: denied"))
    );
    assert_eq!(result(&CommandOutcome::StdinMissing), Err(s("failed to open git stdin")));
    assert_eq!(
        result(&CommandOutcome::WriteFailed(s("full"))),
        Err(s("failed to write commit message: full"))
    );
    assert_eq!(
        result(&CommandOutcome::WaitFailed(s("gone"))),
        Err(s("failed to wait on git: gone"))
    );
}

#[test]
fn output_that_is_not_utf8_is_shown_with_replacements() {
    let o = CommandOutcome::Exited {
        success: false,
        stdout: Vec::new(),
        stderr: vec![b'a', 0xff, b'b'],
    };
    assert_eq!(command_result(&o, "", ""), Err(s("a\u{fffd}b")));
    let o = CommandOutcome::Exited {
        success: true,
        stdout: vec![0xc3, 0xa9, 0xff],
        stderr: Vec::new(),
    };
    assert_eq!(run_git_command(&o, &Vec::new()), Ok(s("é\u{fffd}")));
}

#[test]
fn a_plain_command_names_itself_when_it_fails() {
    let args = vec![s("stash"), s("list")];
    assert_eq!(run_git_command(&exited(true, " a \n", ""), &args), Ok(s(" a \n")));
    assert_eq!(run_git_command(&exited(false, "", ""), &args), Err(s("git stash list failed")));
    assert_eq!(
        run_git_command(&CommandOutcome::NotFound, &args),
        Err(s("git executable not found on PATH"))
    );
}

#[test]
fn push_and_pull_and_commit() {
    assert_eq!(push_at(false), ["push"]);
    assert_eq!(push_at(true), ["push", "--force-with-lease"]);
    assert_eq!(push_result(&exited(false, "on stdout", "")), Err(s("push failed")));
    assert_eq!(push_result(&exited(false, "", "rejected")), Err(s("rejected")));
    assert!(push_result(&CommandOutcome::NotFound).unwrap_err().contains("push requires"));
    assert_eq!(pull_at(), ["pull", "--ff-only"]);
    assert_eq!(pull_result(&exited(false, "diverged", "")), Err(s("diverged")));
    assert_eq!(commit_at("fix\n").unwrap(), ["commit", "-F", "-"]);
    assert_eq!(commit_at(" \n\t").unwrap_err(), "empty commit message");
    assert_eq!(commit_result(&exited(false, "", "")), Err(s("commit failed")));
}

#[test]
fn publishing_needs_a_branch_and_an_origin() {
    assert_eq!(publish_branch_at(Ok(true), true).unwrap(), ["push", "-u", "origin", "HEAD"]);
    assert_eq!(publish_branch_at(Ok(false), true).unwrap_err(), "cannot publish detached HEAD");
    assert_eq!(publish_branch_at(Ok(true), false).unwrap_err(), "remote 'origin' not found");
    assert_eq!(publish_branch_at(Err(s("broken")), true).unwrap_err(), "broken");
}

#[test]
fn branch_names_are_checked() {
    assert_eq!(branch_name("  topic "), Ok(s("topic")));
    assert_eq!(branch_name(" "), Err(s("empty branch name")));
    assert_eq!(branch_name("-f"), Err(s("invalid branch name")));
    assert_eq!(branch_name("a\u{7}b"), Err(s("invalid branch name")));
    assert_eq!(branch_name("a\u{7f}"), Err(s("invalid branch name")));
    assert_eq!(branch_name("é"), Ok(s("é")));
    assert_eq!(checkout_branch_at("main", Ok(true)).unwrap(), ["checkout", "main"]);
    assert_eq!(checkout_branch_at("x", Ok(false)).unwrap_err(), "branch not found: x");
    assert_eq!(checkout_branch_at("x", Err(s("io"))).unwrap_err(), "io");
    assert_eq!(checkout_branch_at("", Err(s("io"))).unwrap_err(), "empty branch name");
}

#[test]
fn a_branch_is_created_after_every_check() {
    let good = exited(true, "", "");
    let make = |name: &str, exists, check: &CommandOutcome, base: Option<&str>, found| {
        create_branch_at(name, exists, check, &base.map(s), found)
    };
    assert_eq!(make(" b ", false, &good, None, false).unwrap(), ["checkout", "-b", "b"]);
    assert_eq!(
        make("b", false, &good, Some(" main "), true).unwrap(),
        ["checkout", "-b", "b", "main"]
    );
    assert_eq!(make("b", false, &good, Some(" "), false).unwrap(), ["checkout", "-b", "b"]);
    assert_eq!(make("b", true, &good, None, true).unwrap_err(), "branch already exists: b");
    let bad = exited(false, "", "fatal");
    assert_eq!(make("b..c", false, &bad, None, true).unwrap_err(), "invalid branch name");
    assert_eq!(make("b", false, &good, Some("-x"), true).unwrap_err(), "invalid base branch");
    assert_eq!(
        make("b", false, &good, Some("dev"), false).unwrap_err(),
        "base branch not found: dev"
    );
    assert_eq!(
        make("b", false, &CommandOutcome::NotFound, None, true).unwrap_err(),
        "git executable not found on PATH — branch creation requires a `git` binary"
    );
    assert_eq!(create_result(&exited(false, "", "")), Err(s("branch creation failed")));
}

#[test]
fn references_become_labels() {
    assert!(matches!(ref_label("refs/heads/a/b"), Some(RefLabel::Branch(n)) if n == "a/b"));
    assert!(
        matches!(ref_label("refs/remotes/origin/x"), Some(RefLabel::RemoteBranch(n)) if n == "origin/x")
    );
    assert!(matches!(ref_label("refs/tags/v1"), Some(RefLabel::Tag(n)) if n == "v1"));
    assert!(ref_label("refs/remotes/origin/HEAD").is_none());
    assert!(ref_label("refs/stash").is_none());
}

#[test]
fn the_head_comes_first_on_its_commit() {
    let record = |name: &str, oid: Option<&str>| RefRecord { name: Some(s(name)), oid: oid.map(s) };
    let rows = list_refs(
        vec![
            record("refs/heads/main", Some("c1")),
            record("refs/tags/v1", Some("c2")),
            record("refs/remotes/origin/main", Some("c1")),
            record("refs/heads/gone", None),
            RefRecord { name: None, oid: Some(s("c3")) },
        ],
        Some(s("c1")),
    );
    assert_eq!(rows.len(), 2);
    let c1 = rows.iter().find(|r| r.oid == "c1").unwrap();
    assert!(matches!(&c1.labels[0], RefLabel::Head));
    assert!(matches!(&c1.labels[1], RefLabel::Branch(n) if n == "main"));
    assert!(matches!(&c1.labels[2], RefLabel::RemoteBranch(n) if n == "origin/main"));
    assert_eq!(c1.labels.len(), 3);
    let c2 = rows.iter().find(|r| r.oid == "c2").unwrap();
    assert!(matches!(c2.labels.as_slice(), [RefLabel::Tag(n)] if n == "v1"));
}

#[test]
fn stash_messages_name_their_branch() {
    assert_eq!(parse_stash_branch("WIP on main: 12ab fix"), "main");
    assert_eq!(parse_stash_branch("On a/b: my text: more"), "a/b");
    assert_eq!(parse_stash_branch("my text"), "");
    assert_eq!(parse_stash_branch("WIP on (no branch)"), "(no branch)");
}

#[test]
fn numstat_is_read_by_path() {
    let m = parse_numstat_z("3\t1\ta.rs\0-\t-\tlogo.png\04\t2\t\0old.rs\0new.rs\0");
    assert_eq!(m.get("a.rs"), Some((3, 1)));
    assert_eq!(m.get("logo.png"), Some((0, 0)));
    assert_eq!(m.get("new.rs"), Some((4, 2)));
    assert_eq!(m.get("old.rs"), None);
    assert_eq!(stash_stats_at("3\t1\ta\04\t2\tb\0", true), Some((2, 7, 3, true)));
    assert_eq!(stash_stats_at("", false), Some((0, 0, 0, false)));
    assert_eq!(stash_stats_at("4294967295\t0\ta\01\t0\tb\0", false), None);
}

#[test]
fn stashes_are_numbered_by_their_line() {
    let out = "stash@{0}\0WIP on main: x\02 hours ago\n\0\0\nstash@{2}\0On dev: y\n";
    let lines = list_stashes_at(out);
    assert_eq!(lines.len(), 2);
    assert_eq!((lines[0].index, lines[0].created.as_str()), (0, "2 hours ago"));
    assert_eq!((lines[1].index, lines[1].stash_ref.as_str()), (2, "stash@{2}"));
    assert_eq!(lines[1].created, "");
    let first = lines.into_iter().next().unwrap();
    let e = stash_entry(first, (2, 7, 3, true));
    assert_eq!((e.branch.as_str(), e.files_changed, e.includes_untracked), ("main", 2, true));
}

#[test]
fn stashed_files_carry_their_counts() {
    let files = stash_files("M\0a.rs\0R100\0old\0new\0D\0gone\0", "5\t1\ta.rs\0");
    let seen: Vec<_> = files.iter().map(|f| (f.path.as_str(), f.status, f.additions)).collect();
    assert_eq!(
        seen,
        [
            ("a.rs", FileStatus::Modified, 5),
            ("new", FileStatus::Renamed, 0),
            ("gone", FileStatus::Deleted, 0)
        ]
    );
}

fn entry(stash_ref: &str) -> StashEntry {
    StashEntry {
        index: 0,
        stash_ref: s(stash_ref),
        message: s("WIP on main: x"),
        created: s("now"),
        branch: s("main"),
        files_changed: 1,
        insertions: 1,
        deletions: 0,
        includes_untracked: false,
    }
}

#[test]
fn a_stash_is_shown_or_the_first_fault_is() {
    let ok = || Ok(s(""));
    let listed = || Ok(vec![entry("stash@{0}"), entry("stash@{1}")]);
    let d = stash_detail_at("stash@{1}", listed(), Ok(s("A\0n\0")), Err(s("x")), Ok(s("diff")));
    let d = d.unwrap();
    assert_eq!((d.entry.stash_ref.as_str(), d.patch.as_str()), ("stash@{1}", "diff"));
    assert_eq!(d.files.len(), 1);
    let e = stash_detail_at("stash@{9}", listed(), ok(), ok(), ok()).unwrap_err();
    assert_eq!(e, "stash not found: stash@{9}");
    let e = stash_detail_at("stash@{0}", Err(s("list")), ok(), ok(), ok()).unwrap_err();
    assert_eq!(e, "list");
    let e = stash_detail_at("stash@{0}", listed(), Err(s("names")), ok(), Err(s("patch")));
    assert_eq!(e.unwrap_err(), "names");
    let e = stash_detail_at("stash@{0}", listed(), ok(), ok(), Err(s("patch")));
    assert_eq!(e.unwrap_err(), "patch");
}

#[test]
fn stash_commands() {
    let opts = StashPushOptions {
        message: s("half done"),
        include_untracked: true,
        keep_index: true,
        staged_only: true,
        paths: vec![s("a"), s("b")],
    };
    assert_eq!(
        stash_push_at(&opts),
        ["stash", "push", "-u", "--keep-index", "--staged", "-m", "half done", "--", "a", "b"]
    );
    let plain = StashPushOptions {
        message: s("  "),
        include_untracked: false,
        keep_index: false,
        staged_only: false,
        paths: Vec::new(),
    };
    assert_eq!(stash_push_at(&plain), ["stash", "push"]);
    assert_eq!(stash_apply_at("s", true), ["stash", "apply", "--index", "s"]);
    assert_eq!(stash_pop_at("s", false), ["stash", "pop", "s"]);
    assert_eq!(stash_drop_at("s"), ["stash", "drop", "s"]);
    assert_eq!(stash_branch_at("s", "b"), ["stash", "branch", "b", "s"]);
    assert_eq!(stash_list_args(), ["stash", "list", "--format=%gd%x00%gs%x00%cr"]);
    assert_eq!(
        stash_show_args(StashFormat::Patch, "s"),
        ["stash", "show", "-p", "--include-untracked", "s"]
    );
}

fn flags() -> StatusFlags {
    StatusFlags {
        index_new: false,
        index_modified: false,
        index_deleted: false,
        index_renamed: false,
        wt_new: false,
        wt_modified: false,
        wt_deleted: false,
        wt_renamed: false,
    }
}

fn record(path: &str, flags: StatusFlags) -> StatusRecord {
    StatusRecord {
        flags,
        path: Some(s(path)),
        index_path: None,
        workdir_path: None,
        untracked: None,
    }
}

fn line(path: &str, origin: char, content: &str) -> PatchLine {
    PatchLine {
        new_path: Some(s(path)),
        old_path: None,
        origin,
        content: content.as_bytes().to_vec(),
        old_lineno: Some(1),
        new_lineno: None,
    }
}

#[test]
fn status_splits_into_sorted_staged_and_unstaged_files() {
    let mut renamed = record("old", StatusFlags { index_renamed: true, index_modified: true, ..flags() });
    renamed.index_path = Some(s("new"));
    let mut untracked = record("z", StatusFlags { wt_new: true, ..flags() });
    untracked.untracked = Some(b"one\ntwo".to_vec());
    let records = vec![
        untracked,
        record("b", StatusFlags { index_modified: true, wt_modified: true, ..flags() }),
        renamed,
        record("a", StatusFlags { index_new: true, wt_deleted: true, ..flags() }),
        StatusRecord { path: None, ..record("", StatusFlags { index_new: true, ..flags() }) },
    ];
    let staged_lines = vec![line("b", '+', "x\n"), line("b", '-', "y\n"), line("b", '+', "z\n")];
    let (staged, unstaged) = get_status(&records, &staged_lines, &Vec::new());
    let seen: Vec<_> =
        staged.iter().map(|f| (f.path.as_str(), f.status, f.additions, f.deletions)).collect();
    assert_eq!(
        seen,
        [
            ("a", FileStatus::Added, 0, 0),
            ("b", FileStatus::Modified, 2, 1),
            ("new", FileStatus::Renamed, 0, 0)
        ]
    );
    let seen: Vec<_> = unstaged.iter().map(|f| (f.path.as_str(), f.status, f.additions)).collect();
    assert_eq!(
        seen,
        [
            ("a", FileStatus::Deleted, 0),
            ("b", FileStatus::Modified, 0),
            ("z", FileStatus::Untracked, 2)
        ]
    );
}

#[test]
fn line_counts_are_kept_by_path() {
    let counts = collect_diff_line_counts(&vec![
        line("a", 'H', "@@"),
        line("a", '+', "1"),
        line("b", '-', "2"),
        PatchLine { new_path: None, ..line("", '+', "3") },
    ]);
    assert_eq!(counts.get("a"), Some((1, 0)));
    assert_eq!(counts.get("b"), Some((0, 1)));
    assert_eq!(counts.get(""), None);
}

#[test]
fn a_patch_becomes_hunks() {
    let lines = vec![
        line("a", ' ', "before any hunk"),
        line("a", 'H', "@@ -1 +1 @@ fn x\n"),
        line("a", '-', "old\n"),
        line("other", '+', "elsewhere\n"),
        line("a", '+', "new\n\n"),
        line("a", '\\', "no newline"),
        line("a", 'H', "@@ -9 +9 @@\n"),
        line("a", ' ', "kept"),
    ];
    let d = parse_git2_diff(&lines, "a").unwrap();
    assert_eq!(d.file_path, "a");
    assert_eq!(d.hunks.len(), 2);
    assert_eq!(d.hunks[0].header, "@@ -1 +1 @@ fn x");
    let seen: Vec<_> = d.hunks[0].lines.iter().map(|l| (l.tag, l.content.as_str())).collect();
    assert_eq!(seen, [(LineTag::Removed, "old"), (LineTag::Added, "new")]);
    assert_eq!(d.hunks[1].lines[0].content, "kept");
    assert!(parse_git2_diff(&lines, "missing").is_none());
}

#[test]
fn an_untracked_file_is_all_added() {
    let d = get_untracked_diff("n", "one\r\ntwo");
    assert_eq!(d.hunks[0].header, "@@ -0,0 +1,2 @@ (new file)");
    let seen: Vec<_> =
        d.hunks[0].lines.iter().map(|l| (l.content.as_str(), l.new_lineno)).collect();
    assert_eq!(seen, [("one", Some(1)), ("two", Some(2))]);
}

#[test]
fn the_diff_of_a_path_depends_on_its_status() {
    let records = vec![record("n", StatusFlags { wt_new: true, ..flags() })];
    assert_eq!(get_diff("n", true, &records), DiffSource::HeadToIndex);
    assert_eq!(get_diff("n", false, &records), DiffSource::Untracked);
    assert_eq!(get_diff("m", false, &records), DiffSource::IndexToWorkdir);
}

#[test]
fn files_of_a_commit_are_sorted() {
    let delta = |path: Option<&str>, kind| FileDelta { path: path.map(s), kind };
    let files = collect_files_from_diff(vec![
        delta(Some("z"), DeltaKind::Copied),
        delta(None, DeltaKind::Added),
        delta(Some("a"), DeltaKind::Other),
    ]);
    let seen: Vec<_> = files.iter().map(|f| (f.path.as_str(), f.status)).collect();
    assert_eq!(seen, [("a", FileStatus::Modified), ("z", FileStatus::Renamed)]);
}

#[test]
fn a_commit_without_names_is_empty_there() {
    let c = commit_to_info(s("0123456789"), vec![s("p")], None, Some(s("e")), 5, None);
    assert_eq!((c.short_oid.as_str(), c.author_name.as_str()), ("0123456", ""));
    assert_eq!((c.author_email.as_str(), c.subject.as_str(), c.time), ("e", "", 5));
}

#[test]
fn a_path_is_staged_unstaged_and_restored() {
    assert_eq!([stage_file(true), stage_file(false)], [FileStep::AddToIndex, FileStep::RemoveFromIndex]);
    assert_eq!([unstage_file(true), unstage_file(false)], [FileStep::ResetIndex, FileStep::RemoveFromIndex]);
    assert_eq!([restore_file(true), restore_file(false)], [FileStep::CheckoutFromHead, FileStep::DeleteFromDisk]);
}
