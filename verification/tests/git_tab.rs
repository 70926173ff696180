use reef::app::{App, Startup};
use reef::backend::{RepoDiscoverOpts, RepoDiscoverResponse, WorkspaceRepoMeta};
use reef::effects::{Effect, Effects, Notice, Pref, ToastLevel};
use reef::file_tree::FileTree;
use reef::git::{FileEntry, FileStatus, StashDetail, StashEntry, StashPushOptions};
use reef::git_activate::Activated;
use reef::git_flows::{JobEnd, StatusPayload};
use reef::git_pane::GitKeyboardFocus::{
    Branch, CommitButton, CommitMessage, Files, PublishBranchButton, PullButton, PushButton,
    StashButton, StashHeader,
};
use reef::git_pane::{
    BranchCreateStep, DiscardTarget, GitKeyboardFocus, PendingStashAction, PushOperation,
};
use reef::git_stash::{stash_current_changes, StashOp};
use reef::layout::{DiffLayout, DiffMode};
use reef::repo_catalog::RepoCatalogState;

fn s(t: &str) -> String {
    t.to_string()
}

fn app() -> App {
    let startup = Startup {
        file_tree: FileTree::new("/w", &Vec::new()),
        branch_name: s("main"),
        has_repo: true,
        is_remote: false,
        has_picker: false,
        discover_opts: RepoDiscoverOpts { max_depth: 2, include_nested: false, max_repos: None },
        saved_repo: None,
        diff_layout: DiffLayout::Unified,
        diff_mode: DiffMode::Compact,
        status_tree_mode: false,
        commit_diff_layout: DiffLayout::Unified,
        commit_diff_mode: DiffMode::Compact,
        commit_files_tree_mode: false,
    };
    App::new_with_backend(startup, 0, &mut Effects::new())
}

fn file(path: &str) -> FileEntry {
    FileEntry { path: s(path), status: FileStatus::Modified, additions: 0, deletions: 0 }
}

fn files(paths: &[&str]) -> Vec<FileEntry> {
    paths.iter().map(|p| file(p)).collect()
}

fn with_files(staged: &[&str], unstaged: &[&str]) -> App {
    let mut a = app();
    a.git.lists.staged_files = files(staged);
    a.git.lists.unstaged_files = files(unstaged);
    a
}

fn here() -> Option<String> {
    Some(s("."))
}

fn stash(stash_ref: &str) -> StashEntry {
    StashEntry {
        index: 0,
        stash_ref: s(stash_ref),
        message: s("m"),
        created: s("c"),
        branch: s("main"),
        files_changed: 1,
        insertions: 1,
        deletions: 0,
        includes_untracked: false,
    }
}

fn status(staged: &[&str], unstaged: &[&str], stashes: &[&str]) -> StatusPayload {
    StatusPayload {
        staged: files(staged),
        unstaged: files(unstaged),
        ahead_behind: Some((0, 0)),
        branches: vec![s("main"), s("dev")],
        stashes: stashes.iter().map(|r| stash(r)).collect(),
        branch_name: s("main"),
    }
}

fn selected(a: &App) -> Option<(String, bool)> {
    a.git.lists.selected_file.as_ref().map(|f| (f.path.clone(), f.is_staged))
}

#[test]
fn navigation_runs_over_both_sections() {
    let mut a = with_files(&["a"], &["b", "c"]);
    a.git.navigate_files(1);
    assert_eq!(selected(&a), Some((s("b"), false)));
    a.git.navigate_files(-1);
    assert_eq!(selected(&a), Some((s("a"), true)));
    a.git.navigate_files(-1);
    assert_eq!(selected(&a), Some((s("a"), true)));
    a.git.navigate_files(99);
    assert_eq!(selected(&a), Some((s("c"), false)));
    a.git.lists.unstaged_collapsed = true;
    assert_eq!(a.git.lists.git_selectable_files(), [(s("a"), true)]);
    let mut empty = app();
    empty.git.navigate_files(1);
    assert_eq!(selected(&empty), None);
}

#[test]
fn choosing_a_file_asks_for_its_diff() {
    let mut a = with_files(&["a"], &["a"]);
    let mut fx = Effects::new();
    a.git.select_file("a", true, &mut a.screen, &here(), &mut fx);
    assert!(matches!(
        fx.list.as_slice(),
        [Effect::LoadDiff { repo, path, staged: true, .. }] if repo == "." && path == "a"
    ));
    assert!(a.git.diff.diff_load.loading);
    let mut fx = Effects::new();
    a.git.select_file("a", false, &mut a.screen, &None, &mut fx);
    assert!(fx.list.is_empty());
}

#[test]
fn a_folder_is_staged_without_its_sibling() {
    let mut a = with_files(&[], &["src/a", "src/b/c", "src2/d", "src"]);
    let mut fx = Effects::new();
    a.git.stage_folder("src", &here(), &mut fx);
    let staged: Vec<&str> = fx
        .list
        .iter()
        .filter_map(|e| match e {
            Effect::Stage { path, .. } => Some(path.as_str()),
            _ => None,
        })
        .collect();
    assert_eq!(staged, ["src/a", "src/b/c", "src"]);
    assert!(matches!(fx.list.last(), Some(Effect::RefreshStatus { .. })));
    let mut fx = Effects::new();
    a.git.stage_all(&None, &mut fx);
    assert!(fx.list.is_empty());
}

#[test]
fn the_selection_follows_a_staged_file() {
    let mut a = with_files(&[], &["x"]);
    let mut fx = Effects::new();
    a.git.select_file("x", false, &mut a.screen, &here(), &mut fx);
    a.git.stage_done(s("x"), true, false, &here(), &mut fx);
    assert_eq!(selected(&a), Some((s("x"), false)));
    a.git.stage_done(s("x"), true, true, &here(), &mut fx);
    assert_eq!(selected(&a), Some((s("x"), true)));
}

#[test]
fn discarding_restores_what_was_asked_about() {
    let mut a = with_files(&["s"], &["d/x", "d/y", "e"]);
    let mut fx = Effects::new();
    a.git.select_file("d/x", false, &mut a.screen, &here(), &mut Effects::new());
    a.git.git_status.confirm_discard =
        Some(DiscardTarget::Folder { is_staged: false, path: s("d") });
    a.git.confirm_discard(&here(), &mut fx);
    let reverted: Vec<(&str, bool)> = fx
        .list
        .iter()
        .filter_map(|e| match e {
            Effect::Revert { path, staged, .. } => Some((path.as_str(), *staged)),
            _ => None,
        })
        .collect();
    assert_eq!(reverted, [("d/x", false), ("d/y", false)]);
    assert!(a.git.git_status.confirm_discard.is_none());
    assert_eq!(selected(&a), None);
}

#[test]
fn a_new_status_keeps_a_selection_that_is_listed() {
    let mut a = with_files(&[], &["x", "y"]);
    let mut fx = Effects::new();
    a.git.select_file("x", false, &mut a.screen, &here(), &mut fx);
    a.git.refresh_status(&here(), &mut fx);
    let generation = a.git.git_status_load.generation;
    let mut fx = Effects::new();
    let tree = &mut a.files.file_tree;
    a.git.apply_git_status(generation, Ok(status(&["x"], &["y"], &[])), tree, &here(), &mut fx);
    assert_eq!(selected(&a), Some((s("x"), true)));
    assert!(fx.list.iter().any(|e| matches!(e, Effect::LoadDiff { staged: true, .. })));
    assert_eq!(a.files.file_tree.git_statuses().get("x"), Some('M'));
    a.git.refresh_status(&here(), &mut Effects::new());
    let generation = a.git.git_status_load.generation;
    let tree = &mut a.files.file_tree;
    a.git.apply_git_status(
        generation,
        Ok(status(&[], &["y"], &[])),
        tree,
        &here(),
        &mut Effects::new(),
    );
    assert_eq!(selected(&a), None);
}

#[test]
fn an_unchanged_status_loads_nothing() {
    let mut a = app();
    let take = |a: &mut App| {
        a.git.refresh_status(&here(), &mut Effects::new());
        let generation = a.git.git_status_load.generation;
        let mut fx = Effects::new();
        let p = status(&["a"], &[], &["stash@{0}"]);
        a.git.apply_git_status(generation, Ok(p), &mut a.files.file_tree, &here(), &mut fx);
        fx
    };
    let first = take(&mut a);
    assert!(matches!(
        first.list.as_slice(),
        [Effect::LoadStashDetail { stash_ref, .. }] if stash_ref == "stash@{0}"
    ));
    let generation = a.git.stash_detail_load.generation;
    let detail = StashDetail { entry: stash("stash@{0}"), files: Vec::new(), patch: s("p") };
    a.git.apply_stash_detail(generation, Ok(detail));
    assert!(take(&mut a).list.is_empty());
}

#[test]
fn a_superseded_status_is_dropped() {
    let mut a = app();
    a.git.refresh_status(&here(), &mut Effects::new());
    let old = a.git.git_status_load.generation;
    a.git.refresh_status(&here(), &mut Effects::new());
    let tree = &mut a.files.file_tree;
    a.git.apply_git_status(old, Ok(status(&["a"], &[], &[])), tree, &here(), &mut Effects::new());
    assert!(a.git.lists.staged_files.is_empty());
    assert!(a.git.git_status_load.loading);
}

#[test]
fn a_commit_needs_a_message_and_staged_files() {
    let mut a = with_files(&[], &["x"]);
    let mut fx = Effects::new();
    a.git.run_commit(s("nothing"), &here(), &mut fx);
    assert!(fx.list.is_empty() && a.git.git_status.commit_error.is_none());
    a.git.git_status.commit_message = s(" fix ");
    a.git.run_commit(s("nothing"), &here(), &mut fx);
    assert_eq!(a.git.git_status.commit_error.as_deref(), Some("nothing"));
    a.git.lists.staged_files = files(&["x"]);
    a.git.run_commit(s("nothing"), &here(), &mut fx);
    assert!(matches!(
        fx.list.as_slice(),
        [Effect::Commit { message, .. }] if message == "fix"
    ));
    assert!(a.git.commit_in_flight);
    a.git.run_commit(s("nothing"), &here(), &mut fx);
    assert_eq!(fx.list.len(), 1);
}

#[test]
fn the_end_of_a_commit_is_taken_once() {
    let mut a = with_files(&["x"], &[]);
    a.git.git_status.commit_message = s("fix");
    a.git.run_commit(s(""), &here(), &mut Effects::new());
    let mut fx = Effects::new();
    a.git.commit_finished(JobEnd::Done(Ok(())), &mut a.graph, &here(), &mut fx);
    assert!(fx.list.iter().any(|e| matches!(e, Effect::Say { notice: Notice::Committed, .. })));
    assert_eq!(a.git.git_status.commit_message, "");
    assert!(a.git.git_status_load.stale && a.graph.graph_load.stale);
    let mut fx = Effects::new();
    a.git.commit_finished(JobEnd::Crashed, &mut a.graph, &here(), &mut fx);
    assert!(fx.list.is_empty());
}

#[test]
fn a_failed_push_is_kept_with_its_kind() {
    let mut a = app();
    let mut fx = Effects::new();
    a.git.run_push(true, &here(), &mut fx);
    assert!(matches!(fx.list.as_slice(), [Effect::Push { force: true, .. }]));
    a.git.run_push(false, &here(), &mut fx);
    assert_eq!(fx.list.len(), 1);
    let op = PushOperation::Push { force: true };
    let mut fx = Effects::new();
    a.git.push_finished(op, JobEnd::Done(Err(s("no"))), &mut a.graph, &mut fx);
    assert_eq!(a.git.git_status.push_error.as_deref(), Some("no"));
    assert!(matches!(
        fx.list.as_slice(),
        [Effect::Say { level: ToastLevel::Error, notice: Notice::PushFailed { why } }] if why == "no"
    ));
    assert!(!a.git.push_in_flight);
}

#[test]
fn a_pull_that_crashed_can_be_run_again() {
    let mut a = app();
    let mut fx = Effects::new();
    a.git.run_pull(&here(), &mut fx);
    a.git.pull_finished(JobEnd::Crashed, &mut a.graph, &mut fx);
    a.git.run_pull(&here(), &mut fx);
    let pulls = fx.list.iter().filter(|e| matches!(e, Effect::Pull { .. })).count();
    assert_eq!(pulls, 2);
}

#[test]
fn another_branch_starts_afresh() {
    let mut a = with_files(&[], &["x"]);
    let mut fx = Effects::new();
    a.git.checkout_branch(" main ", &here(), &mut fx);
    assert!(fx.list.is_empty());
    a.git.checkout_branch(" dev ", &here(), &mut fx);
    assert!(matches!(fx.list.as_slice(), [Effect::Checkout { branch, .. }] if branch == "dev"));
    let mut fx = Effects::new();
    a.git.checkout_done(Err(s("dirty")), &mut a.graph, &here(), &mut fx);
    assert!(matches!(
        fx.list.as_slice(),
        [Effect::Toast { text, .. }] if text == "Checkout failed: dirty"
    ));
    let graph_before = a.graph.graph_load.generation;
    a.git.checkout_done(Ok(()), &mut a.graph, &here(), &mut Effects::new());
    assert_eq!(selected(&a), None);
    assert!(a.graph.graph_load.stale);
    assert_ne!(a.graph.graph_load.generation, graph_before);
}

#[test]
fn the_bases_of_a_new_branch_are_distinct() {
    let mut a = app();
    a.git.git_status.branches = vec![s("dev"), s("main"), s("dev"), s("x")];
    assert_eq!(a.git.branch_create_base_choices(), ["main", "dev", "x"]);
    a.git.branch_name = s("(detached)");
    assert_eq!(a.git.branch_create_base_choices(), ["dev", "main", "x"]);
}

#[test]
fn a_branch_is_created_through_the_dialog() {
    let mut a = app();
    a.git.git_status.branches = vec![s("main"), s("dev")];
    a.git.open_branch_create_dialog();
    a.git.start_branch_create_choose_base();
    a.git.select_branch_create_base(9);
    let step = |a: &App| match &a.git.git_status.branch_create_dialog {
        Some(d) => format!("{:?}", d.step),
        None => s("closed"),
    };
    assert_eq!(step(&a), format!("{:?}", BranchCreateStep::ChooseBase));
    a.git.select_branch_create_base(1);
    let mut fx = Effects::new();
    a.git.submit_branch_create_dialog(s("name it"), &here(), &mut fx);
    assert!(fx.list.is_empty());
    let error = a.git.git_status.branch_create_dialog.as_ref().unwrap().error.clone();
    assert_eq!(error.as_deref(), Some("name it"));
    a.git.git_status.branch_create_dialog.as_mut().unwrap().input = s(" topic ");
    a.git.submit_branch_create_dialog(s("name it"), &here(), &mut fx);
    assert!(matches!(
        fx.list.as_slice(),
        [Effect::CreateBranch { branch, base: Some(b), .. }] if branch == "topic" && b == "dev"
    ));
    a.git.branch_created(s("topic"), Err(s("exists")), &mut a.graph, &here(), &mut fx);
    let error = a.git.git_status.branch_create_dialog.as_ref().unwrap().error.clone();
    assert_eq!(error.as_deref(), Some("exists"));
    a.git.branch_created(s("topic"), Ok(()), &mut a.graph, &here(), &mut fx);
    assert_eq!(step(&a), "closed");
}

#[test]
fn a_stash_is_confirmed_once() {
    let mut a = with_files(&["x"], &[]);
    let job = a.git.prepare_stash_apply(s("stash@{0}"), true, false, &here());
    assert!(job.is_none());
    let job = a.git.confirm_stash_action(&here()).unwrap();
    assert_eq!(job.action.kind(), StashOp::Pop);
    assert!(a.git.confirm_stash_action(&here()).is_none());
    let mut clean = app();
    let job = clean.git.prepare_stash_apply(s("stash@{0}"), false, true, &here()).unwrap();
    assert!(matches!(job.action, PendingStashAction::Apply { reinstate_index: true, .. }));
    assert!(clean.git.git_status.pending_stash_action.is_none());
}

#[test]
fn a_stash_that_worked_makes_everything_stale() {
    let mut a = with_files(&["x"], &[]);
    a.git.select_file("x", true, &mut a.screen, &here(), &mut Effects::new());
    a.git.git_status.stash_error = Some(s("old"));
    let mut fx = Effects::new();
    a.git.stash_finished(StashOp::Drop, Ok(()), &mut a.graph.graph_load, &mut fx);
    assert!(matches!(fx.list.as_slice(), [Effect::Toast { text, .. }] if text == "Dropped stash"));
    assert_eq!(selected(&a), None);
    assert!(a.git.git_status.stash_error.is_none());
    assert!(a.git.git_status_load.stale && a.git.diff.diff_load.stale && a.graph.graph_load.stale);
    let mut fx = Effects::new();
    a.git.stash_finished(StashOp::Pop, Err(s("conflict")), &mut a.graph.graph_load, &mut fx);
    assert_eq!(a.git.git_status.stash_error.as_deref(), Some("conflict"));
    assert_eq!(a.git.default_stash_message(), "reef stash on main");
}

#[test]
fn the_stops_of_the_keyboard() {
    let mut a = app();
    let order = |a: &App| a.git.git_keyboard_focus_order(&a.repo_catalog, a.has_repo);
    assert_eq!(
        order(&a),
        [
            Branch,
            CommitMessage,
            CommitButton,
            PublishBranchButton,
            StashButton,
            StashHeader,
            Files
        ]
    );
    a.git.git_status.ahead_behind = Some((2, 0));
    assert_eq!(
        order(&a),
        [
            Branch,
            CommitMessage,
            CommitButton,
            PushButton,
            PullButton,
            StashButton,
            StashHeader,
            Files
        ]
    );
    a.git.git_status.stash_section_open = true;
    assert_eq!(order(&a).len(), 13);
    assert_eq!(order(&a).last(), Some(&Files));
    a.git.git_status.keyboard_focus = PublishBranchButton;
    a.git.normalize_git_keyboard_focus(&a.repo_catalog, a.has_repo);
    assert!(order(&a).contains(&a.git.git_status.keyboard_focus));
}

#[test]
fn up_undoes_down_between_stops() {
    let mut a = app();
    let mut fx = Effects::new();
    a.git.git_status.keyboard_focus = GitKeyboardFocus::Branch;
    let mut seen = vec![a.git.git_status.keyboard_focus];
    for _ in 0..3 {
        a.git.move_git_keyboard_focus_vertical(1, &a.repo_catalog, true, &here(), &mut fx);
        seen.push(a.git.git_status.keyboard_focus);
    }
    assert!(seen.windows(2).all(|w| w[0] != w[1]), "{seen:?}");
    for want in seen.iter().rev().skip(1) {
        a.git.move_git_keyboard_focus_vertical(-1, &a.repo_catalog, true, &here(), &mut fx);
        assert_eq!(a.git.git_status.keyboard_focus, *want);
    }
}

#[test]
fn sideways_stays_among_the_buttons() {
    let mut a = app();
    a.git.git_status.keyboard_focus = GitKeyboardFocus::CommitButton;
    a.git.move_git_keyboard_focus_horizontal(1, &a.repo_catalog, true);
    assert_eq!(a.git.git_status.keyboard_focus, GitKeyboardFocus::PublishBranchButton);
    a.git.move_git_keyboard_focus_horizontal(1, &a.repo_catalog, true);
    a.git.move_git_keyboard_focus_horizontal(1, &a.repo_catalog, true);
    assert_eq!(a.git.git_status.keyboard_focus, GitKeyboardFocus::StashButton);
    a.git.git_status.keyboard_focus = GitKeyboardFocus::CommitMessage;
    a.git.move_git_keyboard_focus_horizontal(-1, &a.repo_catalog, true);
    assert_eq!(a.git.git_status.keyboard_focus, GitKeyboardFocus::CommitMessage);
}

fn enter(a: &mut App, focus: GitKeyboardFocus) -> (Activated, Effects) {
    let mut fx = Effects::new();
    a.git.git_status.keyboard_focus = focus;
    let out = a.git.activate_git_keyboard_focus(
        &mut a.repo_catalog,
        &mut a.graph,
        &mut a.screen,
        a.has_repo,
        "/w",
        s("nothing staged"),
        &mut fx,
    );
    (out, fx)
}

#[test]
fn enter_on_each_stop() {
    let mut a = with_files(&["x"], &[]);
    enter(&mut a, GitKeyboardFocus::CommitMessage);
    assert!(a.git.git_status.commit_editing);
    enter(&mut a, GitKeyboardFocus::StashHeader);
    assert!(a.git.git_status.stash_section_open);
    enter(&mut a, GitKeyboardFocus::Branch);
    assert!(a.git.git_status.branch_dropdown_open);
    a.git.git_status.branch_dropdown_open = false;
    let (_, fx) = enter(&mut a, GitKeyboardFocus::PublishBranchButton);
    assert!(matches!(fx.list.as_slice(), [Effect::PublishBranch { .. }]));
    enter(&mut a, GitKeyboardFocus::StashStagedButton);
    assert!(matches!(
        &a.git.git_status.pending_stash_action,
        Some(PendingStashAction::Push { options, label }) if options.staged_only && label == "staged"
    ));
    a.git.select_file("x", true, &mut a.screen, &here(), &mut Effects::new());
    let (out, _) = enter(&mut a, GitKeyboardFocus::Files);
    assert!(matches!(out, Activated::Edit(p) if p == "/w/./x"));
    a.git.push_in_flight = false;
    a.git.git_status.ahead_behind = Some((1, 0));
    enter(&mut a, GitKeyboardFocus::PushButton);
    assert!(a.git.git_status.confirm_push);
    let (_, fx) = enter(&mut a, GitKeyboardFocus::PullButton);
    assert!(matches!(fx.list.as_slice(), [Effect::Pull { .. }]));
}

#[test]
fn a_stash_on_a_dirty_tree_waits_for_a_confirmation() {
    let mut a = with_files(&["x"], &[]);
    a.git.git_status.stash_section_open = true;
    a.git.git_status.stashes = vec![stash("stash@{0}")];
    let (out, _) = enter(&mut a, GitKeyboardFocus::Stashes);
    assert!(matches!(out, Activated::Nothing));
    assert!(a.git.git_status.pending_stash_action.is_some());
    let mut clean = app();
    clean.git.git_status.stash_section_open = true;
    clean.git.git_status.stashes = vec![stash("stash@{0}")];
    let (out, _) = enter(&mut clean, GitKeyboardFocus::Stashes);
    assert!(matches!(out, Activated::RunStash(job) if job.repo == "."));
}

fn found(roots: &[&str]) -> RepoDiscoverResponse {
    RepoDiscoverResponse {
        repos: roots
            .iter()
            .map(|r| WorkspaceRepoMeta { repo_root_rel: s(r), display_name: s(r) })
            .collect(),
        truncated: false,
    }
}

#[test]
fn choosing_another_repository_forgets_the_old_one() {
    let mut a = with_files(&["x"], &[]);
    a.repo_catalog.repos = found(&["one", "two"]).repos;
    a.git.refresh_status(&here(), &mut Effects::new());
    let old = a.git.git_status_load.generation;
    let mut fx = Effects::new();
    a.git.select_git_repo_at_idx(1, &mut a.repo_catalog, &mut a.graph, &mut fx);
    assert_eq!(a.repo_catalog.selected_git_repo.as_deref(), Some("two"));
    assert!(matches!(
        fx.list.as_slice(),
        [
            Effect::SetPref { pref: Pref::SelectedRepo, value },
            Effect::RefreshStatus { repo, .. }
        ] if value == "two" && repo == "two"
    ));
    assert_ne!(a.git.git_status_load.generation, old);
    assert!(a.git.lists.staged_files.is_empty());
    let tree = &mut a.files.file_tree;
    a.git.apply_git_status(old, Ok(status(&["x"], &[], &[])), tree, &here(), &mut Effects::new());
    assert!(a.git.lists.staged_files.is_empty());
}

#[test]
fn the_chosen_repository_is_one_that_was_found() {
    let opts = || RepoDiscoverOpts { max_depth: 1, include_nested: false, max_repos: None };
    let search = |c: &mut RepoCatalogState, roots: &[&str]| {
        let mut fx = Effects::new();
        c.refresh_repo_catalog(&mut fx);
        let generation = c.discover_load.generation;
        let mut fx = Effects::new();
        let changed = c.apply_catalog(generation, Ok(found(roots)), &mut fx);
        (changed, fx)
    };
    let mut c = RepoCatalogState::from_prefs(opts(), Some(s("b")));
    assert_eq!(c.status_repo_root_rel(true).as_deref(), Some("b"));
    let (changed, fx) = search(&mut c, &["a", "b"]);
    assert!(!changed && fx.list.is_empty());
    let (changed, fx) = search(&mut c, &["a"]);
    assert!(changed);
    assert_eq!(c.selected_git_repo.as_deref(), Some("a"));
    assert!(matches!(
        fx.list.as_slice(),
        [Effect::Toast { text, .. }, Effect::SetPref { value, .. }]
            if text == "Saved repository selection 'b' is no longer available" && value == "a"
    ));
    let (changed, fx) = search(&mut c, &["a"]);
    assert!(!changed && fx.list.is_empty());
    let (_, fx) = search(&mut c, &["x", "y"]);
    assert_eq!(c.selected_git_repo, None);
    assert!(matches!(fx.list.last(), Some(Effect::RemovePref { pref: Pref::SelectedRepo })));
    assert_eq!(c.status_repo_root_rel(true).as_deref(), Some("."));
    assert_eq!(c.status_repo_root_rel(false), None);
    let stale = c.discover_load.generation;
    c.refresh_repo_catalog(&mut Effects::new());
    assert!(!c.apply_catalog(stale, Ok(found(&["z"])), &mut Effects::new()));
    assert_eq!(c.repos.len(), 2);
}

#[test]
fn settings_of_the_diff_are_kept() {
    let mut a = app();
    let mut fx = Effects::new();
    a.git.toggle_diff_layout(&mut a.screen, &mut fx);
    assert_eq!(a.git.diff.diff_layout, DiffLayout::SideBySide);
    assert!(fx.list.iter().any(|e| matches!(
        e,
        Effect::SetPref { pref: Pref::DiffLayout, value } if value == DiffLayout::SideBySide.pref_str()
    )));
    for l in [DiffLayout::Unified, DiffLayout::SideBySide] {
        assert_eq!(DiffLayout::from_pref_str(l.pref_str()), l);
    }
    for m in [DiffMode::Compact, DiffMode::FullFile] {
        assert_eq!(DiffMode::from_pref_str(m.pref_str()), m);
    }
    let mut fx = Effects::new();
    a.git.toggle_status_tree_mode(&mut fx);
    assert!(matches!(
        fx.list.as_slice(),
        [Effect::SetFlag { pref: Pref::StatusTreeMode, value: true }]
    ));
}

#[test]
fn stashes_are_made_without_asking_and_dropped_when_asked() {
    let options =
        || StashPushOptions { include_untracked: true, ..StashPushOptions::default() };
    assert!(stash_current_changes(options(), &None).is_none());
    let (repo, kept) = stash_current_changes(options(), &Some(s("."))).unwrap();
    assert!(repo == "." && kept.include_untracked);
    let mut a = app();
    let mut fx = Effects::new();
    a.git.stash_current_done(Ok(()), &mut a.graph.graph_load, &mut fx);
    assert!(a.graph.graph_load.stale && a.git.git_status_load.stale);
    assert!(matches!(
        fx.list.as_slice(),
        [Effect::Toast { level: ToastLevel::Info, text }] if text == "Stashed changes"
    ));
    let mut fx = Effects::new();
    a.git.stash_current_done(Err(s("no")), &mut a.graph.graph_load, &mut fx);
    assert!(matches!(
        fx.list.as_slice(),
        [Effect::Toast { level: ToastLevel::Error, text }] if text == "Stash failed: no"
    ));
    a.git.prepare_stash_drop(s("stash@{0}"));
    let job = a.git.confirm_stash_action(&Some(s("."))).unwrap();
    assert!(matches!(job.action, PendingStashAction::Drop { stash_ref } if stash_ref == "stash@{0}"));
    assert!(a.git.confirm_stash_action(&Some(s("."))).is_none());
    let mut fx = Effects::new();
    a.git.stash_branch_selected("b", &Some(s(".")), &mut fx);
    assert!(fx.list.is_empty());
}

#[test]
fn rows_on_screen_are_counted() {
    let mut a = app();
    assert_eq!(a.git.lists.visible_file_count(), 1);
    let f = |p: &str| FileEntry { path: s(p), status: FileStatus::Added, additions: 0, deletions: 0 };
    a.git.lists.staged_files = vec![f("d/x"), f("d2/y"), f("d/z/w")];
    a.git.lists.unstaged_files = vec![f("u")];
    assert_eq!(a.git.lists.visible_file_count(), 6);
    a.git.lists.staged_collapsed = true;
    assert_eq!(a.git.lists.visible_file_count(), 3);
    let mut fx = Effects::new();
    a.git.unstage_folder("d", &Some(s(".")), &mut fx);
    let out: Vec<&str> = fx
        .list
        .iter()
        .filter_map(|e| match e {
            Effect::Unstage { path, alone: false, .. } => Some(path.as_str()),
            _ => None,
        })
        .collect();
    assert_eq!(out, ["d/x", "d/z/w"]);
}
