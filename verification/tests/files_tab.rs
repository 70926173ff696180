use reef::app::{App, Startup};
use reef::backend::RepoDiscoverOpts;
use reef::effects::{Effect, Effects, Notice};
use reef::file_tree::{DirNode, FileTree};
use reef::files_drag::DragStep;
use reef::files_menu::{ContextMenuItem, MenuStep};
use reef::files_pane::{ClipMode, TreeEditError, TreeEditMode};
use reef::files_paste::{
    cancel_paste_conflict, copy_paths_done, copy_paths_to_clipboard, find_dir, group_by_parent,
    Decision, PasteStep, Resolution,
};
use reef::layout::{DiffLayout, DiffMode, Tab};
use reef::paths;
use std::path::Path;

fn s(t: &str) -> String {
    t.to_string()
}

fn node(name: &str, is_dir: bool, children: Vec<DirNode>) -> DirNode {
    DirNode { name: s(name), is_dir, children }
}

/// `src/` (open: `a.rs`), `doc/` (closed), `file`.
fn app() -> App {
    let nodes = vec![
        node("doc", true, Vec::new()),
        node("src", true, vec![node("a.rs", false, Vec::new())]),
        node("file", false, Vec::new()),
    ];
    let mut file_tree = FileTree::new("/w", &nodes);
    file_tree.toggle_expand(1);
    file_tree.rebuild(&nodes);
    let startup = Startup {
        file_tree,
        branch_name: s("main"),
        has_repo: true,
        is_remote: false,
        has_picker: false,
        discover_opts: RepoDiscoverOpts { max_depth: 2, include_nested: false, max_repos: None },
        saved_repo: None,
        diff_layout: DiffLayout::Unified,
        diff_mode: DiffMode::Compact,
        status_tree_mode: false,
        commit_diff_layout: DiffLayout::Unified,
        commit_diff_mode: DiffMode::Compact,
        commit_files_tree_mode: false,
    };
    App::new_with_backend(startup, 0, &mut Effects::new())
}

fn rows(a: &App) -> Vec<String> {
    a.files.file_tree.entries.iter().map(|e| e.path.clone()).collect()
}

fn menu(a: &mut App, row: Option<usize>, item: ContextMenuItem) -> (MenuStep, Effects) {
    let mut fx = Effects::new();
    a.files.open_tree_context_menu(row, (1, 1));
    let step = a.files.dispatch_context_menu_item(item, true, a.is_remote, &mut a.screen, &mut fx);
    (step, fx)
}

#[test]
fn the_sample_tree() {
    assert_eq!(rows(&app()), ["doc", "src", "src/a.rs", "file"]);
}

#[test]
fn a_menu_item_always_closes_the_menu() {
    for item in [
        ContextMenuItem::Cut,
        ContextMenuItem::Copy,
        ContextMenuItem::Paste,
        ContextMenuItem::Duplicate,
        ContextMenuItem::CopyPath,
        ContextMenuItem::CopyRelativePath,
        ContextMenuItem::NewFile,
        ContextMenuItem::NewFolder,
        ContextMenuItem::Rename,
        ContextMenuItem::Delete,
        ContextMenuItem::RevealInFinder,
    ] {
        let mut a = app();
        menu(&mut a, Some(3), item);
        assert!(!a.files.tree_context_menu.active, "{item:?}");
    }
    let mut a = app();
    a.files.open_tree_context_menu(Some(3), (0, 0));
    let mut fx = Effects::new();
    let step = a.files.dispatch_context_menu_item(
        ContextMenuItem::Cut,
        false,
        false,
        &mut a.screen,
        &mut fx,
    );
    assert!(matches!(step, MenuStep::Nothing));
    assert!(a.files.file_clipboard.paths.is_empty());
}

#[test]
fn marked_files_are_taken_together() {
    let mut a = app();
    a.files.file_selection = vec![s("src/a.rs"), s("file")];
    menu(&mut a, Some(3), ContextMenuItem::Cut);
    assert_eq!(a.files.file_clipboard.paths, ["src/a.rs", "file"]);
    menu(&mut a, Some(0), ContextMenuItem::Copy);
    assert_eq!(a.files.file_clipboard.paths, ["doc"]);
    assert_eq!(a.files.file_clipboard.mode, Some(ClipMode::Copy));
}

#[test]
fn a_new_file_goes_into_the_directory_and_opens_it() {
    let mut a = app();
    let (_, fx) = menu(&mut a, Some(0), ContextMenuItem::NewFile);
    assert!(matches!(fx.list.as_slice(), [Effect::RebuildTree { .. }]));
    assert!(a.files.file_tree.is_expanded("doc"));
    let e = &a.files.tree_edit;
    assert_eq!((e.parent_dir.as_deref(), e.anchor_idx), (Some("/w/doc"), Some(0)));
    let mut fx = Effects::new();
    a.files.commit_tree_edit(Ok(s("new.md")), false, &mut fx);
    assert!(matches!(
        fx.list.as_slice(),
        [Effect::CreateFile { path, name, .. }] if path == "doc/new.md" && name == "new.md"
    ));
    assert_eq!(a.files.fs_mutation_select_on_done.as_deref(), Some("doc/new.md"));
    let generation = a.files.fs_mutation_load.generation;
    let mut fx = Effects::new();
    a.files.apply_fs_mutation(generation, s("New file"), Ok(()), &mut fx);
    assert!(matches!(
        fx.list.last(),
        Some(Effect::RebuildTree { select: Some(p), .. }) if p == "doc/new.md"
    ));
    assert!(!a.files.tree_edit.active);
}

#[test]
fn a_name_is_refused_or_just_closed() {
    let mut a = app();
    a.files.begin_rename(Some(3), &mut a.screen, &mut Effects::new());
    assert_eq!(a.files.tree_edit.buffer, "file");
    let mut fx = Effects::new();
    a.files.commit_tree_edit(Err(TreeEditError::Invalid(s("bad"))), false, &mut fx);
    assert!(matches!(&a.files.tree_edit.error, Some(TreeEditError::Invalid(m)) if m == "bad"));
    a.files.commit_tree_edit(Ok(s("src")), true, &mut fx);
    assert!(
        matches!(&a.files.tree_edit.error, Some(TreeEditError::NameAlreadyExists(n)) if n == "src")
    );
    a.files.commit_tree_edit(Ok(s("file")), true, &mut fx);
    assert!(!a.files.tree_edit.active && fx.list.is_empty());
    a.files.begin_rename(Some(3), &mut a.screen, &mut fx);
    a.files.commit_tree_edit(Ok(s("other")), false, &mut fx);
    assert!(matches!(
        fx.list.as_slice(),
        [Effect::Rename { old_path, new_path, .. }] if old_path == "file" && new_path == "other"
    ));
}

#[test]
fn one_operation_runs_at_a_time() {
    let mut a = app();
    a.files.begin_create(TreeEditMode::NewFolder, None, &mut a.screen, &mut Effects::new());
    a.files.commit_tree_edit(Ok(s("dir")), false, &mut Effects::new());
    assert!(a.files.fs_mutation_load.loading);
    let mut fx = Effects::new();
    a.files.commit_tree_edit(Ok(s("dir2")), false, &mut fx);
    assert!(fx.list.is_empty());
    a.files.prompt_tree_delete(s("/w/file"), false, true, Some(s("file")));
    a.files.confirm_tree_delete(&mut fx);
    assert!(a.files.tree_delete_confirm.is_some());
    assert!(matches!(
        fx.list.as_slice(),
        [Effect::Say { notice: Notice::TreeOpInFlight, .. }]
    ));
    let generation = a.files.fs_mutation_load.generation;
    a.files.apply_fs_mutation(generation, s("k"), Err(s("denied")), &mut Effects::new());
    a.files.prompt_tree_delete(s("/w/file"), false, true, None);
    let mut fx = Effects::new();
    a.files.confirm_tree_delete(&mut fx);
    assert!(matches!(
        fx.list.as_slice(),
        [Effect::HardDelete { path, name, .. }] if path == "file" && name == "/w/file"
    ));
}

#[test]
fn a_cut_is_used_up_by_its_paste() {
    let mut a = app();
    a.files.mark_cut(vec![s("file")]);
    let mut fx = Effects::new();
    let q = a.files.paste_into(s("doc"), &mut fx).unwrap();
    assert_eq!((q.op, q.dest.as_str(), q.sources.len()), (ClipMode::Cut, "doc", 1));
    let settled = vec![Decision {
        source: s("file"),
        resolution: Resolution::Replace,
        is_dir_on_disk: false,
    }];
    match a.files.dispatch_paste_op(ClipMode::Cut, s("doc"), settled, 0, 0, &mut fx) {
        PasteStep::Run(job) => assert_eq!((job.items.len(), job.items[0].is_dir), (1, false)),
        other => panic!("{other:?}"),
    }
    assert!(a.files.file_clipboard.paths.is_empty());
    assert_eq!(a.files.fs_mutation_select_on_done.as_deref(), Some("doc/file"));
    assert!(a.files.paste_into(s("doc"), &mut fx).is_none());
    assert!(matches!(
        fx.list.last(),
        Some(Effect::Say { notice: Notice::ClipboardEmpty, .. })
    ));
}

#[test]
fn skipped_sources_are_left_out_of_a_paste() {
    let mut a = app();
    let d = |source: &str, resolution| Decision { source: s(source), resolution, is_dir_on_disk: true };
    let mut fx = Effects::new();
    let none = a.files.dispatch_paste_resolved(
        ClipMode::Copy,
        s(""),
        vec![d("x", Resolution::Skip), d("y", Resolution::Cancel)],
        &mut fx,
    );
    assert!(none.is_none());
    assert!(matches!(fx.list.as_slice(), [Effect::Say { notice: Notice::PasteNothingToDo, .. }]));
    let job = a
        .files
        .dispatch_paste_resolved(
            ClipMode::Copy,
            s("doc"),
            vec![d("x", Resolution::Skip), d("src", Resolution::KeepBoth(s("src copy")))],
            &mut fx,
        )
        .unwrap();
    assert_eq!((job.items.len(), job.items[0].is_dir), (1, true));
    assert_eq!(a.files.fs_mutation_select_on_done.as_deref(), Some("doc/src copy"));
}

#[test]
fn a_paste_into_itself_is_told() {
    let mut a = app();
    let mut fx = Effects::new();
    let step = a.files.dispatch_paste_op(ClipMode::Cut, s("src"), Vec::new(), 0, 1, &mut fx);
    assert!(matches!(step, PasteStep::Nothing));
    assert!(fx.list.iter().any(|e| matches!(e, Effect::Say { notice: Notice::PasteIntoItself, .. })));
    let step = a.files.dispatch_paste_op(ClipMode::Copy, s("src"), Vec::new(), 2, 0, &mut fx);
    assert!(matches!(step, PasteStep::Ask { .. }));
}

#[test]
fn duplicates_are_grouped_by_directory() {
    let groups = group_by_parent(&vec![s("src/b"), s("x"), s("src/a"), s("src2/c")]);
    let seen: Vec<(&str, Vec<&str>)> = groups
        .iter()
        .map(|g| (g.dest.as_str(), g.sources.iter().map(String::as_str).collect()))
        .collect();
    assert_eq!(
        seen,
        [("", vec!["x"]), ("src", vec!["src/b", "src/a"]), ("src2", vec!["src2/c"])]
    );
    assert_eq!(find_dir("a/b/c"), "a/b");
    assert_eq!(find_dir("a"), "");
}

#[test]
fn directories_above_come_before_names() {
    let groups = group_by_parent(&vec![s("-x/f"), s("../a/f"), s("./a/f"), s("f")]);
    let seen: Vec<&str> = groups.iter().map(|g| g.dest.as_str()).collect();
    assert_eq!(seen, ["", "./a", "../a", "-x"]);
}

#[test]
fn clean_paths_are_ordered_as_the_system_orders_them() {
    let all = [
        "", "/", "/a", "/-", ".", "./a", "./-x", "./..", "..", "../a", "../..", "../../b", "-x",
        "-x/y", "...", "..a", ".a", ".a/b", "a", "a/..", "a/../b", "a/-", "a/b", "a/b/c", "a-b",
        "a.b", "a b", "ab", "b", "A", "\u{e9}", "\u{1f600}", "\u{fffd}",
    ];
    for x in all {
        assert_eq!(paths::clean(x), x);
        for y in all {
            assert_eq!(paths::path_not_after(x, y), Path::new(x) <= Path::new(y), "{x} {y}");
        }
    }
}

#[test]
fn a_drop_goes_to_the_row_or_the_top() {
    let a = app();
    let mut fx = Effects::new();
    let q = a.files.commit_tree_drag(vec![s("file")], false, Some(0), &mut fx).unwrap();
    assert_eq!((q.op, q.dest.as_str()), (ClipMode::Cut, "doc"));
    let q = a.files.commit_tree_drag(vec![s("src/a.rs")], true, None, &mut fx).unwrap();
    assert_eq!((q.op, q.dest.as_str()), (ClipMode::Copy, ""));
    assert!(matches!(
        a.files.begin_tree_drag(false),
        DragStep::Start { sources } if sources == ["doc"]
    ));
    assert!(matches!(a.files.begin_tree_drag(true), DragStep::Nothing));
}

#[test]
fn a_closed_directory_opens_under_a_drag() {
    let mut a = app();
    let mut fx = Effects::new();
    a.files.tick_tree_drag_auto_expand(true, Some(1), &mut fx);
    a.files.tick_tree_drag_auto_expand(true, Some(3), &mut fx);
    a.files.tick_tree_drag_auto_expand(false, Some(0), &mut fx);
    assert!(fx.list.is_empty());
    a.files.tick_tree_drag_auto_expand(true, Some(0), &mut fx);
    assert_eq!(fx.list.len(), 1);
    assert!(a.files.file_tree.is_expanded("doc"));
}

#[test]
fn names_that_are_taken() {
    let a = app();
    let names = a.files.existing_basenames_in_dir("src", None);
    assert!(names.contains("a.rs") && !names.contains("file"));
    let names = a.files.existing_basenames_in_dir("src", Some(vec![s("hidden")]));
    assert!(names.contains("hidden"));
}

#[test]
fn paths_are_put_on_the_clipboard() {
    let mut fx = Effects::new();
    copy_paths_to_clipboard(&vec![s("a"), s("b/c")], "/w", false, &mut fx);
    copy_paths_to_clipboard(&vec![s("a"), s("b/c")], "/w", true, &mut fx);
    copy_paths_to_clipboard(&Vec::new(), "/w", true, &mut fx);
    assert!(matches!(
        fx.list.as_slice(),
        [
            Effect::CopyText { text: t1, count: 2, relative: false },
            Effect::CopyText { text: t2, count: 2, relative: true }
        ] if t1 == "/w/a\n/w/b/c" && t2 == "a\nb/c"
    ));
    let mut fx = Effects::new();
    copy_paths_done(Ok(()), true, 2, true, &mut fx);
    assert!(fx.list.iter().any(|e| matches!(e, Effect::Say { notice: Notice::PathsNotUtf8, .. })));
}

#[test]
fn an_editor_at_a_row_that_is_gone_is_closed() {
    let mut a = app();
    a.files.begin_rename(Some(3), &mut a.screen, &mut Effects::new());
    a.files.refresh_file_tree(&mut Effects::new());
    let generation = a.files.file_tree_load.generation;
    let kept = a.files.file_tree.entries.iter().take(2).cloned().collect();
    a.files.apply_file_tree(generation, Ok((kept, 0)), &Vec::new(), &Vec::new());
    assert!(!a.files.tree_edit.active);
    assert_eq!(rows(&a), ["doc", "src"]);
}

#[test]
fn collapsing_closes_every_directory() {
    let mut a = app();
    let mut fx = Effects::new();
    a.files.collapse_all_tree_entries(&mut fx);
    assert!(!a.files.file_tree.is_expanded("src"));
    assert_eq!(a.files.file_tree.selected, 0);
    assert!(matches!(fx.list.as_slice(), [Effect::RebuildTree { .. }]));
}

#[test]
fn copies_from_outside_run_one_at_a_time() {
    let mut a = app();
    let mut fx = Effects::new();
    let job = a.files.request_file_copy(vec![s("/tmp/x")], s("doc"), &mut fx).unwrap();
    assert_eq!(job.dest_dir, "doc");
    assert!(a.files.request_file_copy(vec![s("/tmp/y")], s("doc"), &mut fx).is_none());
    a.files.apply_file_copy(job.generation, Ok(1), &mut fx);
    assert!(fx.list.iter().any(|e| matches!(e, Effect::Say { notice: Notice::FilesCopied { count: 1 }, .. })));
    assert!(!a.files.file_copy_load.loading);
}

#[test]
fn place_mode_stands_alone() {
    let mut a = app();
    a.screen.show_help = true;
    a.files.open_tree_context_menu(Some(0), (0, 0));
    a.set_active_tab(Tab::Git, &mut Effects::new());
    let mut fx = Effects::new();
    a.enter_place_mode(vec![s("/tmp/x")], &mut fx);
    assert!(a.files.place_mode.active && a.screen.active_tab == Tab::Files);
    assert!(!a.screen.show_help && !a.files.tree_context_menu.active);
    a.files.exit_place_mode();
    assert!(a.files.place_mode.sources.is_empty());
}

#[test]
fn paths_agree_with_the_standard_library() {
    for p in ["a", "a/b", "a/b/", "/", "/a", "a//b", "", "a/b/c.txt", "///", "/a/"] {
        let std = Path::new(p);
        assert_eq!(
            paths::parent(p).as_deref().map(Path::new),
            std.parent(),
            "parent of {p:?}"
        );
        assert_eq!(
            paths::file_name(p),
            std.file_name().map(|n| n.to_string_lossy().into_owned()),
            "name of {p:?}"
        );
    }
    for (base, rest) in [("/w", "a"), ("/w/", "a"), ("/w", "/a"), ("", "a"), ("/w", "")] {
        let joined = Path::new(base).join(rest);
        assert_eq!(paths::push_path(base, rest), joined.to_str().unwrap(), "{base} {rest}");
    }
    for (p, root) in [("/w/a/b", "/w"), ("/w", "/w"), ("/wx/a", "/w"), ("a/b", "a"), ("b", "a")] {
        let std = Path::new(p).strip_prefix(root).ok();
        assert_eq!(
            paths::strip_root(p, root),
            std.map(|q| q.to_str().unwrap().to_string()),
            "{p} {root}"
        );
    }
    assert_eq!(paths::relative("/x", "/w"), "/x");
    assert_eq!(paths::strip_root(&paths::push_path("/w", "a/b"), "/w").as_deref(), Some("a/b"));
}

#[test]
fn a_paste_goes_where_the_cursor_is() {
    let mut a = app();
    let dirs: Vec<String> = (0..a.files.file_tree.entries.len())
        .map(|i| {
            a.files.file_tree.selected = i;
            a.files.paste_target_dir()
        })
        .collect();
    assert_eq!(rows(&a), ["doc", "src", "src/a.rs", "file"]);
    assert_eq!(dirs, ["doc", "src", "src", ""]);
    a.files.file_tree.clear_selection();
    assert_eq!(a.files.paste_target_dir(), "");
}

#[test]
fn the_selection_is_duplicated_beside_itself() {
    let mut a = app();
    a.files.file_tree.selected = 2;
    let mut fx = Effects::new();
    let asked = a.files.duplicate_selection(&mut fx);
    assert_eq!(asked.len(), 1);
    assert_eq!((asked[0].dest.as_str(), asked[0].sources.len()), ("src", 1));
    a.files.fs_mutation_load.begin();
    assert!(a.files.duplicate_selection(&mut fx).is_empty());
    assert!(matches!(fx.list.as_slice(), [Effect::Say { notice: Notice::TreeOpInFlight, .. }]));
    let mut fx = Effects::new();
    cancel_paste_conflict(false, &mut fx);
    cancel_paste_conflict(true, &mut fx);
    assert!(matches!(fx.list.as_slice(), [Effect::Say { notice: Notice::PasteCancelled, .. }]));
}

#[test]
fn paths_are_cleaned_as_their_components_say() {
    for p in ["", "/", "//", "/.", ".", "./", "./.", "a", "a/", "a//b", "a/./b", "./a", "././a",
        "/a//b/", "//a", "/./a", "..", "a/..", "../a", "a/.b", "a/b.", "a/...", "/..", "a b/ c"]
    {
        let built: std::path::PathBuf = Path::new(p).components().collect();
        assert_eq!(paths::clean(p), built.to_str().unwrap(), "{p}");
        for q in ["a", "a/b", "/a", "/", ".", "./a", "a/.."] {
            assert_eq!(paths::same_paths(p, q), Path::new(p) == Path::new(q), "{p} {q}");
        }
    }
}

#[test]
fn a_selection_holds_a_path_however_it_is_spelled() {
    let mut a = app();
    a.files.file_tree.selected = 2;
    a.files.file_selection = vec![s("src//a.rs"), s("file")];
    assert_eq!(a.files.effective_action_paths().len(), 2);
}
