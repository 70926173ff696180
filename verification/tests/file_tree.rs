use reef::file_tree::{build_entries, row_showing, DirNode, FileTree, TreeEntry};
use reef::git::{FileEntry, FileStatus};
use reef::strmap::{StrMap, StrSet};

fn make_entry(path: &str, status: FileStatus) -> FileEntry {
    FileEntry { path: path.to_string(), status, additions: 0, deletions: 0 }
}

fn make_tree_with_entries(entries: Vec<TreeEntry>) -> FileTree {
    FileTree {
        root: "/nonexistent".to_string(),
        entries,
        selected: 0,
        expanded: StrSet::new(),
        git_statuses: StrMap::new(),
    }
}

fn dummy_entry(name: &str) -> TreeEntry {
    TreeEntry {
        path: name.to_string(),
        name: name.to_string(),
        depth: 0,
        is_dir: false,
        is_expanded: false,
        git_status: None,
    }
}

#[test]
fn navigate_forward() {
    let mut tree =
        make_tree_with_entries(vec![dummy_entry("a"), dummy_entry("b"), dummy_entry("c")]);
    tree.navigate(1);
    assert_eq!(tree.selected, 1);
}

#[test]
fn navigate_backward_at_zero_stays_zero() {
    let mut tree = make_tree_with_entries(vec![dummy_entry("a"), dummy_entry("b")]);
    tree.navigate(-1);
    assert_eq!(tree.selected, 0);
}

#[test]
fn navigate_clamps_at_end() {
    let mut tree =
        make_tree_with_entries(vec![dummy_entry("a"), dummy_entry("b"), dummy_entry("c")]);
    tree.navigate(9999);
    assert_eq!(tree.selected, 2);
}

#[test]
fn navigate_no_op_on_empty() {
    let mut tree = make_tree_with_entries(vec![]);
    tree.navigate(1);
    assert_eq!(tree.selected, 0);
}

#[test]
fn selected_entry_empty_returns_none() {
    let tree = make_tree_with_entries(vec![]);
    assert!(tree.selected_entry().is_none());
}

#[test]
fn selected_entry_returns_correct_entry() {
    let mut tree = make_tree_with_entries(vec![
        dummy_entry("file0.rs"),
        dummy_entry("file1.rs"),
        dummy_entry("file2.rs"),
    ]);
    tree.selected = 2;
    assert_eq!(tree.selected_entry().unwrap().name, "file2.rs");
}

#[test]
fn refresh_git_statuses_clears_previous() {
    let mut tree = make_tree_with_entries(vec![]);
    tree.git_statuses.insert("old.rs".to_string(), 'X');
    tree.refresh_git_statuses(&[], &[]);
    assert!(tree.git_statuses.is_empty());
}

#[test]
fn refresh_git_statuses_inserts_staged_files() {
    let mut tree = make_tree_with_entries(vec![]);
    let staged = vec![make_entry("src/main.rs", FileStatus::Modified)];
    tree.refresh_git_statuses(&staged, &[]);
    let ch = tree.git_statuses.get("src/main.rs");
    assert_eq!(ch, Some('M'));
}

#[test]
fn refresh_git_statuses_propagates_to_parent_dir() {
    let mut tree = make_tree_with_entries(vec![]);
    let staged = vec![make_entry("src/main.rs", FileStatus::Added)];
    tree.refresh_git_statuses(&staged, &[]);
    assert!(tree.git_statuses.contains("src"), "parent dir should appear in git_statuses");
}

#[test]
fn refresh_git_statuses_unstaged_does_not_overwrite_staged() {
    let mut tree = make_tree_with_entries(vec![]);
    let staged = vec![make_entry("a.rs", FileStatus::Added)];
    let unstaged = vec![make_entry("a.rs", FileStatus::Modified)];
    tree.refresh_git_statuses(&staged, &unstaged);
    assert_eq!(tree.git_statuses.get("a.rs"), Some('A'));
}

#[test]
fn refresh_git_statuses_updates_visible_entries_without_rebuild() {
    let mut src = dummy_entry("src");
    src.is_dir = true;
    let mut file = dummy_entry("main.rs");
    file.path = "src/main.rs".to_string();
    file.depth = 1;
    let mut tree = make_tree_with_entries(vec![src, file]);

    let staged = vec![make_entry("src/main.rs", FileStatus::Modified)];
    tree.refresh_git_statuses(&staged, &[]);

    assert_eq!(tree.entries.len(), 2);
    assert_eq!(tree.entries[0].git_status, Some('●'));
    assert_eq!(tree.entries[1].git_status, Some('M'));
}

fn file(name: &str) -> DirNode {
    DirNode { name: name.to_string(), is_dir: false, children: Vec::new() }
}

fn dir(name: &str, children: Vec<DirNode>) -> DirNode {
    DirNode { name: name.to_string(), is_dir: true, children }
}

fn sample() -> Vec<DirNode> {
    vec![
        file("zeta.txt"),
        dir(".git", vec![file("HEAD")]),
        dir("Src", vec![file("B.rs"), file("a.rs"), dir("ui", vec![file("x.rs")])]),
        file("Alpha.md"),
        dir("docs", Vec::new()),
        file("\u{c4}rger.txt"),
    ]
}

fn shown(rows: &[TreeEntry]) -> Vec<(String, usize)> {
    rows.iter().map(|e| (e.path.clone(), e.depth)).collect()
}

#[test]
fn rows_put_directories_first_and_ignore_case() {
    let rows = build_entries(&sample(), &StrSet::new(), &StrMap::new());
    let want: Vec<(String, usize)> = ["docs", "Src", "Alpha.md", "zeta.txt", "\u{c4}rger.txt"]
        .iter()
        .map(|p| (p.to_string(), 0))
        .collect();
    assert_eq!(shown(&rows), want);
}

#[test]
fn open_directories_are_followed_by_their_rows() {
    let mut open = StrSet::new();
    open.insert("Src".to_string());
    open.insert("Src/ui".to_string());
    let mut marks: StrMap<char> = StrMap::new();
    marks.insert("Src/a.rs".to_string(), 'M');
    let rows = build_entries(&sample(), &open, &marks);
    let paths: Vec<&str> = rows.iter().map(|e| e.path.as_str()).collect();
    assert_eq!(
        paths,
        vec![
            "docs",
            "Src",
            "Src/ui",
            "Src/ui/x.rs",
            "Src/a.rs",
            "Src/B.rs",
            "Alpha.md",
            "zeta.txt",
            "\u{c4}rger.txt",
        ]
    );
    assert_eq!(rows[3].depth, 2);
    assert!(rows[1].is_expanded && rows[2].is_expanded && !rows[0].is_expanded);
    assert_eq!(rows[4].git_status, Some('M'));
    assert_eq!(rows[5].git_status, None);
}

#[test]
fn toggling_a_directory_twice_closes_it_again() {
    let mut tree = FileTree::new("/w", &sample());
    assert_eq!(tree.entries[1].path, "Src");
    tree.toggle_expand(1);
    assert!(tree.is_expanded("Src"));
    tree.rebuild(&sample());
    assert!(tree.entries[1].is_expanded);
    tree.toggle_expand(1);
    assert!(!tree.is_expanded("Src"));
}

#[test]
fn revealing_a_file_opens_its_directories() {
    for spelling in ["Src/ui/x.rs", "Src//ui/./x.rs", "Src/ui/x.rs/"] {
        let mut tree = FileTree::new("/w", &sample());
        assert!(!tree.entries.iter().any(|e| e.path == "Src/ui/x.rs"));
        tree.reveal_path(spelling, &sample());
        assert!(tree.is_expanded("Src"));
        assert!(tree.is_expanded("Src/ui/"));
        assert!(!tree.is_expanded("Src/ui/x.rs"));
        assert_eq!(tree.selected_path().as_deref(), Some("Src/ui/x.rs"), "{spelling}");
    }
}

#[test]
fn every_directory_above_a_change_is_marked() {
    let mut tree = make_tree_with_entries(vec![]);
    let unstaged = vec![make_entry("a/b/c.rs", FileStatus::Untracked)];
    tree.refresh_git_statuses(&[], &unstaged);
    assert_eq!(tree.git_statuses.get("a"), Some('●'));
    assert_eq!(tree.git_statuses.get("a/b"), Some('●'));
    assert_eq!(tree.git_statuses.get("a/b/c.rs"), Some('U'));
    assert_eq!(tree.git_statuses.get("b"), None);
}

#[test]
fn selection_is_clamped_after_a_rebuild() {
    let mut tree = make_tree_with_entries(vec![dummy_entry("a")]);
    tree.replace_entries(vec![dummy_entry("x"), dummy_entry("y")], 9);
    assert_eq!(tree.selected, 1);
    tree.clear_selection();
    assert!(tree.selected_cleared());
    assert_eq!(tree.selected_path(), None);
}

#[test]
fn a_file_that_is_gone_is_not_revealed() {
    let mut tree = FileTree::new("/w", &sample());
    tree.selected = 1;
    tree.reveal_path("Src/gone.rs", &sample());
    assert!(tree.is_expanded("Src"));
    assert_eq!(tree.selected, 1);
    let before = format!("{tree:?}");
    tree.reveal_path("Src/gone.rs", &Vec::new());
    tree.reveal_path("Src", &Vec::new());
    assert_eq!(format!("{tree:?}"), before);
    assert!(tree.entries.iter().any(|e| e.path == "Src"));
}

#[test]
fn the_directories_to_read_are_told_before_they_are_expanded() {
    let tree = FileTree::new("/w", &sample());
    let open = tree.expanded_for("Src/ui/x.rs");
    assert!(open.contains("Src") && open.contains("Src/ui"));
    assert!(!tree.is_expanded("Src") && tree.expanded_paths().is_empty());
}

#[test]
fn a_second_rebuild_changes_nothing() {
    let mut tree = FileTree::new("/w", &sample());
    tree.toggle_expand(1);
    tree.selected = 99;
    tree.rebuild(&sample());
    assert_eq!(tree.expanded_paths(), ["Src"]);
    let once = format!("{tree:?}");
    tree.rebuild(&sample());
    assert_eq!(format!("{tree:?}"), once);
}

#[test]
fn rows_are_found_however_a_path_is_spelled() {
    let tree = FileTree::new("/w", &sample());
    for spelling in ["Src", "Src/", "Src/.", "Src//"] {
        assert_eq!(row_showing(&tree.entries, spelling), Some(1), "{spelling}");
    }
    assert_eq!(row_showing(&tree.entries, "./Src"), None);
}
