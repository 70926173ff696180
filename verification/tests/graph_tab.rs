use reef::effects::{Effect, Effects, Pref};
use reef::git::{CommitDetail, CommitInfo, DiffContent, FileEntry, FileStatus};
use reef::graph::{
    CommitDetailState, CommitFileDiff, GitGraphState, GraphPane, GraphPayload, GraphRow,
};
use reef::layout::{DiffLayout, DiffMode, Screen};
use reef::loads::AsyncState;

fn s(t: &str) -> String {
    t.to_string()
}

fn commit(oid: &str) -> CommitInfo {
    CommitInfo {
        oid: s(oid),
        short_oid: s(oid),
        parents: Vec::new(),
        author_name: s("n"),
        author_email: s("e"),
        time: 0,
        subject: s("subject"),
    }
}

fn payload(oids: &[&str], key: u64) -> GraphPayload {
    GraphPayload {
        rows: oids.iter().map(|o| GraphRow { commit: commit(o) }).collect(),
        ref_map: Vec::new(),
        cache_key: (s("head"), key),
    }
}

fn here() -> Option<String> {
    Some(s("."))
}

fn pane() -> GraphPane {
    GraphPane {
        git_graph: GitGraphState::default(),
        commit_detail: CommitDetailState::default(),
        graph_load: AsyncState::default(),
        commit_detail_load: AsyncState::default(),
        commit_file_diff_load: AsyncState::default(),
    }
}

fn walk(g: &mut GraphPane, oids: &[&str], key: u64) -> Effects {
    g.refresh_graph(&here(), &mut Effects::new());
    let generation = g.graph_load.generation;
    let mut fx = Effects::new();
    g.apply_graph(generation, Ok(payload(oids, key)), &here(), &mut fx);
    fx
}

fn walked(oids: &[&str]) -> GraphPane {
    let mut g = pane();
    walk(&mut g, oids, 1);
    g
}

#[test]
fn the_first_walk_shows_the_newest_commit() {
    let mut g = pane();
    let fx = walk(&mut g, &["c", "b", "a"], 1);
    assert_eq!(g.git_graph.selected_commit.as_deref(), Some("c"));
    assert!(matches!(
        fx.list.as_slice(),
        [Effect::LoadCommitDetail { oid, .. }] if oid == "c"
    ));
}

#[test]
fn the_cursor_follows_its_commit() {
    let mut g = walked(&["c", "b", "a"]);
    g.move_graph_selection(1, &here(), &mut Effects::new());
    assert_eq!(g.git_graph.selected_commit.as_deref(), Some("b"));
    walk(&mut g, &["e", "d", "c", "b", "a"], 2);
    assert_eq!((g.git_graph.selected_idx, g.git_graph.selected_commit.as_deref()), (3, Some("b")));
    walk(&mut g, &["x"], 3);
    assert_eq!((g.git_graph.selected_idx, g.git_graph.selected_commit.as_deref()), (0, Some("x")));
    walk(&mut g, &[], 4);
    assert_eq!((g.git_graph.selected_idx, g.git_graph.selected_commit.as_deref()), (0, None));
}

#[test]
fn moves_stop_at_the_ends() {
    let mut g = walked(&["c", "b", "a"]);
    let mut fx = Effects::new();
    g.move_graph_selection(-5, &here(), &mut fx);
    assert!(fx.list.is_empty());
    g.move_graph_selection(99, &here(), &mut fx);
    assert_eq!(g.git_graph.selected_idx, 2);
    g.move_graph_selection(i32::MIN, &here(), &mut fx);
    assert_eq!(g.git_graph.selected_idx, 0);
}

#[test]
fn extending_there_and_back_leaves_one_commit() {
    let mut g = walked(&["d", "c", "b", "a"]);
    g.move_graph_selection(1, &here(), &mut Effects::new());
    let mut fx = Effects::new();
    g.extend_graph_selection(2, &here(), &mut fx);
    assert_eq!(g.git_graph.selected_range(), (1, 3));
    assert!(g.git_graph.is_range());
    assert!(matches!(
        fx.list.as_slice(),
        [Effect::LoadCommitRange { oldest, newest, .. }] if oldest == "a" && newest == "c"
    ));
    let d = g.commit_detail.range_detail.as_ref().unwrap();
    assert_eq!((d.commit_count, d.commits.len()), (3, 3));
    assert!(g.commit_detail.detail.is_none());
    g.extend_graph_selection(-2, &here(), &mut Effects::new());
    assert!(!g.git_graph.is_range() && g.git_graph.in_visual_mode());
    assert!(g.commit_detail.range_detail.is_none());
    let mut fx = Effects::new();
    g.clear_graph_range(&here(), &mut fx);
    assert!(!g.git_graph.in_visual_mode());
    g.clear_graph_range(&here(), &mut fx);
    assert_eq!(fx.list.len(), 1);
}

#[test]
fn a_range_goes_on_from_its_commit_or_is_given_up() {
    let mut g = walked(&["d", "c", "b", "a"]);
    g.extend_graph_selection(2, &here(), &mut Effects::new());
    walk(&mut g, &["f", "e", "d", "c", "b", "a"], 2);
    assert_eq!(g.git_graph.selected_range(), (2, 4));
    walk(&mut g, &["c", "b", "a"], 3);
    assert!(!g.git_graph.in_visual_mode());
    assert!(g.commit_detail.range_detail.is_none());
    assert_eq!(g.git_graph.selected_commit.as_deref(), Some("b"));
}

#[test]
fn superseded_results_are_dropped() {
    let mut g = walked(&["b", "a"]);
    let old = g.commit_detail_load.generation;
    g.move_graph_selection(1, &here(), &mut Effects::new());
    let detail = |oid: &str| CommitDetail {
        info: commit(oid),
        message: s("m"),
        committer_name: s("n"),
        committer_time: 0,
        files: Vec::new(),
    };
    g.apply_commit_detail(old, Ok(Some(detail("b"))));
    assert!(g.commit_detail.detail.is_none());
    let now = g.commit_detail_load.generation;
    g.apply_commit_detail(now, Ok(Some(detail("a"))));
    assert_eq!(g.commit_detail.detail.as_ref().unwrap().info.oid, "a");
    g.load_commit_detail(&here(), &mut Effects::new());
    let now = g.commit_detail_load.generation;
    g.apply_commit_detail(now, Err(s("gone")));
    assert_eq!(g.commit_detail_load.error.as_deref(), Some("gone"));
    g.refresh_graph(&here(), &mut Effects::new());
    let stale = g.graph_load.generation - 1;
    g.apply_graph(stale, Ok(payload(&["z"], 9)), &here(), &mut Effects::new());
    assert_eq!(g.git_graph.rows.len(), 2);
}

#[test]
fn files_of_a_range_are_taken_into_its_detail() {
    let mut g = walked(&["b", "a"]);
    g.extend_graph_selection(1, &here(), &mut Effects::new());
    let generation = g.commit_detail_load.generation;
    let f = FileEntry { path: s("f"), status: FileStatus::Added, additions: 1, deletions: 0 };
    g.apply_range_detail(generation, Ok(vec![f]));
    assert_eq!(g.commit_detail.range_detail.as_ref().unwrap().files.len(), 1);
}

#[test]
fn the_diff_of_a_file_is_asked_of_the_commit_or_the_range() {
    let mut screen = Screen::new();
    let mut g = walked(&["b", "a"]);
    let mut fx = Effects::new();
    g.load_commit_file_diff("f", &mut screen, &here(), &mut fx);
    assert!(matches!(
        fx.list.as_slice(),
        [Effect::LoadCommitFileDiff { oid, path, .. }] if oid == "b" && path == "f"
    ));
    let generation = g.commit_file_diff_load.generation;
    let diff = || CommitFileDiff {
        path: s("f"),
        diff: DiffContent { file_path: s("f"), hunks: Vec::new() },
        highlighted: None,
    };
    g.apply_commit_file_diff(generation, Ok(Some(diff())));
    assert!(g.commit_detail.file_diff.is_some());
    g.extend_graph_selection(1, &here(), &mut Effects::new());
    assert!(g.commit_detail.file_diff.is_none());
    let mut fx = Effects::new();
    g.load_commit_file_diff("f", &mut screen, &here(), &mut fx);
    assert!(matches!(
        fx.list.as_slice(),
        [Effect::LoadRangeFileDiff { oldest, newest, .. }] if oldest == "a" && newest == "b"
    ));
}

#[test]
fn settings_of_the_commit_view_are_kept() {
    let mut g = walked(&["a"]);
    let mut fx = Effects::new();
    g.toggle_commit_diff_layout(&mut fx);
    assert_eq!(g.commit_detail.diff_layout, DiffLayout::SideBySide);
    g.toggle_commit_diff_mode(&mut Screen::new(), &here(), &mut fx);
    assert_eq!(g.commit_detail.diff_mode, DiffMode::FullFile);
    g.toggle_commit_files_tree_mode(&mut fx);
    assert!(fx.list.iter().any(|e| matches!(
        e,
        Effect::SetPref { pref: Pref::CommitDiffMode, value } if value == DiffMode::FullFile.pref_str()
    )));
    assert!(fx
        .list
        .iter()
        .any(|e| matches!(e, Effect::SetFlag { pref: Pref::CommitFilesTreeMode, .. })));
}

#[test]
fn without_a_repository_there_is_no_graph() {
    let mut g = walked(&["a"]);
    let mut fx = Effects::new();
    g.refresh_graph(&None, &mut fx);
    assert!(fx.list.is_empty() && g.git_graph.rows.is_empty());
    assert!(g.git_graph.ref_map.is_empty());
}
