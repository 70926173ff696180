use reef::actions::{ActionStep, ClickAction};
use reef::app::{App, Startup};
use reef::backend::{
    ColumnInfo, DatabaseInfo, DbPage, RepoDiscoverOpts, SqliteValue, TableSummary,
};
use reef::effects::{Effect, Effects, Notice, Pref, ReplaceCounts};
use reef::file_tree::{DirNode, FileTree};
use reef::git::{FileEntry, FileStatus};
use reef::git_flows::JobEnd;
use reef::git_pane::PushOperation;
use reef::global_search::{ReplaceEnd, SearchHit, SearchPanelFocus};
use reef::layout::{DiffLayout, DiffMode, Panel, Screen, Tab, TabTitles, ViewMode};
use reef::loads::AsyncState;
use reef::panel_search::{
    begin, exit_confirm, handle_key_in_search_mode, prompt_op, step, PromptKey, PromptOp,
};
use reef::preview::{PreviewBody, PreviewContent};
use reef::preview_pane::{max_page_for, DbNav, DbPreviewState, PreviewHighlight};
use reef::tick::Tick;
use reef::worker::WorkerResult;

fn s(t: &str) -> String {
    t.to_string()
}

fn startup() -> Startup {
    let file = |name: &str| DirNode { name: s(name), is_dir: false, children: Vec::new() };
    Startup {
        file_tree: FileTree::new("/w", &vec![file("a"), file("b"), file("c")]),
        branch_name: s("main"),
        has_repo: true,
        is_remote: false,
        has_picker: false,
        discover_opts: RepoDiscoverOpts { max_depth: 2, include_nested: false, max_repos: None },
        saved_repo: None,
        diff_layout: DiffLayout::Unified,
        diff_mode: DiffMode::Compact,
        status_tree_mode: false,
        commit_diff_layout: DiffLayout::Unified,
        commit_diff_mode: DiffMode::Compact,
        commit_files_tree_mode: false,
    }
}

fn app() -> App {
    App::new_with_backend(startup(), 0, &mut Effects::new())
}

fn on_tab(tab: Tab) -> App {
    let mut a = app();
    a.set_active_tab(tab, &mut Effects::new());
    a
}

fn click(a: &mut App, action: ClickAction) -> (ActionStep, Effects) {
    let mut fx = Effects::new();
    let included = vec![true; a.global_search.results.len()];
    let step = a.handle_action(action, true, &included, 1000, &mut fx);
    (step, fx)
}

fn hit(path: &str, line: usize) -> SearchHit {
    SearchHit { path: s(path), line, line_text: s("text"), byte_range: 0..1 }
}

fn idle_tick(now: u64) -> Tick {
    Tick {
        now,
        files_dirty: false,
        search_debounce: 100,
        push_end: None,
        pull_end: None,
        commit_end: None,
        place_due: None,
        dragging: false,
        drag_due: None,
    }
}

#[test]
fn a_session_starts_with_its_first_loads() {
    let mut fx = Effects::new();
    let a = App::new_with_backend(startup(), 5, &mut fx);
    assert!(matches!(
        fx.list.as_slice(),
        [
            Effect::RefreshStatus { generation: 1, repo },
            Effect::DiscoverRepos { generation: 1, .. },
            Effect::RebuildTree { generation: 1, select: Some(p), selected_idx: 0 }
        ] if repo == "." && p == "a"
    ));
    assert_eq!((a.next_git_revalidate_at, a.next_graph_revalidate_at), (805, 1205));
    let bare = Startup { has_repo: false, ..startup() };
    let mut fx = Effects::new();
    App::new_with_backend(bare, 0, &mut fx);
    assert_eq!(fx.list.len(), 2);
}

#[test]
fn leaving_the_files_tab_closes_what_is_open_there() {
    let mut a = app();
    let first = a.screen.active_tab;
    a.set_active_tab(Tab::Files, &mut Effects::new());
    a.files.begin_rename(Some(0), &mut a.screen, &mut Effects::new());
    a.files.prompt_tree_delete(s("/w/a"), false, false, None);
    a.screen.preview_selection = true;
    a.set_active_tab(Tab::Graph, &mut Effects::new());
    assert_ne!(first, Tab::Graph);
    assert!(!a.files.tree_edit.active && a.files.tree_delete_confirm.is_none());
    assert!(!a.screen.preview_selection);
    assert!(a.graph.graph_load.stale);
}

#[test]
fn the_search_tab_points_at_its_hit() {
    let mut a = app();
    a.global_search.results = vec![hit("a", 3)];
    let mut fx = Effects::new();
    a.set_active_tab(Tab::Search, &mut fx);
    assert!(matches!(fx.list.as_slice(), [Effect::ShowSearchHit]));
    a.set_active_tab(Tab::Git, &mut fx);
    a.preview.preview_highlight =
        Some(PreviewHighlight { path: s("a"), row: 3, byte_range: 0..1 });
    let mut fx = Effects::new();
    a.set_active_tab(Tab::Search, &mut fx);
    assert!(fx.list.is_empty());
}

#[test]
fn settings_are_opened_once() {
    let mut a = app();
    let mut fx = Effects::new();
    a.open_settings(&mut fx);
    a.open_settings(&mut fx);
    assert_eq!(fx.list.len(), 1);
    assert_eq!(a.screen.view_mode, ViewMode::Settings);
    a.close_settings();
    assert_eq!(a.screen.view_mode, ViewMode::Main);
}

#[test]
fn the_status_bar_tells_the_first_load() {
    let mut a = on_tab(Tab::Git);
    assert_eq!(a.activity_message().as_deref(), Some("git refreshing…"));
    a.git.git_status_load = AsyncState::default();
    assert_eq!(a.activity_message(), None);
    a.git.diff.diff_load.error = Some(s("boom"));
    assert_eq!(a.activity_message().as_deref(), Some("diff error: boom"));
    a.git.git_status_load.stale = true;
    assert_eq!(a.activity_message().as_deref(), Some("git stale"));
    let mut a = on_tab(Tab::Search);
    a.global_search.global_search_load.loading = true;
    assert_eq!(a.activity_message().as_deref(), Some("search scanning…"));
}

#[test]
fn work_that_is_under_way_is_not_started_again() {
    let mut a = on_tab(Tab::Git);
    let generation = a.git.git_status_load.generation;
    a.apply_worker_result(
        WorkerResult::GitStatus { generation, result: Err(s("x")) },
        0,
        &mut Effects::new(),
    );
    let mut fx = Effects::new();
    a.kick_active_tab_work(5000, &mut fx);
    assert!(fx.list.iter().any(|e| matches!(e, Effect::RefreshStatus { .. })));
    let mut fx = Effects::new();
    a.kick_active_tab_work(5000, &mut fx);
    assert!(fx.list.is_empty(), "{:?}", fx.list);
}

#[test]
fn superseded_results_change_nothing_at_all() {
    let results = || {
        vec![
            WorkerResult::FileTree { generation: 99, result: Ok((Vec::new(), 0)) },
            WorkerResult::Preview { generation: 99, result: Ok(None) },
            WorkerResult::Graph { generation: 99, result: Err(s("e")) },
            WorkerResult::GlobalSearchChunk { generation: 99, hits: vec![hit("a", 1)] },
            WorkerResult::GlobalSearchDone { generation: 99, truncated: true },
            WorkerResult::FileCopy { generation: 99, result: Ok(3) },
            WorkerResult::FsMutation { generation: 99, kind: s("k"), result: Ok(()) },
            WorkerResult::ReplaceProgress { generation: 99, files_done: 1, files_total: 2 },
            WorkerResult::RepoCatalog { generation: 99, result: Err(s("e")) },
        ]
    };
    for r in results() {
        let mut a = app();
        let before = format!("{a:?}");
        let mut fx = Effects::new();
        let shown = format!("{r:?}");
        assert!(a.apply_worker_result(r, 0, &mut fx).is_none());
        assert_eq!(format!("{a:?}"), before, "{shown}");
        assert!(fx.list.is_empty());
    }
}

#[test]
fn a_rebuilt_tree_moves_the_preview_with_its_selection() {
    let mut a = on_tab(Tab::Files);
    let generation = a.files.file_tree_load.generation;
    let rows = a.files.file_tree.entries.clone();
    let result = Ok((rows, 2));
    a.apply_worker_result(WorkerResult::FileTree { generation, result }, 500, &mut Effects::new());
    assert_eq!(a.files.file_tree.selected, 2);
    assert_eq!(a.preview.preview_schedule, Some((s("c"), 580)));
}

#[test]
fn clicking_a_header_twice_changes_nothing() {
    let mut a = on_tab(Tab::Git);
    let before = format!("{a:?}");
    for action in [ClickAction::ToggleStaged, ClickAction::ToggleUnstaged] {
        click(&mut a, action);
    }
    assert!(a.git.lists.staged_collapsed && a.git.lists.unstaged_collapsed);
    for action in [ClickAction::ToggleStaged, ClickAction::ToggleUnstaged] {
        click(&mut a, action);
    }
    assert_eq!(format!("{a:?}"), before);
}

#[test]
fn clicks_do_what_they_say() {
    let mut a = on_tab(Tab::Files);
    click(&mut a, ClickAction::TreeClick(1));
    assert_eq!(a.files.file_tree.selected, 1);
    assert_eq!(a.preview.preview_schedule, Some((s("b"), 1080)));
    click(&mut a, ClickAction::TreeClearSelection);
    assert!(a.files.file_tree.selected_cleared());
    click(&mut a, ClickAction::SwitchTab(Tab::Git));
    let (_, fx) = click(&mut a, ClickAction::SelectFile { path: s("x"), staged: false });
    assert!(matches!(fx.list.as_slice(), [Effect::LoadDiff { staged: false, .. }]));
    let (_, fx) = click(&mut a, ClickAction::StageFile(s("x")));
    assert!(matches!(
        fx.list.as_slice(),
        [Effect::Stage { path, alone: true, .. }] if path == "x"
    ));
    let (_, fx) = click(&mut a, ClickAction::GitCommand { command: s("c"), args: s("a") });
    assert!(matches!(fx.list.as_slice(), [Effect::PanelCommand { .. }]));
    let (step, _) = click(&mut a, ClickAction::DbNextPage);
    assert!(matches!(step, ActionStep::Nothing));
    click(&mut a, ClickAction::StartDragSplit);
    assert!(a.screen.dragging_split);
}

#[test]
fn dropped_files_are_copied_where_they_are_put() {
    let mut a = on_tab(Tab::Files);
    a.enter_place_mode(vec![s("/tmp/x")], &mut Effects::new());
    match click(&mut a, ClickAction::PlaceModeRoot).0 {
        ActionStep::Copy(job) => assert_eq!((job.dest_dir.as_str(), job.sources.len()), ("/w", 1)),
        other => panic!("{other:?}"),
    }
    let (step, fx) = click(&mut a, ClickAction::PlaceModeRoot);
    assert!(matches!(step, ActionStep::Nothing));
    assert!(matches!(fx.list.as_slice(), [Effect::Say { notice: Notice::CopyInFlight, .. }]));
}

#[test]
fn a_replacement_takes_the_chosen_hits_by_file() {
    let mut a = on_tab(Tab::Search);
    a.global_search.results = vec![hit("b", 1), hit("a", 2), hit("b", 5), hit("c", 1)];
    a.global_search.query = s("q");
    let included = vec![true, true, true, false];
    assert!(a.global_search.commit_replace_in_files(&included).is_none());
    a.global_search.toggle_replace();
    a.global_search.replace_text = s("r");
    let job = a.global_search.commit_replace_in_files(&included).unwrap();
    let seen: Vec<(&str, Vec<usize>)> = job
        .items
        .iter()
        .map(|i| (i.path.as_str(), i.lines.iter().map(|l| l.line_no).collect()))
        .collect();
    assert_eq!(seen, [("a", vec![2]), ("b", vec![1, 5])]);
    assert!(a.global_search.commit_replace_in_files(&included).is_none());
    let counts = ReplaceCounts {
        lines_replaced: 3,
        files_changed: 2,
        skipped_stale: 0,
        skipped_too_large: 0,
        errors: 0,
    };
    let mut fx = Effects::new();
    let changed = a.global_search.apply_replace_done(job.generation, ReplaceEnd::Done(counts), &mut fx);
    assert!(changed);
    assert!(matches!(
        fx.list.as_slice(),
        [Effect::Say { notice: Notice::Replaced { .. }, .. }, Effect::ReloadSearch]
    ));
    a.global_search.focus = SearchPanelFocus::ReplaceInput;
    a.global_search.toggle_replace();
    assert!(matches!(a.global_search.focus, SearchPanelFocus::FindInput));
}

#[test]
fn replacements_go_by_file_in_the_order_of_paths() {
    let mut a = on_tab(Tab::Search);
    let spelled = ["-x", "../a", "./a", "../a/", ".a"];
    a.global_search.results = spelled.iter().map(|p| hit(p, 1)).collect();
    a.global_search.query = s("q");
    a.global_search.toggle_replace();
    let job = a.global_search.commit_replace_in_files(&vec![true; 5]).unwrap();
    let seen: Vec<(&str, usize)> =
        job.items.iter().map(|i| (i.path.as_str(), i.lines.len())).collect();
    assert_eq!(seen, [("./a", 1), ("../a", 2), ("-x", 1), (".a", 1)]);
}

#[test]
fn hits_stay_in_order_over_chunks() {
    let mut a = on_tab(Tab::Search);
    a.global_search.query = s("q");
    a.global_search.last_keystroke_at = Some(0);
    let mut fx = Effects::new();
    a.tick(idle_tick(99), &mut fx);
    assert!(!fx.list.iter().any(|e| matches!(e, Effect::SearchAll { .. })));
    a.tick(idle_tick(100), &mut fx);
    let asked = fx.list.iter().filter(|e| matches!(e, Effect::SearchAll { .. })).count();
    assert_eq!(asked, 1);
    let generation = a.global_search.global_search_load.generation;
    let chunk = |hits| WorkerResult::GlobalSearchChunk { generation, hits };
    a.apply_worker_result(chunk(vec![hit("b", 2), hit("a", 9)]), 0, &mut Effects::new());
    a.apply_worker_result(chunk(vec![hit("a", 1), hit("b", 1)]), 0, &mut Effects::new());
    let seen: Vec<(&str, usize)> =
        a.global_search.results.iter().map(|h| (h.path.as_str(), h.line)).collect();
    assert_eq!(seen, [("a", 1), ("a", 9), ("b", 1), ("b", 2)]);
    let more = vec![hit("-x", 1), hit("../a", 1), hit("./a", 1)];
    a.apply_worker_result(chunk(more), 0, &mut Effects::new());
    let seen: Vec<&str> = a.global_search.results.iter().map(|h| h.path.as_str()).collect();
    assert_eq!(seen, ["./a", "../a", "-x", "a", "a", "b", "b"]);
    let done = WorkerResult::GlobalSearchDone { generation, truncated: true };
    a.apply_worker_result(done, 0, &mut Effects::new());
    assert!(a.global_search.truncated && !a.global_search.global_search_load.loading);
}

#[test]
fn only_the_last_preview_of_a_burst_is_asked_for() {
    let mut a = on_tab(Tab::Files);
    a.preview.load_preview_for_path(s("a"), 0);
    a.preview.load_preview_for_path(s("b"), 50);
    let mut fx = Effects::new();
    a.preview.drain_preview_schedule(129, &mut fx);
    assert!(fx.list.is_empty());
    a.preview.drain_preview_schedule(130, &mut fx);
    a.preview.drain_preview_schedule(131, &mut fx);
    assert!(matches!(
        fx.list.as_slice(),
        [Effect::LoadPreview { path, wants_image: false, .. }] if path == "b"
    ));
    let generation = a.preview.preview_load.generation;
    let text = PreviewContent {
        file_path: s("b"),
        body: PreviewBody::Text { lines: vec![s("x")], highlighted: None, source_bytes: 1 },
    };
    let result = Ok(Some(text));
    a.apply_worker_result(WorkerResult::Preview { generation, result }, 200, &mut Effects::new());
    a.files.file_tree.selected = 1;
    let mut fx = Effects::new();
    a.preview.drain_prefetch_schedule(499, &a.files, &a.screen, &mut fx);
    assert!(fx.list.is_empty());
    a.preview.drain_prefetch_schedule(500, &a.files, &a.screen, &mut fx);
    let fetched: Vec<&str> = fx
        .list
        .iter()
        .filter_map(|e| match e {
            Effect::PrefetchPreview { path, .. } => Some(path.as_str()),
            _ => None,
        })
        .collect();
    assert_eq!(fetched, ["a", "c"]);
}

fn table(name: &str, row_count: u64) -> TableSummary {
    let columns = vec![ColumnInfo { name: s("c"), decl_type: s("TEXT") }];
    TableSummary { name: s(name), columns, row_count }
}

fn with_database() -> App {
    let mut a = on_tab(Tab::Files);
    let info = DatabaseInfo {
        tables: vec![table("t", 120), table("u", 0)],
        selected_table: 0,
        initial_page: DbPage { rows: vec![vec![SqliteValue::Integer(1)]] },
        bytes_on_disk: 10,
    };
    a.preview.dispatch_preview_load(s("x.db"), &mut Effects::new());
    let generation = a.preview.preview_load.generation;
    let content = PreviewContent { file_path: s("x.db"), body: PreviewBody::Database(info) };
    let result = Ok(Some(content));
    a.apply_worker_result(WorkerResult::Preview { generation, result }, 0, &mut Effects::new());
    a
}

#[test]
fn pages_of_a_database_stay_in_its_table() {
    assert_eq!(max_page_for(&table("t", 120), 50), 2);
    assert_eq!(max_page_for(&table("t", 100), 50), 1);
    assert_eq!(max_page_for(&table("t", 0), 50), 0);
    let mut a = with_database();
    assert_eq!(a.preview.db_preview_state.as_ref().unwrap().path, "x.db");
    let mut fx = Effects::new();
    assert!(a.preview.db_navigate(DbNav::PrevPage, &mut fx).is_none());
    let to = a.preview.db_navigate(DbNav::LastPage, &mut fx).unwrap();
    assert_eq!((to.table, to.page, to.table_changed), (0, 2, false));
    assert!(matches!(
        fx.list.as_slice(),
        [Effect::LoadDbPage { table, offset: 100, limit: 50, .. }] if table == "t"
    ));
    let row = || DbPage { rows: vec![vec![SqliteValue::Null]] };
    a.preview.db_page_loaded("other.db", to, Ok(row()), &mut fx);
    assert_eq!(a.preview.db_preview_state.as_ref().unwrap().page, 0);
    a.preview.db_page_loaded("x.db", to, Ok(DbPage { rows: Vec::new() }), &mut fx);
    assert!(a.preview.db_navigate(DbNav::NextPage, &mut fx).is_none());
    let to = a.preview.db_navigate_to_page(2, &mut fx).unwrap();
    assert_eq!(to.page, 1);
    assert_eq!(a.preview.db_navigate_to_page(99, &mut fx), None);
    let to = a.preview.db_navigate(DbNav::NextTable, &mut fx).unwrap();
    assert_eq!((to.table, to.page, to.table_changed), (1, 0, true));
    let mut fx = Effects::new();
    a.preview.db_page_loaded("x.db", to, Err(s("locked")), &mut fx);
    assert!(matches!(
        fx.list.as_slice(),
        [Effect::Toast { text, .. }] if text == "sqlite page load failed: locked"
    ));
}

#[test]
fn the_pages_go_with_the_database() {
    let mut a = with_database();
    a.preview.dispatch_preview_load(s("a"), &mut Effects::new());
    let generation = a.preview.preview_load.generation;
    let result = Ok(None);
    a.apply_worker_result(WorkerResult::Preview { generation, result }, 0, &mut Effects::new());
    assert!(a.preview.db_preview_state.is_none());
    let info = DatabaseInfo {
        tables: Vec::new(),
        selected_table: 0,
        initial_page: DbPage { rows: Vec::new() },
        bytes_on_disk: 0,
    };
    assert_eq!(DbPreviewState::from_initial("p", &info).rows_per_page, 50);
}

#[test]
fn a_turn_reports_what_ended_and_asks_for_what_is_stale() {
    let mut a = on_tab(Tab::Git);
    let generation = a.git.git_status_load.generation;
    a.apply_worker_result(
        WorkerResult::GitStatus { generation, result: Err(s("x")) },
        0,
        &mut Effects::new(),
    );
    a.git.run_push(false, &Some(s(".")), &mut Effects::new());
    let mut fx = Effects::new();
    let t = Tick {
        push_end: Some((PushOperation::Push { force: false }, JobEnd::Done(Ok(())))),
        files_dirty: true,
        ..idle_tick(10)
    };
    a.tick(t, &mut fx);
    assert!(matches!(fx.list[0], Effect::StaleQuickOpen));
    let said = fx
        .list
        .iter()
        .position(|e| matches!(e, Effect::Say { notice: Notice::Pushed { force: false }, .. }));
    let asked = fx.list.iter().position(|e| matches!(e, Effect::RefreshStatus { .. }));
    assert!(said.unwrap() < asked.unwrap());
    assert!(!a.git.push_in_flight);
    let mut fx = Effects::new();
    a.tick(idle_tick(11), &mut fx);
    assert!(fx.list.is_empty(), "{:?}", fx.list);
}

fn named(path: &str) -> FileEntry {
    FileEntry { path: s(path), status: FileStatus::Modified, additions: 0, deletions: 0 }
}

fn type_key(a: &mut App, key: PromptKey, query: &str) -> Effects {
    let mut fx = Effects::new();
    let cursor = query.len();
    handle_key_in_search_mode(a, key, false, false, s(query), cursor, &Vec::new(), 0, &mut fx);
    fx
}

#[test]
fn a_cancelled_search_puts_everything_back() {
    let mut a = on_tab(Tab::Git);
    a.screen.active_panel = Panel::Files;
    a.git.lists.unstaged_files = vec![named("one"), named("two"), named("twofold")];
    let before = format!("{a:?}");
    begin(&mut a, false);
    assert!(a.search.active);
    type_key(&mut a, PromptKey::Char('t'), "tw");
    assert_eq!(a.search.matches.len(), 2);
    assert_eq!(a.git.lists.selected_file.as_ref().unwrap().path, "two");
    type_key(&mut a, PromptKey::Esc, "");
    assert!(!a.search.active);
    assert!(a.git.lists.selected_file.is_none());
    let mut b = on_tab(Tab::Git);
    b.screen.active_panel = Panel::Files;
    b.git.lists.unstaged_files = vec![named("one"), named("two"), named("twofold")];
    begin(&mut b, true);
    let fx = type_key(&mut b, PromptKey::Esc, "");
    assert!(fx.list.is_empty());
    assert_eq!(format!("{b:?}"), before);
}

#[test]
fn a_confirmed_search_can_be_stepped_through() {
    let mut a = on_tab(Tab::Git);
    a.screen.active_panel = Panel::Files;
    a.git.lists.unstaged_files = vec![named("two"), named("x"), named("twofold")];
    begin(&mut a, false);
    type_key(&mut a, PromptKey::Char('o'), "two");
    exit_confirm(&mut a);
    assert!(!a.search.active && a.search.can_step());
    let mut fx = Effects::new();
    step(&mut a, false, 0, &mut fx);
    assert_eq!(a.git.lists.selected_file.as_ref().unwrap().path, "twofold");
    step(&mut a, false, 0, &mut fx);
    assert_eq!(a.git.lists.selected_file.as_ref().unwrap().path, "two");
    assert!(a.search.wrap_msg.is_some());
    step(&mut a, true, 0, &mut fx);
    assert_eq!(a.git.lists.selected_file.as_ref().unwrap().path, "twofold");
}

#[test]
fn control_keys_insert_nothing() {
    for c in ['a', 'b', 'c', 'e', 'u', 'w', 'x', 'é'] {
        for alt in [false, true] {
            let op = prompt_op(PromptKey::Char(c), true, alt);
            assert!(!matches!(op, PromptOp::Insert(_)), "{c}");
        }
    }
    assert!(matches!(prompt_op(PromptKey::Char('c'), true, false), PromptOp::Cancel));
    assert!(matches!(prompt_op(PromptKey::Char('b'), false, true), PromptOp::WordBackward));
    assert!(matches!(prompt_op(PromptKey::Char('c'), false, false), PromptOp::Insert('c')));
    assert!(matches!(
        prompt_op(PromptKey::Backspace, false, true),
        PromptOp::DeleteWordBackward
    ));
}

#[test]
fn a_hidden_sidebar_gives_the_focus_away_and_hints_once() {
    let mut screen = Screen::new();
    screen.active_panel = Panel::Files;
    let mut fx = Effects::new();
    screen.toggle_sidebar(&mut fx);
    assert!(!screen.sidebar_visible && screen.active_panel == Panel::Diff);
    screen.toggle_sidebar(&mut fx);
    screen.toggle_sidebar(&mut fx);
    let hints = fx
        .list
        .iter()
        .filter(|e| matches!(e, Effect::Say { notice: Notice::SidebarHidden, .. }))
        .count();
    assert_eq!(hints, 1);
    screen.active_panel = Panel::Commit;
    screen.normalize_active_panel(false, false);
    assert_ne!(screen.active_panel, Panel::Commit);
    let (graph, commit, diff) = screen.graph_three_col_widths(200);
    assert_eq!((graph, commit + diff), (0, 200));
}

#[test]
fn tabs_have_their_titles() {
    let titles = TabTitles { files: "F", search: "S", git: "G", graph: "H" };
    let shown: Vec<&str> = Tab::all().into_iter().map(|t| t.label(titles)).collect();
    assert_eq!(shown, ["F", "S", "G", "H"]);
}

#[test]
fn a_load_is_requested_once_and_taken_once() {
    let mut l = AsyncState::default();
    assert!(!l.should_request());
    l.mark_stale();
    assert!(l.should_request());
    let first = l.begin();
    l.mark_stale();
    assert!(!l.should_request());
    let second = l.begin();
    assert_ne!(first, second);
    assert!(!l.complete_ok(first));
    assert!(l.complete_err(second, s("e")));
    assert_eq!(l.error.as_deref(), Some("e"));
    let third = l.begin();
    l.invalidate();
    assert!(!l.complete_ok(third));
}

#[test]
fn settings_have_their_keys() {
    assert_eq!(Pref::DiffLayout.key(), "diff.layout");
    assert_eq!(Pref::SelectedRepo.key(), "status.selected_repo");
    assert_eq!(Pref::CommitFilesTreeMode.key(), "commit.files_tree_mode");
}

#[test]
fn only_pictures_of_the_current_load_are_shown() {
    let mut a = on_tab(Tab::Files);
    a.preview.dispatch_preview_load(s("a"), &mut Effects::new());
    let now = a.preview.preview_load.generation;
    assert_eq!(a.preview.drain_preview_protocol_builds(&vec![now]), None);
    a.preview.has_picture = true;
    assert_eq!(a.preview.drain_preview_protocol_builds(&vec![now, now, now - 1]), Some(1));
    assert_eq!(a.preview.drain_preview_protocol_builds(&vec![now - 1]), None);
}

#[test]
fn neighbours_are_not_fetched_while_a_name_is_typed() {
    let mut a = on_tab(Tab::Files);
    a.files.begin_rename(Some(0), &mut a.screen, &mut Effects::new());
    a.preview.prefetch_schedule = Some(0);
    let mut fx = Effects::new();
    a.preview.drain_prefetch_schedule(1, &a.files, &a.screen, &mut fx);
    assert!(fx.list.is_empty());
}

#[test]
fn changed_files_leave_the_graph_alone() {
    let mut a = on_tab(Tab::Graph);
    let before = format!("{:?}", a.graph.git_graph);
    a.tick(Tick { files_dirty: true, ..idle_tick(7) }, &mut Effects::new());
    assert_eq!(format!("{:?}", a.graph.git_graph), before);
    assert!(a.git.git_status_load.stale);
}

#[test]
fn a_failed_commit_keeps_its_draft() {
    let mut a = on_tab(Tab::Git);
    a.git.git_status.commit_message = s("draft");
    a.git.commit_in_flight = true;
    let failed = JobEnd::Done(Err(s("hook")));
    a.tick(Tick { commit_end: Some(failed), ..idle_tick(1) }, &mut Effects::new());
    assert_eq!(a.git.git_status.commit_message, "draft");
    assert_eq!(a.git.git_status.commit_error.as_deref(), Some("hook"));
    assert!(!a.git.commit_in_flight);
    a.git.push_in_flight = true;
    let crashed = Some((PushOperation::PublishBranch, JobEnd::Crashed));
    a.tick(Tick { push_end: crashed, ..idle_tick(2) }, &mut Effects::new());
    assert!(!a.git.push_in_flight);
}
