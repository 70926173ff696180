//! The state of the program as a whole: its tabs, the work that follows from
//! what is on screen, and the results that come back from the background.
//! Times are milliseconds on one clock.
use crate::backend::{RepoDiscoverOpts, RepoDiscoverResponse};
use crate::effects::{Effect, Effects};
use crate::file_tree::{redecorated, FileTree};
use crate::files_pane::{ContextMenu, FileClipboard, FilesPane, PlaceMode, TreeEdit};
use crate::git_flows::graph_emptied;
use crate::git_pane::{DiffView, FileLists, GitPane, GitStatusState, PushOperation};
use crate::global_search::{GlobalSearch, SearchPanelFocus};
use crate::graph::{CommitDetailState, GitGraphState, GraphPane, GRAPH_COMMIT_LIMIT};
use crate::layout::{DiffLayout, DiffMode, Screen, Tab, ViewMode};
use crate::loads::{idle, AsyncState};
use crate::preview_pane::PreviewPane;
use crate::repo_catalog::{active_repo, lost_effects, RepoCatalogState};
use crate::search::SearchState;
use crate::text::{opt_view, same_opt};
use vstd::prelude::*;
use vstd::string::*;

verus! {

#[derive(Debug)]
pub struct App {
    pub screen: Screen,
    pub repo_catalog: RepoCatalogState,
    pub git: GitPane,
    pub graph: GraphPane,
    pub files: FilesPane,
    pub preview: PreviewPane,
    pub search: SearchState,
    pub global_search: GlobalSearch,
    /// Whether the working directory is itself a repository.
    pub has_repo: bool,
    pub is_remote: bool,
    pub quick_open_active: bool,
    pub pending_edit: Option<String>,
    pub should_quit: bool,
    pub should_quit_session: bool,
    pub next_git_revalidate_at: u64,
    pub next_graph_revalidate_at: u64,
}

/// How long the git tab, and the graph tab, wait before they look again.
pub const GIT_POLL_MS: u64 = 2000;

pub const GRAPH_POLL_MS: u64 = 5000;

/// The first look after the start.
pub const FIRST_GIT_POLL_MS: u64 = 800;

pub const FIRST_GRAPH_POLL_MS: u64 = 1200;

/// What a session starts from: where it works, and the settings that were
/// kept.
#[derive(Debug)]
pub struct Startup {
    pub file_tree: FileTree,
    pub branch_name: String,
    pub has_repo: bool,
    pub is_remote: bool,
    pub has_picker: bool,
    pub discover_opts: RepoDiscoverOpts,
    pub saved_repo: Option<String>,
    pub diff_layout: DiffLayout,
    pub diff_mode: DiffMode,
    pub status_tree_mode: bool,
    pub commit_diff_layout: DiffLayout,
    pub commit_diff_mode: DiffMode,
    pub commit_files_tree_mode: bool,
}

pub open spec fn after(now: u64, ms: u64) -> u64 {
    if now + ms > u64::MAX {
        u64::MAX
    } else {
        (now + ms) as u64
    }
}

// ── The start ────────────────────────────────────────────────────────────

/// The git pane of a new session.
pub open spec fn fresh_git(p: GitPane, layout: DiffLayout, mode: DiffMode, tree_mode: bool) -> bool {
    let g = p.git_status;
    &&& p.lists.staged_files@.len() == 0
    &&& p.lists.unstaged_files@.len() == 0
    &&& p.lists == (FileLists {
        staged_files: p.lists.staged_files,
        unstaged_files: p.lists.unstaged_files,
        selected_file: None,
        staged_collapsed: false,
        unstaged_collapsed: false,
        file_scroll: 0,
    })
    &&& g.collapsed_dirs@ == Set::<Seq<char>>::empty()
    &&& g.branches@.len() == 0
    &&& g.stashes@.len() == 0
    &&& g.commit_message@.len() == 0
    &&& g == (GitStatusState {
        tree_mode,
        ..GitStatusState::blank(g.collapsed_dirs, g.branches, g.stashes, g.commit_message)
    })
    &&& p == (GitPane {
        git_status: g,
        lists: p.lists,
        diff: DiffView::blank(layout, mode),
        branch_name: p.branch_name,
        push_in_flight: false,
        push_in_flight_kind: PushOperation::Push { force: false },
        pull_in_flight: false,
        commit_in_flight: false,
        git_status_load: p.git_status_load,
        stash_detail_load: idle(),
    })
}

fn new_git(branch_name: String, layout: DiffLayout, mode: DiffMode, tree_mode: bool) -> (r: GitPane)
    ensures
        fresh_git(r, layout, mode, tree_mode),
        r.branch_name == branch_name,
        r.git_status_load == idle(),
{
    let mut git_status = GitStatusState::default();
    git_status.tree_mode = tree_mode;
    GitPane {
        git_status,
        lists: FileLists {
            staged_files: Vec::new(),
            unstaged_files: Vec::new(),
            selected_file: None,
            staged_collapsed: false,
            unstaged_collapsed: false,
            file_scroll: 0,
        },
        diff: DiffView {
            diff_content: None,
            diff_layout: layout,
            diff_mode: mode,
            diff_scroll: 0,
            diff_h_scroll: 0,
            sbs_left_h_scroll: 0,
            sbs_right_h_scroll: 0,
            diff_load: AsyncState::default(),
        },
        branch_name,
        push_in_flight: false,
        push_in_flight_kind: PushOperation::default(),
        pull_in_flight: false,
        commit_in_flight: false,
        git_status_load: AsyncState::default(),
        stash_detail_load: AsyncState::default(),
    }
}

/// The graph pane of a new session.
pub open spec fn fresh_graph(p: GraphPane, layout: DiffLayout, mode: DiffMode, tree_mode: bool) -> bool {
    let g = p.git_graph;
    &&& g.rows@.len() == 0
    &&& g.ref_map@.len() == 0
    &&& g == (GitGraphState {
        rows: g.rows,
        ref_map: g.ref_map,
        cache_key: None,
        selected_idx: 0,
        selected_commit: None,
        selection_anchor: None,
        scroll: 0,
        last_rendered_selected: None,
    })
    &&& p.commit_detail.files_collapsed@ == Set::<Seq<char>>::empty()
    &&& p.commit_detail == CommitDetailState::blank(
        p.commit_detail.files_collapsed,
        layout,
        mode,
        tree_mode,
    )
    &&& p.graph_load == idle()
    &&& p.commit_detail_load == idle()
    &&& p.commit_file_diff_load == idle()
}

fn new_graph(layout: DiffLayout, mode: DiffMode, tree_mode: bool) -> (r: GraphPane)
    ensures
        fresh_graph(r, layout, mode, tree_mode),
{
    let mut commit_detail = CommitDetailState::default();
    commit_detail.diff_layout = layout;
    commit_detail.diff_mode = mode;
    commit_detail.files_tree_mode = tree_mode;
    GraphPane {
        git_graph: GitGraphState::default(),
        commit_detail,
        graph_load: AsyncState::default(),
        commit_detail_load: AsyncState::default(),
        commit_file_diff_load: AsyncState::default(),
    }
}

/// The files pane of a new session, over this tree.
pub open spec fn fresh_files(p: FilesPane, tree: FileTree) -> bool {
    &&& p.tree_edit.is_closed()
    &&& p.place_mode.sources@.len() == 0
    &&& p.file_clipboard.paths@.len() == 0
    &&& p.file_selection@.len() == 0
    &&& p == (FilesPane {
        file_tree: tree,
        tree_scroll: 0,
        file_tree_load: p.file_tree_load,
        fs_mutation_load: idle(),
        file_copy_load: idle(),
        fs_mutation_select_on_done: None,
        place_mode: PlaceMode { active: false, sources: p.place_mode.sources },
        tree_edit: p.tree_edit,
        tree_context_menu: ContextMenu { active: false, anchor: (0, 0), target_entry_idx: None },
        tree_delete_confirm: None,
        file_clipboard: FileClipboard { mode: None, paths: p.file_clipboard.paths },
        file_selection: p.file_selection,
    })
}

fn new_files(file_tree: FileTree) -> (r: FilesPane)
    ensures
        fresh_files(r, file_tree),
        r.file_tree_load == idle(),
{
    FilesPane {
        file_tree,
        tree_scroll: 0,
        file_tree_load: AsyncState::default(),
        fs_mutation_load: AsyncState::default(),
        file_copy_load: AsyncState::default(),
        fs_mutation_select_on_done: None,
        place_mode: PlaceMode { active: false, sources: Vec::new() },
        tree_edit: TreeEdit::closed(),
        tree_context_menu: ContextMenu { active: false, anchor: (0, 0), target_entry_idx: None },
        tree_delete_confirm: None,
        file_clipboard: FileClipboard { mode: None, paths: Vec::new() },
        file_selection: Vec::new(),
    }
}

/// The preview pane of a new session.
pub open spec fn fresh_preview(has_picker: bool) -> PreviewPane {
    PreviewPane {
        preview_content: None,
        has_picker,
        has_picture: false,
        preview_schedule: None,
        prefetch_schedule: None,
        preview_in_flight_path: None,
        preview_scroll: 0,
        preview_h_scroll: 0,
        db_preview_state: None,
        db_goto_input: None,
        preview_highlight: None,
        preview_load: idle(),
    }
}

fn new_preview(has_picker: bool) -> (r: PreviewPane)
    ensures
        r == fresh_preview(has_picker),
{
    PreviewPane {
        preview_content: None,
        has_picker,
        has_picture: false,
        preview_schedule: None,
        prefetch_schedule: None,
        preview_in_flight_path: None,
        preview_scroll: 0,
        preview_h_scroll: 0,
        db_preview_state: None,
        db_goto_input: None,
        preview_highlight: None,
        preview_load: AsyncState::default(),
    }
}

/// The search over all files before anything was typed.
pub open spec fn fresh_global_search(g: GlobalSearch) -> bool {
    &&& g.query@.len() == 0
    &&& g.last_searched_query@.len() == 0
    &&& g.replace_text@.len() == 0
    &&& g.results@.len() == 0
    &&& g == (GlobalSearch {
        query: g.query,
        last_searched_query: g.last_searched_query,
        last_keystroke_at: None,
        preview_sync_at: None,
        results: g.results,
        truncated: false,
        selected: 0,
        scroll: 0,
        results_h_scroll: 0,
        focus: SearchPanelFocus::FindInput,
        replace_open: false,
        replace_text: g.replace_text,
        replace_progress: None,
        global_search_load: idle(),
        replace_load: idle(),
    })
}

fn new_global_search() -> (r: GlobalSearch)
    ensures
        fresh_global_search(r),
{
    GlobalSearch {
        query: String::new(),
        last_searched_query: String::new(),
        last_keystroke_at: None,
        preview_sync_at: None,
        results: Vec::new(),
        truncated: false,
        selected: 0,
        scroll: 0,
        results_h_scroll: 0,
        focus: SearchPanelFocus::FindInput,
        replace_open: false,
        replace_text: String::new(),
        replace_progress: None,
        global_search_load: AsyncState::default(),
        replace_load: AsyncState::default(),
    }
}

impl App {
    pub open spec fn wf(self) -> bool {
        self.files.wf()
    }

    /// The repository that the git tabs work on.
    pub open spec fn repo(self) -> Option<Seq<char>> {
        active_repo(self.repo_catalog.selected_git_repo, self.has_repo)
    }

    pub fn repo_root(&self) -> (r: Option<String>)
        ensures
            opt_view(r) == self.repo(),
    {
        self.repo_catalog.status_repo_root_rel(self.has_repo)
    }

    /// The app as it is before anything was asked for.
    pub open spec fn is_fresh(self, s: Startup, now: u64) -> bool {
        &&& self.screen == Screen::first()
        &&& self.repo_catalog.repos@.len() == 0
        &&& self.repo_catalog == (RepoCatalogState {
            repos: self.repo_catalog.repos,
            selected_git_repo: s.saved_repo,
            discover_load: self.repo_catalog.discover_load,
            max_depth: s.discover_opts.max_depth,
            include_nested: s.discover_opts.include_nested,
            max_repos: s.discover_opts.max_repos,
            truncated: false,
        })
        &&& fresh_git(self.git, s.diff_layout, s.diff_mode, s.status_tree_mode)
        &&& self.git.branch_name == s.branch_name
        &&& fresh_graph(
            self.graph,
            s.commit_diff_layout,
            s.commit_diff_mode,
            s.commit_files_tree_mode,
        )
        &&& fresh_files(self.files, s.file_tree)
        &&& self.preview == fresh_preview(s.has_picker)
        &&& self.search.is_blank()
        &&& fresh_global_search(self.global_search)
        &&& self.has_repo == s.has_repo
        &&& self.is_remote == s.is_remote
        &&& !self.quick_open_active
        &&& self.pending_edit is None
        &&& !self.should_quit
        &&& !self.should_quit_session
        &&& self.next_git_revalidate_at == after(now, FIRST_GIT_POLL_MS)
        &&& self.next_graph_revalidate_at == after(now, FIRST_GRAPH_POLL_MS)
    }

    /// What a session asks for at its start: the status, where there is a
    /// repository, then the repositories, then the tree.
    pub open spec fn first_requests(s: Startup) -> Seq<Effect<Seq<char>>> {
        (match active_repo(s.saved_repo, s.has_repo) {
            Some(repo) => seq![Effect::RefreshStatus { generation: 1, repo }],
            None => Seq::empty(),
        }) + seq![
            Effect::DiscoverRepos { generation: 1, opts: s.discover_opts },
            Effect::RebuildTree {
                generation: 1,
                select: match crate::files_pane::row_at(s.file_tree, Some(s.file_tree.selected)) {
                    Some(e) => Some(e.path@),
                    None => None,
                },
                selected_idx: s.file_tree.selected,
            },
        ]
    }

    /// The app of a new session, with its first loads on their way.
    pub fn new_with_backend(s: Startup, now: u64, fx: &mut Effects) -> (r: Self)
        ensures
            r.is_fresh(s, now),
            r.git.git_status_load == (if r.repo() is Some {
                idle().begun()
            } else {
                idle()
            }),
            r.repo_catalog.discover_load == idle().begun(),
            r.files.file_tree_load == idle().begun(),
            final(fx)@ == old(fx)@ + Self::first_requests(s),
    {
        let ghost start = s;
        let mut repo_catalog = RepoCatalogState::from_prefs(s.discover_opts, s.saved_repo);
        let mut git = new_git(s.branch_name, s.diff_layout, s.diff_mode, s.status_tree_mode);
        let mut files = new_files(s.file_tree);
        let graph = new_graph(s.commit_diff_layout, s.commit_diff_mode, s.commit_files_tree_mode);
        let repo = repo_catalog.status_repo_root_rel(s.has_repo);
        git.refresh_status(&repo, fx);
        repo_catalog.refresh_repo_catalog(fx);
        files.refresh_file_tree(fx);
        assert(fx@ =~= old(fx)@ + Self::first_requests(start));
        App {
            screen: Screen::new(),
            repo_catalog,
            git,
            graph,
            files,
            preview: new_preview(s.has_picker),
            search: SearchState::default(),
            global_search: new_global_search(),
            has_repo: s.has_repo,
            is_remote: s.is_remote,
            quick_open_active: false,
            pending_edit: None,
            should_quit: false,
            should_quit_session: false,
            next_git_revalidate_at: now.saturating_add(FIRST_GIT_POLL_MS),
            next_graph_revalidate_at: now.saturating_add(FIRST_GRAPH_POLL_MS),
        }
    }

    // ── Tabs ─────────────────────────────────────────────────────────────
    /// The files pane after its tab was left: nothing is open over the tree.
    pub open spec fn files_left(files: FilesPane, edit: TreeEdit) -> FilesPane {
        FilesPane {
            tree_edit: edit,
            tree_context_menu: files.tree_context_menu.shut(),
            tree_delete_confirm: None,
            ..files
        }
    }

    /// The app with `tab` in front; `edit` is then the editor of the tree.
    pub open spec fn turned_to(self, tab: Tab, edit: TreeEdit) -> Self {
        App {
            screen: self.screen.turned_to(tab),
            files: if self.screen.active_tab == Tab::Files {
                Self::files_left(self.files, edit)
            } else {
                self.files
            },
            ..self
        }
    }

    pub open spec fn with_tab(self, tab: Tab, edit: TreeEdit) -> Self {
        self.turned_to(tab, edit).tab_marked(tab)
    }

    /// What the tab shows is out of date; a tree is only when it is empty.
    pub open spec fn tab_marked(self, tab: Tab) -> Self {
        match tab {
            Tab::Git => App { git: self.git.status_marked(), ..self },
            Tab::Graph => App {
                graph: GraphPane { graph_load: self.graph.graph_load.marked(), ..self.graph },
                ..self
            },
            Tab::Files => if self.files.file_tree.entries@.len() == 0 {
                App {
                    files: FilesPane {
                        file_tree_load: self.files.file_tree_load.marked(),
                        ..self.files
                    },
                    ..self
                }
            } else {
                self
            },
            Tab::Search => self,
        }
    }

    pub open spec fn tab_request(self, tab: Tab) -> Seq<Effect<Seq<char>>> {
        if tab == Tab::Search && self.global_search.preview_is_stale(
            tab,
            self.preview.preview_highlight,
        ) {
            seq![Effect::ShowSearchHit]
        } else {
            Seq::empty()
        }
    }

    /// What bringing `tab` to the front changes.
    pub open spec fn tab_set(
        self,
        new: Self,
        tab: Tab,
        fx: Seq<Effect<Seq<char>>>,
        fx2: Seq<Effect<Seq<char>>>,
    ) -> bool {
        if self.screen.active_tab == tab {
            new == self && fx2 == fx
        } else {
            &&& new == self.with_tab(tab, new.files.tree_edit)
            &&& if self.screen.active_tab == Tab::Files {
                new.files.tree_edit.is_closed()
            } else {
                new.files.tree_edit == self.files.tree_edit
            }
            &&& fx2 == fx + self.tab_request(tab)
        }
    }

    /// Brings a tab to the front. What it shows is out of date by then, so it
    /// is read again.
    pub fn set_active_tab(&mut self, tab: Tab, fx: &mut Effects)
        ensures
            old(self).tab_set(*final(self), tab, old(fx)@, final(fx)@),
    {
        if self.screen.active_tab == tab {
            return;
        }
        self.turn_to(tab);
        self.mark_tab(tab, fx);
    }

    fn turn_to(&mut self, tab: Tab)
        ensures
            *final(self) == old(self).turned_to(tab, final(self).files.tree_edit),
            if old(self).screen.active_tab == Tab::Files {
                final(self).files.tree_edit.is_closed()
            } else {
                final(self).files.tree_edit == old(self).files.tree_edit
            },
    {
        if self.screen.active_tab == Tab::Files {
            self.leave_files();
        }
        self.screen.turn_to(tab);
    }

    pub fn leave_files(&mut self)
        ensures
            final(self).files.tree_edit.is_closed(),
            *final(self) == (App {
                files: Self::files_left(old(self).files, final(self).files.tree_edit),
                ..*old(self)
            }),
    {
        self.files.tree_edit.clear();
        self.files.tree_context_menu.close();
        self.files.tree_delete_confirm = None;
    }

    fn mark_tab(&mut self, tab: Tab, fx: &mut Effects)
        ensures
            *final(self) == old(self).tab_marked(tab),
            final(fx)@ == old(fx)@ + old(self).tab_request(tab),
    {
        match tab {
            Tab::Git => {
                self.git.git_status_load.mark_stale();
            },
            Tab::Graph => {
                self.graph.graph_load.mark_stale();
            },
            Tab::Files => {
                if self.files.file_tree.entries.len() == 0 {
                    self.files.file_tree_load.mark_stale();
                }
            },
            Tab::Search => {
                self.global_search.sync_search_preview_if_stale(
                    tab,
                    &self.preview.preview_highlight,
                    fx,
                );
            },
        }
        assert(fx@ =~= old(fx)@ + old(self).tab_request(tab));
    }

    // ── Settings ─────────────────────────────────────────────────────────
    pub fn open_settings(&mut self, fx: &mut Effects)
        ensures
            if old(self).screen.view_mode == ViewMode::Settings {
                *final(self) == *old(self) && final(fx)@ == old(fx)@
            } else {
                *final(self) == (App {
                    screen: old(self).screen.with_page(ViewMode::Settings),
                    ..*old(self)
                }) && final(fx)@ == old(fx)@.push(Effect::RefreshSettings)
            },
    {
        if self.screen.view_mode == ViewMode::Settings {
            return;
        }
        self.screen.show_page(ViewMode::Settings);
        fx.emit(Effect::RefreshSettings);
    }

    pub fn close_settings(&mut self)
        ensures
            *final(self) == (App {
                screen: old(self).screen.with_page(ViewMode::Main),
                ..*old(self)
            }),
    {
        self.screen.show_page(ViewMode::Main);
    }

    /// A host was chosen: the session ends and the next one goes there.
    pub fn confirm_hosts_picker(&mut self, chosen: bool)
        ensures
            *final(self) == (if chosen {
                App { should_quit_session: true, ..*old(self) }
            } else {
                *old(self)
            }),
    {
        if chosen {
            self.should_quit_session = true;
        }
    }

    // ── The status bar ───────────────────────────────────────────────────
    /// What is said of one load: that it runs, why it failed, or that it is
    /// out of date.
    pub open spec fn load_text(label: Seq<char>, s: AsyncState) -> Option<Seq<char>> {
        if s.loading {
            Some(label + " refreshing…"@)
        } else if s.error is Some {
            Some(label + " error: "@ + s.error->0@)
        } else if s.stale {
            Some(label + " stale"@)
        } else {
            None
        }
    }

    pub open spec fn first_of(a: Option<Seq<char>>, b: Option<Seq<char>>) -> Option<Seq<char>> {
        if a is Some {
            a
        } else {
            b
        }
    }

    /// The first load of the tab that there is something to say of.
    pub open spec fn activity(self) -> Option<Seq<char>> {
        match self.screen.active_tab {
            Tab::Files => Self::first_of(
                Self::load_text("copy"@, self.files.file_copy_load),
                Self::first_of(
                    Self::load_text("files"@, self.files.file_tree_load),
                    Self::load_text("preview"@, self.preview.preview_load),
                ),
            ),
            Tab::Git => Self::first_of(
                Self::load_text("git"@, self.git.git_status_load),
                Self::load_text("diff"@, self.git.diff.diff_load),
            ),
            Tab::Graph => Self::first_of(
                Self::load_text("graph"@, self.graph.graph_load),
                Self::first_of(
                    Self::load_text("commit"@, self.graph.commit_detail_load),
                    Self::load_text("commit diff"@, self.graph.commit_file_diff_load),
                ),
            ),
            Tab::Search => if self.global_search.global_search_load.loading {
                Some("search scanning…"@)
            } else {
                Self::load_text("preview"@, self.preview.preview_load)
            },
        }
    }

    pub fn activity_message(&self) -> (r: Option<String>)
        ensures
            opt_view(r) == self.activity(),
    {
        match self.screen.active_tab {
            Tab::Files => {
                let a = load_message("copy", &self.files.file_copy_load);
                if a.is_some() {
                    return a;
                }
                let b = load_message("files", &self.files.file_tree_load);
                if b.is_some() {
                    return b;
                }
                load_message("preview", &self.preview.preview_load)
            },
            Tab::Git => {
                let a = load_message("git", &self.git.git_status_load);
                if a.is_some() {
                    return a;
                }
                load_message("diff", &self.git.diff.diff_load)
            },
            Tab::Graph => {
                let a = load_message("graph", &self.graph.graph_load);
                if a.is_some() {
                    return a;
                }
                let b = load_message("commit", &self.graph.commit_detail_load);
                if b.is_some() {
                    return b;
                }
                load_message("commit diff", &self.graph.commit_file_diff_load)
            },
            Tab::Search => {
                if self.global_search.global_search_load.loading {
                    return Some("search scanning…".to_owned());
                }
                load_message("preview", &self.preview.preview_load)
            },
        }
    }

    // ── Time ─────────────────────────────────────────────────────────────
    /// Files changed on disk: everything read from them is out of date.
    pub open spec fn dirtied(self) -> Self {
        App {
            files: FilesPane {
                file_tree_load: self.files.file_tree_load.marked(),
                ..self.files
            },
            preview: PreviewPane {
                preview_load: self.preview.preview_load.marked(),
                ..self.preview
            },
            git: GitPane {
                diff: DiffView { diff_load: self.git.diff.diff_load.marked(), ..self.git.diff },
                ..self.git.status_marked()
            },
            repo_catalog: RepoCatalogState {
                discover_load: self.repo_catalog.discover_load.marked(),
                ..self.repo_catalog
            },
            ..self
        }
    }

    pub fn files_changed(&mut self, fx: &mut Effects)
        ensures
            *final(self) == old(self).dirtied(),
            final(fx)@ == old(fx)@.push(Effect::StaleQuickOpen),
    {
        self.files.file_tree_load.mark_stale();
        self.preview.preview_load.mark_stale();
        self.git.diff.diff_load.mark_stale();
        self.git.git_status_load.mark_stale();
        self.repo_catalog.discover_load.mark_stale();
        fx.emit(Effect::StaleQuickOpen);
    }

    pub open spec fn tree_kicked(self) -> Self {
        if self.files.file_tree_load.due() {
            App { files: self.files.rebuild_asked(), ..self }
        } else {
            self
        }
    }

    pub open spec fn tree_kick(self) -> Seq<Effect<Seq<char>>> {
        if self.files.file_tree_load.due() {
            seq![self.files.rebuild_request(opt_view(self.files.selected_path()))]
        } else {
            Seq::empty()
        }
    }

    pub open spec fn catalog_kicked(self) -> Self {
        if self.repo_catalog.discover_load.due() {
            App {
                repo_catalog: RepoCatalogState {
                    discover_load: self.repo_catalog.discover_load.begun(),
                    ..self.repo_catalog
                },
                ..self
            }
        } else {
            self
        }
    }

    pub open spec fn catalog_kick(self) -> Seq<Effect<Seq<char>>> {
        if self.repo_catalog.discover_load.due() {
            seq![
                Effect::DiscoverRepos {
                    generation: self.repo_catalog.discover_load.begun().generation,
                    opts: self.repo_catalog.opts(),
                },
            ]
        } else {
            Seq::empty()
        }
    }

    fn kick_tree_and_catalog(&mut self, fx: &mut Effects)
        ensures
            *final(self) == old(self).tree_kicked().catalog_kicked(),
            final(fx)@ == old(fx)@ + old(self).tree_kick() + old(self).catalog_kick(),
    {
        if self.files.file_tree_load.should_request() {
            self.files.refresh_file_tree(fx);
        }
        assert(fx@ =~= old(fx)@ + old(self).tree_kick());
        if self.repo_catalog.discover_load.should_request() {
            self.repo_catalog.refresh_repo_catalog(fx);
        }
        assert(fx@ =~= old(fx)@ + old(self).tree_kick() + old(self).catalog_kick());
    }

    /// The status is read again when it is out of date, and every so often
    /// while there is a repository.
    pub open spec fn polls_git(self, now: u64) -> bool {
        self.git.git_status_load.due() || (self.repo() is Some && now
            >= self.next_git_revalidate_at && !self.git.git_status_load.loading)
    }

    pub open spec fn git_kicked(self, now: u64) -> Self {
        let s = if self.polls_git(now) {
            App {
                git: self.git.status_asked(self.repo()),
                next_git_revalidate_at: after(now, GIT_POLL_MS),
                ..self
            }
        } else {
            self
        };
        if self.git.diff.diff_load.due() {
            App { git: s.git.diff_asked(self.repo()), ..s }
        } else {
            s
        }
    }

    pub open spec fn git_kick(self, now: u64) -> Seq<Effect<Seq<char>>> {
        (if self.polls_git(now) {
            self.git.status_request(self.repo())
        } else {
            Seq::empty()
        }) + (if self.git.diff.diff_load.due() {
            self.git.diff_request(self.repo())
        } else {
            Seq::empty()
        })
    }

    fn kick_git(&mut self, now: u64, fx: &mut Effects)
        ensures
            *final(self) == old(self).git_kicked(now),
            final(fx)@ == old(fx)@ + old(self).git_kick(now),
    {
        let repo = self.repo_root();
        self.poll_git(now, &repo, fx);
        if self.git.diff.diff_load.should_request() {
            self.git.load_diff(&repo, fx);
        }
        assert(fx@ =~= old(fx)@ + old(self).git_kick(now));
    }

    fn poll_git(&mut self, now: u64, repo: &Option<String>, fx: &mut Effects)
        requires
            opt_view(*repo) == old(self).repo(),
        ensures
            if old(self).polls_git(now) {
                *final(self) == (App {
                    git: old(self).git.status_asked(old(self).repo()),
                    next_git_revalidate_at: after(now, GIT_POLL_MS),
                    ..*old(self)
                }) && final(fx)@ == old(fx)@ + old(self).git.status_request(old(self).repo())
            } else {
                *final(self) == *old(self) && final(fx)@ == old(fx)@
            },
    {
        let poll = repo.is_some() && now >= self.next_git_revalidate_at;
        if self.git.git_status_load.should_request() || (poll && !self.git.git_status_load.loading) {
            self.git.refresh_status(repo, fx);
            self.next_git_revalidate_at = now.saturating_add(GIT_POLL_MS);
        }
    }

    /// The files tab loads the preview of the selected row when it is out of
    /// date; the search tab that of the selected hit.
    pub open spec fn preview_kicked(self, now: u64) -> Self {
        if !self.preview.preview_load.due() {
            self
        } else if self.screen.active_tab == Tab::Files {
            App { preview: self.preview.selected_scheduled(self.files.file_tree, now), ..self }
        } else if self.global_search.selected < self.global_search.results@.len() {
            App {
                preview: self.preview.scheduled(
                    self.global_search.results@[self.global_search.selected as int].path,
                    now,
                ),
                ..self
            }
        } else {
            self
        }
    }

    fn kick_preview(&mut self, now: u64)
        ensures
            *final(self) == old(self).preview_kicked(now),
    {
        if !self.preview.preview_load.should_request() {
            return;
        }
        if self.screen.active_tab == Tab::Files {
            self.preview.load_preview(&self.files.file_tree, now);
        } else if self.global_search.selected < self.global_search.results.len() {
            let path = self.global_search.results[self.global_search.selected].path.clone();
            self.preview.load_preview_for_path(path, now);
        }
    }

    /// The history is read again when it is out of date, when none is shown,
    /// and every so often while there is a repository.
    pub open spec fn polls_graph(self, now: u64) -> bool {
        self.graph.graph_load.due() || (self.repo() is Some && !self.graph.graph_load.loading && (
        self.graph.git_graph.rows@.len() == 0 || now >= self.next_graph_revalidate_at))
    }

    fn poll_graph(&mut self, now: u64, repo: &Option<String>, fx: &mut Effects)
        requires
            opt_view(*repo) == old(self).repo(),
        ensures
            *final(self) == old(self).graph_polled(final(self).graph.git_graph, now),
            old(self).polls_graph(now) && old(self).repo() is None ==> final(self).graph.git_graph.is_empty(),
            final(fx)@ == old(fx)@ + old(self).graph_kick(now),
    {
        let has_repo = repo.is_some();
        if self.graph.graph_load.should_request() || (has_repo && self.graph.git_graph.rows.len()
            == 0 && !self.graph.graph_load.loading) || (has_repo && now
            >= self.next_graph_revalidate_at && !self.graph.graph_load.loading) {
            self.graph.refresh_graph(repo, fx);
            self.next_graph_revalidate_at = now.saturating_add(GRAPH_POLL_MS);
        }
        assert(fx@ =~= old(fx)@ + old(self).graph_kick(now));
    }

    /// The detail of the selected commit is loaded when it is out of date,
    /// then the diff of the file that is shown of it.
    pub open spec fn detail_kicked(self) -> Self {
        let s = if self.graph.commit_detail_load.due() {
            App { graph: self.graph.detail_asked(self.repo()), ..self }
        } else {
            self
        };
        match s.graph.shown_path() {
            Some(p) => if s.graph.commit_file_diff_load.due() {
                App {
                    graph: s.graph.file_asked(self.repo(), p),
                    screen: s.graph.file_screen(s.screen, self.repo(), p),
                    ..s
                }
            } else {
                s
            },
            None => s,
        }
    }

    pub open spec fn detail_kick(self) -> Seq<Effect<Seq<char>>> {
        let s = if self.graph.commit_detail_load.due() {
            self.graph.detail_asked(self.repo())
        } else {
            self.graph
        };
        (if self.graph.commit_detail_load.due() {
            self.graph.detail_request(self.repo())
        } else {
            Seq::empty()
        }) + (match s.shown_path() {
            Some(p) => if s.commit_file_diff_load.due() {
                s.file_effects(self.repo(), p)
            } else {
                Seq::empty()
            },
            None => Seq::empty(),
        })
    }

    fn kick_detail(&mut self, repo: &Option<String>, fx: &mut Effects)
        requires
            opt_view(*repo) == old(self).repo(),
        ensures
            *final(self) == old(self).detail_kicked(),
            final(fx)@ == old(fx)@ + old(self).detail_kick(),
    {
        if self.graph.commit_detail_load.should_request() {
            self.graph.load_commit_detail(repo, fx);
        }
        self.kick_file_diff(repo, fx);
        assert(fx@ =~= old(fx)@ + old(self).detail_kick());
    }

    fn kick_file_diff(&mut self, repo: &Option<String>, fx: &mut Effects)
        requires
            opt_view(*repo) == old(self).repo(),
        ensures
            match old(self).graph.shown_path() {
                Some(p) => if old(self).graph.commit_file_diff_load.due() {
                    &&& *final(self) == (App {
                        graph: old(self).graph.file_asked(old(self).repo(), p),
                        screen: old(self).graph.file_screen(old(self).screen, old(self).repo(), p),
                        ..*old(self)
                    })
                    &&& final(fx)@ == old(fx)@ + old(self).graph.file_effects(old(self).repo(), p)
                } else {
                    *final(self) == *old(self) && final(fx)@ == old(fx)@
                },
                None => *final(self) == *old(self) && final(fx)@ == old(fx)@,
            },
    {
        if self.graph.commit_file_diff_load.should_request() {
            self.graph.reload_commit_file_diff(&mut self.screen, repo, fx);
        }
    }

    /// The state after the work that is due on the tab in front was started.
    pub open spec fn tab_kicked(self, new: Self, now: u64, sent: Seq<Effect<Seq<char>>>) -> bool {
        match self.screen.active_tab {
            Tab::Files | Tab::Search => new == self.preview_kicked(now) && sent == Seq::<
                Effect<Seq<char>>,
            >::empty(),
            Tab::Git => new == self.git_kicked(now) && sent == self.git_kick(now),
            Tab::Graph => {
                let s = self.graph_polled(new.graph.git_graph, now);
                &&& self.polls_graph(now) && self.repo() is None
                    ==> new.graph.git_graph.is_empty()
                &&& new == s.detail_kicked()
                &&& sent == self.graph_kick(now) + s.detail_kick()
            },
        }
    }

    pub open spec fn graph_kick(self, now: u64) -> Seq<Effect<Seq<char>>> {
        match self.repo() {
            Some(repo) => if self.polls_graph(now) {
                seq![
                    Effect::RefreshGraph {
                        generation: self.graph.graph_load.begun().generation,
                        repo,
                        limit: GRAPH_COMMIT_LIMIT,
                    },
                ]
            } else {
                Seq::empty()
            },
            None => Seq::empty(),
        }
    }

    /// The app after the history was asked for; without a repository `g` is
    /// then the graph.
    pub open spec fn graph_polled(self, g: GitGraphState, now: u64) -> Self {
        if !self.polls_graph(now) {
            self
        } else if self.repo() is Some {
            App {
                graph: GraphPane { graph_load: self.graph.graph_load.begun(), ..self.graph },
                next_graph_revalidate_at: after(now, GRAPH_POLL_MS),
                ..self
            }
        } else {
            App {
                graph: GraphPane {
                    git_graph: GitGraphState {
                        rows: g.rows,
                        ref_map: g.ref_map,
                        cache_key: None,
                        ..self.graph.git_graph
                    },
                    ..self.graph
                },
                next_graph_revalidate_at: after(now, GRAPH_POLL_MS),
                ..self
            }
        }
    }

    fn kick_graph(&mut self, now: u64, fx: &mut Effects)
        requires
            old(self).screen.active_tab == Tab::Graph,
        ensures
            old(fx)@.is_prefix_of(final(fx)@),
            old(self).tab_kicked(*final(self), now, final(fx)@.skip(old(fx)@.len() as int)),
    {
        let repo = self.repo_root();
        self.poll_graph(now, &repo, fx);
        let ghost mid = *self;
        self.kick_detail(&repo, fx);
        proof {
            lemma_detail_keeps_graph(mid);
            lemma_parts(
                old(fx)@,
                old(self).graph_kick(now),
                mid.detail_kick(),
            );
        }
    }

    /// Starts the work that is due: the tree and the repositories whatever is
    /// in front, and what the tab in front shows.
    pub fn kick_active_tab_work(&mut self, now: u64, fx: &mut Effects)
        ensures
            old(fx)@.is_prefix_of(final(fx)@),
            ({
                let s = old(self).tree_kicked().catalog_kicked();
                let first = old(self).tree_kick() + old(self).catalog_kick();
                let sent = final(fx)@.skip(old(fx)@.len() as int);
                first.is_prefix_of(sent) && s.tab_kicked(
                    *final(self),
                    now,
                    sent.skip(first.len() as int),
                )
            }),
    {
        self.kick_tree_and_catalog(fx);
        let ghost mid = fx@;
        let ghost first = old(self).tree_kick() + old(self).catalog_kick();
        assert(mid =~= old(fx)@ + first);
        match self.screen.active_tab {
            Tab::Files => {
                self.kick_preview(now);
                assert(fx@.skip(mid.len() as int) =~= Seq::<Effect<Seq<char>>>::empty());
            },
            Tab::Search => {
                self.kick_preview(now);
                assert(fx@.skip(mid.len() as int) =~= Seq::<Effect<Seq<char>>>::empty());
            },
            Tab::Git => {
                let ghost sent = self.git_kick(now);
                self.kick_git(now, fx);
                assert(fx@.skip(mid.len() as int) =~= sent);
            },
            Tab::Graph => {
                self.kick_graph(now, fx);
            },
        }
        proof {
            lemma_parts(old(fx)@, first, fx@.skip(mid.len() as int));
            assert(fx@ =~= old(fx)@ + first + fx@.skip(mid.len() as int));
        }
    }

    // ── Another set of repositories ──────────────────────────────────────
    /// The app after another repository was chosen by a search for them: the
    /// panes are empty, and the status is on its way. The status stays until
    /// then where the same repository is shown under another name.
    pub open spec fn rechosen(self, new: Self, before: Option<Seq<char>>) -> bool {
        let repo = self.repo();
        let cleared = repo != before;
        let git = GitPane { git_status_load: self.git.git_status_load, ..new.git };
        &&& if cleared {
            self.git.emptied_to(git) && redecorated(
                self.files.file_tree,
                new.files.file_tree,
                Seq::empty(),
                Seq::empty(),
            )
        } else {
            git == self.git && new.files.file_tree == self.files.file_tree
        }
        &&& new.git.git_status_load == self.git.status_asked(repo).git_status_load
        &&& graph_emptied(self.graph, new.graph)
        &&& new == (App {
            git: new.git,
            graph: new.graph,
            files: FilesPane { file_tree: new.files.file_tree, ..self.files },
            ..self
        })
    }

    fn choose_again(&mut self, before: &Option<String>, fx: &mut Effects)
        requires
            old(self).wf(),
        ensures
            final(self).wf(),
            old(self).rechosen(*final(self), opt_view(*before)),
            final(fx)@ == old(fx)@ + old(self).git.status_request(old(self).repo()),
    {
        let repo = self.repo_root();
        if !same_opt(&repo, before) {
            self.git.clear_git_status_snapshot(&mut self.files.file_tree);
        }
        self.graph.clear_graph_snapshot();
        self.git.refresh_status(&repo, fx);
        self.graph.graph_load.invalidate_stale();
    }

    /// Takes the repositories that a search found, if it is the latest one.
    pub fn apply_repo_catalog(
        &mut self,
        generation: u64,
        result: Result<RepoDiscoverResponse, String>,
        fx: &mut Effects,
    )
        requires
            old(self).wf(),
        ensures
            final(self).wf(),
            catalog_applied(
                *old(self),
                *final(self),
                generation,
                result,
                old(fx)@,
                final(fx)@,
            ),
    {
        let before = self.repo_root();
        if self.repo_catalog.apply_catalog(generation, result, fx) {
            let ghost mid = *self;
            self.choose_again(&before, fx);
            assert(mid.git.status_request(mid.repo()) == old(self).git.status_request(mid.repo()));
        }
    }
}

fn load_message(label: &str, s: &AsyncState) -> (r: Option<String>)
    ensures
        opt_view(r) == App::load_text(label@, *s),
{
    let mut text = label.to_owned();
    if s.loading {
        text.append(" refreshing…");
        return Some(text);
    }
    if let Some(e) = &s.error {
        text.append(" error: ");
        text.append(e.as_str());
        return Some(text);
    }
    if s.stale {
        text.append(" stale");
        return Some(text);
    }
    None
}

proof fn lemma_detail_keeps_graph(s: App)
    ensures
        s.detail_kicked().graph.git_graph == s.graph.git_graph,
{
}

proof fn lemma_parts(
    before: Seq<Effect<Seq<char>>>,
    first: Seq<Effect<Seq<char>>>,
    second: Seq<Effect<Seq<char>>>,
)
    ensures
        ({
            let all = before + first + second;
            let sent = all.skip(before.len() as int);
            &&& before.is_prefix_of(all)
            &&& sent == first + second
            &&& first.is_prefix_of(sent)
            &&& sent.skip(first.len() as int) == second
        }),
{
    let all = before + first + second;
    let sent = all.skip(before.len() as int);
    assert(sent =~= first + second);
    assert(sent.skip(first.len() as int) =~= second);
    assert(first =~= sent.subrange(0, first.len() as int));
    assert(before =~= all.subrange(0, before.len() as int));
}

/// What a search for repositories changes.
pub open spec fn catalog_applied(
    old: App,
    new: App,
    generation: u64,
    result: Result<RepoDiscoverResponse, String>,
    fx: Seq<Effect<Seq<char>>>,
    fx2: Seq<Effect<Seq<char>>>,
) -> bool {
    if generation != old.repo_catalog.discover_load.generation {
        new == old && fx2 == fx
    } else {
        match result {
            Err(e) => new == (App {
                repo_catalog: RepoCatalogState {
                    discover_load: old.repo_catalog.discover_load.failed(e),
                    ..old.repo_catalog
                },
                ..old
            }) && fx2 == fx,
            Ok(resp) => {
                let s = App { repo_catalog: old.repo_catalog.searched(resp), ..old };
                let told = fx + lost_effects(old.repo_catalog.selected_git_repo, resp.repos@);
                if opt_view(old.repo_catalog.selected_git_repo) == opt_view(
                    s.repo_catalog.selected_git_repo,
                ) {
                    new == s && fx2 == told
                } else {
                    s.rechosen(new, old.repo()) && fx2 == told + old.git.status_request(s.repo())
                }
            },
        }
    }
}

// ── Laws ─────────────────────────────────────────────────────────────────

/// Leaving the files tab closes its editor, its menu and its question, and
/// lets go of what was marked in the preview and the diff.
pub proof fn law_leaving_files_closes_its_modals(s: App, tab: Tab, edit: TreeEdit)
    requires
        s.screen.active_tab == Tab::Files,
        tab != Tab::Files,
        edit.is_closed(),
    ensures
        ({
            let t = s.with_tab(tab, edit);
            &&& t.screen.active_tab == tab
            &&& !t.files.tree_edit.active
            &&& !t.files.tree_context_menu.active
            &&& t.files.tree_delete_confirm is None
            &&& !t.screen.preview_selection
            &&& !t.screen.diff_selection
        }),
{
}

/// Work that is under way is not started again: right after a kick of the git
/// tab, another one at the same time asks for nothing.
pub proof fn law_kick_is_idempotent(s: App, now: u64)
    ensures
        s.git_kicked(now).git_kick(now) =~= Seq::<Effect<Seq<char>>>::empty(),
{
}

} // verus!
