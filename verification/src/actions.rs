//! What a click does.
use crate::app::App;
use crate::effects::{Effect, Effects, Notice, ToastLevel};
use crate::file_tree::FileTree;
use crate::files_menu::{ContextMenuItem, MenuStep};
use crate::files_pane::{row_at, CopyJob, FilesPane, TreeEditMode};
use crate::git_pane::{moved, FileLists, GitPane};
use crate::global_search::{GlobalSearch, ReplaceJob, SearchPanelFocus};
use crate::layout::{Tab, ViewMode};
use crate::paths::{push_path, pushed_path};
use crate::preview_pane::{DbMove, DbNav};
use crate::text::{copy_strings, opt_view};
use vstd::prelude::*;

verus! {

/// What a place on the screen stands for when it is clicked.
#[derive(Debug)]
pub enum ClickAction {
    SwitchTab(Tab),
    ToggleSidebar,
    TreeClick(usize),
    SelectFile { path: String, staged: bool },
    StageFile(String),
    UnstageFile(String),
    ToggleStaged,
    ToggleUnstaged,
    StartDragSplit,
    StartDragGraphDiffSplit,
    GitCommand { command: String, args: String },
    QuickOpenSelect(usize),
    GlobalSearchSelect(usize),
    GlobalSearchFocusInput,
    PlaceModeFolder(usize),
    PlaceModeRoot,
    FileTreeToolbarNewFile,
    FileTreeToolbarNewFolder,
    FileTreeToolbarRefresh,
    FileTreeToolbarCollapse,
    TreeContextMenuItem(ContextMenuItem),
    TreeContextMenuClose,
    HostsPickerSelect(usize),
    TreeClearSelection,
    DbPrevPage,
    DbNextPage,
    DbGotoPage(u64),
    SearchToggleReplace,
    GlobalSearchFocusReplaceInput,
    SearchToggleMatch(usize),
    SearchApplyReplace,
    SettingsRow(usize),
}

impl ClickAction {
    /// Clicks on the rows of the tree.
    pub open spec fn on_tree(self) -> bool {
        match self {
            ClickAction::TreeClick(_)
            | ClickAction::PlaceModeFolder(_)
            | ClickAction::PlaceModeRoot
            | ClickAction::FileTreeToolbarRefresh
            | ClickAction::FileTreeToolbarCollapse
            | ClickAction::TreeContextMenuClose
            | ClickAction::TreeClearSelection => true,
            _ => false,
        }
    }

    fn is_on_tree(&self) -> (r: bool)
        ensures
            r == self.on_tree(),
    {
        match self {
            ClickAction::TreeClick(_)
            | ClickAction::PlaceModeFolder(_)
            | ClickAction::PlaceModeRoot
            | ClickAction::FileTreeToolbarRefresh
            | ClickAction::FileTreeToolbarCollapse
            | ClickAction::TreeContextMenuClose
            | ClickAction::TreeClearSelection => true,
            _ => false,
        }
    }

    /// Clicks that make a file, or take an item of the menu.
    pub open spec fn on_menu(self) -> bool {
        match self {
            ClickAction::FileTreeToolbarNewFile
            | ClickAction::FileTreeToolbarNewFolder
            | ClickAction::TreeContextMenuItem(_) => true,
            _ => false,
        }
    }

    fn is_on_menu(&self) -> (r: bool)
        ensures
            r == self.on_menu(),
    {
        match self {
            ClickAction::FileTreeToolbarNewFile
            | ClickAction::FileTreeToolbarNewFolder
            | ClickAction::TreeContextMenuItem(_) => true,
            _ => false,
        }
    }

    /// Clicks on the search over all files.
    pub open spec fn on_search(self) -> bool {
        match self {
            ClickAction::GlobalSearchSelect(_)
            | ClickAction::GlobalSearchFocusInput
            | ClickAction::GlobalSearchFocusReplaceInput
            | ClickAction::SearchToggleReplace
            | ClickAction::SearchToggleMatch(_)
            | ClickAction::SearchApplyReplace => true,
            _ => false,
        }
    }

    fn is_on_search(&self) -> (r: bool)
        ensures
            r == self.on_search(),
    {
        match self {
            ClickAction::GlobalSearchSelect(_)
            | ClickAction::GlobalSearchFocusInput
            | ClickAction::GlobalSearchFocusReplaceInput
            | ClickAction::SearchToggleReplace
            | ClickAction::SearchToggleMatch(_)
            | ClickAction::SearchApplyReplace => true,
            _ => false,
        }
    }

    /// Clicks on the pages of a database.
    pub open spec fn on_database(self) -> bool {
        match self {
            ClickAction::DbPrevPage
            | ClickAction::DbNextPage
            | ClickAction::DbGotoPage(_) => true,
            _ => false,
        }
    }

    fn is_on_database(&self) -> (r: bool)
        ensures
            r == self.on_database(),
    {
        match self {
            ClickAction::DbPrevPage
            | ClickAction::DbNextPage
            | ClickAction::DbGotoPage(_) => true,
            _ => false,
        }
    }
}

/// The job that a click leaves to the host.
#[derive(Debug)]
pub enum ActionStep {
    Nothing,
    Copy(CopyJob),
    Menu(MenuStep),
    Page(DbMove),
    Replace(ReplaceJob),
}

pub open spec fn copy_step(r: ActionStep) -> Option<CopyJob> {
    match r {
        ActionStep::Copy(job) => Some(job),
        _ => None,
    }
}

pub open spec fn page_step(r: ActionStep) -> Option<DbMove> {
    match r {
        ActionStep::Page(m) => Some(m),
        _ => None,
    }
}

pub open spec fn replace_step(r: ActionStep) -> Option<ReplaceJob> {
    match r {
        ActionStep::Replace(job) => Some(job),
        _ => None,
    }
}

fn of_copy(job: Option<CopyJob>) -> (r: ActionStep)
    ensures
        copy_step(r) == job,
        r is Copy || r is Nothing,
{
    match job {
        Some(job) => ActionStep::Copy(job),
        None => ActionStep::Nothing,
    }
}

fn of_page(m: Option<DbMove>) -> (r: ActionStep)
    ensures
        page_step(r) == m,
        r is Page || r is Nothing,
{
    match m {
        Some(m) => ActionStep::Page(m),
        None => ActionStep::Nothing,
    }
}

fn of_replace(job: Option<ReplaceJob>) -> (r: ActionStep)
    ensures
        replace_step(r) == job,
        r is Replace || r is Nothing,
{
    match job {
        Some(job) => ActionStep::Replace(job),
        None => ActionStep::Nothing,
    }
}

impl App {
    // ── The tree ─────────────────────────────────────────────────────────
    /// Row `i` selected.
    pub open spec fn row_selected(self, i: usize) -> Self {
        App {
            files: FilesPane {
                file_tree: FileTree { selected: i, ..self.files.file_tree },
                ..self.files
            },
            ..self
        }
    }

    /// A click selects the row. A directory opens or closes, a file is shown.
    pub open spec fn row_clicked(
        self,
        new: Self,
        i: usize,
        now: u64,
        fx: Seq<Effect<Seq<char>>>,
        fx2: Seq<Effect<Seq<char>>>,
    ) -> bool {
        let s = self.row_selected(i);
        match row_at(self.files.file_tree, Some(i)) {
            Some(e) => if e.is_dir {
                &&& s.files.row_toggled(new.files, i)
                &&& new == (App { files: new.files, ..self })
                &&& fx2 == fx.push(s.files.rebuild_request(opt_view(s.files.selected_path())))
            } else {
                &&& new == (App {
                    preview: self.preview.selected_scheduled(s.files.file_tree, now),
                    ..s
                })
                &&& fx2 == fx
            },
            None => new == s && fx2 == fx,
        }
    }

    fn click_row(&mut self, i: usize, now: u64, fx: &mut Effects)
        requires
            old(self).wf(),
        ensures
            final(self).wf(),
            old(self).row_clicked(*final(self), i, now, old(fx)@, final(fx)@),
    {
        self.select_row(i);
        if i < self.files.file_tree.entries.len() {
            if self.files.file_tree.entries[i].is_dir {
                self.files.toggle_row(i, fx);
            } else {
                self.preview.load_preview(&self.files.file_tree, now);
            }
        }
    }

    pub fn select_row(&mut self, i: usize)
        ensures
            *final(self) == old(self).row_selected(i),
    {
        self.files.file_tree.selected = i;
    }

    /// A click on empty space selects nothing and drops a name that is being
    /// typed.
    pub open spec fn selection_cleared(self, new: Self) -> bool {
        &&& self.files.tree_edit.active ==> new.files.tree_edit.is_closed()
        &&& !self.files.tree_edit.active ==> new.files.tree_edit == self.files.tree_edit
        &&& new == (App {
            files: FilesPane {
                file_tree: FileTree {
                    selected: self.files.file_tree.entries.len(),
                    ..self.files.file_tree
                },
                tree_edit: new.files.tree_edit,
                ..self.files
            },
            ..self
        })
    }

    fn clear_selection(&mut self)
        ensures
            old(self).selection_cleared(*final(self)),
    {
        self.files.file_tree.clear_selection();
        if self.files.tree_edit.active {
            self.files.tree_edit.clear();
        }
    }

    // ── Dropped files ────────────────────────────────────────────────────
    /// The directory in a row, as the place that dropped files go to.
    pub open spec fn drop_dir(self, i: usize) -> Option<Seq<char>> {
        match row_at(self.files.file_tree, Some(i)) {
            Some(e) => if e.is_dir {
                Some(pushed_path(self.files.file_tree.root@, e.path@))
            } else {
                None
            },
            None => None,
        }
    }

    /// The dropped files are copied into `dir`.
    pub open spec fn dropped(
        self,
        new: Self,
        dir: Seq<char>,
        fx: Seq<Effect<Seq<char>>>,
        fx2: Seq<Effect<Seq<char>>>,
        job: Option<CopyJob>,
    ) -> bool {
        &&& new == (App { files: new.files, ..self })
        &&& match job {
            Some(j) => {
                &&& j.sources@ == self.files.place_mode.sources@
                &&& j.dest_dir@ == dir
                &&& self.files.copy_asked(new.files, j.sources, j.dest_dir, fx, fx2, job)
            },
            None => {
                &&& self.files.file_copy_load.loading
                &&& new.files == self.files
                &&& fx2 == fx.push(
                    Effect::Say { level: ToastLevel::Warn, notice: Notice::CopyInFlight },
                )
            },
        }
    }

    fn drop_into(&mut self, dir: String, fx: &mut Effects) -> (r: ActionStep)
        ensures
            r is Copy || r is Nothing,
            old(self).dropped(*final(self), dir@, old(fx)@, final(fx)@, copy_step(r)),
            final(self).files.file_tree == old(self).files.file_tree,
    {
        let sources = copy_strings(&self.files.place_mode.sources);
        of_copy(self.files.request_file_copy(sources, dir, fx))
    }

    /// A drop onto a row that is no directory ends place mode.
    pub open spec fn folder_clicked(
        self,
        new: Self,
        i: usize,
        fx: Seq<Effect<Seq<char>>>,
        fx2: Seq<Effect<Seq<char>>>,
        job: Option<CopyJob>,
    ) -> bool {
        match self.drop_dir(i) {
            Some(dir) => self.dropped(new, dir, fx, fx2, job),
            None => {
                &&& new.files.place_mode.sources@.len() == 0
                &&& new == (App {
                    files: self.files.place_left(new.files.place_mode.sources),
                    ..self
                })
                &&& fx2 == fx
                &&& job is None
            },
        }
    }

    fn click_folder(&mut self, i: usize, fx: &mut Effects) -> (r: ActionStep)
        ensures
            r is Copy || r is Nothing,
            old(self).folder_clicked(*final(self), i, old(fx)@, final(fx)@, copy_step(r)),
            final(self).files.file_tree == old(self).files.file_tree,
    {
        if i < self.files.file_tree.entries.len() && self.files.file_tree.entries[i].is_dir {
            let dir = push_path(
                self.files.file_tree.root.as_str(),
                self.files.file_tree.entries[i].path.as_str(),
            );
            return self.drop_into(dir, fx);
        }
        self.files.exit_place_mode();
        ActionStep::Nothing
    }

    // ── The git tab ──────────────────────────────────────────────────────
    pub open spec fn chosen(
        self,
        new: Self,
        path: Seq<char>,
        staged: bool,
        fx: Seq<Effect<Seq<char>>>,
        fx2: Seq<Effect<Seq<char>>>,
    ) -> bool {
        &&& new == (App { git: new.git, screen: new.screen, ..self })
        &&& self.git.file_chosen(
            new.git,
            path,
            staged,
            self.screen,
            new.screen,
            self.repo(),
            fx,
            fx2,
        )
    }

    pub fn select_file(&mut self, path: &str, staged: bool, fx: &mut Effects)
        ensures
            old(self).chosen(*final(self), path@, staged, old(fx)@, final(fx)@),
    {
        let repo = self.repo_root();
        self.git.select_file(path, staged, &mut self.screen, &repo, fx);
    }

    /// The request to stage a path, or to unstage it.
    pub open spec fn stage_request(self, path: Seq<char>, stage: bool) -> Seq<Effect<Seq<char>>> {
        match self.repo() {
            Some(repo) => seq![moved(repo, path, stage, true)],
            None => Seq::empty(),
        }
    }

    /// Asks for a path to be staged.
    pub fn stage_file(&self, path: &str, fx: &mut Effects)
        ensures
            final(fx)@ == old(fx)@ + self.stage_request(path@, true),
    {
        let repo = self.repo_root();
        self.git.stage_file(path, true, &repo, fx);
    }

    pub fn unstage_file(&self, path: &str, fx: &mut Effects)
        ensures
            final(fx)@ == old(fx)@ + self.stage_request(path@, false),
    {
        let repo = self.repo_root();
        self.git.stage_file(path, false, &repo, fx);
    }

    // ── The search tab ───────────────────────────────────────────────────
    /// The search over all files with another hit selected, or another input
    /// in focus.
    pub open spec fn with_search(self, g: GlobalSearch) -> Self {
        App { global_search: g, ..self }
    }

    pub open spec fn searching(self) -> bool {
        self.screen.active_tab == Tab::Search
    }

    fn select_hit(&mut self, i: usize, fx: &mut Effects)
        ensures
            old(self).hit_selected(*final(self), i, old(fx)@, final(fx)@),
    {
        if self.screen.active_tab == Tab::Search {
            self.global_search.selected = i;
            fx.emit(Effect::ShowSearchHit);
        }
    }

    /// The keys go to the query, or to the replacement where it is shown.
    pub open spec fn focused(self, replace: bool) -> Self {
        if !self.searching() {
            self
        } else if !replace {
            self.with_search(
                (GlobalSearch { focus: SearchPanelFocus::FindInput, ..self.global_search }),
            )
        } else if self.global_search.replace_open {
            self.with_search(
                (GlobalSearch { focus: SearchPanelFocus::ReplaceInput, ..self.global_search }),
            )
        } else {
            self
        }
    }

    fn focus_input(&mut self, replace: bool)
        ensures
            *final(self) == old(self).focused(replace),
    {
        if self.screen.active_tab == Tab::Search {
            if !replace {
                self.global_search.focus = SearchPanelFocus::FindInput;
            } else if self.global_search.replace_open {
                self.global_search.focus = SearchPanelFocus::ReplaceInput;
            }
        }
    }

    fn toggle_replace(&mut self)
        ensures
            *final(self) == old(self).replace_flipped(),
    {
        if self.screen.active_tab == Tab::Search {
            self.global_search.toggle_replace();
        }
    }

    // ── The toolbar of the tree ──────────────────────────────────────────
    /// The row that the toolbar makes new files at.
    pub open spec fn toolbar_row(self) -> Option<usize> {
        if self.files.selected() is Some {
            Some(self.files.file_tree.selected)
        } else {
            None
        }
    }

    pub open spec fn created(
        self,
        new: Self,
        mode: TreeEditMode,
        fx: Seq<Effect<Seq<char>>>,
        fx2: Seq<Effect<Seq<char>>>,
    ) -> bool {
        &&& new == (App { files: new.files, screen: new.screen, ..self })
        &&& fx.is_prefix_of(fx2)
        &&& self.files.creating(
            new.files,
            mode,
            self.toolbar_row(),
            self.screen,
            new.screen,
            fx2.skip(fx.len() as int),
        )
    }

    fn create(&mut self, mode: TreeEditMode, fx: &mut Effects)
        requires
            old(self).wf(),
        ensures
            old(self).created(*final(self), mode, old(fx)@, final(fx)@),
    {
        let target = self.files.toolbar_create_target();
        self.files.begin_create(mode, target, &mut self.screen, fx);
    }

    /// The tree and the status are read again.
    pub open spec fn reread(self) -> Self {
        App {
            files: self.files.rebuild_asked(),
            git: self.git.status_asked(self.repo()),
            ..self
        }
    }

    fn read_again(&mut self, fx: &mut Effects)
        ensures
            *final(self) == old(self).reread(),
            final(fx)@ == old(fx)@.push(
                old(self).files.rebuild_request(opt_view(old(self).files.selected_path())),
            ) + old(self).git.status_request(old(self).repo()),
    {
        self.files.refresh_file_tree(fx);
        let repo = self.repo_root();
        self.git.refresh_status(&repo, fx);
    }

    pub open spec fn item_clicked(
        self,
        new: Self,
        item: ContextMenuItem,
        enabled: bool,
        fx: Seq<Effect<Seq<char>>>,
        fx2: Seq<Effect<Seq<char>>>,
        r: ActionStep,
    ) -> bool {
        &&& new == (App { files: new.files, screen: new.screen, ..self })
        &&& r matches ActionStep::Menu(step) && self.files.item_dispatched(
            new.files,
            item,
            enabled,
            self.is_remote,
            self.screen,
            new.screen,
            fx,
            fx2,
            step,
        )
    }

    fn click_item(&mut self, item: ContextMenuItem, enabled: bool, fx: &mut Effects) -> (r: ActionStep)
        requires
            old(self).wf(),
        ensures
            old(self).item_clicked(*final(self), item, enabled, old(fx)@, final(fx)@, r),
    {
        ActionStep::Menu(
            self.files.dispatch_context_menu_item(
                item,
                enabled,
                self.is_remote,
                &mut self.screen,
                fx,
            ),
        )
    }

    /// A section of changed files shown or hidden.
    pub open spec fn section_toggled(self, staged: bool) -> Self {
        let lists = self.git.lists;
        App {
            git: GitPane {
                lists: if staged {
                    FileLists { staged_collapsed: !lists.staged_collapsed, ..lists }
                } else {
                    FileLists { unstaged_collapsed: !lists.unstaged_collapsed, ..lists }
                },
                ..self.git
            },
            ..self
        }
    }

    fn toggle_section(&mut self, staged: bool)
        ensures
            *final(self) == old(self).section_toggled(staged),
    {
        if staged {
            self.git.lists.staged_collapsed = !self.git.lists.staged_collapsed;
        } else {
            self.git.lists.unstaged_collapsed = !self.git.lists.unstaged_collapsed;
        }
    }

    // ── All of them ──────────────────────────────────────────────────────
    pub open spec fn dragged(self, new: Self, graph: bool) -> bool {
        new == (App { screen: self.screen.dragging(graph), ..self })
    }

    fn drag(&mut self, graph: bool)
        ensures
            old(self).dragged(*final(self), graph),
    {
        self.screen.start_drag(graph);
    }

    pub open spec fn sidebar_set(
        self,
        new: Self,
        fx: Seq<Effect<Seq<char>>>,
        fx2: Seq<Effect<Seq<char>>>,
    ) -> bool {
        &&& new == (App { screen: self.screen.sidebar_toggled(), ..self })
        &&& fx2 == fx + self.screen.sidebar_hint()
    }

    fn flip_sidebar(&mut self, fx: &mut Effects)
        ensures
            old(self).sidebar_set(*final(self), old(fx)@, final(fx)@),
    {
        self.screen.toggle_sidebar(fx);
    }

    pub open spec fn replace_started(
        self,
        new: Self,
        included: Seq<bool>,
        job: Option<ReplaceJob>,
    ) -> bool {
        &&& new == self.with_search(new.global_search)
        &&& self.global_search.replace_committed(new.global_search, included, job)
    }

    fn start_replace(&mut self, included: &Vec<bool>) -> (r: ActionStep)
        ensures
            r is Replace || r is Nothing,
            old(self).replace_started(*final(self), included@, replace_step(r)),
    {
        of_replace(self.global_search.commit_replace_in_files(included))
    }

    pub open spec fn collapsed(
        self,
        new: Self,
        fx: Seq<Effect<Seq<char>>>,
        fx2: Seq<Effect<Seq<char>>>,
    ) -> bool {
        &&& new == (App { files: new.files, ..self })
        &&& self.files.all_collapsed(new.files, fx, fx2)
    }

    fn collapse(&mut self, fx: &mut Effects)
        requires
            old(self).wf(),
        ensures
            final(self).wf(),
            old(self).collapsed(*final(self), old(fx)@, final(fx)@),
    {
        self.files.collapse_all_tree_entries(fx);
    }

    pub open spec fn hit_selected(
        self,
        new: Self,
        i: usize,
        fx: Seq<Effect<Seq<char>>>,
        fx2: Seq<Effect<Seq<char>>>,
    ) -> bool {
        if self.searching() {
            &&& new == self.with_search((GlobalSearch { selected: i, ..self.global_search }))
            &&& fx2 == fx.push(Effect::ShowSearchHit)
        } else {
            new == self && fx2 == fx
        }
    }

    pub open spec fn replace_flipped(self) -> Self {
        if self.searching() {
            self.with_search(self.global_search.replace_toggled())
        } else {
            self
        }
    }

    /// What a click changes, what it asks for, and the job it leaves.
    /// `enabled` says whether the item of the menu is, `included` which hits
    /// the replacement holds.
    pub open spec fn clicked(
        self,
        new: Self,
        action: ClickAction,
        enabled: bool,
        included: Seq<bool>,
        now: u64,
        fx: Seq<Effect<Seq<char>>>,
        fx2: Seq<Effect<Seq<char>>>,
        r: ActionStep,
    ) -> bool {
        match action {
            ClickAction::SwitchTab(tab) => self.tab_set(new, tab, fx, fx2) && r is Nothing,
            ClickAction::ToggleSidebar => self.sidebar_set(new, fx, fx2) && r is Nothing,
            ClickAction::TreeClick(i) => self.row_clicked(new, i, now, fx, fx2) && r is Nothing,
            ClickAction::SelectFile { path, staged } => self.chosen(new, path@, staged, fx, fx2)
                && r is Nothing,
            ClickAction::StageFile(path) => {
                &&& new == self
                &&& fx2 == fx + self.stage_request(path@, true)
                &&& r is Nothing
            },
            ClickAction::UnstageFile(path) => {
                &&& new == self
                &&& fx2 == fx + self.stage_request(path@, false)
                &&& r is Nothing
            },
            ClickAction::ToggleStaged => new == self.section_toggled(true) && fx2 == fx
                && r is Nothing,
            ClickAction::ToggleUnstaged => new == self.section_toggled(false) && fx2 == fx
                && r is Nothing,
            ClickAction::StartDragSplit => self.dragged(new, false) && fx2 == fx && r is Nothing,
            ClickAction::StartDragGraphDiffSplit => self.dragged(new, true) && fx2 == fx
                && r is Nothing,
            ClickAction::GitCommand { command, args } => {
                &&& new == self
                &&& fx2 == fx.push(Effect::PanelCommand { command: command@, args: args@ })
                &&& r is Nothing
            },
            ClickAction::QuickOpenSelect(_) => new == self && fx2 == fx && r is Nothing,
            ClickAction::GlobalSearchSelect(i) => {
                &&& self.hit_selected(new, i, fx, fx2)
                &&& r is Nothing
            },
            ClickAction::GlobalSearchFocusInput => new == self.focused(false) && fx2 == fx
                && r is Nothing,
            ClickAction::GlobalSearchFocusReplaceInput => new == self.focused(true) && fx2 == fx
                && r is Nothing,
            ClickAction::PlaceModeFolder(i) => {
                &&& r is Copy || r is Nothing
                &&& self.folder_clicked(new, i, fx, fx2, copy_step(r))
            },
            ClickAction::PlaceModeRoot => {
                &&& r is Copy || r is Nothing
                &&& self.dropped(new, self.files.file_tree.root@, fx, fx2, copy_step(r))
            },
            ClickAction::FileTreeToolbarNewFile => self.created(
                new,
                TreeEditMode::NewFile,
                fx,
                fx2,
            ) && r is Nothing,
            ClickAction::FileTreeToolbarNewFolder => self.created(
                new,
                TreeEditMode::NewFolder,
                fx,
                fx2,
            ) && r is Nothing,
            ClickAction::FileTreeToolbarRefresh => {
                &&& new == self.reread()
                &&& fx2 == fx.push(
                    self.files.rebuild_request(opt_view(self.files.selected_path())),
                ) + self.git.status_request(self.repo())
                &&& r is Nothing
            },
            ClickAction::FileTreeToolbarCollapse => {
                &&& self.collapsed(new, fx, fx2)
                &&& r is Nothing
            },
            ClickAction::TreeContextMenuItem(item) => self.item_clicked(
                new,
                item,
                enabled,
                fx,
                fx2,
                r,
            ),
            ClickAction::TreeContextMenuClose => {
                &&& new == (App { files: self.files.menu_shut(), ..self })
                &&& fx2 == fx
                &&& r is Nothing
            },
            ClickAction::HostsPickerSelect(index) => {
                &&& new == self
                &&& fx2 == fx.push(Effect::SelectHost { index })
                &&& r is Nothing
            },
            ClickAction::TreeClearSelection => self.selection_cleared(new) && fx2 == fx
                && r is Nothing,
            ClickAction::DbPrevPage => {
                &&& new == self
                &&& r is Page || r is Nothing
                &&& self.preview.navigated(DbNav::PrevPage, fx, fx2, page_step(r))
            },
            ClickAction::DbNextPage => {
                &&& new == self
                &&& r is Page || r is Nothing
                &&& self.preview.navigated(DbNav::NextPage, fx, fx2, page_step(r))
            },
            ClickAction::DbGotoPage(page) => {
                &&& new == self
                &&& r is Page || r is Nothing
                &&& self.preview.page_chosen(page, fx, fx2, page_step(r))
            },
            ClickAction::SearchToggleReplace => {
                &&& new == self.replace_flipped()
                &&& fx2 == fx
                &&& r is Nothing
            },
            ClickAction::SearchToggleMatch(index) => {
                &&& new == self
                &&& fx2 == fx.push(Effect::ToggleMatch { index })
                &&& r is Nothing
            },
            ClickAction::SearchApplyReplace => {
                &&& r is Replace || r is Nothing
                &&& self.replace_started(new, included, replace_step(r))
                &&& fx2 == fx
            },
            ClickAction::SettingsRow(index) => {
                &&& new == self
                &&& fx2 == (if self.screen.view_mode == ViewMode::Settings {
                    fx.push(Effect::SelectSetting { index })
                } else {
                    fx
                })
                &&& r is Nothing
            },
        }
    }

    #[verifier::rlimit(25)]
    fn tree_action(
        &mut self,
        action: ClickAction,
        enabled: bool,
        included: &Vec<bool>,
        now: u64,
        fx: &mut Effects,
    ) -> (r: ActionStep)
        requires
            old(self).wf(),
            action.on_tree(),
        ensures
            final(self).wf(),
            old(self).clicked(
                *final(self),
                action,
                enabled,
                included@,
                now,
                old(fx)@,
                final(fx)@,
                r,
            ),
    {
        match action {
            ClickAction::TreeClick(i) => {
                self.click_row(i, now, fx);
            },
            ClickAction::PlaceModeFolder(i) => {
                return self.click_folder(i, fx);
            },
            ClickAction::PlaceModeRoot => {
                let dir = self.files.file_tree.root.clone();
                return self.drop_into(dir, fx);
            },
            ClickAction::FileTreeToolbarRefresh => {
                self.read_again(fx);
            },
            ClickAction::FileTreeToolbarCollapse => {
                self.collapse(fx);
            },
            ClickAction::TreeContextMenuClose => {
                self.files.tree_context_menu.close();
            },
            ClickAction::TreeClearSelection => {
                self.clear_selection();
            },
            _ => {},
        }
        ActionStep::Nothing
    }

    #[verifier::rlimit(25)]
    fn menu_action(
        &mut self,
        action: ClickAction,
        enabled: bool,
        included: &Vec<bool>,
        now: u64,
        fx: &mut Effects,
    ) -> (r: ActionStep)
        requires
            old(self).wf(),
            action.on_menu(),
        ensures
            final(self).wf(),
            old(self).clicked(
                *final(self),
                action,
                enabled,
                included@,
                now,
                old(fx)@,
                final(fx)@,
                r,
            ),
    {
        match action {
            ClickAction::FileTreeToolbarNewFile => {
                self.create(TreeEditMode::NewFile, fx);
            },
            ClickAction::FileTreeToolbarNewFolder => {
                self.create(TreeEditMode::NewFolder, fx);
            },
            ClickAction::TreeContextMenuItem(item) => {
                return self.click_item(item, enabled, fx);
            },
            _ => {},
        }
        ActionStep::Nothing
    }

    #[verifier::rlimit(25)]
    fn search_action(
        &mut self,
        action: ClickAction,
        enabled: bool,
        included: &Vec<bool>,
        now: u64,
        fx: &mut Effects,
    ) -> (r: ActionStep)
        requires
            old(self).wf(),
            action.on_search(),
        ensures
            final(self).wf(),
            old(self).clicked(
                *final(self),
                action,
                enabled,
                included@,
                now,
                old(fx)@,
                final(fx)@,
                r,
            ),
    {
        match action {
            ClickAction::GlobalSearchSelect(i) => {
                self.select_hit(i, fx);
            },
            ClickAction::GlobalSearchFocusInput => {
                self.focus_input(false);
            },
            ClickAction::GlobalSearchFocusReplaceInput => {
                self.focus_input(true);
            },
            ClickAction::SearchToggleReplace => {
                self.toggle_replace();
            },
            ClickAction::SearchToggleMatch(index) => {
                fx.emit(Effect::ToggleMatch { index });
            },
            ClickAction::SearchApplyReplace => {
                return self.start_replace(included);
            },
            _ => {},
        }
        ActionStep::Nothing
    }

    #[verifier::rlimit(25)]
    fn database_action(
        &mut self,
        action: ClickAction,
        enabled: bool,
        included: &Vec<bool>,
        now: u64,
        fx: &mut Effects,
    ) -> (r: ActionStep)
        requires
            old(self).wf(),
            action.on_database(),
        ensures
            final(self).wf(),
            old(self).clicked(
                *final(self),
                action,
                enabled,
                included@,
                now,
                old(fx)@,
                final(fx)@,
                r,
            ),
    {
        match action {
            ClickAction::DbPrevPage => {
                return of_page(self.preview.db_navigate(DbNav::PrevPage, fx));
            },
            ClickAction::DbNextPage => {
                return of_page(self.preview.db_navigate(DbNav::NextPage, fx));
            },
            ClickAction::DbGotoPage(page) => {
                return of_page(self.preview.db_navigate_to_page(page, fx));
            },
            _ => {},
        }
        ActionStep::Nothing
    }

    #[verifier::rlimit(25)]
    fn other_action(
        &mut self,
        action: ClickAction,
        enabled: bool,
        included: &Vec<bool>,
        now: u64,
        fx: &mut Effects,
    ) -> (r: ActionStep)
        requires
            old(self).wf(),
            !action.on_tree(),
            !action.on_menu(),
            !action.on_search(),
            !action.on_database(),
        ensures
            final(self).wf(),
            old(self).clicked(
                *final(self),
                action,
                enabled,
                included@,
                now,
                old(fx)@,
                final(fx)@,
                r,
            ),
    {
        match action {
            ClickAction::SwitchTab(tab) => {
                self.set_active_tab(tab, fx);
            },
            ClickAction::ToggleSidebar => {
                self.flip_sidebar(fx);
            },
            ClickAction::SelectFile { path, staged } => {
                self.select_file(path.as_str(), staged, fx);
            },
            ClickAction::StageFile(path) => {
                self.stage_file(path.as_str(), fx);
            },
            ClickAction::UnstageFile(path) => {
                self.unstage_file(path.as_str(), fx);
            },
            ClickAction::ToggleStaged => {
                self.toggle_section(true);
            },
            ClickAction::ToggleUnstaged => {
                self.toggle_section(false);
            },
            ClickAction::StartDragSplit => {
                self.drag(false);
            },
            ClickAction::StartDragGraphDiffSplit => {
                self.drag(true);
            },
            ClickAction::GitCommand { command, args } => {
                fx.emit(Effect::PanelCommand { command, args });
            },
            ClickAction::QuickOpenSelect(_) => {},
            ClickAction::HostsPickerSelect(index) => {
                fx.emit(Effect::SelectHost { index });
            },
            ClickAction::SettingsRow(index) => {
                if self.screen.view_mode == ViewMode::Settings {
                    fx.emit(Effect::SelectSetting { index });
                }
            },
            _ => {},
        }
        ActionStep::Nothing
    }

    /// Does what a click asks for.
    pub fn handle_action(
        &mut self,
        action: ClickAction,
        enabled: bool,
        included: &Vec<bool>,
        now: u64,
        fx: &mut Effects,
    ) -> (r: ActionStep)
        requires
            old(self).wf(),
        ensures
            final(self).wf(),
            old(self).clicked(
                *final(self),
                action,
                enabled,
                included@,
                now,
                old(fx)@,
                final(fx)@,
                r,
            ),
    {
        if action.is_on_tree() {
            self.tree_action(action, enabled, included, now, fx)
        } else if action.is_on_menu() {
            self.menu_action(action, enabled, included, now, fx)
        } else if action.is_on_search() {
            self.search_action(action, enabled, included, now, fx)
        } else if action.is_on_database() {
            self.database_action(action, enabled, included, now, fx)
        } else {
            self.other_action(action, enabled, included, now, fx)
        }
    }
}

// ── Laws ─────────────────────────────────────────────────────────────────

/// Clicking the header of a section twice leaves everything as it was.
pub proof fn law_two_toggles_cancel(s: App, staged: bool)
    ensures
        s.section_toggled(staged).section_toggled(staged) == s,
{
}

} // verus!
