//! The git tab: the changed files, which one is selected, and staging.
use crate::effects::{Effect, Effects, Pref};
use crate::git::{FileEntry, StashDetail, StashEntry, StashPushOptions};
use crate::graph::{stepped, HighlightedDiff};
use crate::layout::{folder_contains, lies_in, save_prefs, saved_prefs, DiffLayout, DiffMode, Screen};
use crate::loads::{idle, AsyncState};
use crate::strmap::StrSet;
use crate::text::{opt_str_view, opt_view, same_str, views};
use vstd::prelude::*;
use vstd::string::*;

verus! {

#[derive(Debug, Clone, Copy, PartialEq, Eq, Structural)]
pub enum PushOperation {
    Push { force: bool },
    PublishBranch,
}

impl Default for PushOperation {
    fn default() -> (r: Self)
        ensures
            r == (PushOperation::Push { force: false }),
    {
        PushOperation::Push { force: false }
    }
}

/// What the keyboard acts on in the sidebar of the git tab.
#[derive(Debug, Clone, Copy, PartialEq, Eq, Structural)]
pub enum GitKeyboardFocus {
    Repository,
    Branch,
    CommitMessage,
    CommitButton,
    StashButton,
    PushButton,
    PublishBranchButton,
    PullButton,
    StashHeader,
    StashAllButton,
    StashTrackedButton,
    StashKeepIndexButton,
    StashStagedButton,
    StashSelectedButton,
    Stashes,
    Files,
}

impl Default for GitKeyboardFocus {
    fn default() -> (r: Self)
        ensures
            r == GitKeyboardFocus::Files,
    {
        GitKeyboardFocus::Files
    }
}

/// A stash operation that waits for its confirmation.
#[derive(Debug)]
pub enum PendingStashAction {
    Push { options: StashPushOptions, label: String },
    Apply { stash_ref: String, reinstate_index: bool },
    Pop { stash_ref: String, reinstate_index: bool },
    Drop { stash_ref: String },
}

/// What is about to be discarded.
#[derive(Debug)]
pub enum DiscardTarget {
    File(String),
    Folder { is_staged: bool, path: String },
    Section { is_staged: bool },
}

#[derive(Debug)]
pub enum BranchCreateStep {
    ChooseMode,
    ChooseBase,
    EnterName { base: Option<String> },
}

#[derive(Debug)]
pub struct BranchCreateDialog {
    pub step: BranchCreateStep,
    pub input: String,
    pub cursor: usize,
    pub selected_base_idx: usize,
    pub error: Option<String>,
}

impl BranchCreateDialog {
    /// The dialog at its first question.
    pub open spec fn is_first(self) -> bool {
        &&& self.step is ChooseMode
        &&& self.input@.len() == 0
        &&& self.cursor == 0
        &&& self.selected_base_idx == 0
        &&& self.error is None
    }

    pub fn choose_mode() -> (r: Self)
        ensures
            r.is_first(),
    {
        BranchCreateDialog {
            step: BranchCreateStep::ChooseMode,
            input: String::new(),
            cursor: 0,
            selected_base_idx: 0,
            error: None,
        }
    }
}

#[derive(Debug)]
pub struct SelectedFile {
    pub path: String,
    pub is_staged: bool,
}

impl Clone for SelectedFile {
    fn clone(&self) -> (r: Self)
        ensures
            r == *self,
    {
        SelectedFile { path: self.path.clone(), is_staged: self.is_staged }
    }
}

pub open spec fn same_selection(a: Option<SelectedFile>, b: Option<SelectedFile>) -> bool {
    match (a, b) {
        (Some(x), Some(y)) => x.path@ == y.path@ && x.is_staged == y.is_staged,
        (None, None) => true,
        _ => false,
    }
}

pub fn selections_match(a: &Option<SelectedFile>, b: &Option<SelectedFile>) -> (r: bool)
    ensures
        r == same_selection(*a, *b),
{
    match (a, b) {
        (Some(x), Some(y)) => same_str(x.path.as_str(), y.path.as_str()) && x.is_staged
            == y.is_staged,
        (None, None) => true,
        _ => false,
    }
}

#[derive(Debug)]
pub struct GitStatusState {
    pub tree_mode: bool,
    pub collapsed_dirs: StrSet,
    pub confirm_discard: Option<DiscardTarget>,
    pub confirm_push: bool,
    pub confirm_force_push: bool,
    pub push_error: Option<String>,
    pub push_error_kind: PushOperation,
    pub pull_error: Option<String>,
    pub scroll: usize,
    pub ahead_behind: Option<(usize, usize)>,
    pub branches: Vec<String>,
    pub branch_dropdown_open: bool,
    pub repo_selector_open: bool,
    pub branch_dropdown_idx: usize,
    pub repo_selector_idx: usize,
    pub keyboard_focus: GitKeyboardFocus,
    pub stashes: Vec<StashEntry>,
    pub stash_section_open: bool,
    pub selected_stash_idx: usize,
    pub stash_detail: Option<StashDetail>,
    pub stash_error: Option<String>,
    pub pending_stash_action: Option<PendingStashAction>,
    pub branch_create_dialog: Option<BranchCreateDialog>,
    pub commit_message: String,
    pub commit_cursor: usize,
    pub commit_editing: bool,
    pub commit_error: Option<String>,
}

impl GitStatusState {
    /// The state that knows of nothing yet, over these empty containers.
    pub open spec fn blank(
        collapsed_dirs: StrSet,
        branches: Vec<String>,
        stashes: Vec<StashEntry>,
        commit_message: String,
    ) -> Self {
        GitStatusState {
            tree_mode: false,
            collapsed_dirs,
            confirm_discard: None,
            confirm_push: false,
            confirm_force_push: false,
            push_error: None,
            push_error_kind: PushOperation::Push { force: false },
            pull_error: None,
            scroll: 0,
            ahead_behind: None,
            branches,
            branch_dropdown_open: false,
            repo_selector_open: false,
            branch_dropdown_idx: 0,
            repo_selector_idx: 0,
            keyboard_focus: GitKeyboardFocus::Files,
            stashes,
            stash_section_open: false,
            selected_stash_idx: 0,
            stash_detail: None,
            stash_error: None,
            pending_stash_action: None,
            branch_create_dialog: None,
            commit_message,
            commit_cursor: 0,
            commit_editing: false,
            commit_error: None,
        }
    }
}

impl Default for GitStatusState {
    fn default() -> (r: Self)
        ensures
            r == Self::blank(r.collapsed_dirs, r.branches, r.stashes, r.commit_message),
            r.collapsed_dirs.wf(),
            r.collapsed_dirs@ == Set::<Seq<char>>::empty(),
            r.branches@.len() == 0,
            r.stashes@.len() == 0,
            r.commit_message@.len() == 0,
    {
        GitStatusState {
            tree_mode: false,
            collapsed_dirs: StrSet::new(),
            confirm_discard: None,
            confirm_push: false,
            confirm_force_push: false,
            push_error: None,
            push_error_kind: PushOperation::Push { force: false },
            pull_error: None,
            scroll: 0,
            ahead_behind: None,
            branches: Vec::new(),
            branch_dropdown_open: false,
            repo_selector_open: false,
            branch_dropdown_idx: 0,
            repo_selector_idx: 0,
            keyboard_focus: GitKeyboardFocus::Files,
            stashes: Vec::new(),
            stash_section_open: false,
            selected_stash_idx: 0,
            stash_detail: None,
            stash_error: None,
            pending_stash_action: None,
            branch_create_dialog: None,
            commit_message: String::new(),
            commit_cursor: 0,
            commit_editing: false,
            commit_error: None,
        }
    }
}

/// The diff column of the git tab.
#[derive(Debug)]
pub struct DiffView {
    pub diff_content: Option<HighlightedDiff>,
    pub diff_layout: DiffLayout,
    pub diff_mode: DiffMode,
    pub diff_scroll: usize,
    pub diff_h_scroll: usize,
    pub sbs_left_h_scroll: usize,
    pub sbs_right_h_scroll: usize,
    pub diff_load: AsyncState,
}

impl DiffView {
    pub open spec fn blank(diff_layout: DiffLayout, diff_mode: DiffMode) -> Self {
        DiffView {
            diff_content: None,
            diff_layout,
            diff_mode,
            diff_scroll: 0,
            diff_h_scroll: 0,
            sbs_left_h_scroll: 0,
            sbs_right_h_scroll: 0,
            diff_load: idle(),
        }
    }

    /// Scrolled to the start.
    pub open spec fn at_start(self) -> Self {
        DiffView {
            diff_scroll: 0,
            diff_h_scroll: 0,
            sbs_left_h_scroll: 0,
            sbs_right_h_scroll: 0,
            ..self
        }
    }

    pub fn scroll_to_start(&mut self)
        ensures
            *final(self) == old(self).at_start(),
    {
        self.diff_scroll = 0;
        self.diff_h_scroll = 0;
        self.sbs_left_h_scroll = 0;
        self.sbs_right_h_scroll = 0;
    }

    pub open spec fn asked(self, sel: Option<SelectedFile>, repo: Option<Seq<char>>) -> Self {
        if sel is Some && repo is Some {
            DiffView { diff_load: self.diff_load.begun(), ..self }
        } else {
            DiffView { diff_content: None, ..self }
        }
    }

    pub open spec fn request(self, sel: Option<SelectedFile>, repo: Option<Seq<char>>) -> Seq<
        Effect<Seq<char>>,
    > {
        match (sel, repo) {
            (Some(sel), Some(repo)) => seq![
                Effect::LoadDiff {
                    generation: self.diff_load.begun().generation,
                    repo,
                    path: sel.path@,
                    staged: sel.is_staged,
                    context: self.diff_mode.lines(),
                },
            ],
            _ => Seq::empty(),
        }
    }

    /// Asks for the diff of the selected file; without one, or without a
    /// repository, no diff is shown.
    pub fn load(&mut self, sel: &Option<SelectedFile>, repo: &Option<String>, fx: &mut Effects)
        ensures
            *final(self) == old(self).asked(*sel, opt_view(*repo)),
            final(fx)@ == old(fx)@ + old(self).request(*sel, opt_view(*repo)),
    {
        match (sel, repo) {
            (Some(sel), Some(repo)) => {
                let generation: u64 = self.diff_load.begin();
                fx.emit(
                    Effect::LoadDiff {
                        generation,
                        repo: repo.clone(),
                        path: sel.path.clone(),
                        staged: sel.is_staged,
                        context: self.diff_mode.context(),
                    },
                );
            },
            _ => {
                self.diff_content = None;
            },
        }
        assert(fx@ =~= old(fx)@ + old(self).request(*sel, opt_view(*repo)));
    }

    /// What a diff changes.
    pub open spec fn applied(
        self,
        new: Self,
        generation: u64,
        result: Result<Option<HighlightedDiff>, String>,
    ) -> bool {
        new == (if generation != self.diff_load.generation {
            self
        } else {
            match result {
                Ok(d) => DiffView {
                    diff_content: d,
                    diff_load: self.diff_load.done(),
                    ..self
                },
                Err(e) => DiffView {
                    diff_load: self.diff_load.failed(e),
                    ..self
                },
            }
        })
    }

    /// Takes the diff of the selected file if it is the latest one asked for.
    pub fn apply(&mut self, generation: u64, result: Result<Option<HighlightedDiff>, String>)
        ensures
            old(self).applied(
                *final(self),
                generation,
                result,
            ),
    {
        match result {
            Ok(d) => {
                if self.diff_load.complete_ok(generation) {
                    self.diff_content = d;
                }
            },
            Err(e) => {
                let _ = self.diff_load.complete_err(generation, e);
            },
        }
    }
}

/// The sections of changed files and the selection in them.
#[derive(Debug)]
pub struct FileLists {
    pub staged_files: Vec<FileEntry>,
    pub unstaged_files: Vec<FileEntry>,
    pub selected_file: Option<SelectedFile>,
    pub staged_collapsed: bool,
    pub unstaged_collapsed: bool,
    pub file_scroll: usize,
}

pub open spec fn paths_of(files: Seq<FileEntry>, staged: bool) -> Seq<(String, bool)> {
    files.map_values(|f: FileEntry| (f.path, staged))
}

/// The first item at or after `i` that is `path` in the section `staged`.
pub open spec fn find_item(items: Seq<(String, bool)>, path: Seq<char>, staged: bool, i: int) -> Option<
    int,
>
    decreases items.len() - i,
{
    if i < 0 || i >= items.len() {
        None
    } else if items[i].0@ == path && items[i].1 == staged {
        Some(i)
    } else {
        find_item(items, path, staged, i + 1)
    }
}

/// A path occurs among the files.
pub open spec fn lists(files: Seq<FileEntry>, path: Seq<char>) -> bool {
    exists|i: int| 0 <= i < files.len() && #[trigger] files[i].path@ == path
}

pub fn is_listed(files: &Vec<FileEntry>, path: &str) -> (r: bool)
    ensures
        r == lists(files@, path@),
{
    let n: usize = files.len();
    let mut i: usize = 0;
    while i < n
        invariant
            i <= n == files@.len(),
            forall|j: int| 0 <= j < i ==> (#[trigger] files@[j]).path@ != path@,
        decreases n - i,
    {
        if same_str(files[i].path.as_str(), path) {
            assert(files@[i as int].path@ == path@);
            return true;
        }
        i = i + 1;
    }
    false
}

/// The paths of the files, or of those below one folder.
pub open spec fn chosen(files: Seq<FileEntry>, folder: Option<Seq<char>>) -> Seq<Seq<char>>
    decreases files.len(),
{
    if files.len() == 0 {
        Seq::empty()
    } else {
        let rest = chosen(files.drop_last(), folder);
        if folder is None || lies_in(folder->0, files.last().path@) {
            rest.push(files.last().path@)
        } else {
            rest
        }
    }
}

fn choose_paths(files: &Vec<FileEntry>, folder: Option<&str>) -> (r: Vec<String>)
    ensures
        views(r@) == chosen(files@, opt_str_view(folder)),
{
    let mut out: Vec<String> = Vec::new();
    let mut i: usize = 0;
    assert(views(out@) =~= chosen(files@.take(0), opt_str_view(folder)));
    while i < files.len()
        invariant
            i <= files@.len(),
            views(out@) == chosen(files@.take(i as int), opt_str_view(folder)),
        decreases files@.len() - i,
    {
        let ghost before = out@;
        assert(files@.take(i + 1).drop_last() =~= files@.take(i as int));
        let wanted = match folder {
            Some(f) => folder_contains(f, files[i].path.as_str()),
            None => true,
        };
        if wanted {
            let p = files[i].path.clone();
            out.push(p);
            assert(views(out@) =~= views(before).push(p@));
        }
        i = i + 1;
    }
    assert(files@.take(files@.len() as int) =~= files@);
    out
}

pub open spec fn holds(paths: Seq<Seq<char>>, p: Seq<char>) -> bool {
    exists|i: int| 0 <= i < paths.len() && #[trigger] paths[i] == p
}

fn among(paths: &Vec<String>, p: &str) -> (r: bool)
    ensures
        r == holds(views(paths@), p@),
{
    let ghost all = views(paths@);
    let mut i: usize = 0;
    while i < paths.len()
        invariant
            i <= paths@.len(),
            all == views(paths@),
            forall|j: int| 0 <= j < i ==> #[trigger] all[j] != p@,
        decreases paths@.len() - i,
    {
        assert(all[i as int] == paths@[i as int]@);
        if same_str(paths[i].as_str(), p) {
            return true;
        }
        i = i + 1;
    }
    false
}

impl FileLists {
    /// What the cursor can be on: the files of the sections that are open.
    pub open spec fn selectable(self) -> Seq<(String, bool)> {
        (if self.staged_collapsed {
            Seq::empty()
        } else {
            paths_of(self.staged_files@, true)
        }) + (if self.unstaged_collapsed {
            Seq::empty()
        } else {
            paths_of(self.unstaged_files@, false)
        })
    }

    pub fn git_selectable_files(&self) -> (r: Vec<(String, bool)>)
        ensures
            r@ == self.selectable(),
    {
        let mut items: Vec<(String, bool)> = Vec::new();
        if !self.staged_collapsed {
            push_paths(&mut items, &self.staged_files, true);
        }
        if !self.unstaged_collapsed {
            push_paths(&mut items, &self.unstaged_files, false);
        }
        assert(items@ =~= self.selectable());
        items
    }

    /// Where the selected file is among them.
    pub open spec fn selected_at(self) -> Option<int> {
        match self.selected_file {
            Some(sel) => find_item(self.selectable(), sel.path@, sel.is_staged, 0),
            None => None,
        }
    }

    pub fn git_selected_file_idx(&self) -> (r: Option<usize>)
        ensures
            match self.selected_at() {
                Some(i) => r == Some(i as usize) && 0 <= i < self.selectable().len(),
                None => r is None,
            },
    {
        let sel = match &self.selected_file {
            Some(s) => s,
            None => {
                return None;
            },
        };
        let items = self.git_selectable_files();
        let n: usize = items.len();
        let mut i: usize = 0;
        while i < n
            invariant
                i <= n == items@.len(),
                items@ == self.selectable(),
                self.selected_file == Some(*sel),
                find_item(items@, sel.path@, sel.is_staged, i as int) == find_item(
                    items@,
                    sel.path@,
                    sel.is_staged,
                    0,
                ),
            decreases n - i,
        {
            if same_str(items[i].0.as_str(), sel.path.as_str()) && items[i].1 == sel.is_staged {
                return Some(i);
            }
            i = i + 1;
        }
        None
    }

    /// The rows that the two sections take, with their headers. The staged
    /// section shows only when it holds something.
    pub open spec fn rows(self) -> int {
        (if self.staged_files@.len() == 0 {
            0
        } else {
            1 + (if self.staged_collapsed {
                0int
            } else {
                self.staged_files@.len() as int
            })
        }) + 1 + (if self.unstaged_collapsed {
            0int
        } else {
            self.unstaged_files@.len() as int
        })
    }

    pub fn visible_file_count(&self) -> (r: usize)
        requires
            self.staged_files@.len() + self.unstaged_files@.len() + 2 <= usize::MAX,
        ensures
            r == self.rows(),
    {
        let mut count: usize = 0;
        if self.staged_files.len() > 0 {
            count = count + 1;
            if !self.staged_collapsed {
                count = count + self.staged_files.len();
            }
        }
        count = count + 1;
        if !self.unstaged_collapsed {
            count = count + self.unstaged_files.len();
        }
        count
    }

    /// Where a move by `delta` goes; a selection that is not on screen counts
    /// as the first row.
    pub open spec fn target(self, delta: int) -> int {
        stepped(
            match self.selected_at() {
                Some(i) => i,
                None => 0,
            },
            delta,
            self.selectable().len() - 1,
        )
    }

    pub open spec fn navigated(self, delta: int) -> Self {
        if self.selectable().len() == 0 {
            self
        } else {
            let item = self.selectable()[self.target(delta)];
            FileLists {
                selected_file: Some(SelectedFile { path: item.0, is_staged: item.1 }),
                ..self
            }
        }
    }

    /// Moves the selection; says whether there was anything to select.
    pub fn navigate(&mut self, delta: i32) -> (r: bool)
        ensures
            r == (old(self).selectable().len() > 0),
            *final(self) == old(self).navigated(delta as int),
    {
        let items = self.git_selectable_files();
        if items.len() == 0 {
            return false;
        }
        let current: usize = match self.git_selected_file_idx() {
            Some(i) => i,
            None => 0,
        };
        let last: usize = items.len() - 1;
        let to: i128 = current as i128 + delta as i128;
        let next: usize = if to < 0 {
            0
        } else if to > last as i128 {
            last
        } else {
            to as usize
        };
        self.selected_file = Some(
            SelectedFile { path: items[next].0.clone(), is_staged: items[next].1 },
        );
        true
    }

    /// The selection follows a file that moved to the section `staged`.
    pub open spec fn followed(self, paths: Seq<Seq<char>>, staged: bool) -> Self {
        match self.selected_file {
            Some(sel) => if holds(paths, sel.path@) {
                FileLists {
                    selected_file: Some(SelectedFile { path: sel.path, is_staged: staged }),
                    ..self
                }
            } else {
                self
            },
            None => self,
        }
    }

    fn follow(&mut self, paths: &Vec<String>, staged: bool)
        ensures
            *final(self) == old(self).followed(views(paths@), staged),
    {
        let moved = match &self.selected_file {
            Some(sel) => if among(paths, sel.path.as_str()) {
                Some(SelectedFile { path: sel.path.clone(), is_staged: staged })
            } else {
                None
            },
            None => None,
        };
        if moved.is_some() {
            self.selected_file = moved;
        }
    }

    /// The selection after the lists were read anew: it follows its file,
    /// into the staged section if the file is in both, and goes with it.
    pub open spec fn settled(self) -> Self {
        match self.selected_file {
            Some(sel) => if lists(self.staged_files@, sel.path@) {
                FileLists {
                    selected_file: Some(SelectedFile { path: sel.path, is_staged: true }),
                    ..self
                }
            } else if lists(self.unstaged_files@, sel.path@) {
                FileLists {
                    selected_file: Some(SelectedFile { path: sel.path, is_staged: false }),
                    ..self
                }
            } else {
                FileLists { selected_file: None, ..self }
            },
            None => self,
        }
    }

    pub fn settle(&mut self)
        ensures
            *final(self) == old(self).settled(),
    {
        let settled = match &self.selected_file {
            Some(sel) => if is_listed(&self.staged_files, sel.path.as_str()) {
                Some(SelectedFile { path: sel.path.clone(), is_staged: true })
            } else if is_listed(&self.unstaged_files, sel.path.as_str()) {
                Some(SelectedFile { path: sel.path.clone(), is_staged: false })
            } else {
                None
            },
            None => None,
        };
        self.selected_file = settled;
    }
}

fn push_paths(items: &mut Vec<(String, bool)>, files: &Vec<FileEntry>, staged: bool)
    ensures
        final(items)@ == old(items)@ + paths_of(files@, staged),
{
    let ghost before = items@;
    let mut i: usize = 0;
    assert(items@ =~= before + paths_of(files@.take(0), staged));
    while i < files.len()
        invariant
            i <= files@.len(),
            items@ == before + paths_of(files@.take(i as int), staged),
        decreases files@.len() - i,
    {
        items.push((files[i].path.clone(), staged));
        i = i + 1;
        assert(items@ =~= before + paths_of(files@.take(i as int), staged));
    }
    assert(files@.take(files@.len() as int) =~= files@);
}

#[derive(Debug)]
pub struct GitPane {
    pub git_status: GitStatusState,
    pub lists: FileLists,
    pub diff: DiffView,
    pub branch_name: String,
    pub push_in_flight: bool,
    pub push_in_flight_kind: PushOperation,
    pub pull_in_flight: bool,
    pub commit_in_flight: bool,
    pub git_status_load: AsyncState,
    pub stash_detail_load: AsyncState,
}

/// One staging, or unstaging.
pub open spec fn moved(repo: Seq<char>, path: Seq<char>, stage: bool, alone: bool) -> Effect<
    Seq<char>,
> {
    if stage {
        Effect::Stage { repo, path, alone }
    } else {
        Effect::Unstage { repo, path, alone }
    }
}

/// One staging, or unstaging, for each path.
pub open spec fn moves(repo: Seq<char>, paths: Seq<Seq<char>>, stage: bool) -> Seq<
    Effect<Seq<char>>,
> {
    paths.map_values(
        |p: Seq<char>| moved(repo, p, stage, false),
    )
}

/// One restoration for each path.
pub open spec fn reverts(repo: Seq<char>, paths: Seq<Seq<char>>, staged: bool) -> Seq<
    Effect<Seq<char>>,
> {
    paths.map_values(|p: Seq<char>| Effect::Revert { repo, path: p, staged })
}

fn emit_moves(repo: &String, paths: &Vec<String>, stage: bool, fx: &mut Effects)
    ensures
        final(fx)@ == old(fx)@ + moves(repo@, views(paths@), stage),
{
    let ghost all = views(paths@);
    let ghost before = fx@;
    let mut i: usize = 0;
    assert(fx@ =~= before + moves(repo@, all.take(0), stage));
    while i < paths.len()
        invariant
            i <= paths@.len(),
            all == views(paths@),
            fx@ == before + moves(repo@, all.take(i as int), stage),
        decreases paths@.len() - i,
    {
        if stage {
            fx.emit(Effect::Stage { repo: repo.clone(), path: paths[i].clone(), alone: false });
        } else {
            fx.emit(Effect::Unstage { repo: repo.clone(), path: paths[i].clone(), alone: false });
        }
        i = i + 1;
        assert(fx@ =~= before + moves(repo@, all.take(i as int), stage));
    }
    assert(all.take(all.len() as int) =~= all);
}

fn emit_reverts(repo: &String, paths: &Vec<String>, staged: bool, fx: &mut Effects)
    ensures
        final(fx)@ == old(fx)@ + reverts(repo@, views(paths@), staged),
{
    let ghost all = views(paths@);
    let ghost before = fx@;
    let mut i: usize = 0;
    assert(fx@ =~= before + reverts(repo@, all.take(0), staged));
    while i < paths.len()
        invariant
            i <= paths@.len(),
            all == views(paths@),
            fx@ == before + reverts(repo@, all.take(i as int), staged),
        decreases paths@.len() - i,
    {
        fx.emit(Effect::Revert { repo: repo.clone(), path: paths[i].clone(), staged });
        i = i + 1;
        assert(fx@ =~= before + reverts(repo@, all.take(i as int), staged));
    }
    assert(all.take(all.len() as int) =~= all);
}

impl GitPane {
    // ── Loads ────────────────────────────────────────────────────────────
    pub open spec fn status_asked(self, repo: Option<Seq<char>>) -> Self {
        if repo is Some {
            GitPane { git_status_load: self.git_status_load.begun(), ..self }
        } else {
            self
        }
    }

    pub open spec fn status_request(self, repo: Option<Seq<char>>) -> Seq<Effect<Seq<char>>> {
        match repo {
            Some(repo) => seq![
                Effect::RefreshStatus {
                    generation: self.git_status_load.begun().generation,
                    repo,
                },
            ],
            None => Seq::empty(),
        }
    }

    pub fn refresh_status(&mut self, repo: &Option<String>, fx: &mut Effects)
        ensures
            *final(self) == old(self).status_asked(opt_view(*repo)),
            final(fx)@ == old(fx)@ + old(self).status_request(opt_view(*repo)),
    {
        if let Some(repo) = repo {
            let generation: u64 = self.git_status_load.begin();
            fx.emit(Effect::RefreshStatus { generation, repo: repo.clone() });
        }
        assert(fx@ =~= old(fx)@ + old(self).status_request(opt_view(*repo)));
    }

    pub open spec fn diff_asked(self, repo: Option<Seq<char>>) -> Self {
        GitPane { diff: self.diff.asked(self.lists.selected_file, repo), ..self }
    }

    pub open spec fn diff_request(self, repo: Option<Seq<char>>) -> Seq<Effect<Seq<char>>> {
        self.diff.request(self.lists.selected_file, repo)
    }

    pub fn load_diff(&mut self, repo: &Option<String>, fx: &mut Effects)
        ensures
            *final(self) == old(self).diff_asked(opt_view(*repo)),
            final(fx)@ == old(fx)@ + old(self).diff_request(opt_view(*repo)),
    {
        self.diff.load(&self.lists.selected_file, repo, fx);
    }

    /// The status is asked for, then the diff.
    pub open spec fn reread(self, repo: Option<Seq<char>>) -> Self {
        self.status_asked(repo).diff_asked(repo)
    }

    pub open spec fn reread_requests(self, repo: Option<Seq<char>>) -> Seq<Effect<Seq<char>>> {
        self.status_request(repo) + self.diff_request(repo)
    }

    fn read_again(&mut self, repo: &Option<String>, fx: &mut Effects)
        ensures
            *final(self) == old(self).reread(opt_view(*repo)),
            final(fx)@ == old(fx)@ + old(self).reread_requests(opt_view(*repo)),
    {
        self.refresh_status(repo, fx);
        self.load_diff(repo, fx);
        assert(fx@ =~= old(fx)@ + old(self).reread_requests(opt_view(*repo)));
    }

    // ── The selected file ────────────────────────────────────────────────
    pub open spec fn file_selected(self, file: SelectedFile) -> Self {
        GitPane {
            lists: FileLists { selected_file: Some(file), ..self.lists },
            diff: self.diff.at_start(),
            ..self
        }
    }

    /// What choosing a file changes; its diff is asked for.
    pub open spec fn file_chosen(
        self,
        new: Self,
        path: Seq<char>,
        is_staged: bool,
        screen: Screen,
        screen2: Screen,
        repo: Option<Seq<char>>,
        fx: Seq<Effect<Seq<char>>>,
        fx2: Seq<Effect<Seq<char>>>,
    ) -> bool {
        &&& new.lists.selected_file matches Some(f) && f.path@ == path && f.is_staged
            == is_staged && new == self.file_selected(f).diff_asked(
            repo,
        ) && fx2 == fx + self.file_selected(f).diff_request(repo)
        &&& screen2 == screen.without_diff_selection()
    }

    pub fn select_file(
        &mut self,
        path: &str,
        is_staged: bool,
        screen: &mut Screen,
        repo: &Option<String>,
        fx: &mut Effects,
    )
        ensures
            old(self).file_chosen(
                *final(self),
                path@,
                is_staged,
                *old(screen),
                *final(screen),
                opt_view(*repo),
                old(fx)@,
                final(fx)@,
            ),
    {
        screen.clear_diff_selection();
        self.lists.selected_file = Some(SelectedFile { path: path.to_owned(), is_staged });
        self.diff.scroll_to_start();
        self.load_diff(repo, fx);
    }

    /// The selection moved by `delta`, the diff scrolled to its start and the
    /// keyboard on the files.
    pub open spec fn moved(self, delta: int) -> Self {
        if self.lists.selectable().len() == 0 {
            self
        } else {
            GitPane {
                lists: self.lists.navigated(delta),
                diff: self.diff.at_start(),
                git_status: GitStatusState {
                    keyboard_focus: GitKeyboardFocus::Files,
                    ..self.git_status
                },
                ..self
            }
        }
    }

    /// Moves the selection. The diff is loaded once the burst of keys is over,
    /// by the caller.
    pub fn navigate_files(&mut self, delta: i32)
        ensures
            *final(self) == old(self).moved(delta as int),
    {
        if self.lists.navigate(delta) {
            self.git_status.keyboard_focus = GitKeyboardFocus::Files;
            self.diff.scroll_to_start();
        }
    }

    pub open spec fn unselected(self) -> Self {
        GitPane {
            lists: FileLists { selected_file: None, ..self.lists },
            diff: DiffView { diff_content: None, ..self.diff },
            ..self
        }
    }

    pub fn unselect(&mut self)
        ensures
            *final(self) == old(self).unselected(),
    {
        self.lists.selected_file = None;
        self.diff.diff_content = None;
    }

    // ── Staging ──────────────────────────────────────────────────────────
    /// The path is staged, or unstaged, by the host.
    pub fn stage_file(&self, path: &str, stage: bool, repo: &Option<String>, fx: &mut Effects)
        ensures
            final(fx)@ == old(fx)@ + (match *repo {
                Some(repo) => seq![moved(repo@, path@, stage, true)],
                None => Seq::empty(),
            }),
    {
        if let Some(repo) = repo {
            if stage {
                fx.emit(Effect::Stage { repo: repo.clone(), path: path.to_owned(), alone: true });
            } else {
                fx.emit(Effect::Unstage { repo: repo.clone(), path: path.to_owned(), alone: true });
            }
            assert(fx@ =~= old(fx)@ + seq![moved(repo@, path@, stage, true)]);
        } else {
            assert(fx@ =~= old(fx)@ + Seq::<Effect<Seq<char>>>::empty());
        }
    }

    /// What follows once the path was staged, or unstaged: the selection
    /// follows it, and status and diff are read again. Nothing follows where
    /// that failed.
    pub fn stage_done(
        &mut self,
        path: String,
        stage: bool,
        ok: bool,
        repo: &Option<String>,
        fx: &mut Effects,
    )
        ensures
            !ok ==> *final(self) == *old(self) && final(fx)@ == old(fx)@,
            ok ==> ({
                let s = GitPane {
                    lists: old(self).lists.followed(seq![path@], stage),
                    ..*old(self)
                };
                &&& *final(self) == s.reread(opt_view(*repo))
                &&& final(fx)@ == old(fx)@ + s.reread_requests(opt_view(*repo))
            }),
    {
        if !ok {
            return;
        }
        let mut paths: Vec<String> = Vec::new();
        paths.push(path);
        assert(views(paths@) =~= seq![path@]);
        self.lists.follow(&paths, stage);
        self.read_again(repo, fx);
    }

    /// The files that a bulk operation takes: those of one section, or those
    /// below one folder of it.
    pub open spec fn taken(self, staged: bool, folder: Option<Seq<char>>) -> Seq<Seq<char>> {
        chosen(
            if staged {
                self.lists.staged_files@
            } else {
                self.lists.unstaged_files@
            },
            folder,
        )
    }

    fn take_paths(&self, staged: bool, folder: Option<&str>) -> (r: Vec<String>)
        ensures
            views(r@) == self.taken(staged, opt_str_view(folder)),
    {
        if staged {
            choose_paths(&self.lists.staged_files, folder)
        } else {
            choose_paths(&self.lists.unstaged_files, folder)
        }
    }

    pub open spec fn bulk_moved(self, stage: bool, folder: Option<Seq<char>>) -> Self {
        GitPane { lists: self.lists.followed(self.taken(!stage, folder), stage), ..self }
    }

    /// Stages the unstaged files, or unstages the staged ones, below `folder`
    /// or everywhere. The selection follows a file that moved, and status and
    /// diff are read again, whatever the outcome.
    fn bulk_move(&mut self, stage: bool, folder: Option<&str>, repo: &Option<String>, fx: &mut Effects)
        ensures
            match *repo {
                Some(r) => {
                    let s = old(self).bulk_moved(stage, opt_str_view(folder));
                    &&& *final(self) == s.reread(Some(r@))
                    &&& final(fx)@ == old(fx)@ + moves(
                        r@,
                        old(self).taken(!stage, opt_str_view(folder)),
                        stage,
                    ) + s.reread_requests(Some(r@))
                },
                None => *final(self) == *old(self) && final(fx)@ == old(fx)@,
            },
    {
        if let Some(r) = repo {
            let paths = self.take_paths(!stage, folder);
            emit_moves(r, &paths, stage, fx);
            self.lists.follow(&paths, stage);
            self.read_again(repo, fx);
        }
    }

    pub fn stage_all(&mut self, repo: &Option<String>, fx: &mut Effects)
        ensures
            match *repo {
                Some(r) => {
                    let s = old(self).bulk_moved(true, None);
                    &&& *final(self) == s.reread(Some(r@))
                    &&& final(fx)@ == old(fx)@ + moves(r@, old(self).taken(false, None), true)
                        + s.reread_requests(Some(r@))
                },
                None => *final(self) == *old(self) && final(fx)@ == old(fx)@,
            },
    {
        self.bulk_move(true, None, repo, fx);
    }

    pub fn unstage_all(&mut self, repo: &Option<String>, fx: &mut Effects)
        ensures
            match *repo {
                Some(r) => {
                    let s = old(self).bulk_moved(false, None);
                    &&& *final(self) == s.reread(Some(r@))
                    &&& final(fx)@ == old(fx)@ + moves(r@, old(self).taken(true, None), false)
                        + s.reread_requests(Some(r@))
                },
                None => *final(self) == *old(self) && final(fx)@ == old(fx)@,
            },
    {
        self.bulk_move(false, None, repo, fx);
    }

    pub fn stage_folder(&mut self, folder_path: &str, repo: &Option<String>, fx: &mut Effects)
        ensures
            match *repo {
                Some(r) => {
                    let s = old(self).bulk_moved(true, Some(folder_path@));
                    &&& *final(self) == s.reread(Some(r@))
                    &&& final(fx)@ == old(fx)@ + moves(
                        r@,
                        old(self).taken(false, Some(folder_path@)),
                        true,
                    ) + s.reread_requests(Some(r@))
                },
                None => *final(self) == *old(self) && final(fx)@ == old(fx)@,
            },
    {
        self.bulk_move(true, Some(folder_path), repo, fx);
    }

    pub fn unstage_folder(&mut self, folder_path: &str, repo: &Option<String>, fx: &mut Effects)
        ensures
            match *repo {
                Some(r) => {
                    let s = old(self).bulk_moved(false, Some(folder_path@));
                    &&& *final(self) == s.reread(Some(r@))
                    &&& final(fx)@ == old(fx)@ + moves(
                        r@,
                        old(self).taken(true, Some(folder_path@)),
                        false,
                    ) + s.reread_requests(Some(r@))
                },
                None => *final(self) == *old(self) && final(fx)@ == old(fx)@,
            },
    {
        self.bulk_move(false, Some(folder_path), repo, fx);
    }

    // ── Discarding ───────────────────────────────────────────────────────
    /// The paths that a target restores, and from which section.
    pub open spec fn discarded(self, target: DiscardTarget) -> (Seq<Seq<char>>, bool) {
        match target {
            DiscardTarget::File(p) => (seq![p@], false),
            DiscardTarget::Folder { is_staged, path } => (
                self.taken(is_staged, Some(path@)),
                is_staged,
            ),
            DiscardTarget::Section { is_staged } => (self.taken(is_staged, None), is_staged),
        }
    }

    fn apply_discard_target(&self, target: &DiscardTarget, repo: &Option<String>, fx: &mut Effects) -> (r:
        Vec<String>)
        ensures
            views(r@) == (if repo is Some {
                self.discarded(*target).0
            } else {
                Seq::empty()
            }),
            final(fx)@ == old(fx)@ + (match *repo {
                Some(repo) => reverts(
                    repo@,
                    self.discarded(*target).0,
                    self.discarded(*target).1,
                ),
                None => Seq::empty(),
            }),
    {
        let repo = match repo {
            Some(r) => r,
            None => {
                let none: Vec<String> = Vec::new();
                assert(views(none@) =~= Seq::<Seq<char>>::empty());
                assert(fx@ =~= old(fx)@ + Seq::<Effect<Seq<char>>>::empty());
                return none;
            },
        };
        let (paths, staged) = match target {
            DiscardTarget::File(p) => {
                let mut one: Vec<String> = Vec::new();
                one.push(p.clone());
                assert(views(one@) =~= seq![p@]);
                (one, false)
            },
            DiscardTarget::Folder { is_staged, path } => {
                (self.take_paths(*is_staged, Some(path.as_str())), *is_staged)
            },
            DiscardTarget::Section { is_staged } => (self.take_paths(*is_staged, None), *is_staged),
        };
        emit_reverts(repo, &paths, staged, fx);
        paths
    }

    /// The state after the paths were restored, before anything is read
    /// again: no confirmation is up, and a restored file is not selected.
    pub open spec fn after_discard(self, paths: Seq<Seq<char>>) -> Self {
        GitPane {
            git_status: GitStatusState { confirm_discard: None, ..self.git_status },
            ..self
        }.selection_dropped(paths)
    }

    pub fn confirm_discard(&mut self, repo: &Option<String>, fx: &mut Effects)
        ensures
            match old(self).git_status.confirm_discard {
                Some(target) => {
                    let (paths, staged) = old(self).discarded(target);
                    match *repo {
                        Some(r) => {
                            let s = old(self).after_discard(paths);
                            &&& *final(self) == s.reread(Some(r@))
                            &&& final(fx)@ == old(fx)@ + reverts(r@, paths, staged)
                                + s.reread_requests(Some(r@))
                        },
                        None => *final(self) == old(self).after_discard(Seq::empty()).reread(None)
                            && final(fx)@ == old(fx)@,
                    }
                },
                None => *final(self) == *old(self) && final(fx)@ == old(fx)@,
            },
    {
        let target = match self.take_discard() {
            Some(t) => t,
            None => {
                return;
            },
        };
        assert(self.discarded(target) == old(self).discarded(target));
        self.discard(&target, repo, fx);
    }

    /// The confirmation that is up, which then is no longer.
    fn take_discard(&mut self) -> (r: Option<DiscardTarget>)
        ensures
            r == old(self).git_status.confirm_discard,
            *final(self) == (if r is Some {
                GitPane {
                    git_status: GitStatusState { confirm_discard: None, ..old(self).git_status },
                    ..*old(self)
                }
            } else {
                *old(self)
            }),
    {
        if self.git_status.confirm_discard.is_none() {
            return None;
        }
        self.git_status.confirm_discard.take()
    }

    fn discard(&mut self, target: &DiscardTarget, repo: &Option<String>, fx: &mut Effects)
        ensures
            match *repo {
                Some(r) => {
                    let (paths, staged) = old(self).discarded(*target);
                    let s = old(self).selection_dropped(paths);
                    &&& *final(self) == s.reread(Some(r@))
                    &&& final(fx)@ == old(fx)@ + reverts(r@, paths, staged) + s.reread_requests(
                        Some(r@),
                    )
                },
                None => *final(self) == old(self).selection_dropped(Seq::empty()).reread(None)
                    && final(fx)@ == old(fx)@,
            },
    {
        let paths = self.apply_discard_target(target, repo, fx);
        self.drop_selection_of(&paths);
        self.read_again(repo, fx);
        assert(repo is None ==> fx@ =~= old(fx)@);
    }

    /// No file of `paths` stays selected.
    pub open spec fn selection_dropped(self, paths: Seq<Seq<char>>) -> Self {
        match self.lists.selected_file {
            Some(sel) => if holds(paths, sel.path@) {
                self.unselected()
            } else {
                self
            },
            None => self,
        }
    }

    fn drop_selection_of(&mut self, paths: &Vec<String>)
        ensures
            *final(self) == old(self).selection_dropped(views(paths@)),
    {
        let hit = match &self.lists.selected_file {
            Some(sel) => among(paths, sel.path.as_str()),
            None => false,
        };
        if hit {
            self.unselect();
        }
    }

    // ── Settings of the diff view ────────────────────────────────────────
    pub fn toggle_diff_layout(&mut self, screen: &mut Screen, fx: &mut Effects)
        ensures
            *final(self) == (GitPane {
                diff: DiffView {
                    diff_layout: old(self).diff.diff_layout.other(),
                    ..old(self).diff.at_start()
                },
                ..*old(self)
            }),
            *final(screen) == old(screen).without_diff_selection(),
            final(fx)@ == old(fx)@ + saved_prefs(
                old(self).diff.diff_layout.other(),
                old(self).diff.diff_mode,
            ),
    {
        self.diff.diff_layout = self.diff.diff_layout.toggled();
        self.diff.scroll_to_start();
        screen.clear_diff_selection();
        save_prefs(self.diff.diff_layout, self.diff.diff_mode, fx);
    }

    pub open spec fn mode_toggled(self) -> Self {
        GitPane {
            diff: DiffView { diff_mode: self.diff.diff_mode.other(), ..self.diff.at_start() },
            ..self
        }
    }

    pub fn toggle_diff_mode(&mut self, screen: &mut Screen, repo: &Option<String>, fx: &mut Effects)
        ensures
            *final(self) == old(self).mode_toggled().diff_asked(opt_view(*repo)),
            *final(screen) == old(screen).without_diff_selection(),
            final(fx)@ == old(fx)@ + old(self).mode_toggled().diff_request(opt_view(*repo))
                + saved_prefs(old(self).diff.diff_layout, old(self).diff.diff_mode.other()),
    {
        self.diff.diff_mode = self.diff.diff_mode.toggled();
        self.diff.scroll_to_start();
        screen.clear_diff_selection();
        self.load_diff(repo, fx);
        save_prefs(self.diff.diff_layout, self.diff.diff_mode, fx);
    }

    pub fn toggle_status_tree_mode(&mut self, fx: &mut Effects)
        ensures
            *final(self) == (GitPane {
                git_status: GitStatusState {
                    tree_mode: !old(self).git_status.tree_mode,
                    ..old(self).git_status
                },
                ..*old(self)
            }),
            final(fx)@ == old(fx)@.push(
                Effect::SetFlag {
                    pref: Pref::StatusTreeMode,
                    value: !old(self).git_status.tree_mode,
                },
            ),
    {
        self.git_status.tree_mode = !self.git_status.tree_mode;
        fx.emit(Effect::SetFlag { pref: Pref::StatusTreeMode, value: self.git_status.tree_mode });
    }
}

// ── Laws ─────────────────────────────────────────────────────────────────

proof fn lemma_find_item(items: Seq<(String, bool)>, path: Seq<char>, staged: bool, i: int)
    requires
        0 <= i,
    ensures
        find_item(items, path, staged, i) matches Some(k) ==> i <= k < items.len()
            && items[k].0@ == path && items[k].1 == staged,
    decreases items.len() - i,
{
    if i < items.len() {
        lemma_find_item(items, path, staged, i + 1);
    }
}

proof fn lemma_chosen(files: Seq<FileEntry>, folder: Option<Seq<char>>, p: Seq<char>)
    ensures
        holds(chosen(files, folder), p) == (lists(files, p) && (folder is None || lies_in(
            folder->0,
            p,
        ))),
    decreases files.len(),
{
    if files.len() == 0 {
        assert(!holds(chosen(files, folder), p));
        assert(!lists(files, p));
    } else {
        let rest = files.drop_last();
        lemma_chosen(rest, folder, p);
        let c = chosen(rest, folder);
        let wanted = folder is None || lies_in(folder->0, files.last().path@);
        if lists(rest, p) {
            let i = choose|i: int| 0 <= i < rest.len() && #[trigger] rest[i].path@ == p;
            assert(files[i].path@ == p);
        }
        if lists(files, p) && !lists(rest, p) {
            let i = choose|i: int| 0 <= i < files.len() && #[trigger] files[i].path@ == p;
            if i < rest.len() {
                assert(rest[i].path@ == p);
            }
            assert(files.last().path@ == p);
        }
        if wanted {
            assert(chosen(files, folder) == c.push(files.last().path@));
            assert(c.push(files.last().path@)[c.len() as int] == files.last().path@);
            if holds(c, p) {
                let i = choose|i: int| 0 <= i < c.len() && #[trigger] c[i] == p;
                assert(c.push(files.last().path@)[i] == p);
            }
            if holds(chosen(files, folder), p) {
                let i = choose|i: int|
                    0 <= i < chosen(files, folder).len() && #[trigger] chosen(files, folder)[i]
                        == p;
                if i < c.len() {
                    assert(c[i] == p);
                } else {
                    assert(files[files.len() - 1].path@ == p);
                }
            }
            if files.last().path@ == p {
                assert(files[files.len() - 1].path@ == p);
            }
        } else if files.last().path@ == p {
            assert(files[files.len() - 1].path@ == p);
        }
    }
}

/// A bulk operation on a folder takes exactly the files of the section that
/// lie in the folder, and none beside it.
pub proof fn law_folder_operations_stay_in_folder(
    pane: GitPane,
    staged: bool,
    folder: Seq<char>,
    p: Seq<char>,
)
    ensures
        holds(pane.taken(staged, Some(folder)), p) == (lists(
            if staged {
                pane.lists.staged_files@
            } else {
                pane.lists.unstaged_files@
            },
            p,
        ) && lies_in(folder, p)),
{
    lemma_chosen(
        if staged {
            pane.lists.staged_files@
        } else {
            pane.lists.unstaged_files@
        },
        Some(folder),
        p,
    );
}

/// A folder does not take in a sibling whose name only starts like its own.
pub proof fn law_sibling_prefix_is_outside(folder: Seq<char>, rest: Seq<char>)
    requires
        folder.len() > 0,
        folder.last() != '/',
        rest.len() > 0,
        rest[0] != '/',
    ensures
        !lies_in(folder, folder + rest),
{
    let p = folder + seq!['/'];
    assert(crate::text::without_trailing(folder, '/') == folder);
    assert((folder + rest)[folder.len() as int] == rest[0]);
    assert((folder + rest).len() > folder.len());
    if p.is_prefix_of(folder + rest) {
        assert((folder + rest).subrange(0, p.len() as int)[folder.len() as int] == p[folder.len() as int]);
    }
}

/// Moving the selection leaves it on a file that is on screen.
pub proof fn law_navigation_stays_on_screen(l: FileLists, delta: int)
    requires
        l.selectable().len() > 0,
    ensures
        l.navigated(delta).selected_file matches Some(sel) && l.selectable().contains(
            (sel.path, sel.is_staged),
        ),
        l.navigated(delta).selected_at() is Some,
{
    match l.selected_file {
        Some(sel) => {
            lemma_find_item(l.selectable(), sel.path@, sel.is_staged, 0);
        },
        None => {},
    }
    let t = l.target(delta);
    assert(0 <= t < l.selectable().len());
    let item = l.selectable()[t];
    assert(l.selectable().contains((item.0, item.1)));
    lemma_item_found(l.selectable(), t, 0);
    assert(l.navigated(delta).selectable() == l.selectable());
}

proof fn lemma_item_found(items: Seq<(String, bool)>, k: int, i: int)
    requires
        0 <= i <= k < items.len(),
    ensures
        find_item(items, items[k].0@, items[k].1, i) is Some,
    decreases k - i,
{
    if i < k {
        lemma_item_found(items, k, i + 1);
    }
}

/// After the lists were read anew, a selected file is in the section that the
/// selection names.
pub proof fn law_selection_names_a_listed_file(l: FileLists)
    ensures
        l.settled().selected_file matches Some(sel) ==> lists(
            if sel.is_staged {
                l.staged_files@
            } else {
                l.unstaged_files@
            },
            sel.path@,
        ),
{
}

} // verus!
