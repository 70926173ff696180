//! A search inside a panel: it begins at a panel, jumps from match to match,
//! and either stays where it led or goes back to where it began.
use crate::app::App;
use crate::effects::{Effect, Effects};
use crate::file_tree::{FileTree, TreeEntry};
use crate::files_pane::FilesPane;
use crate::git::FileEntry;
use crate::git_pane::{
    same_selection, selections_match, DiffView, FileLists, GitPane, GitStatusState, SelectedFile,
};
use crate::graph::{oid_at, CommitDetailState, GitGraphState, GraphPane, GraphRow};
use crate::preview::PreviewBody;
use crate::preview_pane::PreviewPane;
use crate::search::{
    are_matches, baseline_row, center_scroll, centered, diff_rows, find_in_rows, resolve_target,
    row_matches, start_row, target_of, unified_display_rows, SearchState, SearchTarget, Snapshot,
};
use crate::text::{copy_strings, opt_view, views};
use vstd::prelude::*;
use vstd::string::*;
use vstd::utf8::*;

verus! {

// ── Going back ───────────────────────────────────────────────────────────

impl PreviewPane {
    pub open spec fn restored(self, snap: Snapshot) -> Self {
        PreviewPane {
            preview_scroll: snap.preview_scroll,
            preview_h_scroll: snap.preview_h_scroll,
            ..self
        }
    }

    fn restore(&mut self, snap: &Snapshot)
        ensures
            *final(self) == old(self).restored(*snap),
    {
        self.preview_scroll = snap.preview_scroll;
        self.preview_h_scroll = snap.preview_h_scroll;
    }

    fn scroll_to(&mut self, at: usize)
        ensures
            *final(self) == (PreviewPane { preview_scroll: at, ..*old(self) }),
    {
        self.preview_scroll = at;
    }
}

impl FilesPane {
    pub open spec fn restored(self, snap: Snapshot) -> Self {
        FilesPane {
            file_tree: FileTree { selected: snap.file_tree_selected, ..self.file_tree },
            tree_scroll: snap.tree_scroll,
            ..self
        }
    }

    fn restore(&mut self, snap: &Snapshot)
        ensures
            *final(self) == old(self).restored(*snap),
    {
        self.file_tree.selected = snap.file_tree_selected;
        self.tree_scroll = snap.tree_scroll;
    }
}

impl GitPane {
    pub open spec fn scrolled_back(self, snap: Snapshot) -> Self {
        GitPane {
            diff: DiffView {
                diff_scroll: snap.diff_scroll,
                diff_h_scroll: snap.diff_h_scroll,
                ..self.diff
            },
            git_status: GitStatusState { scroll: snap.git_status_scroll, ..self.git_status },
            ..self
        }
    }

    /// Where another file is selected by now, the first one is again, and its
    /// diff is asked for.
    pub open spec fn restored(self, snap: Snapshot, repo: Option<Seq<char>>) -> Self {
        let s = self.scrolled_back(snap);
        if same_selection(self.lists.selected_file, snap.git_status_selected_file) {
            s
        } else {
            s.with_selection(snap.git_status_selected_file).diff_asked(repo)
        }
    }

    pub open spec fn restore_request(
        self,
        snap: Snapshot,
        repo: Option<Seq<char>>,
    ) -> Seq<Effect<Seq<char>>> {
        if same_selection(self.lists.selected_file, snap.git_status_selected_file) {
            Seq::empty()
        } else {
            self.with_selection(snap.git_status_selected_file).diff_request(repo)
        }
    }

    pub open spec fn with_selection(self, f: Option<SelectedFile>) -> Self {
        GitPane { lists: FileLists { selected_file: f, ..self.lists }, ..self }
    }

    fn scroll_back(&mut self, snap: &Snapshot)
        ensures
            *final(self) == old(self).scrolled_back(*snap),
    {
        self.diff.diff_scroll = snap.diff_scroll;
        self.diff.diff_h_scroll = snap.diff_h_scroll;
        self.git_status.scroll = snap.git_status_scroll;
    }

    fn set_selection(&mut self, f: Option<SelectedFile>)
        ensures
            *final(self) == old(self).with_selection(f),
    {
        self.lists.selected_file = f;
    }

    fn restore(&mut self, snap: &Snapshot, repo: &Option<String>, fx: &mut Effects)
        ensures
            *final(self) == old(self).restored(*snap, opt_view(*repo)),
            final(fx)@ == old(fx)@ + old(self).restore_request(*snap, opt_view(*repo)),
    {
        self.scroll_back(snap);
        if !selections_match(&self.lists.selected_file, &snap.git_status_selected_file) {
            self.set_selection(snap.git_status_selected_file.clone());
            self.load_diff(repo, fx);
        }
        assert(fx@ =~= old(fx)@ + old(self).restore_request(*snap, opt_view(*repo)));
    }

    pub open spec fn scrolled_to(self, at: usize) -> Self {
        GitPane { diff: DiffView { diff_scroll: at, ..self.diff }, ..self }
    }

    fn scroll_to(&mut self, at: usize)
        ensures
            *final(self) == old(self).scrolled_to(at),
    {
        self.diff.diff_scroll = at;
    }
}

impl GraphPane {
    pub open spec fn detail_scrolled(self, scroll: usize, diff: usize) -> Self {
        GraphPane {
            commit_detail: CommitDetailState {
                scroll,
                file_diff_scroll: diff,
                ..self.commit_detail
            },
            ..self
        }
    }

    fn scroll_detail(&mut self, scroll: usize, diff: usize)
        ensures
            *final(self) == old(self).detail_scrolled(scroll, diff),
    {
        self.commit_detail.scroll = scroll;
        self.commit_detail.file_diff_scroll = diff;
    }

    /// Row `i` alone selected.
    pub open spec fn row_alone(self, i: usize, scroll: usize) -> Self {
        GraphPane {
            git_graph: GitGraphState {
                selected_idx: i,
                selected_commit: oid_at(self.git_graph.rows@, i),
                selection_anchor: None,
                ..self.git_graph
            },
            commit_detail: CommitDetailState { range_detail: None, scroll, ..self.commit_detail },
            ..self
        }
    }

    fn select_alone(&mut self, i: usize, scroll: usize)
        ensures
            *final(self) == old(self).row_alone(i, scroll),
    {
        self.git_graph.selected_idx = i;
        self.git_graph.selected_commit = if i < self.git_graph.rows.len() {
            Some(self.git_graph.rows[i].commit.oid.clone())
        } else {
            None
        };
        self.git_graph.selection_anchor = None;
        self.commit_detail.range_detail = None;
        self.commit_detail.scroll = scroll;
    }

    pub open spec fn list_scrolled(self, scroll: usize) -> Self {
        GraphPane { git_graph: GitGraphState { scroll, ..self.git_graph }, ..self }
    }

    fn scroll_list(&mut self, scroll: usize)
        ensures
            *final(self) == old(self).list_scrolled(scroll),
    {
        self.git_graph.scroll = scroll;
    }

    /// Where the cursor is on another commit by now, it goes back to the first
    /// one alone, and the detail of that is asked for.
    pub open spec fn restored(self, snap: Snapshot, repo: Option<Seq<char>>) -> Self {
        let s = self.detail_scrolled(snap.commit_detail_scroll, snap.graph_diff_scroll);
        let t = if self.git_graph.selected_idx == snap.git_graph_selected_idx {
            s
        } else {
            s.row_alone(snap.git_graph_selected_idx, snap.commit_detail_scroll).detail_asked(repo)
        };
        t.list_scrolled(snap.git_graph_scroll)
    }

    pub open spec fn restore_request(
        self,
        snap: Snapshot,
        repo: Option<Seq<char>>,
    ) -> Seq<Effect<Seq<char>>> {
        if self.git_graph.selected_idx == snap.git_graph_selected_idx {
            Seq::empty()
        } else {
            self.row_alone(snap.git_graph_selected_idx, 0).detail_request(repo)
        }
    }

    fn restore(&mut self, snap: &Snapshot, repo: &Option<String>, fx: &mut Effects)
        ensures
            *final(self) == old(self).restored(*snap, opt_view(*repo)),
            final(fx)@ == old(fx)@ + old(self).restore_request(*snap, opt_view(*repo)),
    {
        self.scroll_detail(snap.commit_detail_scroll, snap.graph_diff_scroll);
        if self.git_graph.selected_idx != snap.git_graph_selected_idx {
            self.select_alone(snap.git_graph_selected_idx, snap.commit_detail_scroll);
            self.load_commit_detail(repo, fx);
        }
        self.scroll_list(snap.git_graph_scroll);
        assert(fx@ =~= old(fx)@ + old(self).restore_request(*snap, opt_view(*repo)));
    }
}

impl App {
    /// Where every panel stands.
    pub open spec fn snapshot(self) -> Snapshot {
        Snapshot {
            preview_scroll: self.preview.preview_scroll,
            preview_h_scroll: self.preview.preview_h_scroll,
            diff_scroll: self.git.diff.diff_scroll,
            diff_h_scroll: self.git.diff.diff_h_scroll,
            commit_detail_scroll: self.graph.commit_detail.scroll,
            graph_diff_scroll: self.graph.commit_detail.file_diff_scroll,
            file_tree_selected: self.files.file_tree.selected,
            tree_scroll: self.files.tree_scroll,
            git_status_scroll: self.git.git_status.scroll,
            git_status_selected_file: self.git.lists.selected_file,
            git_graph_selected_idx: self.graph.git_graph.selected_idx,
            git_graph_scroll: self.graph.git_graph.scroll,
        }
    }

    pub fn take_snapshot(&self) -> (r: Snapshot)
        ensures
            r == self.snapshot(),
    {
        Snapshot {
            preview_scroll: self.preview.preview_scroll,
            preview_h_scroll: self.preview.preview_h_scroll,
            diff_scroll: self.git.diff.diff_scroll,
            diff_h_scroll: self.git.diff.diff_h_scroll,
            commit_detail_scroll: self.graph.commit_detail.scroll,
            graph_diff_scroll: self.graph.commit_detail.file_diff_scroll,
            file_tree_selected: self.files.file_tree.selected,
            tree_scroll: self.files.tree_scroll,
            git_status_scroll: self.git.git_status.scroll,
            git_status_selected_file: self.git.lists.selected_file.clone(),
            git_graph_selected_idx: self.graph.git_graph.selected_idx,
            git_graph_scroll: self.graph.git_graph.scroll,
        }
    }

    pub open spec fn restored(self, snap: Snapshot) -> Self {
        App {
            preview: self.preview.restored(snap),
            git: self.git.restored(snap, self.repo()),
            graph: self.graph.restored(snap, self.repo()),
            files: self.files.restored(snap),
            ..self
        }
    }

    pub open spec fn restore_requests(self, snap: Snapshot) -> Seq<Effect<Seq<char>>> {
        self.git.restore_request(snap, self.repo()) + self.graph.restore_request(snap, self.repo())
    }

    /// Every panel goes back to where it stood.
    pub fn restore_snapshot(&mut self, snap: &Snapshot, fx: &mut Effects)
        ensures
            *final(self) == old(self).restored(*snap),
            final(fx)@ == old(fx)@ + old(self).restore_requests(*snap),
    {
        let repo = self.repo_root();
        self.preview.restore(snap);
        self.files.restore(snap);
        self.git.restore(snap, &repo, fx);
        self.graph.restore(snap, &repo, fx);
        assert(fx@ =~= old(fx)@ + old(self).restore_requests(*snap));
    }

    // ── Beginning and ending ─────────────────────────────────────────────
    /// The rows that a search in the focused panel goes over.
    pub open spec fn target(self) -> Option<SearchTarget> {
        target_of(self.screen.active_tab, self.screen.active_panel, self.three_col())
    }

    pub open spec fn three_col(self) -> bool {
        self.screen.three_col(
            self.graph.commit_detail.file_diff is Some,
            self.graph.commit_file_diff_load.loading,
        )
    }

    /// The start of a search: nothing is typed, and the way back is kept.
    pub open spec fn begun(self, search: SearchState, backwards: bool) -> bool {
        &&& search.query@.len() == 0
        &&& search.matches@.len() == 0
        &&& search == (SearchState {
            active: true,
            backwards,
            query: search.query,
            cursor: 0,
            target: self.target(),
            matches: search.matches,
            current: None,
            snapshot: Some(self.snapshot()),
            wrap_msg: None,
        })
    }
}

/// Starts a search in the focused panel. Where that has nothing to search,
/// nothing happens.
pub fn begin(app: &mut App, backwards: bool)
    ensures
        if old(app).target() is None {
            *final(app) == *old(app)
        } else {
            &&& old(app).begun(final(app).search, backwards)
            &&& *final(app) == (App { search: final(app).search, ..*old(app) })
        },
{
    let three = app.screen.graph_uses_three_col(
        app.graph.commit_detail.file_diff.is_some(),
        app.graph.commit_file_diff_load.loading,
    );
    let target = resolve_target(app.screen.active_tab, app.screen.active_panel, three);
    if target.is_none() {
        return;
    }
    let snap = app.take_snapshot();
    app.search = SearchState {
        active: true,
        backwards,
        query: String::new(),
        cursor: 0,
        target,
        matches: Vec::new(),
        current: None,
        snapshot: Some(snap),
        wrap_msg: None,
    };
}

/// Accepts where the search led. The matches stay to step over, unless there
/// are none.
pub fn exit_confirm(app: &mut App)
    ensures
        *final(app) == (App { search: final(app).search, ..*old(app) }),
        old(app).search.confirmed(final(app).search),
{
    app.search.confirm();
}

impl App {
    /// Back where the search began, and no search any more.
    pub open spec fn cancelled(
        self,
        new: Self,
        fx: Seq<Effect<Seq<char>>>,
        fx2: Seq<Effect<Seq<char>>>,
    ) -> bool {
        &&& new.search.is_blank()
        &&& match self.search.snapshot {
            Some(snap) => {
                &&& new == (App { search: new.search, ..self.restored(snap) })
                &&& fx2 == fx + self.restore_requests(snap)
            },
            None => new == (App { search: new.search, ..self }) && fx2 == fx,
        }
    }
}

/// Goes back to where the search began.
pub fn exit_cancel(app: &mut App, fx: &mut Effects)
    ensures
        old(app).cancelled(*final(app), old(fx)@, final(fx)@),
{
    if let Some(snap) = app.search.snapshot.clone() {
        app.restore_snapshot(&snap, fx);
    }
    app.search = SearchState::default();
}

impl SearchState {
    /// What accepting a search leaves of it.
    pub open spec fn confirmed(self, new: Self) -> bool {
        if self.query@.len() == 0 || self.matches@.len() == 0 {
            new.is_blank()
        } else {
            new == (SearchState { active: false, wrap_msg: None, ..self })
        }
    }

    fn confirm(&mut self)
        ensures
            old(self).confirmed(*final(self)),
    {
        self.active = false;
        self.wrap_msg = None;
        let empty = self.query.as_str().unicode_len() == 0;
        if empty || self.matches.len() == 0 {
            self.clear();
        }
    }
}

// ── Rows ─────────────────────────────────────────────────────────────────

pub open spec fn entry_names(entries: Seq<TreeEntry>) -> Seq<Seq<char>> {
    entries.map_values(|e: TreeEntry| e.name@)
}

pub open spec fn file_paths(files: Seq<FileEntry>) -> Seq<Seq<char>> {
    files.map_values(|f: FileEntry| f.path@)
}

pub open spec fn subjects(rows: Seq<GraphRow>) -> Seq<Seq<char>> {
    rows.map_values(|r: GraphRow| r.commit.subject@)
}

fn list_entry_names(entries: &Vec<TreeEntry>) -> (r: Vec<String>)
    ensures
        views(r@) == entry_names(entries@),
{
    let mut out: Vec<String> = Vec::new();
    let mut i: usize = 0;
    while i < entries.len()
        invariant
            i <= entries@.len(),
            out@.len() == i,
            forall|k: int| 0 <= k < i ==> (#[trigger] out@[k])@ == entries@[k].name@,
        decreases entries@.len() - i,
    {
        out.push(entries[i].name.clone());
        i += 1;
    }
    assert(views(out@) =~= entry_names(entries@));
    out
}

fn list_subjects(rows: &Vec<GraphRow>) -> (r: Vec<String>)
    ensures
        views(r@) == subjects(rows@),
{
    let mut out: Vec<String> = Vec::new();
    let mut i: usize = 0;
    while i < rows.len()
        invariant
            i <= rows@.len(),
            out@.len() == i,
            forall|k: int| 0 <= k < i ==> (#[trigger] out@[k])@ == rows@[k].commit.subject@,
        decreases rows@.len() - i,
    {
        out.push(rows[i].commit.subject.clone());
        i += 1;
    }
    assert(views(out@) =~= subjects(rows@));
    out
}

fn append_paths(files: &Vec<FileEntry>, out: &mut Vec<String>)
    ensures
        views(final(out)@) == views(old(out)@) + file_paths(files@),
{
    let ghost before = out@;
    let mut i: usize = 0;
    while i < files.len()
        invariant
            i <= files@.len(),
            before == old(out)@,
            out@.len() == before.len() + i,
            forall|k: int| 0 <= k < before.len() ==> out@[k] == before[k],
            forall|k: int|
                0 <= k < i ==> (#[trigger] out@[before.len() + k])@ == files@[k].path@,
        decreases files@.len() - i,
    {
        out.push(files[i].path.clone());
        i += 1;
    }
    assert(views(out@) =~= views(before) + file_paths(files@)) by {
        assert forall|k: int| 0 <= k < out@.len() implies views(out@)[k] == (views(before)
            + file_paths(files@))[k] by {
            if k >= before.len() {
                assert(out@[before.len() + (k - before.len())]@ == files@[k - before.len()].path@);
            }
        }
    }
}

impl App {
    /// The rows of a panel, in the order they are shown in. Those of a commit
    /// are laid out by its panel.
    pub open spec fn rows(self, target: SearchTarget, detail: Seq<Seq<char>>) -> Seq<Seq<char>> {
        match target {
            SearchTarget::FileTree => entry_names(self.files.file_tree.entries@),
            SearchTarget::GitStatus => file_paths(self.git.lists.staged_files@) + file_paths(
                self.git.lists.unstaged_files@,
            ),
            SearchTarget::CommitGraph => subjects(self.graph.git_graph.rows@),
            SearchTarget::FilePreview => match self.preview.preview_content {
                Some(p) => match p.body {
                    PreviewBody::Text { lines, .. } => views(lines@),
                    _ => Seq::empty(),
                },
                None => Seq::empty(),
            },
            SearchTarget::Diff => match self.git.diff.diff_content {
                Some(d) => diff_rows(d.diff.hunks@),
                None => Seq::empty(),
            },
            SearchTarget::GraphDiff => match self.graph.commit_detail.file_diff {
                Some(d) => diff_rows(d.diff.hunks@),
                None => Seq::empty(),
            },
            SearchTarget::CommitDetail => detail,
        }
    }

    pub fn collect_rows(&self, target: SearchTarget, detail: &Vec<String>) -> (r: Vec<String>)
        ensures
            views(r@) == self.rows(target, views(detail@)),
    {
        let none: Vec<String> = Vec::new();
        assert(views(none@) =~= Seq::<Seq<char>>::empty());
        match target {
            SearchTarget::FileTree => list_entry_names(&self.files.file_tree.entries),
            SearchTarget::GitStatus => {
                let mut out: Vec<String> = none;
                append_paths(&self.git.lists.staged_files, &mut out);
                append_paths(&self.git.lists.unstaged_files, &mut out);
                assert(views(out@) =~= self.rows(target, views(detail@)));
                out
            },
            SearchTarget::CommitGraph => list_subjects(&self.graph.git_graph.rows),
            SearchTarget::FilePreview => match &self.preview.preview_content {
                Some(p) => match &p.body {
                    PreviewBody::Text { lines, .. } => copy_strings(lines),
                    _ => none,
                },
                None => none,
            },
            SearchTarget::Diff => match &self.git.diff.diff_content {
                Some(d) => unified_display_rows(&d.diff),
                None => none,
            },
            SearchTarget::GraphDiff => match &self.graph.commit_detail.file_diff {
                Some(d) => unified_display_rows(&d.diff),
                None => none,
            },
            SearchTarget::CommitDetail => copy_strings(detail),
        }
    }

    // ── Jumping ──────────────────────────────────────────────────────────
    /// The panel that the current match is in, and its row.
    pub open spec fn current_row(self) -> Option<(SearchTarget, usize)> {
        match (self.search.current, self.search.target) {
            (Some(cur), Some(target)) => if cur < self.search.matches@.len() {
                Some((target, self.search.matches@[cur as int].row))
            } else {
                None
            },
            _ => None,
        }
    }

    /// The changed file in a row: its path, and whether it is staged.
    pub open spec fn file_at(self, row: usize) -> Option<(Seq<char>, bool)> {
        let staged = self.git.lists.staged_files@;
        let unstaged = self.git.lists.unstaged_files@;
        if row < staged.len() {
            Some((staged[row as int].path@, true))
        } else if row - staged.len() < unstaged.len() {
            Some((unstaged[row - staged.len()].path@, false))
        } else {
            None
        }
    }

    /// The panel shows the row: a list selects it, a text scrolls until it is
    /// in the middle.
    pub open spec fn row_shown(
        self,
        new: Self,
        target: SearchTarget,
        row: usize,
        now: u64,
        fx: Seq<Effect<Seq<char>>>,
        fx2: Seq<Effect<Seq<char>>>,
    ) -> bool {
        match target {
            SearchTarget::FileTree => {
                let s = self.row_selected(row);
                &&& fx2 == fx
                &&& new == (if row < self.files.file_tree.entries@.len() {
                    App {
                        preview: self.preview.selected_scheduled(s.files.file_tree, now),
                        ..s
                    }
                } else {
                    self
                })
            },
            SearchTarget::GitStatus => match self.file_at(row) {
                Some((path, staged)) => self.chosen(new, path, staged, fx, fx2),
                None => new == self && fx2 == fx,
            },
            SearchTarget::CommitGraph => if row < self.graph.git_graph.rows@.len() {
                let s = self.graph.row_alone(row, 0);
                &&& new == (App { graph: s.detail_asked(self.repo()), ..self })
                &&& fx2 == fx + s.detail_request(self.repo())
            } else {
                new == self && fx2 == fx
            },
            SearchTarget::FilePreview => {
                let at = centered(row, self.screen.last_preview_view_h as usize);
                &&& new == (App {
                    preview: PreviewPane { preview_scroll: at, ..self.preview },
                    ..self
                })
                &&& fx2 == fx
            },
            SearchTarget::Diff => {
                let at = centered(row, self.screen.last_diff_view_h as usize);
                new == (App { git: self.git.scrolled_to(at), ..self }) && fx2 == fx
            },
            SearchTarget::GraphDiff => {
                let at = centered(row, self.screen.last_diff_view_h as usize);
                &&& new == (App {
                    graph: self.graph.detail_scrolled(self.graph.commit_detail.scroll, at),
                    ..self
                })
                &&& fx2 == fx
            },
            SearchTarget::CommitDetail => {
                let at = centered(row, self.screen.last_commit_detail_view_h as usize);
                &&& new == (App {
                    graph: self.graph.detail_scrolled(
                        at,
                        self.graph.commit_detail.file_diff_scroll,
                    ),
                    ..self
                })
                &&& fx2 == fx
            },
        }
    }

    fn show_tree_row(&mut self, row: usize, now: u64)
        ensures
            *final(self) == (if row < old(self).files.file_tree.entries@.len() {
                let s = old(self).row_selected(row);
                App { preview: old(self).preview.selected_scheduled(s.files.file_tree, now), ..s }
            } else {
                *old(self)
            }),
    {
        if row < self.files.file_tree.entries.len() {
            self.select_row(row);
            self.preview.load_preview(&self.files.file_tree, now);
        }
    }

    fn show_file(&mut self, row: usize, fx: &mut Effects)
        ensures
            match old(self).file_at(row) {
                Some((path, staged)) => old(self).chosen(
                    *final(self),
                    path,
                    staged,
                    old(fx)@,
                    final(fx)@,
                ),
                None => *final(self) == *old(self) && final(fx)@ == old(fx)@,
            },
    {
        let n: usize = self.git.lists.staged_files.len();
        if row < n {
            let path = self.git.lists.staged_files[row].path.clone();
            self.select_file(path.as_str(), true, fx);
        } else if row - n < self.git.lists.unstaged_files.len() {
            let path = self.git.lists.unstaged_files[row - n].path.clone();
            self.select_file(path.as_str(), false, fx);
        }
    }

    fn show_commit(&mut self, row: usize, fx: &mut Effects)
        ensures
            if row < old(self).graph.git_graph.rows@.len() {
                let s = old(self).graph.row_alone(row, 0);
                &&& *final(self) == (App { graph: s.detail_asked(old(self).repo()), ..*old(self) })
                &&& final(fx)@ == old(fx)@ + s.detail_request(old(self).repo())
            } else {
                *final(self) == *old(self) && final(fx)@ == old(fx)@
            },
    {
        if row < self.graph.git_graph.rows.len() {
            let repo = self.repo_root();
            self.graph.select_alone(row, 0);
            self.graph.load_commit_detail(&repo, fx);
        }
    }

    fn show_row(&mut self, target: SearchTarget, row: usize, now: u64, fx: &mut Effects)
        ensures
            old(self).row_shown(*final(self), target, row, now, old(fx)@, final(fx)@),
    {
        match target {
            SearchTarget::FileTree => {
                self.show_tree_row(row, now);
            },
            SearchTarget::GitStatus => {
                self.show_file(row, fx);
            },
            SearchTarget::CommitGraph => {
                self.show_commit(row, fx);
            },
            SearchTarget::FilePreview => {
                let at = center_scroll(row, self.screen.last_preview_view_h as usize);
                self.preview.scroll_to(at);
            },
            SearchTarget::Diff => {
                let at = center_scroll(row, self.screen.last_diff_view_h as usize);
                self.git.scroll_to(at);
            },
            SearchTarget::GraphDiff => {
                let at = center_scroll(row, self.screen.last_diff_view_h as usize);
                self.graph.scroll_detail(self.graph.commit_detail.scroll, at);
            },
            SearchTarget::CommitDetail => {
                let at = center_scroll(row, self.screen.last_commit_detail_view_h as usize);
                self.graph.scroll_detail(at, self.graph.commit_detail.file_diff_scroll);
            },
        }
    }

    /// The panel shows the current match, where there is one.
    pub open spec fn jumped(
        self,
        new: Self,
        now: u64,
        fx: Seq<Effect<Seq<char>>>,
        fx2: Seq<Effect<Seq<char>>>,
    ) -> bool {
        match self.current_row() {
            Some((target, row)) => self.row_shown(new, target, row, now, fx, fx2),
            None => new == self && fx2 == fx,
        }
    }

    pub fn jump_to_current(&mut self, now: u64, fx: &mut Effects)
        ensures
            old(self).jumped(*final(self), now, old(fx)@, final(fx)@),
    {
        if let (Some(cur), Some(target)) = (self.search.current, self.search.target) {
            if cur < self.search.matches.len() {
                let row: usize = self.search.matches[cur].row;
                self.show_row(target, row, now, fx);
            }
        }
    }
}

// ── Typing ───────────────────────────────────────────────────────────────

impl SearchState {
    /// `new` holds the matches of the query in these rows; the one that the
    /// search starts from is current.
    pub open spec fn found(self, new: Self, target: SearchTarget, rows: Seq<Seq<char>>) -> bool {
        let snap = match self.snapshot {
            Some(s) => s,
            None => Snapshot::zero(),
        };
        &&& are_matches(
            new.matches@,
            row_matches(rows, self.query@),
            encode_utf8(self.query@).len(),
        )
        &&& new.current == new.start_match(start_row(target, snap))
        &&& new == (SearchState { matches: new.matches, current: new.current, ..self })
    }

    fn find(&mut self, target: SearchTarget, rows: &Vec<String>)
        ensures
            old(self).found(*final(self), target, views(rows@)),
    {
        let snap = match &self.snapshot {
            Some(s) => s.clone(),
            None => Snapshot::default(),
        };
        self.matches = find_in_rows(rows, self.query.as_str());
        self.current = self.pick_current(baseline_row(target, &snap));
    }

    /// `new` has no matches.
    pub open spec fn unmatched(self, new: Self) -> bool {
        &&& new.matches@.len() == 0
        &&& new == (SearchState { matches: new.matches, current: None, ..self })
    }

    fn drop_matches(&mut self)
        ensures
            old(self).unmatched(*final(self)),
    {
        self.matches = Vec::new();
        self.current = None;
    }
}

impl App {
    /// The search after its query changed: its matches are found anew, and the
    /// panel shows the one to start from. Without a query the panels stand
    /// where the search began.
    pub open spec fn recomputed(
        self,
        new: Self,
        detail: Seq<Seq<char>>,
        now: u64,
        fx: Seq<Effect<Seq<char>>>,
        fx2: Seq<Effect<Seq<char>>>,
    ) -> bool {
        match self.search.target {
            None => new == self && fx2 == fx,
            Some(target) => if self.search.query@.len() == 0 {
                &&& self.search.unmatched(new.search)
                &&& match self.search.snapshot {
                    Some(snap) => {
                        &&& new == (App { search: new.search, ..self.restored(snap) })
                        &&& fx2 == fx + self.restore_requests(snap)
                    },
                    None => new == (App { search: new.search, ..self }) && fx2 == fx,
                }
            } else {
                &&& self.search.found(new.search, target, self.rows(target, detail))
                &&& App { search: new.search, ..self }.jumped(new, now, fx, fx2)
            },
        }
    }

    /// Where the search began, with no match.
    fn unmatch(&mut self, fx: &mut Effects)
        ensures
            old(self).search.unmatched(final(self).search),
            match old(self).search.snapshot {
                Some(snap) => {
                    &&& *final(self) == (App {
                        search: final(self).search,
                        ..old(self).restored(snap)
                    })
                    &&& final(fx)@ == old(fx)@ + old(self).restore_requests(snap)
                },
                None => *final(self) == (App { search: final(self).search, ..*old(self) })
                    && final(fx)@ == old(fx)@,
            },
    {
        if let Some(snap) = self.search.snapshot.clone() {
            self.restore_snapshot(&snap, fx);
        }
        self.search.drop_matches();
    }

    /// Finds the matches of the query anew and shows the one to start from.
    /// `detail` holds the rows of the commit, as its panel lays them out.
    pub fn recompute_and_jump(&mut self, detail: &Vec<String>, now: u64, fx: &mut Effects)
        ensures
            old(self).recomputed(*final(self), views(detail@), now, old(fx)@, final(fx)@),
    {
        if let Some(target) = self.search.target {
            if self.search.query.as_str().unicode_len() == 0 {
                self.unmatch(fx);
            } else {
                let rows = self.collect_rows(target, detail);
                self.search.find(target, &rows);
                let ghost mid = *self;
                self.jump_to_current(now, fx);
                assert(self.search == mid.search);
            }
        }
    }

    /// The app with another text in the search prompt.
    pub open spec fn typed(self, query: String, cursor: usize) -> Self {
        App {
            search: SearchState { query, cursor, wrap_msg: None, ..self.search },
            ..self
        }
    }

    fn set_query(&mut self, query: String, cursor: usize)
        ensures
            *final(self) == old(self).typed(query, cursor),
    {
        self.search.set_query(query, cursor);
    }

    /// Takes in an edit of the query.
    pub fn query_edited(
        &mut self,
        query: String,
        cursor: usize,
        detail: &Vec<String>,
        now: u64,
        fx: &mut Effects,
    )
        ensures
            old(self).typed(query, cursor).recomputed(
                *final(self),
                views(detail@),
                now,
                old(fx)@,
                final(fx)@,
            ),
    {
        self.set_query(query, cursor);
        self.recompute_and_jump(detail, now, fx);
    }
}

impl SearchState {
    fn set_query(&mut self, query: String, cursor: usize)
        ensures
            *final(self) == (SearchState { query, cursor, wrap_msg: None, ..*old(self) }),
    {
        self.query = query;
        self.cursor = cursor;
        self.wrap_msg = None;
    }

    fn set_cursor(&mut self, cursor: usize)
        ensures
            *final(self) == (SearchState { cursor, ..*old(self) }),
    {
        self.cursor = cursor;
    }
}

/// Moves to the next match, or to the one before it.
pub fn step(app: &mut App, reverse: bool, now: u64, fx: &mut Effects)
    ensures
        if old(app).search.matches@.len() == 0 {
            *final(app) == *old(app) && final(fx)@ == old(fx)@
        } else {
            App { search: old(app).search.after_step(reverse), ..*old(app) }.jumped(
                *final(app),
                now,
                old(fx)@,
                final(fx)@,
            )
        },
{
    if app.search.step_current(reverse) {
        app.jump_to_current(now, fx);
    }
}

/// A pasted text arrives in the prompt. `edited` is the query and the cursor
/// with it, or nothing where the text held nothing to insert.
pub fn handle_paste(
    app: &mut App,
    edited: Option<(String, usize)>,
    detail: &Vec<String>,
    now: u64,
    fx: &mut Effects,
)
    ensures
        match edited {
            Some((query, cursor)) => old(app).typed(query, cursor).recomputed(
                *final(app),
                views(detail@),
                now,
                old(fx)@,
                final(fx)@,
            ),
            None => *final(app) == *old(app) && final(fx)@ == old(fx)@,
        },
{
    if let Some((query, cursor)) = edited {
        app.query_edited(query, cursor, detail, now, fx);
    }
}

// ── Keys ─────────────────────────────────────────────────────────────────

/// A key, as far as the prompt tells keys apart.
#[derive(Debug, Clone, Copy, PartialEq, Eq, Structural)]
pub enum PromptKey {
    Esc,
    Enter,
    Backspace,
    Delete,
    Left,
    Right,
    Home,
    End,
    Char(char),
    Other,
}

/// What a key does in the prompt.
#[derive(Debug, Clone, Copy, PartialEq, Eq, Structural)]
pub enum PromptOp {
    Cancel,
    Confirm,
    DeleteWordBackward,
    DeleteWordForward,
    ClearLine,
    DeleteBackward,
    DeleteForward,
    WordBackward,
    WordForward,
    CharBackward,
    CharForward,
    LineStart,
    LineEnd,
    Insert(char),
    Nothing,
}

impl PromptOp {
    /// The operation changes the text, not only the cursor.
    pub open spec fn edits(self) -> bool {
        match self {
            PromptOp::DeleteWordBackward
            | PromptOp::DeleteWordForward
            | PromptOp::ClearLine
            | PromptOp::DeleteBackward
            | PromptOp::DeleteForward
            | PromptOp::Insert(_) => true,
            _ => false,
        }
    }
}

/// The operation of a key. A word is taken with either modifier.
pub open spec fn op_of(key: PromptKey, ctrl: bool, alt: bool) -> PromptOp {
    match key {
        PromptKey::Esc => PromptOp::Cancel,
        PromptKey::Enter => PromptOp::Confirm,
        PromptKey::Backspace => if alt || ctrl {
            PromptOp::DeleteWordBackward
        } else {
            PromptOp::DeleteBackward
        },
        PromptKey::Delete => if alt || ctrl {
            PromptOp::DeleteWordForward
        } else {
            PromptOp::DeleteForward
        },
        PromptKey::Left => if alt || ctrl {
            PromptOp::WordBackward
        } else {
            PromptOp::CharBackward
        },
        PromptKey::Right => if alt || ctrl {
            PromptOp::WordForward
        } else {
            PromptOp::CharForward
        },
        PromptKey::Home => PromptOp::LineStart,
        PromptKey::End => PromptOp::LineEnd,
        PromptKey::Char(c) => if ctrl && c == 'c' {
            PromptOp::Cancel
        } else if ctrl && c == 'w' {
            PromptOp::DeleteWordBackward
        } else if ctrl && c == 'u' {
            PromptOp::ClearLine
        } else if alt && c == 'b' {
            PromptOp::WordBackward
        } else if alt && c == 'f' {
            PromptOp::WordForward
        } else if alt && c == 'd' {
            PromptOp::DeleteWordForward
        } else if ctrl && c == 'a' {
            PromptOp::LineStart
        } else if ctrl && c == 'e' {
            PromptOp::LineEnd
        } else if !ctrl {
            PromptOp::Insert(c)
        } else {
            PromptOp::Nothing
        },
        PromptKey::Other => PromptOp::Nothing,
    }
}

pub fn prompt_op(key: PromptKey, ctrl: bool, alt: bool) -> (r: PromptOp)
    ensures
        r == op_of(key, ctrl, alt),
{
    match key {
        PromptKey::Esc => PromptOp::Cancel,
        PromptKey::Enter => PromptOp::Confirm,
        PromptKey::Backspace => if alt || ctrl {
            PromptOp::DeleteWordBackward
        } else {
            PromptOp::DeleteBackward
        },
        PromptKey::Delete => if alt || ctrl {
            PromptOp::DeleteWordForward
        } else {
            PromptOp::DeleteForward
        },
        PromptKey::Left => if alt || ctrl {
            PromptOp::WordBackward
        } else {
            PromptOp::CharBackward
        },
        PromptKey::Right => if alt || ctrl {
            PromptOp::WordForward
        } else {
            PromptOp::CharForward
        },
        PromptKey::Home => PromptOp::LineStart,
        PromptKey::End => PromptOp::LineEnd,
        PromptKey::Char(c) => if ctrl && c == 'c' {
            PromptOp::Cancel
        } else if ctrl && c == 'w' {
            PromptOp::DeleteWordBackward
        } else if ctrl && c == 'u' {
            PromptOp::ClearLine
        } else if alt && c == 'b' {
            PromptOp::WordBackward
        } else if alt && c == 'f' {
            PromptOp::WordForward
        } else if alt && c == 'd' {
            PromptOp::DeleteWordForward
        } else if ctrl && c == 'a' {
            PromptOp::LineStart
        } else if ctrl && c == 'e' {
            PromptOp::LineEnd
        } else if !ctrl {
            PromptOp::Insert(c)
        } else {
            PromptOp::Nothing
        },
        PromptKey::Other => PromptOp::Nothing,
    }
}

impl App {
    /// What a key changes. `query` and `cursor` are what the line editor makes
    /// of the prompt for an operation that it carries out.
    pub open spec fn key_taken(
        self,
        new: Self,
        op: PromptOp,
        query: String,
        cursor: usize,
        detail: Seq<Seq<char>>,
        now: u64,
        fx: Seq<Effect<Seq<char>>>,
        fx2: Seq<Effect<Seq<char>>>,
    ) -> bool {
        if op.edits() {
            self.typed(query, cursor).recomputed(new, detail, now, fx, fx2)
        } else {
            match op {
                PromptOp::Cancel => self.cancelled(new, fx, fx2),
                PromptOp::Confirm => {
                    &&& new == (App { search: new.search, ..self })
                    &&& self.search.confirmed(new.search)
                    &&& fx2 == fx
                },
                PromptOp::Nothing => new == self && fx2 == fx,
                PromptOp::LineStart => new == self.cursor_at(0) && fx2 == fx,
                PromptOp::LineEnd => {
                    &&& new == self.cursor_at(new.search.cursor)
                    &&& new.search.cursor == encode_utf8(self.search.query@).len()
                    &&& fx2 == fx
                },
                _ => new == self.cursor_at(cursor) && fx2 == fx,
            }
        }
    }

    pub open spec fn cursor_at(self, cursor: usize) -> Self {
        App { search: SearchState { cursor, ..self.search }, ..self }
    }

    fn move_cursor(&mut self, cursor: usize)
        ensures
            *final(self) == old(self).cursor_at(cursor),
    {
        self.search.set_cursor(cursor);
    }
}

/// Takes a key in the prompt. The line editor carries out what `prompt_op`
/// says and hands in the prompt that comes of it; the rest is done here.
pub fn handle_key_in_search_mode(
    app: &mut App,
    key: PromptKey,
    ctrl: bool,
    alt: bool,
    query: String,
    cursor: usize,
    detail: &Vec<String>,
    now: u64,
    fx: &mut Effects,
)
    ensures
        old(app).key_taken(
            *final(app),
            op_of(key, ctrl, alt),
            query,
            cursor,
            views(detail@),
            now,
            old(fx)@,
            final(fx)@,
        ),
{
    let op = prompt_op(key, ctrl, alt);
    match op {
        PromptOp::Cancel => {
            exit_cancel(app, fx);
        },
        PromptOp::Confirm => {
            exit_confirm(app);
        },
        PromptOp::Nothing => {},
        PromptOp::LineStart => {
            app.move_cursor(0);
        },
        PromptOp::LineEnd => {
            let end: usize = app.search.query.as_str().as_bytes().len();
            app.move_cursor(end);
        },
        PromptOp::WordBackward
        | PromptOp::WordForward
        | PromptOp::CharBackward
        | PromptOp::CharForward => {
            app.move_cursor(cursor);
        },
        _ => {
            app.query_edited(query, cursor, detail, now, fx);
        },
    }
}

// ── Laws ─────────────────────────────────────────────────────────────────

/// A cancelled search leaves every panel where it stood when it began: the
/// scroll positions and selections are those of the start.
pub proof fn law_cancel_restores(s: App, snap: Snapshot)
    ensures
        ({
            let t = s.restored(snap);
            let at = t.snapshot();
            &&& same_selection(at.git_status_selected_file, snap.git_status_selected_file)
            &&& at == (Snapshot {
                git_status_selected_file: at.git_status_selected_file,
                ..snap
            })
        }),
{
}

/// Beginning a search and cancelling it at once changes no panel and asks for
/// nothing.
pub proof fn law_begin_then_cancel_is_quiet(s: App)
    ensures
        s.restored(s.snapshot()) == s,
        s.restore_requests(s.snapshot()) =~= Seq::<Effect<Seq<char>>>::empty(),
{
}

/// A key with the control modifier never inserts its letter.
pub proof fn law_control_keys_insert_nothing(key: PromptKey, alt: bool)
    ensures
        !(op_of(key, true, alt) is Insert),
{
}

} // verus!
