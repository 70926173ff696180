//! The commit graph tab: which commits are selected, what is shown of them,
//! and which loads follow from that.
use crate::effects::{Effect, Effects, Pref};
use crate::git::{CommitDetail, CommitInfo, DiffContent, FileEntry};
use crate::layout::{DiffLayout, DiffMode, Panel, Screen, Tab, GRAPH_THREE_COL_MIN_WIDTH};
use crate::loads::AsyncState;
use crate::preview::HighlightToken;
use crate::refs::RefRow;
use crate::strmap::StrSet;
use crate::text::{copy_strings, opt_view, same_opt, same_str};
use vstd::prelude::*;
use vstd::string::*;

verus! {

/// One row of the graph.
#[derive(Debug)]
pub struct GraphRow {
    pub commit: CommitInfo,
}

#[derive(Debug)]
pub struct GitGraphState {
    pub rows: Vec<GraphRow>,
    pub ref_map: Vec<RefRow>,
    /// The head commit and a hash of the references at the last walk.
    pub cache_key: Option<(String, u64)>,
    pub selected_idx: usize,
    pub selected_commit: Option<String>,
    /// Where a range selection started; the cursor is its other end.
    pub selection_anchor: Option<usize>,
    pub scroll: usize,
    pub last_rendered_selected: Option<usize>,
}

impl Default for GitGraphState {
    fn default() -> (r: Self)
        ensures
            r.rows@.len() == 0,
            r.ref_map@.len() == 0,
            r == (GitGraphState {
                rows: r.rows,
                ref_map: r.ref_map,
                cache_key: None,
                selected_idx: 0,
                selected_commit: None,
                selection_anchor: None,
                scroll: 0,
                last_rendered_selected: None,
            }),
    {
        GitGraphState {
            rows: Vec::new(),
            ref_map: Vec::new(),
            cache_key: None,
            selected_idx: 0,
            selected_commit: None,
            selection_anchor: None,
            scroll: 0,
            last_rendered_selected: None,
        }
    }
}

/// The first row that shows the commit `oid`.
pub open spec fn row_of(rows: Seq<GraphRow>, oid: Seq<char>) -> Option<usize>
    decreases rows.len(),
{
    if rows.len() == 0 {
        None
    } else {
        match row_of(rows.drop_last(), oid) {
            Some(i) => Some(i),
            None => if rows.last().commit.oid@ == oid {
                Some((rows.len() - 1) as usize)
            } else {
                None
            },
        }
    }
}

/// The commit on the row `i`.
pub open spec fn oid_at(rows: Seq<GraphRow>, i: usize) -> Option<String> {
    if i < rows.len() {
        Some(rows[i as int].commit.oid)
    } else {
        None
    }
}

/// `at` moved by `delta`, held between the first row and the row `last`.
pub open spec fn stepped(at: int, delta: int, last: int) -> int {
    if at + delta < 0 {
        0
    } else if at + delta > last {
        last
    } else {
        at + delta
    }
}

fn step_row(at: usize, delta: i32, last: usize) -> (r: usize)
    ensures
        r == stepped(at as int, delta as int, last as int),
{
    let to: i128 = at as i128 + delta as i128;
    if to < 0 {
        0
    } else if to > last as i128 {
        last
    } else {
        to as usize
    }
}

impl GitGraphState {
    /// No history is shown.
    pub open spec fn is_empty(self) -> bool {
        self.rows@.len() == 0 && self.ref_map@.len() == 0
    }

    pub open spec fn ranged(self) -> bool {
        self.selection_anchor is Some && self.selection_anchor != Some(self.selected_idx)
    }

    /// The ends of the selection, the lower one first.
    pub open spec fn range(self) -> (usize, usize) {
        match self.selection_anchor {
            Some(a) => if a <= self.selected_idx {
                (a, self.selected_idx)
            } else {
                (self.selected_idx, a)
            },
            None => (self.selected_idx, self.selected_idx),
        }
    }

    pub fn selected_range(&self) -> (r: (usize, usize))
        ensures
            r == self.range(),
    {
        match self.selection_anchor {
            Some(a) => if a <= self.selected_idx {
                (a, self.selected_idx)
            } else {
                (self.selected_idx, a)
            },
            None => (self.selected_idx, self.selected_idx),
        }
    }

    /// Whether two commits or more are selected.
    pub fn is_range(&self) -> (r: bool)
        ensures
            r == self.ranged(),
    {
        match self.selection_anchor {
            Some(a) => a != self.selected_idx,
            None => false,
        }
    }

    /// Whether a range is being selected, even if it holds one commit yet.
    pub fn in_visual_mode(&self) -> (r: bool)
        ensures
            r == (self.selection_anchor is Some),
    {
        self.selection_anchor.is_some()
    }

    pub fn find_row_by_oid(&self, oid: &str) -> (r: Option<usize>)
        ensures
            r == row_of(self.rows@, oid@),
            r matches Some(i) ==> i < self.rows@.len() && self.rows@[i as int].commit.oid@ == oid@,
    {
        let n: usize = self.rows.len();
        let mut i: usize = 0;
        while i < n
            invariant
                i <= n == self.rows@.len(),
                row_of(self.rows@.take(i as int), oid@) is None,
            decreases n - i,
        {
            assert(self.rows@.take(i + 1).drop_last() =~= self.rows@.take(i as int));
            if same_str(self.rows[i].commit.oid.as_str(), oid) {
                proof {
                    lemma_row_found_early(self.rows@, oid@, i + 1);
                }
                return Some(i);
            }
            i = i + 1;
        }
        assert(self.rows@.take(n as int) =~= self.rows@);
        None
    }

    /// The cursor is on a row, if there is one.
    pub open spec fn wf(self) -> bool {
        self.rows@.len() > 0 ==> self.selected_idx < self.rows@.len()
    }
}

proof fn lemma_row_found_early(rows: Seq<GraphRow>, oid: Seq<char>, n: int)
    requires
        0 <= n <= rows.len(),
        row_of(rows.take(n), oid) is Some,
    ensures
        row_of(rows, oid) == row_of(rows.take(n), oid),
    decreases rows.len(),
{
    if n < rows.len() {
        assert(rows.drop_last().take(n) =~= rows.take(n));
        lemma_row_found_early(rows.drop_last(), oid, n);
    } else {
        assert(rows.take(n) =~= rows);
    }
}

proof fn lemma_row_of(rows: Seq<GraphRow>, oid: Seq<char>)
    requires
        rows.len() <= usize::MAX,
    ensures
        row_of(rows, oid) matches Some(i) ==> i < rows.len() && rows[i as int].commit.oid@ == oid,
    decreases rows.len(),
{
    if rows.len() > 0 {
        lemma_row_of(rows.drop_last(), oid);
    }
}

// ── The commit column ────────────────────────────────────────────────────

/// The tokens of a diff, by hunk and by line.
#[derive(Debug)]
pub struct HighlightedDiff {
    pub diff: DiffContent,
    pub highlighted: Option<Vec<Vec<Vec<HighlightToken>>>>,
}

#[derive(Debug)]
pub struct CommitFileDiff {
    pub path: String,
    pub diff: DiffContent,
    pub highlighted: Option<Vec<Vec<Vec<HighlightToken>>>>,
}

/// What is shown of a range of commits: the commits, and the files that differ
/// between its ends.
#[derive(Debug)]
pub struct RangeDetail {
    pub oldest_oid: String,
    pub newest_oid: String,
    pub commit_count: usize,
    pub commits: Vec<CommitInfo>,
    pub files: Vec<FileEntry>,
}

#[derive(Debug)]
pub struct CommitDetailState {
    pub detail: Option<CommitDetail>,
    pub range_detail: Option<RangeDetail>,
    pub file_diff: Option<CommitFileDiff>,
    pub diff_layout: DiffLayout,
    pub diff_mode: DiffMode,
    pub files_tree_mode: bool,
    pub files_collapsed: StrSet,
    pub scroll: usize,
    pub file_diff_scroll: usize,
    pub diff_h_scroll: usize,
    pub sbs_left_h_scroll: usize,
    pub sbs_right_h_scroll: usize,
    pub file_diff_h_scroll: usize,
    pub file_diff_sbs_left_h_scroll: usize,
    pub file_diff_sbs_right_h_scroll: usize,
}

impl CommitDetailState {
    /// Nothing is shown yet, with these settings.
    pub open spec fn blank(
        files_collapsed: StrSet,
        diff_layout: DiffLayout,
        diff_mode: DiffMode,
        files_tree_mode: bool,
    ) -> Self {
        CommitDetailState {
            detail: None,
            range_detail: None,
            file_diff: None,
            diff_layout,
            diff_mode,
            files_tree_mode,
            files_collapsed,
            scroll: 0,
            file_diff_scroll: 0,
            diff_h_scroll: 0,
            sbs_left_h_scroll: 0,
            sbs_right_h_scroll: 0,
            file_diff_h_scroll: 0,
            file_diff_sbs_left_h_scroll: 0,
            file_diff_sbs_right_h_scroll: 0,
        }
    }
}

impl Default for CommitDetailState {
    fn default() -> (r: Self)
        ensures
            r == Self::blank(r.files_collapsed, DiffLayout::Unified, DiffMode::Compact, false),
            r.files_collapsed.wf(),
            r.files_collapsed@ == Set::<Seq<char>>::empty(),
    {
        CommitDetailState {
            detail: None,
            range_detail: None,
            file_diff: None,
            diff_layout: DiffLayout::Unified,
            diff_mode: DiffMode::Compact,
            files_tree_mode: false,
            files_collapsed: StrSet::new(),
            scroll: 0,
            file_diff_scroll: 0,
            diff_h_scroll: 0,
            sbs_left_h_scroll: 0,
            sbs_right_h_scroll: 0,
            file_diff_h_scroll: 0,
            file_diff_sbs_left_h_scroll: 0,
            file_diff_sbs_right_h_scroll: 0,
        }
    }
}

/// `a` tells of the same commit as `b`.
pub open spec fn same_commit(a: CommitInfo, b: CommitInfo) -> bool {
    a == (CommitInfo { parents: a.parents, ..b }) && a.parents@ == b.parents@
}

fn copy_commit(c: &CommitInfo) -> (r: CommitInfo)
    ensures
        same_commit(r, *c),
{
    CommitInfo {
        oid: c.oid.clone(),
        short_oid: c.short_oid.clone(),
        parents: copy_strings(&c.parents),
        author_name: c.author_name.clone(),
        author_email: c.author_email.clone(),
        time: c.time,
        subject: c.subject.clone(),
    }
}

/// What a walk of the commits brought.
#[derive(Debug)]
pub struct GraphPayload {
    pub rows: Vec<GraphRow>,
    pub ref_map: Vec<RefRow>,
    pub cache_key: (String, u64),
}

#[derive(Debug)]
pub struct GraphPane {
    pub git_graph: GitGraphState,
    pub commit_detail: CommitDetailState,
    pub graph_load: AsyncState,
    pub commit_detail_load: AsyncState,
    pub commit_file_diff_load: AsyncState,
}

/// The most commits that the graph shows.
pub const GRAPH_COMMIT_LIMIT: usize = 500;

/// The walk found another head or other references than the last one.
pub open spec fn key_changed(old: Option<(String, u64)>, new: (String, u64)) -> bool {
    match old {
        Some(k) => k.0@ != new.0@ || k.1 != new.1,
        None => true,
    }
}

/// The graph after a walk: the cursor and the anchor stay on their commits
/// where those are still shown, the cursor else near its row, the anchor else
/// nowhere.
pub open spec fn walked(g: GitGraphState, p: GraphPayload) -> GitGraphState {
    let followed = match g.selected_commit {
        Some(oid) => match row_of(p.rows@, oid@) {
            Some(i) => i,
            None => g.selected_idx,
        },
        None => g.selected_idx,
    };
    let idx = if followed < p.rows@.len() {
        followed
    } else if p.rows@.len() == 0 {
        0
    } else {
        (p.rows@.len() - 1) as usize
    };
    GitGraphState {
        rows: p.rows,
        ref_map: p.ref_map,
        cache_key: Some(p.cache_key),
        selected_idx: idx,
        selected_commit: oid_at(p.rows@, idx),
        selection_anchor: match g.selection_anchor {
            Some(a) => match oid_at(g.rows@, a) {
                Some(oid) => row_of(p.rows@, oid@),
                None => None,
            },
            None => None,
        },
        ..g
    }
}

/// The range detail that stands for the selection until its files arrive.
pub open spec fn stands_for_range(g: GitGraphState, d: Option<RangeDetail>) -> bool {
    let (lo, hi) = g.range();
    if g.ranged() && hi < g.rows@.len() {
        d matches Some(rd) && rd.oldest_oid == g.rows@[hi as int].commit.oid && rd.newest_oid
            == g.rows@[lo as int].commit.oid && rd.commit_count == hi - lo + 1 && rd.commits@.len()
            == hi - lo + 1 && rd.files@.len() == 0 && forall|i: int|
            0 <= i <= hi - lo ==> same_commit(
                #[trigger] rd.commits@[i],
                g.rows@[lo + i].commit,
            )
    } else {
        d is None
    }
}

impl GraphPane {
    /// No file diff, and the panel back at its left edge.
    pub open spec fn diff_closed(self) -> Self {
        GraphPane {
            commit_detail: CommitDetailState {
                file_diff: None,
                diff_h_scroll: 0,
                sbs_left_h_scroll: 0,
                sbs_right_h_scroll: 0,
                ..self.commit_detail
            },
            ..self
        }
    }

    fn close_diff(&mut self)
        ensures
            *final(self) == old(self).diff_closed(),
    {
        self.commit_detail.file_diff = None;
        self.commit_detail.diff_h_scroll = 0;
        self.commit_detail.sbs_left_h_scroll = 0;
        self.commit_detail.sbs_right_h_scroll = 0;
    }

    /// The detail of the commit under the cursor is on its way, or gone where
    /// there is no commit or no repository.
    pub open spec fn detail_asked(self, repo: Option<Seq<char>>) -> Self {
        let s = self.diff_closed();
        if self.git_graph.selected_commit is None || repo is None {
            GraphPane { commit_detail: CommitDetailState { detail: None, ..s.commit_detail }, ..s }
        } else {
            GraphPane { commit_detail_load: self.commit_detail_load.begun(), ..s }
        }
    }

    pub open spec fn detail_request(self, repo: Option<Seq<char>>) -> Seq<Effect<Seq<char>>> {
        match (self.git_graph.selected_commit, repo) {
            (Some(oid), Some(repo)) => seq![
                Effect::LoadCommitDetail {
                    generation: self.commit_detail_load.begun().generation,
                    repo,
                    oid: oid@,
                },
            ],
            _ => Seq::empty(),
        }
    }

    pub fn load_commit_detail(&mut self, repo: &Option<String>, fx: &mut Effects)
        ensures
            *final(self) == old(self).detail_asked(opt_view(*repo)),
            final(fx)@ == old(fx)@ + old(self).detail_request(opt_view(*repo)),
    {
        self.close_diff();
        match (self.git_graph.selected_commit.clone(), repo) {
            (Some(oid), Some(repo)) => {
                let generation: u64 = self.commit_detail_load.begin();
                fx.emit(Effect::LoadCommitDetail { generation, repo: repo.clone(), oid });
            },
            _ => {
                self.commit_detail.detail = None;
            },
        }
        assert(fx@ =~= old(fx)@ + old(self).detail_request(opt_view(*repo)));
    }

    /// As `detail_asked`, for the range that `d` stands for.
    pub open spec fn range_asked(self, repo: Option<Seq<char>>, d: Option<RangeDetail>) -> Self {
        let s = self.diff_closed();
        let s = GraphPane {
            commit_detail: CommitDetailState { range_detail: d, ..s.commit_detail },
            ..s
        };
        if d is Some && repo is Some {
            GraphPane { commit_detail_load: self.commit_detail_load.begun(), ..s }
        } else {
            s
        }
    }

    pub open spec fn range_request(self, repo: Option<Seq<char>>) -> Seq<Effect<Seq<char>>> {
        let g = self.git_graph;
        let (lo, hi) = g.range();
        match repo {
            Some(repo) => if g.ranged() && hi < g.rows@.len() {
                seq![
                    Effect::LoadCommitRange {
                        generation: self.commit_detail_load.begun().generation,
                        repo,
                        oldest: g.rows@[hi as int].commit.oid@,
                        newest: g.rows@[lo as int].commit.oid@,
                    },
                ]
            } else {
                Seq::empty()
            },
            None => Seq::empty(),
        }
    }

    pub fn load_commit_range_detail(&mut self, repo: &Option<String>, fx: &mut Effects)
        ensures
            *final(self) == old(self).range_asked(
                opt_view(*repo),
                final(self).commit_detail.range_detail,
            ),
            stands_for_range(old(self).git_graph, final(self).commit_detail.range_detail),
            final(fx)@ == old(fx)@ + old(self).range_request(opt_view(*repo)),
    {
        self.close_diff();
        let (lo, hi) = self.git_graph.selected_range();
        if !self.git_graph.is_range() || hi >= self.git_graph.rows.len() {
            self.commit_detail.range_detail = None;
            assert(fx@ =~= old(fx)@ + old(self).range_request(opt_view(*repo)));
            return;
        }
        let oldest_oid = self.git_graph.rows[hi].commit.oid.clone();
        let newest_oid = self.git_graph.rows[lo].commit.oid.clone();
        let mut commits: Vec<CommitInfo> = Vec::new();
        let n: usize = self.git_graph.rows.len();
        let mut i: usize = lo;
        while i <= hi
            invariant
                lo <= i <= hi + 1,
                hi < n == self.git_graph.rows@.len(),
                commits@.len() == i - lo,
                forall|k: int|
                    0 <= k < i - lo ==> same_commit(
                        #[trigger] commits@[k],
                        self.git_graph.rows@[lo + k].commit,
                    ),
            decreases hi + 1 - i,
        {
            commits.push(copy_commit(&self.git_graph.rows[i].commit));
            i = i + 1;
        }
        let commit_count: usize = commits.len();
        self.commit_detail.range_detail = Some(
            RangeDetail {
                oldest_oid: oldest_oid.clone(),
                newest_oid: newest_oid.clone(),
                commit_count,
                commits,
                files: Vec::new(),
            },
        );
        if let Some(repo) = repo {
            let generation: u64 = self.commit_detail_load.begin();
            fx.emit(
                Effect::LoadCommitRange {
                    generation,
                    repo: repo.clone(),
                    oldest: oldest_oid,
                    newest: newest_oid,
                },
            );
        }
        assert(fx@ =~= old(fx)@ + old(self).range_request(opt_view(*repo)));
    }

    /// The detail of the selection is on its way; `d` is the range detail that
    /// stands for it.
    pub open spec fn selection_asked(self, repo: Option<Seq<char>>, d: Option<RangeDetail>) -> Self {
        if self.git_graph.ranged() {
            GraphPane {
                commit_detail: CommitDetailState { detail: None, ..self.commit_detail },
                ..self
            }.range_asked(repo, d)
        } else {
            GraphPane {
                commit_detail: CommitDetailState { range_detail: None, ..self.commit_detail },
                ..self
            }.detail_asked(repo)
        }
    }

    pub open spec fn selection_request(self, repo: Option<Seq<char>>) -> Seq<Effect<Seq<char>>> {
        if self.git_graph.ranged() {
            self.range_request(repo)
        } else {
            self.detail_request(repo)
        }
    }

    /// Shows a range or a single commit, never both.
    pub fn reload_graph_selection(&mut self, repo: &Option<String>, fx: &mut Effects)
        ensures
            *final(self) == old(self).selection_asked(
                opt_view(*repo),
                final(self).commit_detail.range_detail,
            ),
            old(self).git_graph.ranged() ==> stands_for_range(
                old(self).git_graph,
                final(self).commit_detail.range_detail,
            ),
            final(fx)@ == old(fx)@ + old(self).selection_request(opt_view(*repo)),
    {
        if self.git_graph.is_range() {
            self.commit_detail.detail = None;
            self.load_commit_range_detail(repo, fx);
        } else {
            self.commit_detail.range_detail = None;
            self.load_commit_detail(repo, fx);
        }
    }

    /// The cursor on the row `next`, the panel at its top.
    pub open spec fn cursor_at(self, next: usize) -> Self {
        GraphPane {
            git_graph: GitGraphState {
                selected_idx: next,
                selected_commit: oid_at(self.git_graph.rows@, next),
                ..self.git_graph
            },
            commit_detail: CommitDetailState { scroll: 0, ..self.commit_detail },
            ..self
        }
    }

    fn place_cursor(&mut self, next: usize)
        requires
            next < old(self).git_graph.rows@.len(),
        ensures
            *final(self) == old(self).cursor_at(next),
    {
        self.git_graph.selected_idx = next;
        self.git_graph.selected_commit = Some(self.git_graph.rows[next].commit.oid.clone());
        self.commit_detail.scroll = 0;
    }

    pub open spec fn unranged(self) -> Self {
        GraphPane {
            commit_detail: CommitDetailState { range_detail: None, ..self.commit_detail },
            ..self
        }
    }

    pub open spec fn unanchored(self) -> Self {
        GraphPane {
            git_graph: GitGraphState { selection_anchor: None, ..self.git_graph },
            ..self
        }
    }

    /// Where a plain move leaves the cursor.
    pub open spec fn moved_row(self, delta: int) -> usize {
        stepped(self.git_graph.selected_idx as int, delta, self.git_graph.rows@.len() - 1) as usize
    }

    pub open spec fn moved_from(self, delta: int) -> Option<Self> {
        if self.git_graph.rows@.len() == 0 {
            None
        } else if self.moved_row(delta) != self.git_graph.selected_idx {
            Some(self.unanchored().cursor_at(self.moved_row(delta)).unranged())
        } else if self.commit_detail.range_detail is Some {
            Some(self.unanchored().unranged())
        } else {
            None
        }
    }

    /// Moves the cursor and drops any range. The detail is loaded where the
    /// cursor moved, or where a range was still shown.
    pub fn move_graph_selection(&mut self, delta: i32, repo: &Option<String>, fx: &mut Effects)
        ensures
            *final(self) == (match old(self).moved_from(delta as int) {
                Some(s) => s.detail_asked(opt_view(*repo)),
                None => if old(self).git_graph.rows@.len() == 0 {
                    *old(self)
                } else {
                    old(self).unanchored()
                },
            }),
            final(fx)@ == old(fx)@ + (match old(self).moved_from(delta as int) {
                Some(s) => s.detail_request(opt_view(*repo)),
                None => Seq::empty(),
            }),
    {
        if self.git_graph.rows.len() == 0 {
            assert(fx@ =~= old(fx)@ + Seq::<Effect<Seq<char>>>::empty());
            return;
        }
        self.git_graph.selection_anchor = None;
        let last: usize = self.git_graph.rows.len() - 1;
        let next: usize = step_row(self.git_graph.selected_idx, delta, last);
        if next == self.git_graph.selected_idx {
            if self.commit_detail.range_detail.is_some() {
                self.commit_detail.range_detail = None;
                self.load_commit_detail(repo, fx);
            } else {
                assert(fx@ =~= old(fx)@ + Seq::<Effect<Seq<char>>>::empty());
            }
            return;
        }
        self.place_cursor(next);
        self.commit_detail.range_detail = None;
        self.load_commit_detail(repo, fx);
    }

    pub open spec fn anchored(self) -> Self {
        GraphPane {
            git_graph: GitGraphState {
                selection_anchor: match self.git_graph.selection_anchor {
                    Some(a) => Some(a),
                    None => Some(self.git_graph.selected_idx),
                },
                ..self.git_graph
            },
            ..self
        }
    }

    pub open spec fn extended(self, delta: int) -> Option<Self> {
        if self.git_graph.rows@.len() > 0 && self.moved_row(delta) != self.git_graph.selected_idx {
            Some(self.anchored().cursor_at(self.moved_row(delta)))
        } else {
            None
        }
    }

    /// Moves the cursor and keeps the other end of the selection.
    pub fn extend_graph_selection(&mut self, delta: i32, repo: &Option<String>, fx: &mut Effects)
        ensures
            match old(self).extended(delta as int) {
                Some(s) => {
                    &&& *final(self) == s.selection_asked(
                        opt_view(*repo),
                        final(self).commit_detail.range_detail,
                    )
                    &&& s.git_graph.ranged() ==> stands_for_range(
                        s.git_graph,
                        final(self).commit_detail.range_detail,
                    )
                    &&& final(fx)@ == old(fx)@ + s.selection_request(opt_view(*repo))
                },
                None => {
                    &&& *final(self) == (if old(self).git_graph.rows@.len() == 0 {
                        *old(self)
                    } else {
                        old(self).anchored()
                    })
                    &&& final(fx)@ == old(fx)@
                },
            },
    {
        if self.git_graph.rows.len() == 0 {
            return;
        }
        if self.git_graph.selection_anchor.is_none() {
            self.git_graph.selection_anchor = Some(self.git_graph.selected_idx);
        }
        let last: usize = self.git_graph.rows.len() - 1;
        let next: usize = step_row(self.git_graph.selected_idx, delta, last);
        if next == self.git_graph.selected_idx {
            return;
        }
        self.place_cursor(next);
        self.reload_graph_selection(repo, fx);
    }

    pub open spec fn range_cleared(self) -> Self {
        let s = self.unanchored().unranged();
        GraphPane { commit_detail: CommitDetailState { scroll: 0, ..s.commit_detail }, ..s }
    }

    /// Leaves the selection of a range; the commit under the cursor is shown.
    pub fn clear_graph_range(&mut self, repo: &Option<String>, fx: &mut Effects)
        ensures
            *final(self) == (if old(self).git_graph.selection_anchor is Some {
                old(self).range_cleared().detail_asked(opt_view(*repo))
            } else {
                *old(self)
            }),
            final(fx)@ == old(fx)@ + (if old(self).git_graph.selection_anchor is Some {
                old(self).range_cleared().detail_request(opt_view(*repo))
            } else {
                Seq::empty()
            }),
    {
        if self.git_graph.selection_anchor.is_some() {
            self.git_graph.selection_anchor = None;
            self.commit_detail.scroll = 0;
            self.commit_detail.range_detail = None;
            self.reload_graph_selection(repo, fx);
        } else {
            assert(fx@ =~= old(fx)@ + Seq::<Effect<Seq<char>>>::empty());
        }
    }

    /// A walk of the commits is on its way; without a repository there is
    /// nothing to show.
    pub fn refresh_graph(&mut self, repo: &Option<String>, fx: &mut Effects)
        ensures
            match *repo {
                Some(repo) => {
                    &&& *final(self) == (GraphPane {
                        graph_load: old(self).graph_load.begun(),
                        ..*old(self)
                    })
                    &&& final(fx)@ == old(fx)@.push(
                        Effect::RefreshGraph {
                            generation: old(self).graph_load.begun().generation,
                            repo: repo@,
                            limit: GRAPH_COMMIT_LIMIT,
                        },
                    )
                },
                None => {
                    &&& *final(self) == (GraphPane {
                        git_graph: GitGraphState {
                            rows: final(self).git_graph.rows,
                            ref_map: final(self).git_graph.ref_map,
                            cache_key: None,
                            ..old(self).git_graph
                        },
                        ..*old(self)
                    })
                    &&& final(self).git_graph.rows@.len() == 0
                    &&& final(self).git_graph.ref_map@.len() == 0
                    &&& final(fx)@ == old(fx)@
                },
            },
    {
        match repo {
            Some(repo) => {
                let generation: u64 = self.graph_load.begin();
                fx.emit(
                    Effect::RefreshGraph {
                        generation,
                        repo: repo.clone(),
                        limit: GRAPH_COMMIT_LIMIT,
                    },
                );
            },
            None => {
                self.git_graph.rows = Vec::new();
                self.git_graph.ref_map = Vec::new();
                self.git_graph.cache_key = None;
            },
        }
    }

    /// `self` with nothing of the repository's history left; `rows` and
    /// `ref_map` are empty.
    pub open spec fn emptied(self, rows: Vec<GraphRow>, ref_map: Vec<RefRow>) -> Self {
        GraphPane {
            git_graph: GitGraphState {
                rows,
                ref_map,
                cache_key: None,
                selected_idx: 0,
                selected_commit: None,
                selection_anchor: None,
                ..self.git_graph
            },
            commit_detail: CommitDetailState {
                detail: None,
                range_detail: None,
                file_diff: None,
                ..self.commit_detail
            },
            ..self
        }
    }

    pub fn clear_graph_snapshot(&mut self)
        ensures
            *final(self) == old(self).emptied(
                final(self).git_graph.rows,
                final(self).git_graph.ref_map,
            ),
            final(self).git_graph.rows@.len() == 0,
            final(self).git_graph.ref_map@.len() == 0,
    {
        self.git_graph.rows = Vec::new();
        self.git_graph.ref_map = Vec::new();
        self.git_graph.cache_key = None;
        self.git_graph.selected_idx = 0;
        self.git_graph.selected_commit = None;
        self.git_graph.selection_anchor = None;
        self.commit_detail.detail = None;
        self.commit_detail.range_detail = None;
        self.commit_detail.file_diff = None;
    }

    // ── Results ──────────────────────────────────────────────────────────
    /// The graph after an accepted walk, before any detail is asked for.
    pub open spec fn after_walk(self, p: GraphPayload) -> Self {
        let g = walked(self.git_graph, p);
        GraphPane {
            git_graph: g,
            graph_load: self.graph_load.done(),
            commit_detail: CommitDetailState {
                range_detail: if g.selection_anchor is None {
                    None
                } else {
                    self.commit_detail.range_detail
                },
                ..self.commit_detail
            },
            ..self
        }
    }

    /// Whether a walk calls for the detail to be loaded: a range whenever the
    /// history changed, a single commit when another one is under the cursor
    /// or none is shown.
    pub open spec fn walk_reloads(self, p: GraphPayload) -> bool {
        let g = walked(self.git_graph, p);
        if g.selection_anchor is Some {
            key_changed(self.git_graph.cache_key, p.cache_key)
        } else {
            opt_view(g.selected_commit) != opt_view(self.git_graph.selected_commit)
                || self.commit_detail.detail is None
        }
    }

    fn take_walk(&mut self, payload: GraphPayload)
        ensures
            *final(self) == (GraphPane {
                git_graph: walked(old(self).git_graph, payload),
                ..*old(self)
            }),
    {
        let previous_commit = self.git_graph.selected_commit.clone();
        let previous_anchor = match self.git_graph.selection_anchor {
            Some(a) => if a < self.git_graph.rows.len() {
                Some(self.git_graph.rows[a].commit.oid.clone())
            } else {
                None
            },
            None => None,
        };
        self.git_graph.rows = payload.rows;
        self.git_graph.ref_map = payload.ref_map;
        self.git_graph.cache_key = Some(payload.cache_key);
        if let Some(oid) = &previous_commit {
            if let Some(i) = self.git_graph.find_row_by_oid(oid.as_str()) {
                self.git_graph.selected_idx = i;
            }
        }
        let n: usize = self.git_graph.rows.len();
        if self.git_graph.selected_idx >= n {
            self.git_graph.selected_idx = if n == 0 {
                0
            } else {
                n - 1
            };
        }
        let i: usize = self.git_graph.selected_idx;
        self.git_graph.selected_commit = if i < n {
            Some(self.git_graph.rows[i].commit.oid.clone())
        } else {
            None
        };
        self.git_graph.selection_anchor = match &previous_anchor {
            Some(oid) => self.git_graph.find_row_by_oid(oid.as_str()),
            None => None,
        };
    }

    /// What a walk over the history changes.
    pub open spec fn walk_applied(
        self,
        new: Self,
        generation: u64,
        result: Result<GraphPayload, String>,
        repo: Option<Seq<char>>,
        fx: Seq<Effect<Seq<char>>>,
        fx2: Seq<Effect<Seq<char>>>,
    ) -> bool {
        &&& generation != self.graph_load.generation ==> new == self
            && fx2 == fx
        &&& generation == self.graph_load.generation ==> match result {
            Err(e) => new == (GraphPane {
                graph_load: self.graph_load.failed(e),
                ..self
            }) && fx2 == fx,
            Ok(p) => {
                let s = self.after_walk(p);
                if !self.walk_reloads(p) {
                    new == s && fx2 == fx
                } else if s.git_graph.selection_anchor is None {
                    new == s.detail_asked(repo) && fx2 == fx
                        + s.detail_request(repo)
                } else {
                    &&& new == s.selection_asked(
                        repo,
                        new.commit_detail.range_detail,
                    )
                    &&& s.git_graph.ranged() ==> stands_for_range(
                        s.git_graph,
                        new.commit_detail.range_detail,
                    )
                    &&& fx2 == fx + s.selection_request(repo)
                }
            },
        }
    }

    /// Takes the result of a walk, if it is the latest one.
    pub fn apply_graph(
        &mut self,
        generation: u64,
        result: Result<GraphPayload, String>,
        repo: &Option<String>,
        fx: &mut Effects,
    )
        ensures
            old(self).walk_applied(
                *final(self),
                generation,
                result,
                opt_view(*repo),
                old(fx)@,
                final(fx)@,
            ),
    {
        match result {
            Err(e) => {
                let _ = self.graph_load.complete_err(generation, e);
            },
            Ok(payload) => {
                if !self.graph_load.complete_ok(generation) {
                    return;
                }
                let changed = match &self.git_graph.cache_key {
                    Some(k) => !same_str(k.0.as_str(), payload.cache_key.0.as_str()) || k.1
                        != payload.cache_key.1,
                    None => true,
                };
                let previous_commit = self.git_graph.selected_commit.clone();
                self.take_walk(payload);
                if self.git_graph.selection_anchor.is_none() {
                    self.commit_detail.range_detail = None;
                }
                if self.git_graph.selection_anchor.is_some() {
                    if changed {
                        self.reload_graph_selection(repo, fx);
                    }
                } else if !same_opt(&self.git_graph.selected_commit, &previous_commit)
                    || self.commit_detail.detail.is_none() {
                    self.load_commit_detail(repo, fx);
                }
            },
        }
    }

    /// What the detail of a commit changes.
    pub open spec fn detail_applied(
        self,
        new: Self,
        generation: u64,
        result: Result<Option<CommitDetail>, String>,
    ) -> bool {
        new == (if generation != self.commit_detail_load.generation {
            self
        } else {
            match result {
                Ok(d) => GraphPane {
                    commit_detail: CommitDetailState { detail: d, ..self.commit_detail },
                    commit_detail_load: self.commit_detail_load.done(),
                    ..self
                },
                Err(e) => GraphPane {
                    commit_detail_load: self.commit_detail_load.failed(e),
                    ..self
                },
            }
        })
    }

    pub fn apply_commit_detail(&mut self, generation: u64, result: Result<Option<CommitDetail>, String>)
        ensures
            old(self).detail_applied(
                *final(self),
                generation,
                result,
            ),
    {
        match result {
            Ok(detail) => {
                if self.commit_detail_load.complete_ok(generation) {
                    self.commit_detail.detail = detail;
                }
            },
            Err(e) => {
                let _ = self.commit_detail_load.complete_err(generation, e);
            },
        }
    }

    /// What the files of a range change.
    pub open spec fn range_applied(
        self,
        new: Self,
        generation: u64,
        result: Result<Vec<FileEntry>, String>,
    ) -> bool {
        new == (if generation != self.commit_detail_load.generation {
            self
        } else {
            match result {
                Ok(files) => GraphPane {
                    commit_detail: CommitDetailState {
                        range_detail: match self.commit_detail.range_detail {
                            Some(rd) => Some(RangeDetail { files, ..rd }),
                            None => None,
                        },
                        ..self.commit_detail
                    },
                    commit_detail_load: self.commit_detail_load.done(),
                    ..self
                },
                Err(e) => GraphPane {
                    commit_detail_load: self.commit_detail_load.failed(e),
                    ..self
                },
            }
        })
    }

    /// The files of a range arrive; they are dropped where no range is shown
    /// any more.
    pub fn apply_range_detail(&mut self, generation: u64, result: Result<Vec<FileEntry>, String>)
        ensures
            old(self).range_applied(
                *final(self),
                generation,
                result,
            ),
    {
        match result {
            Ok(files) => {
                if self.commit_detail_load.complete_ok(generation) {
                    match &mut self.commit_detail.range_detail {
                        Some(rd) => {
                            rd.files = files;
                        },
                        None => {},
                    }
                }
            },
            Err(e) => {
                let _ = self.commit_detail_load.complete_err(generation, e);
            },
        }
    }

    /// What the diff of a file changes.
    pub open spec fn file_diff_applied(
        self,
        new: Self,
        generation: u64,
        result: Result<Option<CommitFileDiff>, String>,
    ) -> bool {
        new == (if generation != self.commit_file_diff_load.generation {
            self
        } else {
            match result {
                Ok(d) => GraphPane {
                    commit_detail: CommitDetailState {
                        file_diff: d,
                        ..self.commit_detail
                    },
                    commit_file_diff_load: self.commit_file_diff_load.done(),
                    ..self
                },
                Err(e) => GraphPane {
                    commit_file_diff_load: self.commit_file_diff_load.failed(e),
                    ..self
                },
            }
        })
    }

    /// The diff of one file arrives, of a commit or of a range.
    pub fn apply_commit_file_diff(
        &mut self,
        generation: u64,
        result: Result<Option<CommitFileDiff>, String>,
    )
        ensures
            old(self).file_diff_applied(
                *final(self),
                generation,
                result,
            ),
    {
        match result {
            Ok(d) => {
                if self.commit_file_diff_load.complete_ok(generation) {
                    self.commit_detail.file_diff = d;
                }
            },
            Err(e) => {
                let _ = self.commit_file_diff_load.complete_err(generation, e);
            },
        }
    }

    // ── File diffs ───────────────────────────────────────────────────────
    /// Another file than the one that is shown.
    pub open spec fn other_file(self, path: Seq<char>) -> bool {
        match self.commit_detail.file_diff {
            Some(d) => d.path@ != path,
            None => true,
        }
    }

    pub open spec fn scrolls_reset(self) -> Self {
        GraphPane {
            commit_detail: CommitDetailState {
                diff_h_scroll: 0,
                sbs_left_h_scroll: 0,
                sbs_right_h_scroll: 0,
                file_diff_scroll: 0,
                file_diff_h_scroll: 0,
                file_diff_sbs_left_h_scroll: 0,
                file_diff_sbs_right_h_scroll: 0,
                ..self.commit_detail
            },
            ..self
        }
    }

    /// Which diff shows `path` of the selection, if there is one to ask for.
    pub open spec fn file_request(self, repo: Seq<char>, path: Seq<char>) -> Option<
        Effect<Seq<char>>,
    > {
        let generation = self.commit_file_diff_load.begun().generation;
        let context = self.commit_detail.diff_mode.lines();
        if self.git_graph.ranged() {
            match self.commit_detail.range_detail {
                Some(rd) => Some(
                    Effect::LoadRangeFileDiff {
                        generation,
                        repo,
                        oldest: rd.oldest_oid@,
                        newest: rd.newest_oid@,
                        path,
                        context,
                    },
                ),
                None => None,
            }
        } else {
            match self.git_graph.selected_commit {
                Some(oid) => Some(
                    Effect::LoadCommitFileDiff { generation, repo, oid: oid@, path, context },
                ),
                None => None,
            }
        }
    }

    pub open spec fn file_asked(self, repo: Option<Seq<char>>, path: Seq<char>) -> Self {
        match repo {
            None => GraphPane {
                commit_detail: CommitDetailState { file_diff: None, ..self.commit_detail },
                ..self
            },
            Some(repo) => {
                let s = if self.other_file(path) {
                    self.scrolls_reset()
                } else {
                    self
                };
                if self.file_request(repo, path) is Some {
                    GraphPane { commit_file_diff_load: self.commit_file_diff_load.begun(), ..s }
                } else {
                    GraphPane {
                        commit_detail: CommitDetailState { file_diff: None, ..s.commit_detail },
                        ..s
                    }
                }
            },
        }
    }

    /// A wide graph tab moves the focus to the diff column, and another file
    /// drops the marked text.
    pub open spec fn file_screen(self, screen: Screen, repo: Option<Seq<char>>, path: Seq<char>) -> Screen {
        let s = if screen.active_tab == Tab::Graph && screen.last_total_width
            >= GRAPH_THREE_COL_MIN_WIDTH {
            Screen { active_panel: Panel::Diff, ..screen }
        } else {
            screen
        };
        if repo is Some && self.other_file(path) {
            s.without_diff_selection()
        } else {
            s
        }
    }

    pub open spec fn file_effects(self, repo: Option<Seq<char>>, path: Seq<char>) -> Seq<
        Effect<Seq<char>>,
    > {
        match repo {
            Some(repo) => match self.file_request(repo, path) {
                Some(e) => seq![e],
                None => Seq::empty(),
            },
            None => Seq::empty(),
        }
    }

    pub fn load_commit_file_diff(
        &mut self,
        path: &str,
        screen: &mut Screen,
        repo: &Option<String>,
        fx: &mut Effects,
    )
        ensures
            *final(self) == old(self).file_asked(opt_view(*repo), path@),
            *final(screen) == old(self).file_screen(*old(screen), opt_view(*repo), path@),
            final(fx)@ == old(fx)@ + old(self).file_effects(opt_view(*repo), path@),
    {
        if screen.active_tab == Tab::Graph && screen.last_total_width >= GRAPH_THREE_COL_MIN_WIDTH {
            screen.active_panel = Panel::Diff;
        }
        match repo {
            Some(repo) => {
                if self.open_commit_file(path, repo, fx) {
                    screen.clear_diff_selection();
                }
            },
            None => {
                self.commit_detail.file_diff = None;
                assert(fx@ =~= old(fx)@ + old(self).file_effects(None, path@));
            },
        }
    }

    /// Asks for the diff of `path`, and says whether that is another file than
    /// the one that was shown.
    fn open_commit_file(&mut self, path: &str, repo: &String, fx: &mut Effects) -> (r: bool)
        ensures
            *final(self) == old(self).file_asked(Some(repo@), path@),
            final(fx)@ == old(fx)@ + old(self).file_effects(Some(repo@), path@),
            r == old(self).other_file(path@),
    {
        let other = self.starts_other_file(path);
        self.ask_for_file(path, repo, fx);
        other
    }

    /// Resets the scroll positions where `path` is another file than the one
    /// that is shown.
    fn starts_other_file(&mut self, path: &str) -> (r: bool)
        ensures
            r == old(self).other_file(path@),
            *final(self) == (if r {
                old(self).scrolls_reset()
            } else {
                *old(self)
            }),
            forall|repo: Seq<char>|
                #[trigger] final(self).file_request(repo, path@) == old(self).file_request(
                    repo,
                    path@,
                ),
    {
        let other = match &self.commit_detail.file_diff {
            Some(d) => !same_str(d.path.as_str(), path),
            None => true,
        };
        if other {
            self.reset_scrolls();
        }
        other
    }

    fn reset_scrolls(&mut self)
        ensures
            *final(self) == old(self).scrolls_reset(),
    {
        self.commit_detail.diff_h_scroll = 0;
        self.commit_detail.sbs_left_h_scroll = 0;
        self.commit_detail.sbs_right_h_scroll = 0;
        self.commit_detail.file_diff_scroll = 0;
        self.commit_detail.file_diff_h_scroll = 0;
        self.commit_detail.file_diff_sbs_left_h_scroll = 0;
        self.commit_detail.file_diff_sbs_right_h_scroll = 0;
    }

    /// Asks for the diff of `path`, or shows none where there is nothing to ask
    /// of.
    fn ask_for_file(&mut self, path: &str, repo: &String, fx: &mut Effects)
        ensures
            match old(self).file_request(repo@, path@) {
                Some(e) => *final(self) == (GraphPane {
                    commit_file_diff_load: old(self).commit_file_diff_load.begun(),
                    ..*old(self)
                }) && final(fx)@ == old(fx)@ + seq![e],
                None => *final(self) == (GraphPane {
                    commit_detail: CommitDetailState { file_diff: None, ..old(self).commit_detail },
                    ..*old(self)
                }) && final(fx)@ == old(fx)@ + Seq::<Effect<Seq<char>>>::empty(),
            },
    {
        let context: u32 = self.commit_detail.diff_mode.context();
        if self.git_graph.is_range() {
            let ends = match &self.commit_detail.range_detail {
                Some(rd) => Some((rd.oldest_oid.clone(), rd.newest_oid.clone())),
                None => None,
            };
            if let Some((oldest, newest)) = ends {
                let generation: u64 = self.commit_file_diff_load.begin();
                fx.emit(
                    Effect::LoadRangeFileDiff {
                        generation,
                        repo: repo.clone(),
                        oldest,
                        newest,
                        path: path.to_owned(),
                        context,
                    },
                );
                return;
            }
        } else if let Some(oid) = self.git_graph.selected_commit.clone() {
            let generation: u64 = self.commit_file_diff_load.begin();
            fx.emit(
                Effect::LoadCommitFileDiff {
                    generation,
                    repo: repo.clone(),
                    oid,
                    path: path.to_owned(),
                    context,
                },
            );
            return;
        }
        self.commit_detail.file_diff = None;
    }

    /// The path whose diff is shown.
    pub open spec fn shown_path(self) -> Option<Seq<char>> {
        match self.commit_detail.file_diff {
            Some(d) => Some(d.path@),
            None => None,
        }
    }

    /// Asks again for the diff that is shown, if one is.
    pub fn reload_commit_file_diff(
        &mut self,
        screen: &mut Screen,
        repo: &Option<String>,
        fx: &mut Effects,
    )
        ensures
            match old(self).shown_path() {
                Some(p) => {
                    &&& *final(self) == old(self).file_asked(opt_view(*repo), p)
                    &&& *final(screen) == old(self).file_screen(*old(screen), opt_view(*repo), p)
                    &&& final(fx)@ == old(fx)@ + old(self).file_effects(opt_view(*repo), p)
                },
                None => *final(self) == *old(self) && *final(screen) == *old(screen)
                    && final(fx)@ == old(fx)@,
            },
    {
        let path = match &self.commit_detail.file_diff {
            Some(d) => Some(d.path.clone()),
            None => None,
        };
        if let Some(path) = path {
            self.load_commit_file_diff(path.as_str(), screen, repo, fx);
        }
    }

    // ── Settings ─────────────────────────────────────────────────────────
    pub fn toggle_commit_diff_layout(&mut self, fx: &mut Effects)
        ensures
            *final(self) == (GraphPane {
                commit_detail: CommitDetailState {
                    diff_layout: old(self).commit_detail.diff_layout.other(),
                    ..old(self).commit_detail
                },
                ..*old(self)
            }),
            final(fx)@ == old(fx)@.push(
                Effect::SetPref {
                    pref: Pref::CommitDiffLayout,
                    value: old(self).commit_detail.diff_layout.other().name(),
                },
            ),
    {
        self.commit_detail.diff_layout = self.commit_detail.diff_layout.toggled();
        fx.emit(
            Effect::SetPref {
                pref: Pref::CommitDiffLayout,
                value: self.commit_detail.diff_layout.pref_str().to_owned(),
            },
        );
    }

    pub open spec fn mode_toggled(self) -> Self {
        GraphPane {
            commit_detail: CommitDetailState {
                diff_mode: self.commit_detail.diff_mode.other(),
                ..self.commit_detail
            },
            ..self
        }
    }

    pub fn toggle_commit_diff_mode(
        &mut self,
        screen: &mut Screen,
        repo: &Option<String>,
        fx: &mut Effects,
    )
        ensures
            ({
                let s = old(self).mode_toggled();
                let kept = old(fx)@.push(
                    Effect::SetPref {
                        pref: Pref::CommitDiffMode,
                        value: s.commit_detail.diff_mode.name(),
                    },
                );
                match s.shown_path() {
                    Some(p) => {
                        &&& *final(self) == s.file_asked(opt_view(*repo), p)
                        &&& *final(screen) == s.file_screen(*old(screen), opt_view(*repo), p)
                        &&& final(fx)@ == kept + s.file_effects(opt_view(*repo), p)
                    },
                    None => *final(self) == s && *final(screen) == *old(screen) && final(fx)@
                        == kept,
                }
            }),
    {
        self.commit_detail.diff_mode = self.commit_detail.diff_mode.toggled();
        fx.emit(
            Effect::SetPref {
                pref: Pref::CommitDiffMode,
                value: self.commit_detail.diff_mode.pref_str().to_owned(),
            },
        );
        self.reload_commit_file_diff(screen, repo, fx);
    }

    pub fn toggle_commit_files_tree_mode(&mut self, fx: &mut Effects)
        ensures
            *final(self) == (GraphPane {
                commit_detail: CommitDetailState {
                    files_tree_mode: !old(self).commit_detail.files_tree_mode,
                    ..old(self).commit_detail
                },
                ..*old(self)
            }),
            final(fx)@ == old(fx)@.push(
                Effect::SetFlag {
                    pref: Pref::CommitFilesTreeMode,
                    value: !old(self).commit_detail.files_tree_mode,
                },
            ),
    {
        self.commit_detail.files_tree_mode = !self.commit_detail.files_tree_mode;
        fx.emit(
            Effect::SetFlag {
                pref: Pref::CommitFilesTreeMode,
                value: self.commit_detail.files_tree_mode,
            },
        );
    }
}

// ── Laws ─────────────────────────────────────────────────────────────────

/// The cursor stays on a row whatever happens: a walk, a plain move, a move
/// that extends the selection.
pub proof fn law_cursor_stays_on_a_row(s: GraphPane, p: GraphPayload, delta: int)
    requires
        s.git_graph.wf(),
        s.git_graph.rows@.len() <= usize::MAX,
        p.rows@.len() <= usize::MAX,
    ensures
        walked(s.git_graph, p).wf(),
        s.moved_from(delta) matches Some(t) ==> t.git_graph.wf(),
        s.extended(delta) matches Some(t) ==> t.git_graph.wf(),
{
    match s.git_graph.selected_commit {
        Some(oid) => {
            lemma_row_of(p.rows@, oid@);
        },
        None => {},
    }
}

/// After a walk that still shows the selected commit, that commit is the one
/// under the cursor; and a range that was being selected goes on from its
/// commit if the walk still shows that one, and is given up if not.
pub proof fn law_selection_follows_its_commits(g: GitGraphState, p: GraphPayload)
    requires
        p.rows@.len() <= usize::MAX,
    ensures
        g.selected_commit matches Some(oid) ==> (row_of(p.rows@, oid@) is Some ==> opt_view(
            walked(g, p).selected_commit,
        ) == Some(oid@) && opt_view(oid_at(p.rows@, walked(g, p).selected_idx)) == Some(oid@)),
        g.selection_anchor matches Some(a) ==> (oid_at(g.rows@, a) matches Some(oid) ==> (
        walked(g, p).selection_anchor is Some <==> row_of(p.rows@, oid@) is Some)),
        g.selection_anchor matches Some(a) ==> (walked(g, p).selection_anchor matches Some(b)
            ==> opt_view(oid_at(p.rows@, b)) == opt_view(oid_at(g.rows@, a))),
{
    match g.selected_commit {
        Some(oid) => {
            lemma_row_of(p.rows@, oid@);
        },
        None => {},
    }
    match g.selection_anchor {
        Some(a) => {
            if a < g.rows@.len() {
                lemma_row_of(p.rows@, g.rows@[a as int].commit.oid@);
            }
        },
        None => {},
    }
}

/// A range and a single commit are never shown together once the selection
/// has been loaded.
pub proof fn law_range_or_commit(s: GraphPane, repo: Option<Seq<char>>, d: Option<RangeDetail>)
    ensures
        ({
            let t = s.selection_asked(repo, d);
            t.commit_detail.detail is None || t.commit_detail.range_detail is None
        }),
{
}

/// The ends of a selection are in order, and it is a range exactly when they
/// differ.
pub proof fn law_range_is_ordered(g: GitGraphState)
    ensures
        g.range().0 <= g.range().1,
        g.ranged() == (g.range().0 != g.range().1),
        g.range().0 == g.selected_idx || g.range().1 == g.selected_idx,
{
}

/// Extending a selection and moving back to where it began leaves one commit
/// selected, with the range still being selected.
pub proof fn law_extending_there_and_back(s: GraphPane, delta: int)
    requires
        s.git_graph.wf(),
        s.git_graph.rows@.len() <= usize::MAX,
        s.git_graph.selection_anchor is None,
        0 <= s.git_graph.selected_idx + delta < s.git_graph.rows@.len(),
        delta != 0,
    ensures
        s.extended(delta) matches Some(t) && t.git_graph.ranged() && (t.extended(-delta) matches Some(
            u,
        ) && !u.git_graph.ranged() && u.git_graph.selection_anchor is Some
            && u.git_graph.selected_idx == s.git_graph.selected_idx),
{
}

} // verus!
