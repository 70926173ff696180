//! In-panel search: finding a text in rows, and stepping over the matches.
use crate::git::DiffContent;
use crate::git_pane::SelectedFile;
use crate::layout::{Panel, Tab};
use crate::text::{chars_of, views};
use core::ops::Range;
use vstd::prelude::*;
use vstd::string::*;
use vstd::utf8::*;

verus! {

/// Which rows a search goes over.
#[derive(Debug, Clone, Copy, PartialEq, Eq, Structural)]
pub enum SearchTarget {
    FileTree,
    GitStatus,
    CommitGraph,
    FilePreview,
    Diff,
    CommitDetail,
    GraphDiff,
}

/// One match: its row, and its bytes in the row.
#[derive(Debug)]
pub struct MatchLoc {
    pub row: usize,
    pub byte_range: Range<usize>,
}

/// Where the panels were when a search began.
#[derive(Debug)]
pub struct Snapshot {
    pub preview_scroll: usize,
    pub preview_h_scroll: usize,
    pub diff_scroll: usize,
    pub diff_h_scroll: usize,
    pub commit_detail_scroll: usize,
    pub graph_diff_scroll: usize,
    pub file_tree_selected: usize,
    pub tree_scroll: usize,
    pub git_status_scroll: usize,
    pub git_status_selected_file: Option<SelectedFile>,
    pub git_graph_selected_idx: usize,
    pub git_graph_scroll: usize,
}

impl Snapshot {
    pub open spec fn zero() -> Self {
        Snapshot {
            preview_scroll: 0,
            preview_h_scroll: 0,
            diff_scroll: 0,
            diff_h_scroll: 0,
            commit_detail_scroll: 0,
            graph_diff_scroll: 0,
            file_tree_selected: 0,
            tree_scroll: 0,
            git_status_scroll: 0,
            git_status_selected_file: None,
            git_graph_selected_idx: 0,
            git_graph_scroll: 0,
        }
    }
}

impl Default for Snapshot {
    fn default() -> (r: Self)
        ensures
            r == Self::zero(),
    {
        Snapshot {
            preview_scroll: 0,
            preview_h_scroll: 0,
            diff_scroll: 0,
            diff_h_scroll: 0,
            commit_detail_scroll: 0,
            graph_diff_scroll: 0,
            file_tree_selected: 0,
            tree_scroll: 0,
            git_status_scroll: 0,
            git_status_selected_file: None,
            git_graph_selected_idx: 0,
            git_graph_scroll: 0,
        }
    }
}

impl Clone for Snapshot {
    fn clone(&self) -> (r: Self)
        ensures
            r == *self,
    {
        Snapshot {
            preview_scroll: self.preview_scroll,
            preview_h_scroll: self.preview_h_scroll,
            diff_scroll: self.diff_scroll,
            diff_h_scroll: self.diff_h_scroll,
            commit_detail_scroll: self.commit_detail_scroll,
            graph_diff_scroll: self.graph_diff_scroll,
            file_tree_selected: self.file_tree_selected,
            tree_scroll: self.tree_scroll,
            git_status_scroll: self.git_status_scroll,
            git_status_selected_file: self.git_status_selected_file.clone(),
            git_graph_selected_idx: self.git_graph_selected_idx,
            git_graph_scroll: self.git_graph_scroll,
        }
    }
}

/// What the status bar says after a step: it went past the top or the bottom.
#[derive(Debug, Clone, Copy, PartialEq, Eq, Structural)]
pub enum WrapMsg {
    Top,
    Bottom,
    NoMatch,
}

#[derive(Debug)]
pub struct SearchState {
    pub active: bool,
    pub backwards: bool,
    pub query: String,
    pub cursor: usize,
    pub target: Option<SearchTarget>,
    pub matches: Vec<MatchLoc>,
    pub current: Option<usize>,
    pub snapshot: Option<Snapshot>,
    pub wrap_msg: Option<WrapMsg>,
}

impl Default for SearchState {
    fn default() -> (r: Self)
        ensures
            r.is_blank(),
    {
        SearchState {
            active: false,
            backwards: false,
            query: String::new(),
            cursor: 0,
            target: None,
            matches: Vec::new(),
            current: None,
            snapshot: None,
            wrap_msg: None,
        }
    }
}

/// The matches on one row, in their order.
pub open spec fn on_row(matches: Seq<MatchLoc>, row: usize) -> Seq<Range<usize>>
    decreases matches.len(),
{
    if matches.len() == 0 {
        Seq::empty()
    } else {
        let rest = on_row(matches.drop_last(), row);
        if matches.last().row == row {
            rest.push(matches.last().byte_range)
        } else {
            rest
        }
    }
}

fn copy_range(r: &Range<usize>) -> (c: Range<usize>)
    ensures
        c == *r,
{
    Range { start: r.start, end: r.end }
}

impl SearchState {
    /// No search was made.
    pub open spec fn is_blank(self) -> bool {
        &&& self.query@.len() == 0
        &&& self.matches@.len() == 0
        &&& self == (SearchState {
            active: false,
            backwards: false,
            query: self.query,
            cursor: 0,
            target: None,
            matches: self.matches,
            current: None,
            snapshot: None,
            wrap_msg: None,
        })
    }

    /// Whether the next and previous keys do anything: a search with matches
    /// was confirmed.
    pub fn can_step(&self) -> (r: bool)
        ensures
            r == (!self.active && self.matches@.len() > 0 && self.target is Some),
    {
        !self.active && self.matches.len() > 0 && self.target.is_some()
    }

    /// The matches to highlight on a row of `target`, and the current one if
    /// it is on that row.
    pub fn ranges_on_row(&self, target: SearchTarget, row: usize) -> (r: (
        Vec<Range<usize>>,
        Option<Range<usize>>,
    ))
        ensures
            if self.target == Some(target) {
                &&& r.0@ == on_row(self.matches@, row)
                &&& r.1 == (match self.current {
                    Some(i) => if i < self.matches@.len() && self.matches@[i as int].row == row {
                        Some(self.matches@[i as int].byte_range)
                    } else {
                        None
                    },
                    None => None,
                })
            } else {
                r.0@.len() == 0 && r.1 is None
            },
    {
        let mut all: Vec<Range<usize>> = Vec::new();
        let mut cur: Option<Range<usize>> = None;
        let wanted = match self.target {
            Some(t) => t == target,
            None => false,
        };
        if !wanted {
            return (all, cur);
        }
        let n: usize = self.matches.len();
        let mut i: usize = 0;
        assert(all@ =~= on_row(self.matches@.take(0), row));
        while i < n
            invariant
                i <= n == self.matches@.len(),
                all@ == on_row(self.matches@.take(i as int), row),
                cur == (match self.current {
                    Some(c) => if c < i && self.matches@[c as int].row == row {
                        Some(self.matches@[c as int].byte_range)
                    } else {
                        None
                    },
                    None => None,
                }),
            decreases n - i,
        {
            assert(self.matches@.take(i + 1).drop_last() =~= self.matches@.take(i as int));
            if self.matches[i].row == row {
                let is_current = match self.current {
                    Some(c) => c == i,
                    None => false,
                };
                if is_current {
                    cur = Some(copy_range(&self.matches[i].byte_range));
                }
                all.push(copy_range(&self.matches[i].byte_range));
            }
            i = i + 1;
        }
        assert(self.matches@.take(n as int) =~= self.matches@);
        (all, cur)
    }

    pub fn clear(&mut self)
        ensures
            final(self).is_blank(),
    {
        *self = SearchState::default();
    }

    /// The match that a step leads to, and whether it went round.
    pub open spec fn stepped(self, reverse: bool) -> (int, bool) {
        let n = self.matches@.len() as int;
        let cur = match self.current {
            Some(c) => c as int,
            None => 0,
        };
        if self.backwards != reverse {
            if cur == 0 {
                (n - 1, true)
            } else {
                (cur - 1, false)
            }
        } else if cur + 1 >= n {
            (0, true)
        } else {
            (cur + 1, false)
        }
    }

    /// The state after a step. `N` goes the other way round than `n`.
    pub open spec fn after_step(self, reverse: bool) -> Self {
        if self.matches@.len() == 0 {
            self
        } else {
            let (next, wrapped) = self.stepped(reverse);
            SearchState {
                current: Some(next as usize),
                wrap_msg: if wrapped {
                    Some(
                        if self.backwards != reverse {
                            WrapMsg::Top
                        } else {
                            WrapMsg::Bottom
                        },
                    )
                } else {
                    None
                },
                ..self
            }
        }
    }

    /// Steps to the next match, or the previous one. Says whether there was
    /// one to step to.
    pub fn step_current(&mut self, reverse: bool) -> (r: bool)
        ensures
            *final(self) == old(self).after_step(reverse),
            r == (old(self).matches@.len() > 0),
    {
        let n: usize = self.matches.len();
        if n == 0 {
            return false;
        }
        let go_back = self.backwards != reverse;
        let cur: usize = match self.current {
            Some(c) => c,
            None => 0,
        };
        let mut wrapped = false;
        let next: usize = if go_back {
            if cur == 0 {
                wrapped = true;
                n - 1
            } else {
                cur - 1
            }
        } else if cur >= n - 1 {
            wrapped = true;
            0
        } else {
            cur + 1
        };
        self.current = Some(next);
        self.wrap_msg = if wrapped {
            Some(
                if go_back {
                    WrapMsg::Top
                } else {
                    WrapMsg::Bottom
                },
            )
        } else {
            None
        };
        true
    }

    // ── Which match is current ───────────────────────────────────────────
    /// The last match that is not below the row, counting from the first one
    /// on without a gap.
    pub open spec fn last_upto(matches: Seq<MatchLoc>, row: usize, i: int) -> Option<int>
        decreases matches.len() - i,
    {
        if i < 0 || i >= matches.len() || matches[i].row > row {
            if i > 0 {
                Some(i - 1)
            } else {
                None
            }
        } else {
            Self::last_upto(matches, row, i + 1)
        }
    }

    /// The first match at or below the row.
    pub open spec fn first_from(matches: Seq<MatchLoc>, row: usize, i: int) -> Option<int>
        decreases matches.len() - i,
    {
        if i < 0 || i >= matches.len() {
            None
        } else if matches[i].row >= row {
            Some(i)
        } else {
            Self::first_from(matches, row, i + 1)
        }
    }

    /// The match that a new set of matches starts at: the nearest in the
    /// direction of the search, seen from where the search began, else the
    /// one at the far end.
    pub open spec fn start_match(self, row: usize) -> Option<usize> {
        let n = self.matches@.len();
        if n == 0 {
            None
        } else if self.backwards {
            match Self::last_upto(self.matches@, row, 0) {
                Some(i) => Some(i as usize),
                None => Some((n - 1) as usize),
            }
        } else {
            match Self::first_from(self.matches@, row, 0) {
                Some(i) => Some(i as usize),
                None => Some(0),
            }
        }
    }

    pub fn pick_current(&self, baseline_row: usize) -> (r: Option<usize>)
        ensures
            r == self.start_match(baseline_row),
    {
        let n: usize = self.matches.len();
        if n == 0 {
            return None;
        }
        let mut i: usize = 0;
        if self.backwards {
            while i < n && self.matches[i].row <= baseline_row
                invariant
                    i <= n == self.matches@.len(),
                    Self::last_upto(self.matches@, baseline_row, i as int) == Self::last_upto(
                        self.matches@,
                        baseline_row,
                        0,
                    ),
                decreases n - i,
            {
                i = i + 1;
            }
            if i > 0 {
                Some(i - 1)
            } else {
                Some(n - 1)
            }
        } else {
            while i < n && self.matches[i].row < baseline_row
                invariant
                    i <= n == self.matches@.len(),
                    Self::first_from(self.matches@, baseline_row, i as int) == Self::first_from(
                        self.matches@,
                        baseline_row,
                        0,
                    ),
                decreases n - i,
            {
                i = i + 1;
            }
            if i < n {
                Some(i)
            } else {
                Some(0)
            }
        }
    }
}

// ── Where a search begins, and where it scrolls ──────────────────────────

/// The row that the nearest match is sought from.
pub open spec fn start_row(target: SearchTarget, snap: Snapshot) -> usize {
    match target {
        SearchTarget::FileTree => snap.file_tree_selected,
        SearchTarget::GitStatus => snap.git_status_scroll,
        SearchTarget::CommitGraph => snap.git_graph_selected_idx,
        SearchTarget::FilePreview => snap.preview_scroll,
        SearchTarget::Diff => snap.diff_scroll,
        SearchTarget::GraphDiff => snap.graph_diff_scroll,
        SearchTarget::CommitDetail => snap.commit_detail_scroll,
    }
}

pub fn baseline_row(target: SearchTarget, snap: &Snapshot) -> (r: usize)
    ensures
        r == start_row(target, *snap),
{
    match target {
        SearchTarget::FileTree => snap.file_tree_selected,
        SearchTarget::GitStatus => snap.git_status_scroll,
        SearchTarget::CommitGraph => snap.git_graph_selected_idx,
        SearchTarget::FilePreview => snap.preview_scroll,
        SearchTarget::Diff => snap.diff_scroll,
        SearchTarget::GraphDiff => snap.graph_diff_scroll,
        SearchTarget::CommitDetail => snap.commit_detail_scroll,
    }
}

/// The scroll position that shows `row` in the middle of `view_h` rows.
pub open spec fn centered(row: usize, view_h: usize) -> usize {
    if view_h <= 1 {
        row
    } else if row >= view_h / 2 {
        (row - view_h / 2) as usize
    } else {
        0
    }
}

pub fn center_scroll(row: usize, view_h: usize) -> (r: usize)
    ensures
        r == centered(row, view_h),
{
    if view_h <= 1 {
        return row;
    }
    row.saturating_sub(view_h / 2)
}

/// What the focused panel has to search in. The middle column is only there
/// on the graph tab, and the list of hits is searched otherwise.
pub open spec fn target_of(tab: Tab, panel: Panel, three_col: bool) -> Option<SearchTarget> {
    match (tab, panel) {
        (Tab::Files, Panel::Files) => Some(SearchTarget::FileTree),
        (Tab::Files, Panel::Diff) => Some(SearchTarget::FilePreview),
        (Tab::Git, Panel::Files) => Some(SearchTarget::GitStatus),
        (Tab::Git, Panel::Diff) => Some(SearchTarget::Diff),
        (Tab::Graph, Panel::Files) => Some(SearchTarget::CommitGraph),
        (Tab::Graph, Panel::Commit) => Some(SearchTarget::CommitDetail),
        (Tab::Graph, Panel::Diff) => Some(
            if three_col {
                SearchTarget::GraphDiff
            } else {
                SearchTarget::CommitDetail
            },
        ),
        (Tab::Search, Panel::Diff) => Some(SearchTarget::FilePreview),
        (Tab::Search, Panel::Files) => None,
        (_, Panel::Commit) => None,
    }
}

pub fn resolve_target(tab: Tab, panel: Panel, three_col: bool) -> (r: Option<SearchTarget>)
    ensures
        r == target_of(tab, panel, three_col),
{
    match (tab, panel) {
        (Tab::Files, Panel::Files) => Some(SearchTarget::FileTree),
        (Tab::Files, Panel::Diff) => Some(SearchTarget::FilePreview),
        (Tab::Git, Panel::Files) => Some(SearchTarget::GitStatus),
        (Tab::Git, Panel::Diff) => Some(SearchTarget::Diff),
        (Tab::Graph, Panel::Files) => Some(SearchTarget::CommitGraph),
        (Tab::Graph, Panel::Commit) => Some(SearchTarget::CommitDetail),
        (Tab::Graph, Panel::Diff) => Some(
            if three_col {
                SearchTarget::GraphDiff
            } else {
                SearchTarget::CommitDetail
            },
        ),
        (Tab::Search, Panel::Diff) => Some(SearchTarget::FilePreview),
        (Tab::Search, Panel::Files) => None,
        (_, Panel::Commit) => None,
    }
}

/// The rows of a hunk: its header and its lines.
pub open spec fn hunk_rows(h: crate::git::DiffHunk) -> Seq<Seq<char>> {
    seq![h.header@] + h.lines@.map_values(|l: crate::git::DiffLine| l.content@)
}

/// The rows of a diff as they are shown: its hunks, with an empty row between
/// two of them.
pub open spec fn diff_rows(hunks: Seq<crate::git::DiffHunk>) -> Seq<Seq<char>>
    decreases hunks.len(),
{
    if hunks.len() == 0 {
        Seq::empty()
    } else {
        let rest = diff_rows(hunks.drop_last());
        let sep = if hunks.len() > 1 {
            seq![Seq::<char>::empty()]
        } else {
            Seq::empty()
        };
        rest + sep + hunk_rows(hunks.last())
    }
}

fn push_row(rows: &mut Vec<String>, row: String)
    ensures
        views(final(rows)@) == views(old(rows)@).push(row@),
{
    rows.push(row);
    assert(views(rows@) =~= views(old(rows)@).push(row@));
}

pub fn unified_display_rows(diff: &DiffContent) -> (r: Vec<String>)
    ensures
        views(r@) == diff_rows(diff.hunks@),
{
    let mut rows: Vec<String> = Vec::new();
    let mut i: usize = 0;
    let n: usize = diff.hunks.len();
    assert(views(rows@) =~= diff_rows(diff.hunks@.take(0)));
    while i < n
        invariant
            i <= n == diff.hunks@.len(),
            views(rows@) == diff_rows(diff.hunks@.take(i as int)),
        decreases n - i,
    {
        let ghost before = views(rows@);
        let ghost part = diff.hunks@.take(i + 1);
        assert(part.drop_last() =~= diff.hunks@.take(i as int));
        if i > 0 {
            push_row(&mut rows, String::new());
        }
        push_row(&mut rows, diff.hunks[i].header.clone());
        let ghost sep = if i > 0 {
            seq![Seq::<char>::empty()]
        } else {
            Seq::empty()
        };
        let ghost head = before + sep + seq![diff.hunks@[i as int].header@];
        let lines = &diff.hunks[i].lines;
        let mut j: usize = 0;
        assert(views(rows@) =~= head + lines@.take(0).map_values(
            |l: crate::git::DiffLine| l.content@,
        ));
        while j < lines.len()
            invariant
                j <= lines@.len(),
                views(rows@) == head + lines@.take(j as int).map_values(
                    |l: crate::git::DiffLine| l.content@,
                ),
            decreases lines@.len() - j,
        {
            push_row(&mut rows, lines[j].content.clone());
            j = j + 1;
            assert(views(rows@) =~= head + lines@.take(j as int).map_values(
                |l: crate::git::DiffLine| l.content@,
            ));
        }
        assert(lines@.take(lines@.len() as int) =~= lines@);
        i = i + 1;
        assert(views(rows@) =~= diff_rows(part));
    }
    assert(diff.hunks@.take(n as int) =~= diff.hunks@);
    rows
}

// ── Finding ──────────────────────────────────────────────────────────────

/// Whether a character is upper case by Unicode's rules.
pub uninterp spec fn uppercase_char(c: char) -> bool;

/// `char::is_uppercase`: whether the character has Unicode's property
/// Uppercase. Among the ASCII characters those are the letters A to Z.
#[verifier::external_body]
fn is_uppercase(c: char) -> (r: bool)
    ensures
        r == uppercase_char(c),
        (c as u32) < 128 ==> r == ('A' <= c <= 'Z'),
{
    c.is_uppercase()
}

/// A query without capitals is searched in any case.
pub open spec fn any_case(query: Seq<char>) -> bool {
    forall|i: int| 0 <= i < query.len() ==> !uppercase_char(#[trigger] query[i])
}

pub fn smart_case(query: &str) -> (r: bool)
    ensures
        r == any_case(query@),
{
    let v = chars_of(query);
    let mut i: usize = 0;
    while i < v.len()
        invariant
            i <= v@.len(),
            v@ == query@,
            forall|j: int| 0 <= j < i ==> !uppercase_char(#[trigger] v@[j]),
        decreases v@.len() - i,
    {
        if is_uppercase(v[i]) {
            assert(uppercase_char(query@[i as int]));
            return false;
        }
        i = i + 1;
    }
    true
}

/// An ASCII capital as its small letter, any other byte as it is.
pub open spec fn lower(b: u8) -> u8 {
    if 65 <= b <= 90 {
        (b + 32) as u8
    } else {
        b
    }
}

fn lowered(b: u8) -> (r: u8)
    ensures
        r == lower(b),
{
    if 65 <= b && b <= 90 {
        b + 32
    } else {
        b
    }
}

pub open spec fn same_byte(a: u8, b: u8, any_case: bool) -> bool {
    if any_case {
        lower(a) == lower(b)
    } else {
        a == b
    }
}

/// The needle stands at the byte `i`.
pub open spec fn found_at(h: Seq<u8>, n: Seq<u8>, i: int, any_case: bool) -> bool {
    0 <= i && i + n.len() <= h.len() && forall|k: int|
        0 <= k < n.len() ==> same_byte(#[trigger] h[i + k], n[k], any_case)
}

/// The places of the needle from the byte `i` on: the first one, then those
/// behind its end.
pub open spec fn places(h: Seq<u8>, n: Seq<u8>, i: int, any_case: bool) -> Seq<int>
    decreases h.len() - i,
{
    if n.len() == 0 || i < 0 || i + n.len() > h.len() {
        Seq::empty()
    } else if found_at(h, n, i, any_case) {
        seq![i] + places(h, n, i + n.len(), any_case)
    } else {
        places(h, n, i + 1, any_case)
    }
}

/// The ranges of a needle of `len` bytes at these places.
pub open spec fn are_ranges(r: Seq<Range<usize>>, at: Seq<int>, len: nat) -> bool {
    r.len() == at.len() && forall|k: int|
        0 <= k < r.len() ==> (#[trigger] r[k]).start == at[k] && r[k].end == at[k] + len
}

fn stands_at(h: &[u8], n: &[u8], i: usize, any_case: bool) -> (r: bool)
    requires
        i + n@.len() <= h@.len(),
    ensures
        r == found_at(h@, n@, i as int, any_case),
{
    let len: usize = h.len();
    let mut k: usize = 0;
    while k < n.len()
        invariant
            k <= n@.len(),
            len == h@.len(),
            i + n@.len() <= len,
            forall|j: int| 0 <= j < k ==> same_byte(#[trigger] h@[i + j], n@[j], any_case),
        decreases n@.len() - k,
    {
        let a: u8 = h[i + k];
        let b: u8 = n[k];
        let same = if any_case {
            lowered(a) == lowered(b)
        } else {
            a == b
        };
        if !same {
            assert(!same_byte(h@[i + k], n@[k as int], any_case));
            return false;
        }
        k = k + 1;
    }
    true
}

/// Every place of `needle` in `haystack`, from left to right and without
/// overlaps, as byte ranges. An empty needle is nowhere.
pub fn find_all(haystack: &str, needle: &str, case_insensitive: bool) -> (r: Vec<Range<usize>>)
    ensures
        are_ranges(
            r@,
            places(encode_utf8(haystack@), encode_utf8(needle@), 0, case_insensitive),
            encode_utf8(needle@).len(),
        ),
{
    let h = haystack.as_bytes();
    let n = needle.as_bytes();
    let len: usize = h.len();
    let m: usize = n.len();
    let mut out: Vec<Range<usize>> = Vec::new();
    if m == 0 || m > len {
        return out;
    }
    let mut i: usize = 0;
    let ghost all = places(h@, n@, 0, case_insensitive);
    let ghost mut done = Seq::<int>::empty();
    assert(done + all =~= all);
    while len - i >= m
        invariant
            h@ == encode_utf8(haystack@),
            n@ == encode_utf8(needle@),
            len == h@.len(),
            m == n@.len(),
            0 < m <= len,
            i <= len,
            all == places(h@, n@, 0, case_insensitive),
            done + places(h@, n@, i as int, case_insensitive) == all,
            are_ranges(out@, done, m as nat),
        decreases len - i,
    {
        if stands_at(h, n, i, case_insensitive) {
            out.push(Range { start: i, end: i + m });
            proof {
                assert(done + places(h@, n@, i as int, case_insensitive) =~= done.push(i as int)
                    + places(h@, n@, i + m, case_insensitive));
                done = done.push(i as int);
            }
            i = i + m;
        } else {
            i = i + 1;
        }
    }
    assert(done + places(h@, n@, i as int, case_insensitive) =~= done);
    out
}

/// The matches of a query in rows, from the row `first` on.
pub open spec fn row_matches(rows: Seq<Seq<char>>, query: Seq<char>) -> Seq<(int, int)>
    decreases rows.len(),
{
    if rows.len() == 0 {
        Seq::empty()
    } else {
        let rest = row_matches(rows.drop_last(), query);
        let row = rows.len() - 1;
        let at = places(
            encode_utf8(rows.last()),
            encode_utf8(query),
            0,
            any_case(query),
        );
        rest + at.map_values(|p: int| (row, p))
    }
}

/// `m` are these matches of a needle of `len` bytes.
pub open spec fn are_matches(m: Seq<MatchLoc>, at: Seq<(int, int)>, len: nat) -> bool {
    m.len() == at.len() && forall|k: int|
        0 <= k < m.len() ==> (#[trigger] m[k]).row == at[k].0 && m[k].byte_range.start == at[k].1
            && m[k].byte_range.end == at[k].1 + len
}

/// Every match of the query, row by row.
pub fn find_in_rows(rows: &Vec<String>, query: &str) -> (r: Vec<MatchLoc>)
    ensures
        are_matches(r@, row_matches(views(rows@), query@), encode_utf8(query@).len()),
{
    let case_insensitive = smart_case(query);
    let ghost all = views(rows@);
    let ghost len = encode_utf8(query@).len();
    let mut out: Vec<MatchLoc> = Vec::new();
    let mut i: usize = 0;
    while i < rows.len()
        invariant
            i <= rows@.len(),
            all == views(rows@),
            len == encode_utf8(query@).len(),
            case_insensitive == any_case(query@),
            are_matches(out@, row_matches(all.take(i as int), query@), len),
        decreases rows@.len() - i,
    {
        let found = find_all(rows[i].as_str(), query, case_insensitive);
        let ghost at = places(
            encode_utf8(all[i as int]),
            encode_utf8(query@),
            0,
            case_insensitive,
        );
        let ghost before = out@;
        let ghost base = row_matches(all.take(i as int), query@);
        proof {
            assert(all.take(i + 1).drop_last() =~= all.take(i as int));
            assert(all.take(i + 1).last() == all[i as int]);
            assert(all[i as int] == rows@[i as int]@);
        }
        let mut j: usize = 0;
        while j < found.len()
            invariant
                j <= found@.len(),
                are_ranges(found@, at, len),
                out@.len() == before.len() + j,
                before.len() == base.len(),
                forall|k: int| 0 <= k < before.len() ==> #[trigger] out@[k] == before[k],
                forall|k: int|
                    before.len() <= k < out@.len() ==> (#[trigger] out@[k]).row == i
                        && out@[k].byte_range == found@[k - before.len()],
            decreases found@.len() - j,
        {
            out.push(MatchLoc { row: i, byte_range: copy_range(&found[j]) });
            j = j + 1;
        }
        proof {
            let now = row_matches(all.take(i + 1), query@);
            assert(now == base + at.map_values(|p: int| (i as int, p)));
            assert forall|k: int| 0 <= k < out@.len() implies (#[trigger] out@[k]).row == now[k].0
                && out@[k].byte_range.start == now[k].1 && out@[k].byte_range.end == now[k].1
                + len by {
                if k < base.len() {
                    assert(out@[k] == before[k]);
                } else {
                    assert(out@[k].byte_range == found@[k - base.len()]);
                    assert(now[k] == (i as int, at[k - base.len()]));
                }
            }
        }
        i = i + 1;
    }
    assert(all.take(all.len() as int) =~= all);
    out
}

// ── Laws ─────────────────────────────────────────────────────────────────

/// The places of a needle are in order, do not overlap, and each holds the
/// needle.
pub proof fn law_matches_are_disjoint(h: Seq<u8>, n: Seq<u8>, i: int, ci: bool, a: int, b: int)
    requires
        0 <= i,
        0 <= a < b < places(h, n, i, ci).len(),
    ensures
        places(h, n, i, ci)[a] + n.len() <= places(h, n, i, ci)[b],
        found_at(h, n, places(h, n, i, ci)[a], ci),
        found_at(h, n, places(h, n, i, ci)[b], ci),
    decreases h.len() - i,
{
    lemma_places(h, n, i, ci);
    let p = places(h, n, i, ci);
    if found_at(h, n, i, ci) {
        let rest = places(h, n, i + n.len(), ci);
        lemma_places(h, n, i + n.len(), ci);
        if a > 0 {
            law_matches_are_disjoint(h, n, i + n.len(), ci, a - 1, b - 1);
        } else {
            assert(p[b] == rest[b - 1]);
        }
    } else {
        law_matches_are_disjoint(h, n, i + 1, ci, a, b);
    }
}

proof fn lemma_places(h: Seq<u8>, n: Seq<u8>, i: int, ci: bool)
    requires
        0 <= i,
    ensures
        forall|k: int|
            0 <= k < places(h, n, i, ci).len() ==> i <= #[trigger] places(h, n, i, ci)[k]
                && found_at(h, n, places(h, n, i, ci)[k], ci),
    decreases h.len() - i,
{
    if n.len() == 0 || i + n.len() > h.len() {
    } else if found_at(h, n, i, ci) {
        lemma_places(h, n, i + n.len(), ci);
        let rest = places(h, n, i + n.len(), ci);
        assert forall|k: int| 0 <= k < places(h, n, i, ci).len() implies i <= #[trigger] places(
            h,
            n,
            i,
            ci,
        )[k] && found_at(h, n, places(h, n, i, ci)[k], ci) by {
            if k > 0 {
                assert(places(h, n, i, ci)[k] == rest[k - 1]);
            }
        }
    } else {
        lemma_places(h, n, i + 1, ci);
        assert(places(h, n, i, ci) == places(h, n, i + 1, ci));
    }
}

/// No occurrence is missed: wherever the needle stands, one of the places
/// found overlaps it.
pub proof fn law_no_occurrence_is_missed(h: Seq<u8>, n: Seq<u8>, i: int, ci: bool, p: int)
    requires
        0 <= i <= p,
        n.len() > 0,
        found_at(h, n, p, ci),
    ensures
        exists|k: int|
            0 <= k < places(h, n, i, ci).len() && #[trigger] places(h, n, i, ci)[k] <= p && p
                < places(h, n, i, ci)[k] + n.len(),
    decreases h.len() - i,
{
    let all = places(h, n, i, ci);
    if found_at(h, n, i, ci) {
        if p < i + n.len() {
            assert(all[0] == i);
        } else {
            law_no_occurrence_is_missed(h, n, i + n.len(), ci, p);
            let rest = places(h, n, i + n.len(), ci);
            let k = choose|k: int|
                0 <= k < rest.len() && #[trigger] rest[k] <= p && p < rest[k] + n.len();
            assert(all[k + 1] == rest[k]);
        }
    } else {
        law_no_occurrence_is_missed(h, n, i + 1, ci, p);
    }
}

/// A match starts and ends between two characters of its row, so it can be
/// cut out of the text.
pub proof fn law_matches_cut_at_characters(
    row: Seq<char>,
    query: Seq<char>,
    ci: bool,
    k: int,
)
    requires
        0 <= k < places(encode_utf8(row), encode_utf8(query), 0, ci).len(),
    ensures
        ({
            let p = places(encode_utf8(row), encode_utf8(query), 0, ci)[k];
            &&& is_char_boundary(encode_utf8(row), p)
            &&& is_char_boundary(encode_utf8(row), p + encode_utf8(query).len())
        }),
{
    let h = encode_utf8(row);
    let n = encode_utf8(query);
    encode_utf8_valid_utf8(row);
    encode_utf8_valid_utf8(query);
    lemma_places(h, n, 0, ci);
    let p = places(h, n, 0, ci)[k];
    assert(found_at(h, n, p, ci));
    assert(n.len() > 0);
    is_char_boundary_start_end_of_seq(n);
    is_char_boundary_iff_not_is_continuation_byte(n, 0);
    assert(same_byte(h[p + 0], n[0], ci));
    is_char_boundary_iff_not_is_continuation_byte(h, p);
    let t = h.subrange(p, h.len() as int);
    valid_utf8_split(h, p);
    assert forall|j: int| 0 <= j < n.len() implies lower(#[trigger] t[j]) == lower(n[j]) by {
        assert(same_byte(h[p + j], n[j], ci));
    }
    lemma_boundary_behind(t, n);
    lemma_boundary_in_tail(h, p, n.len() as int);
}

/// Behind a valid text stands a boundary of any valid text that starts with
/// it, up to case.
proof fn lemma_boundary_behind(t: Seq<u8>, n: Seq<u8>)
    requires
        valid_utf8(t),
        valid_utf8(n),
        n.len() <= t.len(),
        forall|j: int| 0 <= j < n.len() ==> lower(#[trigger] t[j]) == lower(n[j]),
    ensures
        is_char_boundary(t, n.len() as int),
    decreases n.len(),
{
    if n.len() == 0 {
        is_char_boundary_start_end_of_seq(t);
    } else {
        let k = length_of_first_scalar(n);
        assert(lower(t[0]) == lower(n[0]));
        assert(length_of_first_scalar(t) == k);
        let t2 = pop_first_scalar(t);
        let n2 = pop_first_scalar(n);
        assert(t2 =~= t.subrange(k, t.len() as int));
        assert(n2 =~= n.subrange(k, n.len() as int));
        assert forall|j: int| 0 <= j < n2.len() implies lower(#[trigger] t2[j]) == lower(n2[j]) by {
            assert(lower(t[j + k]) == lower(n[j + k]));
        }
        lemma_boundary_behind(t2, n2);
    }
}

/// A boundary of the rest of a text, behind one of its boundaries, is a
/// boundary of the text.
proof fn lemma_boundary_in_tail(h: Seq<u8>, p: int, m: int)
    requires
        valid_utf8(h),
        is_char_boundary(h, p),
        0 <= p <= h.len(),
        0 <= m,
        p + m <= h.len(),
        is_char_boundary(h.subrange(p, h.len() as int), m),
    ensures
        is_char_boundary(h, p + m),
    decreases h.len(),
{
    let t = h.subrange(p, h.len() as int);
    if p == 0 {
        assert(t =~= h);
    } else {
        let k = length_of_first_scalar(h);
        let h2 = pop_first_scalar(h);
        assert(is_char_boundary(h2, p - k));
        assert(h2.len() == h.len() - k);
        if p < k {
            assert(p - k < 0);
            assert(!is_char_boundary(h2, p - k));
        }
        assert(h2.subrange(p - k, h2.len() as int) =~= t);
        lemma_boundary_in_tail(h2, p - k, m);
    }
}

/// A step and a step back lead to the match they started from.
pub proof fn law_step_back_undoes_step(s: SearchState, reverse: bool)
    requires
        s.current matches Some(c) && c < s.matches@.len(),
        s.matches@.len() <= usize::MAX,
    ensures
        s.after_step(reverse).after_step(!reverse).current == s.current,
{
}

/// Stepping leads round the matches: a step ends on a match, the step forward
/// from the last one on the first, the step back from the first on the last,
/// and it is these two that say they went round. A search that began backwards
/// steps the other way.
pub proof fn law_steps_stay_inside(s: SearchState, reverse: bool)
    requires
        s.matches@.len() > 0,
        s.matches@.len() <= usize::MAX,
        s.current matches Some(c) && c < s.matches@.len(),
    ensures
        s.after_step(reverse).current matches Some(c) && c < s.matches@.len(),
        s.backwards == reverse && s.current == Some((s.matches@.len() - 1) as usize)
            ==> s.after_step(reverse).current == Some(0usize),
        s.backwards != reverse && s.current == Some(0usize) ==> s.after_step(reverse).current
            == Some((s.matches@.len() - 1) as usize),
        s.after_step(reverse).wrap_msg is Some <==> s.current == Some(
            if s.backwards == reverse {
                (s.matches@.len() - 1) as usize
            } else {
                0usize
            },
        ),
{
}

} // verus!
