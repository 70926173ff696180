//! The search over all files: when it runs, how its hits are kept, and the
//! replacement of what it found. Times are milliseconds on one clock.
use crate::effects::{Effect, Effects, Notice, ReplaceCounts, ToastLevel};
use crate::layout::Tab;
use crate::loads::AsyncState;
use crate::order::{sort, sorted, Ordered};
use crate::paths::{
    ascending, clean, cleaned, insert_path, lemma_cleaned, lemma_path_total,
    lemma_path_transitive, path_le, path_not_after, same_path, same_paths,
};
use crate::preview_pane::PreviewHighlight;
use crate::text::{same_str, views};
use core::ops::Range;
use vstd::prelude::*;
use vstd::string::*;

verus! {

#[derive(Debug)]
pub struct SearchHit {
    pub path: String,
    pub line: usize,
    pub line_text: String,
    pub byte_range: Range<usize>,
}

/// Hits stand in the order of their paths, and in one file in the order of
/// their lines.
impl Ordered for SearchHit {
    open spec fn le(a: Self, b: Self) -> bool {
        if same_path(a.path@, b.path@) {
            a.line <= b.line
        } else {
            path_le(cleaned(a.path@), cleaned(b.path@))
        }
    }

    proof fn total(a: Self, b: Self) {
        lemma_path_total(cleaned(a.path@), cleaned(b.path@));
    }

    proof fn transitive(a: Self, b: Self, c: Self) {
        let (x, y, z) = (cleaned(a.path@), cleaned(b.path@), cleaned(c.path@));
        lemma_path_total(x, y);
        lemma_path_total(y, z);
        if x != y && y != z {
            lemma_path_transitive(x, y, z);
        }
    }

    fn not_after(&self, other: &Self) -> (r: bool) {
        let a = clean(self.path.as_str());
        let b = clean(other.path.as_str());
        if same_str(a.as_str(), b.as_str()) {
            self.line <= other.line
        } else {
            path_not_after(a.as_str(), b.as_str())
        }
    }
}

/// Which part of the search panel takes the keys.
#[derive(Debug, Clone, Copy, PartialEq, Eq, Structural)]
pub enum SearchPanelFocus {
    FindInput,
    ReplaceInput,
    List,
}

#[derive(Debug)]
pub struct GlobalSearch {
    pub query: String,
    pub last_searched_query: String,
    pub last_keystroke_at: Option<u64>,
    pub preview_sync_at: Option<u64>,
    pub results: Vec<SearchHit>,
    pub truncated: bool,
    pub selected: usize,
    pub scroll: usize,
    pub results_h_scroll: usize,
    pub focus: SearchPanelFocus,
    pub replace_open: bool,
    pub replace_text: String,
    pub replace_progress: Option<(usize, usize)>,
    pub global_search_load: AsyncState,
    pub replace_load: AsyncState,
}

#[derive(Debug)]
pub struct ReplaceLine {
    pub line_no: usize,
    pub expected_text: String,
}

/// The lines of one file that are to be rewritten.
#[derive(Debug)]
pub struct ReplaceItem {
    pub path: String,
    pub lines: Vec<ReplaceLine>,
}

/// A replacement for the host to carry out.
#[derive(Debug)]
pub struct ReplaceJob {
    pub generation: u64,
    pub query: String,
    pub replace_text: String,
    pub items: Vec<ReplaceItem>,
}

/// The hit `i` is to be replaced.
pub open spec fn is_included(included: Seq<bool>, i: int) -> bool {
    i < included.len() && included[i]
}

/// The lines of `path`, in its clean spelling, that are to be replaced, in the
/// order of the hits.
pub open spec fn lines_in(hits: Seq<SearchHit>, included: Seq<bool>, path: Seq<char>) -> Seq<ReplaceLine>
    decreases hits.len(),
{
    if hits.len() == 0 {
        Seq::empty()
    } else {
        let rest = lines_in(hits.drop_last(), included, path);
        let h = hits.last();
        if is_included(included, hits.len() - 1) && cleaned(h.path@) == path {
            rest.push(ReplaceLine { line_no: h.line, expected_text: h.line_text })
        } else {
            rest
        }
    }
}

fn collect_lines(hits: &Vec<SearchHit>, included: &Vec<bool>, path: &str) -> (r: Vec<ReplaceLine>)
    ensures
        r@ == lines_in(hits@, included@, path@),
{
    let mut out: Vec<ReplaceLine> = Vec::new();
    let mut i: usize = 0;
    assert(out@ =~= lines_in(hits@.take(0), included@, path@));
    while i < hits.len()
        invariant
            i <= hits@.len(),
            out@ == lines_in(hits@.take(i as int), included@, path@),
        decreases hits@.len() - i,
    {
        assert(hits@.take(i + 1).drop_last() =~= hits@.take(i as int));
        if i < included.len() && included[i] && same_str(
            clean(hits[i].path.as_str()).as_str(),
            path,
        ) {
            out.push(
                ReplaceLine { line_no: hits[i].line, expected_text: hits[i].line_text.clone() },
            );
        }
        i = i + 1;
    }
    assert(hits@.take(hits@.len() as int) =~= hits@);
    out
}

/// A hit that is to be replaced is in `path`, in its clean spelling.
pub open spec fn touches(hits: Seq<SearchHit>, included: Seq<bool>, path: Seq<char>) -> bool {
    exists|k: int|
        0 <= k < hits.len() && is_included(included, k) && cleaned((#[trigger] hits[k]).path@)
            == path
}

fn touched_paths(hits: &Vec<SearchHit>, included: &Vec<bool>) -> (r: Vec<String>)
    ensures
        ascending(views(r@)),
        forall|p: Seq<char>| views(r@).contains(p) == touches(hits@, included@, p),
{
    let mut out: Vec<String> = Vec::new();
    let mut i: usize = 0;
    assert forall|p: Seq<char>| views(out@).contains(p) == touches(
        hits@.take(0),
        included@,
        p,
    ) by {}
    while i < hits.len()
        invariant
            i <= hits@.len(),
            ascending(views(out@)),
            forall|p: Seq<char>|
                views(out@).contains(p) == touches(hits@.take(i as int), included@, p),
        decreases hits@.len() - i,
    {
        let ghost was = views(out@);
        let wanted = i < included.len() && included[i];
        if wanted {
            insert_path(&mut out, clean(hits[i].path.as_str()));
        }
        proof {
            let old_part = hits@.take(i as int);
            let now = hits@.take(i + 1);
            assert forall|p: Seq<char>| views(out@).contains(p) == touches(now, included@, p) by {
                if touches(old_part, included@, p) {
                    let k = choose|k: int|
                        0 <= k < old_part.len() && is_included(included@, k) && cleaned(
                            (#[trigger] old_part[k]).path@,
                        ) == p;
                    assert(cleaned(now[k].path@) == p);
                }
                if touches(now, included@, p) && !touches(old_part, included@, p) {
                    let k = choose|k: int|
                        0 <= k < now.len() && is_included(included@, k) && cleaned(
                            (#[trigger] now[k]).path@,
                        ) == p;
                    if k < i {
                        assert(cleaned(old_part[k].path@) == p);
                    }
                    assert(k == i);
                }
                if wanted {
                    assert(now[i as int].path@ == hits@[i as int].path@);
                }
            }
        }
        i = i + 1;
    }
    assert(hits@.take(hits@.len() as int) =~= hits@);
    out
}

pub open spec fn item_paths(v: Seq<ReplaceItem>) -> Seq<Seq<char>> {
    v.map_values(|x: ReplaceItem| x.path@)
}

/// The hits to be replaced, by file: the files in the order of paths, each
/// once, and no other file.
pub open spec fn bucketed(hits: Seq<SearchHit>, included: Seq<bool>, items: Seq<ReplaceItem>) -> bool {
    &&& ascending(item_paths(items))
    &&& forall|p: Seq<char>| item_paths(items).contains(p) == touches(hits, included, p)
    &&& forall|i: int|
        0 <= i < items.len() ==> (#[trigger] items[i]).lines@ == lines_in(
            hits,
            included,
            items[i].path@,
        )
}

fn bucket(hits: &Vec<SearchHit>, included: &Vec<bool>) -> (r: Vec<ReplaceItem>)
    ensures
        bucketed(hits@, included@, r@),
{
    let paths = touched_paths(hits, included);
    let mut out: Vec<ReplaceItem> = Vec::new();
    let mut i: usize = 0;
    while i < paths.len()
        invariant
            i <= paths@.len(),
            out@.len() == i,
            forall|k: int|
                0 <= k < i ==> (#[trigger] out@[k]).path == paths@[k] && out@[k].lines@ == lines_in(
                    hits@,
                    included@,
                    paths@[k]@,
                ),
        decreases paths@.len() - i,
    {
        let lines = collect_lines(hits, included, paths[i].as_str());
        out.push(ReplaceItem { path: paths[i].clone(), lines });
        i = i + 1;
    }
    assert(item_paths(out@) =~= views(paths@));
    out
}

/// How a replacement over many files came back.
#[derive(Debug)]
pub enum ReplaceEnd {
    Done(ReplaceCounts),
    Failed(String),
}

impl GlobalSearch {
    /// Whether there is anything to replace, and nothing runs.
    pub open spec fn may_replace(self, included: Seq<bool>) -> bool {
        self.replace_open && !self.replace_load.loading && exists|k: int|
            0 <= k < self.results@.len() && #[trigger] is_included(included, k)
    }

    /// What the start of a replacement changes, and the job it hands out.
    pub open spec fn replace_committed(
        self,
        new: Self,
        included: Seq<bool>,
        r: Option<ReplaceJob>,
    ) -> bool {
        if self.may_replace(included) {
            &&& new == (GlobalSearch {
                replace_progress: None,
                replace_load: self.replace_load.begun(),
                ..self
            })
            &&& r matches Some(job) && job.generation
                == self.replace_load.begun().generation && job.query == self.query
                && job.replace_text == self.replace_text && bucketed(
                self.results@,
                included,
                job.items@,
            )
        } else {
            new == self && r is None
        }
    }

    /// Hands the chosen hits to the host, bucketed by file.
    pub fn commit_replace_in_files(&mut self, included: &Vec<bool>) -> (r: Option<ReplaceJob>)
        ensures
            old(self).replace_committed(
                *final(self),
                included@,
                r,
            ),
    {
        if !self.replace_open || self.replace_load.loading {
            return None;
        }
        let items = bucket(&self.results, included);
        if items.len() == 0 {
            proof {
                if exists|k: int| 0 <= k < self.results@.len() && #[trigger] is_included(
                    included@,
                    k,
                ) {
                    let k = choose|k: int|
                        0 <= k < self.results@.len() && #[trigger] is_included(included@, k);
                    let p = cleaned(self.results@[k].path@);
                    assert(touches(self.results@, included@, p));
                    assert(item_paths(items@).contains(p));
                }
            }
            return None;
        }
        proof {
            let p = item_paths(items@)[0];
            assert(item_paths(items@).contains(p));
            assert(touches(self.results@, included@, p));
            let k = choose|k: int|
                0 <= k < self.results@.len() && is_included(included@, k) && cleaned(
                    (#[trigger] self.results@[k]).path@,
                ) == p;
            assert(is_included(included@, k));
        }
        self.replace_progress = None;
        let generation: u64 = self.replace_load.begin();
        Some(
            ReplaceJob {
                generation,
                query: self.query.clone(),
                replace_text: self.replace_text.clone(),
                items,
            },
        )
    }

    // ── Running the search ───────────────────────────────────────────────
    /// The pause after the last key is over.
    pub open spec fn pause_over(self, now: u64, debounce: u64) -> bool {
        self.last_keystroke_at matches Some(t) && now >= t + debounce
    }

    /// The state with another search under way; `results` is empty.
    pub open spec fn restarted(self, results: Vec<SearchHit>) -> Self {
        GlobalSearch {
            results,
            truncated: false,
            selected: 0,
            scroll: 0,
            results_h_scroll: 0,
            last_searched_query: self.query,
            last_keystroke_at: None,
            global_search_load: if self.query@.len() == 0 {
                self.global_search_load.begun().done()
            } else {
                self.global_search_load.begun()
            },
            ..self
        }
    }

    /// A query at rest for long enough is searched for, once.
    pub open spec fn search_kicked(
        self,
        new: Self,
        now: u64,
        debounce: u64,
        highlight: Option<PreviewHighlight>,
        highlight2: Option<PreviewHighlight>,
        fx: Seq<Effect<Seq<char>>>,
        fx2: Seq<Effect<Seq<char>>>,
    ) -> bool {
        if !self.pause_over(now, debounce) {
            &&& new == self
            &&& highlight2 == highlight
            &&& fx2 == fx
        } else if self.query@ == self.last_searched_query@ {
            &&& new == (GlobalSearch { last_keystroke_at: None, ..self })
            &&& highlight2 == highlight
            &&& fx2 == fx
        } else {
            &&& new.results@.len() == 0
            &&& new == self.restarted(new.results)
            &&& highlight2 == (if self.query@.len() == 0 {
                None
            } else {
                highlight
            })
            &&& fx2 == fx + (if self.query@.len() == 0 {
                seq![Effect::CancelSearch]
            } else {
                seq![
                    Effect::CancelSearch,
                    Effect::SearchAll {
                        generation: self.global_search_load.begun().generation,
                        query: self.query@,
                    },
                ]
            })
        }
    }

    /// Starts the search for what was typed, once the pause is over. The same
    /// query is not searched twice; an empty one just clears the hits, and
    /// with them the highlight of one.
    pub fn maybe_kick_global_search(
        &mut self,
        now: u64,
        debounce: u64,
        highlight: &mut Option<PreviewHighlight>,
        fx: &mut Effects,
    )
        ensures
            old(self).search_kicked(
                *final(self),
                now,
                debounce,
                *old(highlight),
                *final(highlight),
                old(fx)@,
                final(fx)@,
            ),
    {
        let due = match self.last_keystroke_at {
            Some(t) => now >= t && now - t >= debounce,
            None => false,
        };
        if !due {
            return;
        }
        if same_str(self.query.as_str(), self.last_searched_query.as_str()) {
            self.last_keystroke_at = None;
            return;
        }
        fx.emit(Effect::CancelSearch);
        self.clear_hits();
        let generation: u64 = self.global_search_load.begin();
        if self.query.as_str().is_empty() {
            let _ = self.global_search_load.complete_ok(generation);
            *highlight = None;
            assert(fx@ =~= old(fx)@ + seq![Effect::CancelSearch]);
        } else {
            fx.emit(Effect::SearchAll { generation, query: self.query.clone() });
            assert(fx@ =~= old(fx)@ + seq![
                Effect::CancelSearch,
                Effect::SearchAll { generation, query: old(self).query@ },
            ]);
        }
    }

    fn clear_hits(&mut self)
        ensures
            final(self).results@.len() == 0,
            *final(self) == (GlobalSearch {
                global_search_load: old(self).global_search_load,
                ..old(self).restarted(final(self).results)
            }),
    {
        self.results = Vec::new();
        self.truncated = false;
        self.selected = 0;
        self.scroll = 0;
        self.results_h_scroll = 0;
        self.last_searched_query = self.query.clone();
        self.last_keystroke_at = None;
    }

    /// The selected hit is not the one that the preview points at.
    pub open spec fn preview_is_stale(self, tab: Tab, highlight: Option<PreviewHighlight>) -> bool {
        tab == Tab::Search && self.selected < self.results@.len() && {
            let hit = self.results@[self.selected as int];
            match highlight {
                Some(hl) => !same_path(hl.path@, hit.path@) || hl.row != hit.line,
                None => true,
            }
        }
    }

    pub fn sync_search_preview_if_stale(
        &self,
        tab: Tab,
        highlight: &Option<PreviewHighlight>,
        fx: &mut Effects,
    )
        ensures
            final(fx)@ == (if self.preview_is_stale(tab, *highlight) {
                old(fx)@.push(Effect::ShowSearchHit)
            } else {
                old(fx)@
            }),
    {
        if tab != Tab::Search || self.selected >= self.results.len() {
            return;
        }
        let hit = &self.results[self.selected];
        let stale = match highlight {
            Some(hl) => !same_paths(hl.path.as_str(), hit.path.as_str()) || hl.row != hit.line,
            None => true,
        };
        if stale {
            fx.emit(Effect::ShowSearchHit);
        }
    }

    /// A hit that is due is brought into the preview.
    pub open spec fn sync_drained(
        self,
        new: Self,
        now: u64,
        fx: Seq<Effect<Seq<char>>>,
        fx2: Seq<Effect<Seq<char>>>,
    ) -> bool {
        match self.preview_sync_at {
            Some(t) => if now < t {
                new == self && fx2 == fx
            } else {
                new == (GlobalSearch { preview_sync_at: None, ..self })
                    && fx2 == fx.push(Effect::ShowSearchHit)
            },
            None => new == self && fx2 == fx,
        }
    }

    /// Brings the selected hit into the preview once the keys have rested.
    pub fn drain_preview_sync_debounce(
        &mut self,
        now: u64,
        fx: &mut Effects,
    )
        ensures
            old(self).sync_drained(
                *final(self),
                now,
                old(fx)@,
                final(fx)@,
            ),
    {
        let due = match self.preview_sync_at {
            Some(t) => now >= t,
            None => false,
        };
        if due {
            self.preview_sync_at = None;
            fx.emit(Effect::ShowSearchHit);
        }
    }

    // ── Results ──────────────────────────────────────────────────────────
    /// What more hits change.
    pub open spec fn chunk_applied(
        self,
        new: Self,
        generation: u64,
        hits: Vec<SearchHit>,
        tab: Tab,
        highlight: Option<PreviewHighlight>,
        fx: Seq<Effect<Seq<char>>>,
        fx2: Seq<Effect<Seq<char>>>,
    ) -> bool {
        if generation != self.global_search_load.generation {
            new == self && fx2 == fx
        } else {
            &&& new.results@ == sorted(self.results@ + hits@)
            &&& new == (GlobalSearch { results: new.results, ..self })
            &&& fx2 == (if new.preview_is_stale(tab, highlight) {
                fx.push(Effect::ShowSearchHit)
            } else {
                fx
            })
        }
    }

    /// Takes more hits of the running search, and keeps all in order.
    pub fn apply_chunk(
        &mut self,
        generation: u64,
        hits: Vec<SearchHit>,
        tab: Tab,
        highlight: &Option<PreviewHighlight>,
        fx: &mut Effects,
    )
        ensures
            old(self).chunk_applied(
                *final(self),
                generation,
                hits,
                tab,
                *highlight,
                old(fx)@,
                final(fx)@,
            ),
    {
        if generation != self.global_search_load.generation {
            return;
        }
        let mut all: Vec<SearchHit> = Vec::new();
        core::mem::swap(&mut all, &mut self.results);
        let mut more = hits;
        all.append(&mut more);
        self.results = sort(all);
        self.sync_search_preview_if_stale(tab, highlight, fx);
    }

    /// What the end of a search changes.
    pub open spec fn done_applied(
        self,
        new: Self,
        generation: u64,
        truncated: bool,
        tab: Tab,
        highlight: Option<PreviewHighlight>,
        highlight2: Option<PreviewHighlight>,
    ) -> bool {
        if generation != self.global_search_load.generation {
            new == self && highlight2 == highlight
        } else {
            &&& new == (GlobalSearch {
                truncated,
                global_search_load: self.global_search_load.done(),
                ..self
            })
            &&& highlight2 == (if self.results@.len() == 0 && tab == Tab::Search {
                None
            } else {
                highlight
            })
        }
    }

    /// The running search is over. Where it found nothing, the search tab
    /// points at nothing.
    pub fn apply_done(
        &mut self,
        generation: u64,
        truncated: bool,
        tab: Tab,
        highlight: &mut Option<PreviewHighlight>,
    )
        ensures
            old(self).done_applied(
                *final(self),
                generation,
                truncated,
                tab,
                *old(highlight),
                *final(highlight),
            ),
    {
        if self.global_search_load.complete_ok(generation) {
            self.truncated = truncated;
            if self.results.len() == 0 && tab == Tab::Search {
                *highlight = None;
            }
        }
    }

    /// What a report on a running replacement changes.
    pub open spec fn progress_applied(
        self,
        new: Self,
        generation: u64,
        done: usize,
        total: usize,
    ) -> bool {
        new == (if generation == self.replace_load.generation {
            GlobalSearch { replace_progress: Some((done, total)), ..self }
        } else {
            self
        })
    }

    pub fn apply_replace_progress(&mut self, generation: u64, done: usize, total: usize)
        ensures
            old(self).progress_applied(
                *final(self),
                generation,
                done,
                total,
            ),
    {
        if generation == self.replace_load.generation {
            self.replace_progress = Some((done, total));
        }
    }

    /// What the end of a replacement changes; `r` says that files may have.
    pub open spec fn replace_applied(
        self,
        new: Self,
        generation: u64,
        end: ReplaceEnd,
        fx: Seq<Effect<Seq<char>>>,
        fx2: Seq<Effect<Seq<char>>>,
        r: bool,
    ) -> bool {
        if generation != self.replace_load.generation {
            new == self && fx2 == fx && !r
        } else {
            &&& new == (GlobalSearch {
                replace_progress: None,
                replace_load: self.replace_load.done(),
                ..self
            })
            &&& match end {
                ReplaceEnd::Done(summary) => r && fx2 == fx.push(
                    Effect::Say {
                        level: ToastLevel::Info,
                        notice: Notice::Replaced { summary },
                    },
                ).push(Effect::ReloadSearch),
                ReplaceEnd::Failed(e) => !r && fx2 == fx.push(
                    Effect::Toast {
                        level: ToastLevel::Error,
                        text: "replace failed: "@ + e@,
                    },
                ),
            }
        }
    }

    /// A replacement is over: the search is run again over what it left. Says
    /// whether files may have changed.
    pub fn apply_replace_done(&mut self, generation: u64, end: ReplaceEnd, fx: &mut Effects) -> (r: bool)
        ensures
            old(self).replace_applied(
                *final(self),
                generation,
                end,
                old(fx)@,
                final(fx)@,
                r,
            ),
    {
        if !self.replace_load.complete_ok(generation) {
            return false;
        }
        self.replace_progress = None;
        match end {
            ReplaceEnd::Done(summary) => {
                fx.emit(
                    Effect::Say {
                        level: ToastLevel::Info,
                        notice: Notice::Replaced { summary },
                    },
                );
                fx.emit(Effect::ReloadSearch);
                true
            },
            ReplaceEnd::Failed(e) => {
                let mut text = "replace failed: ".to_owned();
                text.append(e.as_str());
                fx.emit(Effect::Toast { level: ToastLevel::Error, text });
                false
            },
        }
    }

    /// Shows or hides the replacement input. Hiding it moves the keys to the
    /// query.
    pub open spec fn replace_toggled(self) -> Self {
        GlobalSearch {
            replace_open: !self.replace_open,
            focus: if self.replace_open && self.focus == SearchPanelFocus::ReplaceInput {
                SearchPanelFocus::FindInput
            } else {
                self.focus
            },
            ..self
        }
    }

    pub fn toggle_replace(&mut self)
        ensures
            *final(self) == old(self).replace_toggled(),
    {
        self.replace_open = !self.replace_open;
        if !self.replace_open && self.focus == SearchPanelFocus::ReplaceInput {
            self.focus = SearchPanelFocus::FindInput;
        }
    }
}

// ── Laws ─────────────────────────────────────────────────────────────────

/// The hits that are kept are in order, whatever the chunks they came in, and
/// none is lost.
pub proof fn law_hits_are_in_order(have: Seq<SearchHit>, more: Seq<SearchHit>)
    ensures
        crate::order::in_order(sorted(have + more)),
        sorted(have + more).to_multiset() =~= (have + more).to_multiset(),
{
    crate::order::law_sorted(have + more);
}

/// The keys are never on an input that is hidden.
pub proof fn law_hidden_input_has_no_focus(s: GlobalSearch)
    requires
        s.focus == SearchPanelFocus::ReplaceInput ==> s.replace_open,
    ensures
        s.replace_toggled().focus == SearchPanelFocus::ReplaceInput
            ==> s.replace_toggled().replace_open,
{
}

/// Every chosen hit is handed to the host, under its file.
pub proof fn law_every_chosen_hit_is_replaced(
    hits: Seq<SearchHit>,
    included: Seq<bool>,
    items: Seq<ReplaceItem>,
    k: int,
)
    requires
        bucketed(hits, included, items),
        0 <= k < hits.len(),
        is_included(included, k),
    ensures
        exists|i: int|
            0 <= i < items.len() && same_path((#[trigger] items[i]).path@, hits[k].path@)
                && items[i].lines@.contains(
                ReplaceLine { line_no: hits[k].line, expected_text: hits[k].line_text },
            ),
{
    let p = cleaned(hits[k].path@);
    assert(touches(hits, included, p));
    assert(item_paths(items).contains(p));
    let i = choose|i: int| 0 <= i < item_paths(items).len() && item_paths(items)[i] == p;
    assert(items[i].path@ == p);
    lemma_cleaned(hits[k].path@);
    lemma_lines_in(hits, included, k);
}

proof fn lemma_lines_in(hits: Seq<SearchHit>, included: Seq<bool>, k: int)
    requires
        0 <= k < hits.len(),
        is_included(included, k),
    ensures
        lines_in(hits, included, cleaned(hits[k].path@)).contains(
            ReplaceLine { line_no: hits[k].line, expected_text: hits[k].line_text },
        ),
    decreases hits.len(),
{
    let p = cleaned(hits[k].path@);
    let line = ReplaceLine { line_no: hits[k].line, expected_text: hits[k].line_text };
    let rest = lines_in(hits.drop_last(), included, p);
    let all = lines_in(hits, included, p);
    if k + 1 == hits.len() {
        assert(all[rest.len() as int] == line);
    } else {
        lemma_lines_in(hits.drop_last(), included, k);
        let i = choose|i: int| 0 <= i < rest.len() && rest[i] == line;
        assert(all[i] == line);
    }
}

} // verus!
