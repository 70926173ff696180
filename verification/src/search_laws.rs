//! Laws of the searches: what is found, what is shown of it, and what a
//! replacement touches.
use crate::app::App;
use crate::effects::{Effect, Notice, ToastLevel};
use crate::git::DiffHunk;
use crate::global_search::{
    bucketed, is_included, item_paths, lines_in, touches, GlobalSearch, ReplaceEnd, ReplaceItem,
    ReplaceJob, ReplaceLine, SearchHit, SearchPanelFocus,
};
use crate::layout::{Panel, Tab};
use crate::loads::AsyncState;
use crate::order::law_sorted;
use crate::panel_search::{op_of, PromptKey, PromptOp};
use crate::paths::{cleaned, lemma_cleaned, path_le, same_path};
use crate::preview::PreviewBody;
use crate::preview_pane::PreviewHighlight;
use crate::search::{
    any_case, centered, diff_rows, found_at, hunk_rows, law_no_occurrence_is_missed, on_row, places,
    row_matches, same_byte, start_row, target_of, uppercase_char, MatchLoc, SearchState,
    SearchTarget, WrapMsg,
};
use vstd::prelude::*;
use vstd::utf8::*;

verus! {

// ── Requests that run in the background ──────────────────────────────────

/// A request that begins runs, and what it will bring is not out of date. When
/// it is done nothing runs and nothing is out of date; when it has failed, what
/// is shown is out of date and the reason is kept. Neither is another request.
pub proof fn law_requests_begin_and_end(s: AsyncState, reason: String)
    ensures
        s.begun().loading && !s.begun().stale && s.begun().error is None,
        !s.done().loading && !s.done().stale && s.done().error is None,
        s.done().generation == s.generation,
        !s.failed(reason).loading && s.failed(reason).stale,
        s.failed(reason).error == Some(reason),
        s.failed(reason).generation == s.generation,
        s.marked().stale && s.marked().loading == s.loading && s.marked().generation
            == s.generation,
        !s.dropped(true).loading && s.dropped(true).stale,
        !s.dropped(false).loading && !s.dropped(false).stale,
        s.due() <==> (s.stale && !s.loading),
{
}

// ── Replacing ────────────────────────────────────────────────────────────

/// The hit `k` is one that the user has ticked, in the file at `path`.
pub open spec fn is_ticked_in(
    hits: Seq<SearchHit>,
    included: Seq<bool>,
    path: Seq<char>,
    k: int,
) -> bool {
    &&& 0 <= k < hits.len()
    &&& k < included.len()
    &&& included[k]
    &&& same_path(hits[k].path@, path)
}

/// The line is the one of the hit.
pub open spec fn is_line_of(l: ReplaceLine, h: SearchHit) -> bool {
    l.line_no == h.line && l.expected_text == h.line_text
}

/// The ticked hits of a file, by their places in the list.
pub open spec fn ticked_in(hits: Seq<SearchHit>, included: Seq<bool>, path: Seq<char>) -> Seq<int> {
    Seq::new(hits.len(), |k: int| k).filter(|k: int| is_ticked_in(hits, included, path, k))
}

proof fn lemma_filter_agrees(s: Seq<int>, p: spec_fn(int) -> bool, q: spec_fn(int) -> bool)
    requires
        forall|i: int| 0 <= i < s.len() ==> p(#[trigger] s[i]) == q(s[i]),
    ensures
        s.filter(p) == s.filter(q),
    decreases s.len(),
{
    reveal(Seq::filter);
    if s.len() > 0 {
        assert forall|i: int| 0 <= i < s.drop_last().len() implies p(#[trigger] s.drop_last()[i])
            == q(s.drop_last()[i]) by {
            assert(s[i] == s.drop_last()[i]);
        }
        lemma_filter_agrees(s.drop_last(), p, q);
        assert(p(s[s.len() - 1]) == q(s[s.len() - 1]));
    }
}

proof fn lemma_lines_are_ticked(hits: Seq<SearchHit>, included: Seq<bool>, path: Seq<char>)
    requires
        cleaned(path) == path,
    ensures
        lines_in(hits, included, path).len() == ticked_in(hits, included, path).len(),
        forall|j: int|
            0 <= j < lines_in(hits, included, path).len() ==> is_line_of(
                #[trigger] lines_in(hits, included, path)[j],
                hits[ticked_in(hits, included, path)[j]],
            ) && is_ticked_in(hits, included, path, ticked_in(hits, included, path)[j]),
    decreases hits.len(),
{
    reveal(Seq::filter);
    let all = Seq::new(hits.len(), |k: int| k);
    let p = |k: int| is_ticked_in(hits, included, path, k);
    if hits.len() > 0 {
        let rest = hits.drop_last();
        let n = hits.len() - 1;
        let some = Seq::new(rest.len(), |k: int| k);
        let q = |k: int| is_ticked_in(rest, included, path, k);
        lemma_lines_are_ticked(rest, included, path);
        assert(all.drop_last() =~= some);
        assert forall|i: int| 0 <= i < some.len() implies p(#[trigger] some[i]) == q(some[i]) by {
            assert(rest[i] == hits[i]);
        }
        lemma_filter_agrees(some, p, q);
        let t = ticked_in(rest, included, path);
        let l = lines_in(hits, included, path);
        assert forall|j: int| 0 <= j < l.len() implies is_line_of(
            #[trigger] l[j],
            hits[ticked_in(hits, included, path)[j]],
        ) && is_ticked_in(hits, included, path, ticked_in(hits, included, path)[j]) by {
            if j < t.len() {
                assert(l[j] == lines_in(rest, included, path)[j]);
                assert(is_ticked_in(rest, included, path, t[j]));
                assert(rest[t[j]] == hits[t[j]]);
            }
        }
    }
}

proof fn lemma_item_is_clean(
    hits: Seq<SearchHit>,
    included: Seq<bool>,
    items: Seq<ReplaceItem>,
    i: int,
)
    requires
        bucketed(hits, included, items),
        0 <= i < items.len(),
    ensures
        cleaned(items[i].path@) == items[i].path@,
{
    let p = items[i].path@;
    assert(item_paths(items)[i] == p);
    assert(item_paths(items).contains(p));
    assert(touches(hits, included, p));
    let k = choose|k: int|
        0 <= k < hits.len() && is_included(included, k) && cleaned((#[trigger] hits[k]).path@)
            == p;
    lemma_cleaned(hits[k].path@);
}

/// A replacement touches exactly what was ticked: the lines of a file are those
/// of its ticked hits, each once and in their order, and a hit that is not
/// ticked is left alone.
pub proof fn law_only_ticked_hits_are_replaced(
    hits: Seq<SearchHit>,
    included: Seq<bool>,
    items: Seq<ReplaceItem>,
    i: int,
)
    requires
        bucketed(hits, included, items),
        0 <= i < items.len(),
    ensures
        items[i].lines@.len() == ticked_in(hits, included, items[i].path@).len(),
        items[i].lines@.len() > 0,
        forall|j: int|
            0 <= j < items[i].lines@.len() ==> is_line_of(
                #[trigger] items[i].lines@[j],
                hits[ticked_in(hits, included, items[i].path@)[j]],
            ) && is_ticked_in(
                hits,
                included,
                items[i].path@,
                ticked_in(hits, included, items[i].path@)[j],
            ),
{
    let p = items[i].path@;
    lemma_item_is_clean(hits, included, items, i);
    lemma_lines_are_ticked(hits, included, p);
    assert(item_paths(items)[i] == p);
    assert(item_paths(items).contains(p));
    assert(touches(hits, included, p));
    let k = choose|k: int|
        0 <= k < hits.len() && is_included(included, k) && cleaned((#[trigger] hits[k]).path@)
            == p;
    let all = Seq::new(hits.len(), |k: int| k);
    assert(all[k] == k);
    all.lemma_filter_contains(|k: int| is_ticked_in(hits, included, p, k), k);
    assert(ticked_in(hits, included, p).contains(all[k]));
}

/// No two entries of a replacement are of one file.
pub proof fn law_a_file_is_replaced_once(
    hits: Seq<SearchHit>,
    included: Seq<bool>,
    items: Seq<ReplaceItem>,
    i: int,
    j: int,
)
    requires
        bucketed(hits, included, items),
        0 <= i < j < items.len(),
    ensures
        !same_path(items[i].path@, items[j].path@),
        path_le(items[i].path@, items[j].path@),
{
    lemma_item_is_clean(hits, included, items, i);
    lemma_item_is_clean(hits, included, items, j);
    assert(item_paths(items)[i] == items[i].path@);
    assert(item_paths(items)[j] == items[j].path@);
}

/// A replacement is handed out where the input is shown, none runs, and a hit
/// is ticked, and then only. It looks for what was searched and puts in what
/// was typed for it. The hits stay as they are.
pub proof fn law_replacement_is_what_was_asked(
    s: GlobalSearch,
    new: GlobalSearch,
    included: Seq<bool>,
    r: Option<ReplaceJob>,
)
    requires
        s.replace_committed(new, included, r),
    ensures
        r is Some <==> {
            &&& s.replace_open
            &&& !s.replace_load.loading
            &&& exists|k: int|
                0 <= k < s.results@.len() && k < included.len() && #[trigger] included[k]
        },
        r matches Some(job) ==> {
            &&& job.query == s.query
            &&& job.replace_text == s.replace_text
            &&& job.generation == new.replace_load.generation
            &&& new.replace_load.loading
            &&& new.replace_load.generation != s.replace_load.generation
        },
        r is None ==> new == s,
        new.results == s.results,
        new.query == s.query,
        new.replace_text == s.replace_text,
{
    if exists|k: int| 0 <= k < s.results@.len() && #[trigger] is_included(included, k) {
        let k = choose|k: int| 0 <= k < s.results@.len() && #[trigger] is_included(included, k);
        assert(included[k]);
    }
    if exists|k: int| 0 <= k < s.results@.len() && k < included.len() && #[trigger] included[k] {
        let k = choose|k: int|
            0 <= k < s.results@.len() && k < included.len() && #[trigger] included[k];
        assert(is_included(included, k));
    }
}

/// The end of a replacement that is still waited for is told: what it came to,
/// after which the search is run again, or why it failed. One that is not
/// waited for changes nothing.
pub proof fn law_replacement_is_reported(
    s: GlobalSearch,
    new: GlobalSearch,
    generation: u64,
    end: ReplaceEnd,
    fx: Seq<Effect<Seq<char>>>,
    fx2: Seq<Effect<Seq<char>>>,
    r: bool,
)
    requires
        s.replace_applied(new, generation, end, fx, fx2, r),
    ensures
        generation != s.replace_load.generation ==> new == s && fx2 == fx && !r,
        generation == s.replace_load.generation ==> !new.replace_load.loading
            && new.replace_progress is None,
        r <==> (generation == s.replace_load.generation && end is Done),
        r ==> fx2.len() == fx.len() + 2 && fx2.last() is ReloadSearch && fx2[fx.len() as int]
            == (Effect::<Seq<char>>::Say {
            level: ToastLevel::Info,
            notice: Notice::Replaced { summary: end->Done_0 },
        }),
        generation == s.replace_load.generation && end is Failed ==> fx2.len() == fx.len() + 1
            && fx2.last() is Toast && fx2.last()->Toast_level == ToastLevel::Error,
        fx.is_prefix_of(fx2),
        new.results == s.results && new.query == s.query,
{
}

// ── Searching all files ──────────────────────────────────────────────────

/// What was typed is searched for once the keys have rested for as long as the
/// pause lasts, unless it was searched for last. The search runs under a new
/// number, over no hits yet. An empty query is not searched for.
pub proof fn law_query_is_searched_after_the_pause(
    s: GlobalSearch,
    new: GlobalSearch,
    now: u64,
    pause: u64,
    hl: Option<PreviewHighlight>,
    hl2: Option<PreviewHighlight>,
    fx: Seq<Effect<Seq<char>>>,
    fx2: Seq<Effect<Seq<char>>>,
    t: u64,
)
    requires
        s.search_kicked(new, now, pause, hl, hl2, fx, fx2),
        s.last_keystroke_at == Some(t),
    ensures
        now < t + pause ==> new == s && fx2 == fx && hl2 == hl,
        now >= t + pause ==> new.last_keystroke_at is None && new.query == s.query,
        now >= t + pause && s.query@ != s.last_searched_query@ ==> {
            &&& new.results@.len() == 0
            &&& new.selected == 0
            &&& !new.truncated
            &&& new.last_searched_query@ == s.query@
            &&& new.global_search_load.loading <==> s.query@.len() > 0
            &&& new.global_search_load.generation != s.global_search_load.generation
            &&& fx2.len() > fx.len()
            &&& fx2[fx.len() as int] is CancelSearch
        },
        now >= t + pause && s.query@ != s.last_searched_query@ && s.query@.len() > 0
            ==> fx2.last() == (Effect::SearchAll {
            generation: new.global_search_load.generation,
            query: s.query@,
        }) && hl2 == hl,
        now >= t + pause && s.query@ != s.last_searched_query@ && s.query@.len() == 0 ==> hl2
            is None && fx2.last() is CancelSearch,
        now >= t + pause && s.query@ == s.last_searched_query@ ==> fx2 == fx && new.results
            == s.results,
{
}

/// The hits of the running search join those there are, and none of them is
/// lost. They stand by path, and in a file by line. Those of another search are
/// not taken.
pub proof fn law_hits_join_the_list(
    s: GlobalSearch,
    new: GlobalSearch,
    generation: u64,
    hits: Vec<SearchHit>,
    tab: Tab,
    hl: Option<PreviewHighlight>,
    fx: Seq<Effect<Seq<char>>>,
    fx2: Seq<Effect<Seq<char>>>,
)
    requires
        s.chunk_applied(new, generation, hits, tab, hl, fx, fx2),
    ensures
        generation != s.global_search_load.generation ==> new == s && fx2 == fx,
        generation == s.global_search_load.generation ==> {
            &&& new.results@.to_multiset() == (s.results@ + hits@).to_multiset()
            &&& forall|i: int, j: int|
                0 <= i < j < new.results@.len() ==> {
                    let (a, b) = (#[trigger] new.results@[i], #[trigger] new.results@[j]);
                    &&& path_le(cleaned(a.path@), cleaned(b.path@)) || same_path(a.path@, b.path@)
                    &&& same_path(a.path@, b.path@) ==> a.line <= b.line
                }
        },
{
    law_sorted(s.results@ + hits@);
    if generation == s.global_search_load.generation {
        let r = new.results@;
        assert forall|i: int, j: int| 0 <= i < j < r.len() implies {
            let (a, b) = (#[trigger] r[i], #[trigger] r[j]);
            &&& path_le(cleaned(a.path@), cleaned(b.path@)) || same_path(a.path@, b.path@)
            &&& same_path(a.path@, b.path@) ==> a.line <= b.line
        } by {
            assert(<SearchHit as crate::order::Ordered>::le(r[i], r[j]));
        }
    }
}

/// The preview follows the selected hit: on the search tab it is asked to show
/// the hit unless it points at that file and line already.
pub proof fn law_preview_follows_the_hit(s: GlobalSearch, tab: Tab, hl: Option<PreviewHighlight>)
    ensures
        s.preview_is_stale(tab, hl) ==> tab == Tab::Search && s.selected < s.results@.len(),
        tab == Tab::Search && s.selected < s.results@.len() ==> {
            let hit = s.results@[s.selected as int];
            s.preview_is_stale(tab, hl) <==> !(hl is Some && same_path(hl->0.path@, hit.path@)
                && hl->0.row == hit.line)
        },
{
}

/// The end of the running search is taken, with whether hits were left out.
pub proof fn law_search_ends(
    s: GlobalSearch,
    new: GlobalSearch,
    generation: u64,
    truncated: bool,
    tab: Tab,
    hl: Option<PreviewHighlight>,
    hl2: Option<PreviewHighlight>,
)
    requires
        s.done_applied(new, generation, truncated, tab, hl, hl2),
    ensures
        generation != s.global_search_load.generation ==> new == s && hl2 == hl,
        generation == s.global_search_load.generation ==> new.truncated == truncated
            && !new.global_search_load.loading,
        new.results == s.results,
        hl2 == hl || (hl2 is None && s.results@.len() == 0),
{
}

/// The input for the replacement is shown or hidden, and hidden again or shown
/// by another call.
pub proof fn law_replace_input_toggles(s: GlobalSearch)
    ensures
        s.replace_toggled().replace_open != s.replace_open,
        s.focus != SearchPanelFocus::ReplaceInput ==> s.replace_toggled().replace_toggled() == s,
        s.replace_toggled().results == s.results,
        s.replace_toggled().replace_text == s.replace_text,
{
}

// ── Rows to search in ────────────────────────────────────────────────────

/// Where the rows of the hunk `k` begin: behind those of the hunks before it,
/// each with its header and the empty row that follows it.
pub open spec fn hunk_start(hunks: Seq<DiffHunk>, k: int) -> int
    decreases k,
{
    if k <= 0 {
        0
    } else {
        hunk_start(hunks, k - 1) + hunks[k - 1].lines@.len() + 2
    }
}

proof fn lemma_hunk_start_agrees(a: Seq<DiffHunk>, b: Seq<DiffHunk>, k: int)
    requires
        0 <= k <= a.len() <= b.len(),
        forall|i: int| 0 <= i < a.len() ==> a[i] == b[i],
    ensures
        hunk_start(a, k) == hunk_start(b, k),
        k < a.len() ==> hunk_start(a, k) + a[k].lines@.len() + 2 <= hunk_start(a, a.len() as int),
    decreases a.len() - k, k,
{
    if k > 0 {
        lemma_hunk_start_keeps(a, b, k);
    }
    if k < a.len() {
        lemma_hunk_start_grows(a, k + 1, a.len() as int);
    }
}

proof fn lemma_hunk_start_keeps(a: Seq<DiffHunk>, b: Seq<DiffHunk>, k: int)
    requires
        0 <= k <= a.len() <= b.len(),
        forall|i: int| 0 <= i < a.len() ==> a[i] == b[i],
    ensures
        hunk_start(a, k) == hunk_start(b, k),
    decreases k,
{
    if k > 0 {
        lemma_hunk_start_keeps(a, b, k - 1);
    }
}

proof fn lemma_hunk_start_grows(a: Seq<DiffHunk>, j: int, k: int)
    requires
        0 <= j <= k,
    ensures
        hunk_start(a, j) <= hunk_start(a, k),
    decreases k - j,
{
    if j < k {
        lemma_hunk_start_grows(a, j, k - 1);
    }
}

/// The rows of a diff are its hunks one behind the other: the header of each,
/// then its lines in their order, with an empty row before the next one, and no
/// other row.
pub proof fn law_diff_rows_show_the_hunks(hunks: Seq<DiffHunk>, k: int)
    requires
        0 <= k < hunks.len(),
    ensures
        diff_rows(hunks).len() + 1 == hunk_start(hunks, hunks.len() as int),
        hunk_start(hunks, k) + hunks[k].lines@.len() < diff_rows(hunks).len(),
        diff_rows(hunks)[hunk_start(hunks, k)] == hunks[k].header@,
        forall|i: int|
            0 <= i < hunks[k].lines@.len() ==> diff_rows(hunks)[hunk_start(hunks, k) + 1 + i] == (
            #[trigger] hunks[k].lines@[i]).content@,
        k > 0 ==> diff_rows(hunks)[hunk_start(hunks, k) - 1].len() == 0,
    decreases hunks.len(),
{
    let rest = hunks.drop_last();
    let n = hunks.len() - 1;
    let all = diff_rows(hunks);
    let some = diff_rows(rest);
    let last = hunk_rows(hunks[n]);
    lemma_hunk_start_agrees(rest, hunks, n);
    lemma_hunk_start_grows(hunks, 0, k);
    if n > 0 {
        law_diff_rows_show_the_hunks(rest, if k < n { k } else { n - 1 });
        let sep = seq![Seq::<char>::empty()];
        assert(all =~= some + sep + last);
        if k < n {
            lemma_hunk_start_agrees(rest, hunks, k);
            assert(rest[k] == hunks[k]);
            assert forall|i: int| 0 <= i < hunks[k].lines@.len() implies all[hunk_start(hunks, k)
                + 1 + i] == (#[trigger] hunks[k].lines@[i]).content@ by {
                assert(rest[k].lines@[i] == hunks[k].lines@[i]);
                assert(some[hunk_start(rest, k) + 1 + i] == rest[k].lines@[i].content@);
            }
            if k > 0 {
                lemma_hunk_start_grows(hunks, 1, k);
            }
        } else {
            let at = hunk_start(hunks, n);
            assert(all[at] == last[0]);
            assert forall|i: int| 0 <= i < hunks[k].lines@.len() implies all[at + 1 + i] == (
            #[trigger] hunks[k].lines@[i]).content@ by {
                assert(all[at + 1 + i] == last[1 + i]);
            }
        }
    } else {
        assert(some =~= Seq::<Seq<char>>::empty());
        assert(all =~= last);
        assert forall|i: int| 0 <= i < hunks[k].lines@.len() implies all[1 + i] == (
        #[trigger] hunks[k].lines@[i]).content@ by {
            assert(all[1 + i] == last[1 + i]);
        }
    }
}

/// A search goes over what the panel shows. In the tree that is the name of
/// each row; in the status the path of each staged file, then of each unstaged
/// one; in the graph the subject of each commit; in the preview each line of a
/// text; and of a commit the rows that its panel lays out.
pub proof fn law_rows_are_what_the_panel_shows(s: App, detail: Seq<Seq<char>>, i: int)
    ensures
        ({
            let rows = s.rows(SearchTarget::FileTree, detail);
            let shown = s.files.file_tree.entries@;
            rows.len() == shown.len() && (0 <= i < shown.len() ==> rows[i] == shown[i].name@)
        }),
        ({
            let rows = s.rows(SearchTarget::GitStatus, detail);
            let (a, b) = (s.git.lists.staged_files@, s.git.lists.unstaged_files@);
            &&& rows.len() == a.len() + b.len()
            &&& 0 <= i < a.len() ==> rows[i] == a[i].path@
            &&& 0 <= i < b.len() ==> rows[a.len() + i] == b[i].path@
        }),
        ({
            let rows = s.rows(SearchTarget::CommitGraph, detail);
            let shown = s.graph.git_graph.rows@;
            rows.len() == shown.len() && (0 <= i < shown.len() ==> rows[i]
                == shown[i].commit.subject@)
        }),
        s.preview.preview_content matches Some(p) ==> (p.body matches PreviewBody::Text {
            lines,
            ..
        } ==> {
            let rows = s.rows(SearchTarget::FilePreview, detail);
            rows.len() == lines@.len() && (0 <= i < lines@.len() ==> rows[i] == lines@[i]@)
        }),
        (s.preview.preview_content is None || !(s.preview.preview_content->0.body is Text))
            ==> s.rows(SearchTarget::FilePreview, detail).len() == 0,
        s.rows(SearchTarget::CommitDetail, detail) == detail,
{
}

/// A search in a diff goes over the diff that its panel shows: header by
/// header and line by line.
pub proof fn law_diff_search_goes_over_the_diff(s: App, detail: Seq<Seq<char>>, k: int, i: int)
    ensures
        s.git.diff.diff_content matches Some(d) ==> (0 <= k < d.diff.hunks@.len() && 0 <= i
            < d.diff.hunks@[k].lines@.len() ==> {
            let at = hunk_start(d.diff.hunks@, k);
            let rows = s.rows(SearchTarget::Diff, detail);
            rows[at] == d.diff.hunks@[k].header@ && rows[at + 1 + i]
                == d.diff.hunks@[k].lines@[i].content@
        }),
        s.git.diff.diff_content is None ==> s.rows(SearchTarget::Diff, detail).len() == 0,
        s.graph.commit_detail.file_diff matches Some(d) ==> (0 <= k < d.diff.hunks@.len() && 0 <= i
            < d.diff.hunks@[k].lines@.len() ==> {
            let at = hunk_start(d.diff.hunks@, k);
            let rows = s.rows(SearchTarget::GraphDiff, detail);
            rows[at] == d.diff.hunks@[k].header@ && rows[at + 1 + i]
                == d.diff.hunks@[k].lines@[i].content@
        }),
        s.graph.commit_detail.file_diff is None ==> s.rows(SearchTarget::GraphDiff, detail).len()
            == 0,
{
    if let Some(d) = s.git.diff.diff_content {
        if 0 <= k < d.diff.hunks@.len() && 0 <= i < d.diff.hunks@[k].lines@.len() {
            law_diff_rows_show_the_hunks(d.diff.hunks@, k);
            assert(d.diff.hunks@[k].lines@[i] == d.diff.hunks@[k].lines@[i]);
        }
    }
    if let Some(d) = s.graph.commit_detail.file_diff {
        if 0 <= k < d.diff.hunks@.len() && 0 <= i < d.diff.hunks@[k].lines@.len() {
            law_diff_rows_show_the_hunks(d.diff.hunks@, k);
            assert(d.diff.hunks@[k].lines@[i] == d.diff.hunks@[k].lines@[i]);
        }
    }
}

// ── Matches ──────────────────────────────────────────────────────────────

/// The bytes are the same letter in another case: they are 32 apart, and the
/// smaller is one of A to Z.
pub open spec fn other_case(a: u8, b: u8) -> bool {
    ||| 65 <= a <= 90 && b == a + 32
    ||| 65 <= b <= 90 && a == b + 32
}

/// The text `q` stands in `h` at the byte `p`: as it is or, where it has no
/// capital, in any case.
pub open spec fn holds_at(h: Seq<u8>, query: Seq<char>, p: int) -> bool {
    let q = encode_utf8(query);
    &&& 0 <= p
    &&& p + q.len() <= h.len()
    &&& forall|k: int|
        0 <= k < q.len() ==> (#[trigger] h[p + k]) == q[k] || (other_case(h[p + k], q[k]) && forall|
            c: int,
        |
            0 <= c < query.len() ==> !uppercase_char(#[trigger] query[c]))
}

proof fn lemma_holds(h: Seq<u8>, query: Seq<char>, p: int)
    ensures
        found_at(h, encode_utf8(query), p, any_case(query)) <==> holds_at(h, query, p),
{
    let q = encode_utf8(query);
    assert(any_case(query) <==> forall|c: int|
        0 <= c < query.len() ==> !uppercase_char(#[trigger] query[c]));
    if found_at(h, q, p, any_case(query)) {
        assert forall|k: int| 0 <= k < q.len() implies (#[trigger] h[p + k]) == q[k] || (other_case(
            h[p + k],
            q[k],
        ) && any_case(query)) by {
            assert(same_byte(h[p + k], q[k], any_case(query)));
        }
    }
    if holds_at(h, query, p) {
        assert forall|k: int| 0 <= k < q.len() implies same_byte(
            #[trigger] h[p + k],
            q[k],
            any_case(query),
        ) by {}
    }
}

proof fn lemma_places_hold(h: Seq<u8>, n: Seq<u8>, i: int, ci: bool, k: int)
    requires
        0 <= i,
        0 <= k < places(h, n, i, ci).len(),
    ensures
        found_at(h, n, places(h, n, i, ci)[k], ci),
        n.len() > 0,
    decreases h.len() - i,
{
    if found_at(h, n, i, ci) {
        if k > 0 {
            lemma_places_hold(h, n, i + n.len(), ci, k - 1);
        }
    } else {
        lemma_places_hold(h, n, i + 1, ci, k);
    }
}

proof fn lemma_row_match(rows: Seq<Seq<char>>, query: Seq<char>, k: int)
    requires
        0 <= k < row_matches(rows, query).len(),
    ensures
        ({
            let m = row_matches(rows, query)[k];
            &&& 0 <= m.0 < rows.len()
            &&& holds_at(encode_utf8(rows[m.0]), query, m.1)
        }),
    decreases rows.len(),
{
    let rest = row_matches(rows.drop_last(), query);
    let n = rows.len() - 1;
    let h = encode_utf8(rows[n]);
    let at = places(h, encode_utf8(query), 0, any_case(query));
    if k < rest.len() {
        lemma_row_match(rows.drop_last(), query, k);
        assert(rows.drop_last()[rest[k].0] == rows[rest[k].0]);
    } else {
        lemma_places_hold(h, encode_utf8(query), 0, any_case(query), k - rest.len());
        lemma_holds(h, query, at[k - rest.len()]);
    }
}

proof fn lemma_row_is_matched(rows: Seq<Seq<char>>, query: Seq<char>, r: int, p: int) -> (k: int)
    requires
        0 <= r < rows.len(),
        encode_utf8(query).len() > 0,
        holds_at(encode_utf8(rows[r]), query, p),
    ensures
        0 <= k < row_matches(rows, query).len(),
        row_matches(rows, query)[k].0 == r,
        row_matches(rows, query)[k].1 <= p < row_matches(rows, query)[k].1 + encode_utf8(
            query,
        ).len(),
    decreases rows.len(),
{
    let rest = row_matches(rows.drop_last(), query);
    let n = rows.len() - 1;
    if r < n {
        assert(rows.drop_last()[r] == rows[r]);
        lemma_row_is_matched(rows.drop_last(), query, r, p)
    } else {
        let h = encode_utf8(rows[n]);
        let q = encode_utf8(query);
        let at = places(h, q, 0, any_case(query));
        lemma_holds(h, query, p);
        law_no_occurrence_is_missed(h, q, 0, any_case(query), p);
        let j = choose|j: int| 0 <= j < at.len() && #[trigger] at[j] <= p && p < at[j] + q.len();
        let k = rest.len() + j;
        assert(row_matches(rows, query)[k] == (n as int, at[j]));
        k
    }
}

/// Every match of a search stands in a row that holds the query at its bytes,
/// and is as long as the query.
pub proof fn law_matches_hold_the_query(
    s: SearchState,
    new: SearchState,
    target: SearchTarget,
    rows: Seq<Seq<char>>,
    k: int,
)
    requires
        s.found(new, target, rows),
        0 <= k < new.matches@.len(),
    ensures
        new.matches@[k].row < rows.len(),
        holds_at(
            encode_utf8(rows[new.matches@[k].row as int]),
            s.query@,
            new.matches@[k].byte_range.start as int,
        ),
        new.matches@[k].byte_range.end == new.matches@[k].byte_range.start + encode_utf8(
            s.query@,
        ).len(),
{
    lemma_row_match(rows, s.query@, k);
    assert(new.matches@[k].row == row_matches(rows, s.query@)[k].0);
}

/// Every row that holds the query has a match, which reaches to where the query
/// stands.
pub proof fn law_rows_with_the_query_are_found(
    s: SearchState,
    new: SearchState,
    target: SearchTarget,
    rows: Seq<Seq<char>>,
    r: int,
    p: int,
) -> (k: int)
    requires
        s.found(new, target, rows),
        encode_utf8(s.query@).len() > 0,
        0 <= r < rows.len(),
        holds_at(encode_utf8(rows[r]), s.query@, p),
    ensures
        0 <= k < new.matches@.len(),
        new.matches@[k].row == r,
        new.matches@[k].byte_range.start <= p < new.matches@[k].byte_range.end,
{
    let k = lemma_row_is_matched(rows, s.query@, r, p);
    assert(new.matches@[k].row == row_matches(rows, s.query@)[k].0);
    k
}

proof fn lemma_rows_ascend(rows: Seq<Seq<char>>, query: Seq<char>, i: int, j: int)
    requires
        0 <= i <= j < row_matches(rows, query).len(),
    ensures
        row_matches(rows, query)[i].0 <= row_matches(rows, query)[j].0,
    decreases rows.len(),
{
    let rest = row_matches(rows.drop_last(), query);
    if j < rest.len() {
        lemma_rows_ascend(rows.drop_last(), query, i, j);
    } else if i < rest.len() {
        lemma_row_match(rows.drop_last(), query, i);
    }
}

/// The matches stand in the order of their rows.
pub proof fn law_matches_go_down_the_rows(
    s: SearchState,
    new: SearchState,
    target: SearchTarget,
    rows: Seq<Seq<char>>,
    i: int,
    j: int,
)
    requires
        s.found(new, target, rows),
        0 <= i <= j < new.matches@.len(),
    ensures
        new.matches@[i].row <= new.matches@[j].row,
{
    lemma_rows_ascend(rows, s.query@, i, j);
    assert(new.matches@[i].row == row_matches(rows, s.query@)[i].0);
    assert(new.matches@[j].row == row_matches(rows, s.query@)[j].0);
}

proof fn lemma_first_from(m: Seq<MatchLoc>, row: usize, i: int)
    requires
        0 <= i <= m.len(),
    ensures
        match SearchState::first_from(m, row, i) {
            Some(c) => i <= c < m.len() && m[c].row >= row && forall|k: int|
                i <= k < c ==> (#[trigger] m[k]).row < row,
            None => forall|k: int| i <= k < m.len() ==> (#[trigger] m[k]).row < row,
        },
    decreases m.len() - i,
{
    if i < m.len() && m[i].row < row {
        lemma_first_from(m, row, i + 1);
    }
}

proof fn lemma_last_upto(m: Seq<MatchLoc>, row: usize, i: int)
    requires
        0 <= i <= m.len(),
        forall|k: int| 0 <= k < i ==> (#[trigger] m[k]).row <= row,
    ensures
        match SearchState::last_upto(m, row, i) {
            Some(c) => 0 <= c < m.len() && (forall|k: int|
                0 <= k <= c ==> (#[trigger] m[k]).row <= row) && (c + 1 < m.len() ==> m[c + 1].row
                > row),
            None => m.len() > 0 ==> m[0].row > row,
        },
    decreases m.len() - i,
{
    if i < m.len() && m[i].row <= row {
        lemma_last_upto(m, row, i + 1);
    }
}

/// A search forwards starts at the first match at or below where it began, and
/// at the very first where there is none. A search backwards starts at the last
/// match at or above it, and at the very last where there is none. Without
/// matches it starts nowhere.
pub proof fn law_search_starts_at_the_nearest_match(s: SearchState, row: usize)
    ensures
        s.matches@.len() == 0 <==> s.start_match(row) is None,
        s.start_match(row) matches Some(c) ==> c < s.matches@.len(),
        !s.backwards ==> (s.start_match(row) matches Some(c) ==> {
            ||| s.matches@[c as int].row >= row && forall|k: int|
                0 <= k < c ==> (#[trigger] s.matches@[k]).row < row
            ||| c == 0 && forall|k: int|
                0 <= k < s.matches@.len() ==> (#[trigger] s.matches@[k]).row < row
        }),
        s.backwards ==> (s.start_match(row) matches Some(c) ==> {
            ||| s.matches@[c as int].row <= row && (c + 1 < s.matches@.len() ==> s.matches@[c
                + 1].row > row)
            ||| c == s.matches@.len() - 1 && s.matches@[0].row > row
        }),
{
    assert(s.matches.len() == s.matches@.len());
    lemma_first_from(s.matches@, row, 0);
    lemma_last_upto(s.matches@, row, 0);
}

/// A step that does not go round leads to the match right behind the current
/// one, or right before it where the search goes backwards. Past the end it
/// says so: at the bottom when it went down, at the top when it went up.
pub proof fn law_steps_go_one_match_on(s: SearchState, reverse: bool, c: usize)
    requires
        s.current == Some(c),
        c < s.matches@.len(),
    ensures
        s.backwards == reverse && c + 1 < s.matches@.len() ==> s.after_step(reverse).current
            == Some((c + 1) as usize),
        s.backwards != reverse && c > 0 ==> s.after_step(reverse).current == Some((c - 1) as usize),
        s.backwards == reverse && c + 1 == s.matches@.len() ==> s.after_step(reverse).wrap_msg
            == Some(WrapMsg::Bottom),
        s.backwards != reverse && c == 0 ==> s.after_step(reverse).wrap_msg == Some(WrapMsg::Top),
        s.after_step(reverse).matches == s.matches,
        s.after_step(reverse).query == s.query,
        s.after_step(reverse).target == s.target,
{
    assert(s.matches.len() == s.matches@.len());
}

/// The matches to mark on a row are those of that row, in their order.
pub proof fn law_marks_are_those_of_the_row(m: Seq<MatchLoc>, row: usize)
    ensures
        on_row(m, row).len() == m.filter(|x: MatchLoc| x.row == row).len(),
        forall|k: int|
            0 <= k < on_row(m, row).len() ==> #[trigger] on_row(m, row)[k] == m.filter(
                |x: MatchLoc| x.row == row,
            )[k].byte_range,
    decreases m.len(),
{
    reveal(Seq::filter);
    if m.len() > 0 {
        law_marks_are_those_of_the_row(m.drop_last(), row);
    }
}

// ── Where a search is, and where it leads ────────────────────────────────

/// A search is made in the panel that has the keys.
pub proof fn law_search_is_in_the_focused_panel(tab: Tab, panel: Panel, three: bool)
    ensures
        target_of(tab, panel, three) == Some(SearchTarget::FileTree) <==> tab == Tab::Files
            && panel == Panel::Files,
        target_of(tab, panel, three) == Some(SearchTarget::FilePreview) <==> panel == Panel::Diff
            && (tab == Tab::Files || tab == Tab::Search),
        target_of(tab, panel, three) == Some(SearchTarget::GitStatus) <==> tab == Tab::Git && panel
            == Panel::Files,
        target_of(tab, panel, three) == Some(SearchTarget::Diff) <==> tab == Tab::Git && panel
            == Panel::Diff,
        target_of(tab, panel, three) == Some(SearchTarget::CommitGraph) <==> tab == Tab::Graph
            && panel == Panel::Files,
        target_of(tab, panel, three) == Some(SearchTarget::GraphDiff) <==> tab == Tab::Graph
            && panel == Panel::Diff && three,
        target_of(tab, panel, three) == Some(SearchTarget::CommitDetail) <==> tab == Tab::Graph && (
        panel == Panel::Commit || (panel == Panel::Diff && !three)),
{
}

/// A search is counted from where its panel stands.
pub proof fn law_search_is_counted_from_the_panel(s: App)
    ensures
        start_row(SearchTarget::FileTree, s.snapshot()) == s.files.file_tree.selected,
        start_row(SearchTarget::GitStatus, s.snapshot()) == s.git.git_status.scroll,
        start_row(SearchTarget::CommitGraph, s.snapshot()) == s.graph.git_graph.selected_idx,
        start_row(SearchTarget::FilePreview, s.snapshot()) == s.preview.preview_scroll,
        start_row(SearchTarget::Diff, s.snapshot()) == s.git.diff.diff_scroll,
        start_row(SearchTarget::GraphDiff, s.snapshot())
            == s.graph.commit_detail.file_diff_scroll,
        start_row(SearchTarget::CommitDetail, s.snapshot()) == s.graph.commit_detail.scroll,
{
}

/// A row that is scrolled to is on the screen, as near to its middle as the
/// start of the text allows.
pub proof fn law_found_row_is_on_screen(row: usize, view_h: usize)
    requires
        view_h > 0,
    ensures
        centered(row, view_h) <= row < centered(row, view_h) + view_h,
        view_h > 1 && centered(row, view_h) > 0 ==> row - centered(row, view_h) == view_h as int
            / 2,
{
}

/// The panel shows the current match: the tree and the graph select its row,
/// the status selects its file, and the others scroll to it.
pub proof fn law_jump_shows_the_match(
    s: App,
    new: App,
    c: usize,
    now: u64,
    fx: Seq<Effect<Seq<char>>>,
    fx2: Seq<Effect<Seq<char>>>,
)
    requires
        s.jumped(new, now, fx, fx2),
        s.search.current == Some(c),
        c < s.search.matches@.len(),
    ensures
        new.search == s.search,
        s.search.target == Some(SearchTarget::FileTree) && s.search.matches@[c as int].row
            < s.files.file_tree.entries@.len() ==> new.files.file_tree.selected
            == s.search.matches@[c as int].row && new.files.file_tree.entries
            == s.files.file_tree.entries,
        s.search.target == Some(SearchTarget::CommitGraph) && s.search.matches@[c as int].row
            < s.graph.git_graph.rows@.len() ==> new.graph.git_graph.selected_idx
            == s.search.matches@[c as int].row && new.graph.git_graph.selection_anchor is None
            && new.graph.git_graph.rows == s.graph.git_graph.rows,
        s.search.target == Some(SearchTarget::FilePreview) ==> new.preview.preview_scroll
            == centered(
            s.search.matches@[c as int].row,
            s.screen.last_preview_view_h as usize,
        ),
        s.search.target == Some(SearchTarget::Diff) ==> new.git.diff.diff_scroll == centered(
            s.search.matches@[c as int].row,
            s.screen.last_diff_view_h as usize,
        ),
        s.search.target == Some(SearchTarget::GraphDiff)
            ==> new.graph.commit_detail.file_diff_scroll == centered(
            s.search.matches@[c as int].row,
            s.screen.last_diff_view_h as usize,
        ) && new.graph.commit_detail.scroll == s.graph.commit_detail.scroll,
        s.search.target == Some(SearchTarget::CommitDetail) ==> new.graph.commit_detail.scroll
            == centered(
            s.search.matches@[c as int].row,
            s.screen.last_commit_detail_view_h as usize,
        ) && new.graph.commit_detail.file_diff_scroll == s.graph.commit_detail.file_diff_scroll,
{
}

/// The file in a row of the status is the staged file of that row or, behind
/// these, the unstaged one.
pub proof fn law_status_row_is_its_file(s: App, i: usize)
    ensures
        i < s.git.lists.staged_files@.len() ==> s.file_at(i) == Some(
            (s.git.lists.staged_files@[i as int].path@, true),
        ),
        s.git.lists.staged_files@.len() <= i < s.git.lists.staged_files@.len()
            + s.git.lists.unstaged_files@.len() ==> s.file_at(i) == Some(
            (s.git.lists.unstaged_files@[i - s.git.lists.staged_files@.len()].path@, false),
        ),
        i >= s.git.lists.staged_files@.len() + s.git.lists.unstaged_files@.len() ==> s.file_at(i)
            is None,
{
}

// ── Keys of the prompt ───────────────────────────────────────────────────

/// What the keys of the prompt do, operation by operation.
pub proof fn law_prompt_keys(key: PromptKey, ctrl: bool, alt: bool)
    ensures
        op_of(key, ctrl, alt) is Cancel <==> key is Esc || (ctrl && key == PromptKey::Char('c')),
        op_of(key, ctrl, alt) is Confirm <==> key is Enter,
        op_of(key, ctrl, alt) is ClearLine <==> ctrl && key == PromptKey::Char('u'),
        op_of(key, ctrl, alt) is DeleteBackward <==> key is Backspace && !ctrl && !alt,
        op_of(key, ctrl, alt) is DeleteForward <==> key is Delete && !ctrl && !alt,
        op_of(key, ctrl, alt) is CharBackward <==> key is Left && !ctrl && !alt,
        op_of(key, ctrl, alt) is CharForward <==> key is Right && !ctrl && !alt,
        op_of(key, ctrl, alt) is LineStart <==> key is Home || (ctrl && key == PromptKey::Char(
            'a',
        )),
        op_of(key, ctrl, alt) is LineEnd <==> key is End || (ctrl && key == PromptKey::Char('e')),
        key is Backspace && (ctrl || alt) ==> op_of(key, ctrl, alt) is DeleteWordBackward,
        key is Delete && (ctrl || alt) ==> op_of(key, ctrl, alt) is DeleteWordForward,
        key is Left && (ctrl || alt) ==> op_of(key, ctrl, alt) is WordBackward,
        key is Right && (ctrl || alt) ==> op_of(key, ctrl, alt) is WordForward,
        ctrl && key == PromptKey::Char('w') ==> op_of(key, ctrl, alt) is DeleteWordBackward,
        alt && key == PromptKey::Char('b') ==> op_of(key, ctrl, alt) is WordBackward,
        alt && key == PromptKey::Char('f') ==> op_of(key, ctrl, alt) is WordForward,
        alt && key == PromptKey::Char('d') ==> op_of(key, ctrl, alt) is DeleteWordForward,
        op_of(key, ctrl, alt) is Insert ==> key == PromptKey::Char(op_of(key, ctrl, alt)->Insert_0),
        key is Char && !ctrl && !alt ==> op_of(key, ctrl, alt) is Insert,
{
}

/// A key that edits the query leaves the new query and cursor in the prompt;
/// one that moves the cursor leaves the query; one that cancels ends the
/// search; and one that confirms keeps the matches, if there are any.
pub proof fn law_prompt_takes_keys(
    s: App,
    new: App,
    op: PromptOp,
    query: String,
    cursor: usize,
    detail: Seq<Seq<char>>,
    now: u64,
    fx: Seq<Effect<Seq<char>>>,
    fx2: Seq<Effect<Seq<char>>>,
)
    requires
        s.key_taken(new, op, query, cursor, detail, now, fx, fx2),
    ensures
        (op is Insert || op is DeleteBackward || op is DeleteForward || op is ClearLine
            || op is DeleteWordBackward || op is DeleteWordForward) && s.search.target is Some
            ==> new.search.query == query && new.search.cursor == cursor,
        (op is WordBackward || op is WordForward || op is CharBackward || op is CharForward)
            ==> new.search.query == s.search.query && new.search.cursor == cursor
            && new.search.matches == s.search.matches && fx2 == fx,
        op is LineStart ==> new.search.cursor == 0 && new.search.query == s.search.query,
        op is LineEnd ==> new.search.cursor == encode_utf8(s.search.query@).len()
            && new.search.query == s.search.query,
        op is Cancel ==> !new.search.active && new.search.matches@.len() == 0
            && new.search.query@.len() == 0 && new.search.target is None,
        op is Confirm ==> !new.search.active && fx2 == fx,
        op is Confirm && s.search.query@.len() > 0 && s.search.matches@.len() > 0
            ==> new.search.matches == s.search.matches && new.search.query == s.search.query
            && new.search.current == s.search.current,
        op is Confirm && (s.search.query@.len() == 0 || s.search.matches@.len() == 0)
            ==> new.search.target is None,
{
}

} // verus!
