//! Laws of the graph tab, of the labels on its commits, and of the choice of
//! the repository it shows.
use crate::effects::{Effect, Pref};
use crate::git::{CommitDetail, FileEntry};
use crate::graph::{
    key_changed, row_of, same_commit, stands_for_range, stepped, walked, CommitFileDiff,
    GitGraphState, GraphPane, GraphPayload, GraphRow, RangeDetail,
};
use crate::layout::{DiffMode, Panel, Screen, Tab};
use crate::paths::same_path;
use crate::refs::{all_labels, label_of, labels_on, LabelModel, RefRecord};
use crate::backend::{RepoDiscoverResponse, WorkspaceRepoMeta};
use crate::repo_catalog::{active_repo, lost_effects, repo_index, RepoCatalogState};
use vstd::prelude::*;

verus! {

// ── The cursor ───────────────────────────────────────────────────────────

/// A commit is found on the first row that shows it.
pub proof fn law_commit_is_found_on_its_first_row(rows: Seq<GraphRow>, oid: Seq<char>)
    requires
        rows.len() <= usize::MAX,
    ensures
        match row_of(rows, oid) {
            Some(i) => i < rows.len() && rows[i as int].commit.oid@ == oid && forall|k: int|
                0 <= k < i ==> (#[trigger] rows[k]).commit.oid@ != oid,
            None => forall|k: int| 0 <= k < rows.len() ==> (#[trigger] rows[k]).commit.oid@ != oid,
        },
    decreases rows.len(),
{
    if rows.len() > 0 {
        let rest = rows.drop_last();
        law_commit_is_found_on_its_first_row(rest, oid);
        match row_of(rest, oid) {
            Some(i) => {
                assert(rest[i as int] == rows[i as int]);
                assert forall|k: int| 0 <= k < i implies (#[trigger] rows[k]).commit.oid@ != oid by {
                    assert(rest[k] == rows[k]);
                }
            },
            None => {
                assert forall|k: int| 0 <= k < rows.len() - 1 implies (#[trigger] rows[k]).commit.oid@
                    != oid by {
                    assert(rest[k] == rows[k]);
                }
            },
        }
    }
}

/// A move goes as far as it is asked to, up to the first row and down to the
/// last one.
pub proof fn law_moves_stop_at_the_ends(at: int, delta: int, last: int)
    requires
        0 <= at <= last,
    ensures
        0 <= at + delta <= last ==> stepped(at, delta, last) == at + delta,
        at + delta < 0 ==> stepped(at, delta, last) == 0,
        at + delta > last ==> stepped(at, delta, last) == last,
{
}

/// A plain move puts the cursor on another commit, and ends a range.
pub proof fn law_plain_move_selects_one_commit(s: GraphPane, delta: int)
    requires
        s.git_graph.wf(),
        s.git_graph.rows@.len() > 0,
        0 <= s.git_graph.selected_idx + delta < s.git_graph.rows@.len(),
        delta != 0,
    ensures
        s.moved_from(delta) is Some,
        s.moved_from(delta)->0.git_graph.selected_idx == s.git_graph.selected_idx + delta,
        s.moved_from(delta)->0.git_graph.selected_commit == Some(
            s.git_graph.rows@[s.git_graph.selected_idx + delta].commit.oid,
        ),
        s.moved_from(delta)->0.git_graph.selection_anchor is None,
        s.moved_from(delta)->0.commit_detail.range_detail is None,
        s.moved_from(delta)->0.git_graph.rows == s.git_graph.rows,
{
    assert(s.git_graph.rows.len() == s.git_graph.rows@.len());
}

/// Extending the selection keeps where it began and moves the cursor.
pub proof fn law_extending_keeps_the_anchor(s: GraphPane, delta: int)
    requires
        s.git_graph.wf(),
        s.git_graph.rows@.len() > 0,
        0 <= s.git_graph.selected_idx + delta < s.git_graph.rows@.len(),
        delta != 0,
    ensures
        s.extended(delta) is Some,
        s.extended(delta)->0.git_graph.selected_idx == s.git_graph.selected_idx + delta,
        s.extended(delta)->0.git_graph.selected_commit == Some(
            s.git_graph.rows@[s.git_graph.selected_idx + delta].commit.oid,
        ),
        s.git_graph.selection_anchor is Some ==> s.extended(delta)->0.git_graph.selection_anchor
            == s.git_graph.selection_anchor,
        s.git_graph.selection_anchor is None ==> s.extended(delta)->0.git_graph.selection_anchor
            == Some(s.git_graph.selected_idx),
        s.extended(delta)->0.git_graph.rows == s.git_graph.rows,
{
    assert(s.git_graph.rows.len() == s.git_graph.rows@.len());
}

/// Clearing a range leaves the cursor on its commit.
pub proof fn law_clearing_a_range_keeps_the_cursor(s: GraphPane)
    ensures
        s.range_cleared().git_graph.selection_anchor is None,
        s.range_cleared().commit_detail.range_detail is None,
        s.range_cleared().git_graph.selected_idx == s.git_graph.selected_idx,
        s.range_cleared().git_graph.selected_commit == s.git_graph.selected_commit,
        s.range_cleared().git_graph.rows == s.git_graph.rows,
{
}

// ── What is asked for ────────────────────────────────────────────────────

/// The detail that is asked for is that of the commit under the cursor, under
/// the number that is then waited for. No diff of a file of another commit stays
/// open.
pub proof fn law_detail_is_that_of_the_cursor(s: GraphPane, repo: Option<Seq<char>>)
    ensures
        s.git_graph.selected_commit is Some && repo is Some ==> s.detail_request(repo) == seq![
            Effect::<Seq<char>>::LoadCommitDetail {
                generation: s.detail_asked(repo).commit_detail_load.generation,
                repo: repo->0,
                oid: s.git_graph.selected_commit->0@,
            },
        ] && s.detail_asked(repo).commit_detail_load.loading,
        s.git_graph.selected_commit is None || repo is None ==> s.detail_request(repo).len() == 0
            && s.detail_asked(repo).commit_detail.detail is None,
        s.detail_asked(repo).commit_detail.file_diff is None,
        s.detail_asked(repo).git_graph == s.git_graph,
{
}

/// Of a range the commits from its lowest row to its highest one are asked for:
/// the lower row is the newer commit.
pub proof fn law_range_goes_from_oldest_to_newest(s: GraphPane, repo: Seq<char>, a: usize)
    requires
        s.git_graph.selection_anchor == Some(a),
        a != s.git_graph.selected_idx,
        a < s.git_graph.rows@.len(),
        s.git_graph.selected_idx < s.git_graph.rows@.len(),
    ensures
        ({
            let c = s.git_graph.selected_idx;
            let r = s.git_graph.rows@;
            let e = s.range_request(Some(repo));
            &&& e.len() == 1
            &&& e[0] is LoadCommitRange
            &&& e[0]->LoadCommitRange_repo == repo
            &&& a < c ==> e[0]->LoadCommitRange_newest == r[a as int].commit.oid@
                && e[0]->LoadCommitRange_oldest == r[c as int].commit.oid@
            &&& c < a ==> e[0]->LoadCommitRange_newest == r[c as int].commit.oid@
                && e[0]->LoadCommitRange_oldest == r[a as int].commit.oid@
            &&& s.selection_request(Some(repo)) == e
        }),
{
}

/// What stands for a range until its files arrive holds its commits in the
/// order of their rows, from the newest to the oldest.
pub proof fn law_range_holds_its_commits(g: GitGraphState, d: RangeDetail, a: usize, i: int)
    requires
        g.selection_anchor == Some(a),
        a != g.selected_idx,
        a < g.rows@.len(),
        g.selected_idx < g.rows@.len(),
        stands_for_range(g, Some(d)),
        a <= i <= g.selected_idx || g.selected_idx <= i <= a,
    ensures
        ({
            let low = if a < g.selected_idx {
                a as int
            } else {
                g.selected_idx as int
            };
            &&& d.commits@[i - low].oid == g.rows@[i].commit.oid
            &&& d.commits@[i - low].subject == g.rows@[i].commit.subject
            &&& d.newest_oid == g.rows@[low].commit.oid
            &&& d.commits@.len() == d.commit_count
            &&& d.commit_count == (if a < g.selected_idx {
                g.selected_idx - a + 1
            } else {
                a - g.selected_idx + 1
            })
        }),
        a < g.selected_idx ==> d.oldest_oid == g.rows@[g.selected_idx as int].commit.oid,
        g.selected_idx < a ==> d.oldest_oid == g.rows@[a as int].commit.oid,
{
    let low = if a < g.selected_idx {
        a as int
    } else {
        g.selected_idx as int
    };
    assert(same_commit(d.commits@[i - low], g.rows@[low + (i - low)].commit));
}

/// Without a range the detail of the one commit is asked for.
pub proof fn law_one_commit_is_no_range(s: GraphPane, repo: Option<Seq<char>>)
    requires
        s.git_graph.selection_anchor is None || s.git_graph.selection_anchor == Some(
            s.git_graph.selected_idx,
        ),
    ensures
        s.selection_request(repo) == s.detail_request(repo),
        !s.git_graph.ranged(),
{
}

/// The diff of a file is asked for of the commit under the cursor or, where a
/// range is selected, between its ends, with as much context as the mode shows.
pub proof fn law_file_diff_is_that_of_the_selection(s: GraphPane, repo: Seq<char>, path: Seq<char>)
    ensures
        !s.git_graph.ranged() && s.git_graph.selected_commit is Some ==> s.file_effects(
            Some(repo),
            path,
        ) == seq![
            Effect::<Seq<char>>::LoadCommitFileDiff {
                generation: s.file_asked(Some(repo), path).commit_file_diff_load.generation,
                repo,
                oid: s.git_graph.selected_commit->0@,
                path,
                context: if s.commit_detail.diff_mode == DiffMode::Compact {
                    3
                } else {
                    9999
                },
            },
        ],
        s.git_graph.ranged() && s.commit_detail.range_detail is Some ==> s.file_effects(
            Some(repo),
            path,
        ) == seq![
            Effect::<Seq<char>>::LoadRangeFileDiff {
                generation: s.file_asked(Some(repo), path).commit_file_diff_load.generation,
                repo,
                oldest: s.commit_detail.range_detail->0.oldest_oid@,
                newest: s.commit_detail.range_detail->0.newest_oid@,
                path,
                context: if s.commit_detail.diff_mode == DiffMode::Compact {
                    3
                } else {
                    9999
                },
            },
        ],
        s.file_effects(Some(repo), path).len() > 0 ==> s.file_asked(
            Some(repo),
            path,
        ).commit_file_diff_load.loading,
        s.file_effects(Some(repo), path).len() == 0 ==> s.file_asked(
            Some(repo),
            path,
        ).commit_detail.file_diff is None,
        s.file_effects(None, path).len() == 0,
        s.commit_detail.file_diff is Some && s.commit_detail.file_diff->0.path@ != path
            ==> s.file_asked(Some(repo), path).commit_detail.file_diff_scroll == 0,
        s.commit_detail.file_diff is Some && s.commit_detail.file_diff->0.path@ == path
            && s.file_effects(Some(repo), path).len() > 0 ==> s.file_asked(
            Some(repo),
            path,
        ).commit_detail == s.commit_detail,
{
}

/// Opening a file puts the keys on the diff where the graph has a column of its
/// own for it, and nowhere else.
pub proof fn law_opened_file_takes_the_keys(s: GraphPane, screen: Screen, repo: Option<Seq<char>>, path: Seq<char>)
    ensures
        s.file_screen(screen, repo, path).active_panel == (if screen.active_tab == Tab::Graph
            && screen.last_total_width >= crate::layout::GRAPH_THREE_COL_MIN_WIDTH {
            Panel::Diff
        } else {
            screen.active_panel
        }),
        s.file_screen(screen, repo, path).active_tab == screen.active_tab,
{
}

// ── What comes back ──────────────────────────────────────────────────────

/// The history is shown as it was walked, with its labels.
pub proof fn law_history_is_shown_as_walked(g: GitGraphState, p: GraphPayload)
    requires
        p.rows@.len() <= usize::MAX,
    ensures
        walked(g, p).rows == p.rows,
        walked(g, p).ref_map == p.ref_map,
        walked(g, p).cache_key == Some(p.cache_key),
        p.rows@.len() > 0 ==> walked(g, p).selected_idx < p.rows@.len() && walked(
            g,
            p,
        ).selected_commit == Some(p.rows@[walked(g, p).selected_idx as int].commit.oid),
        p.rows@.len() == 0 ==> walked(g, p).selected_commit is None,
        g.selection_anchor is None ==> walked(g, p).selection_anchor is None,
        g.selected_commit is None && g.selected_idx < p.rows@.len() ==> walked(g, p).selected_idx
            == g.selected_idx,
{
    if let Some(oid) = g.selected_commit {
        law_commit_is_found_on_its_first_row(p.rows@, oid@);
    }
}

/// A walk is taken where it is the one that was asked for last.
pub proof fn law_awaited_walk_is_taken(
    s: GraphPane,
    new: GraphPane,
    generation: u64,
    result: Result<GraphPayload, String>,
    repo: Option<Seq<char>>,
    fx: Seq<Effect<Seq<char>>>,
    fx2: Seq<Effect<Seq<char>>>,
)
    requires
        s.walk_applied(new, generation, result, repo, fx, fx2),
    ensures
        generation != s.graph_load.generation ==> new == s && fx2 == fx,
        generation == s.graph_load.generation ==> (result matches Ok(p) ==> {
            &&& new.git_graph.rows == p.rows
            &&& new.git_graph.ref_map == p.ref_map
            &&& !new.graph_load.loading
            &&& !new.graph_load.stale
        }),
        generation == s.graph_load.generation ==> (result matches Err(e) ==> new.git_graph
            == s.git_graph && new.graph_load.error == Some(e) && fx2 == fx),
        fx.is_prefix_of(fx2),
{
}

/// Whether the history changed since it was walked is told by its head and its
/// references.
pub proof fn law_history_changes_with_its_head(old: Option<(String, u64)>, new: (String, u64))
    ensures
        old is None ==> key_changed(old, new),
        old matches Some(k) ==> (key_changed(old, new) <==> !(k.0@ == new.0@ && k.1 == new.1)),
{
}

/// The detail of a commit, the files of a range and the diff of a file are each
/// shown where they are what was asked for last.
pub proof fn law_awaited_details_are_shown(
    s: GraphPane,
    a: GraphPane,
    b: GraphPane,
    c: GraphPane,
    generation: u64,
    detail: Option<CommitDetail>,
    files: Vec<FileEntry>,
    diff: Option<CommitFileDiff>,
)
    requires
        s.detail_applied(a, generation, Ok(detail)),
        s.range_applied(b, generation, Ok(files)),
        s.file_diff_applied(c, generation, Ok(diff)),
    ensures
        generation != s.commit_detail_load.generation ==> a == s && b == s,
        generation != s.commit_file_diff_load.generation ==> c == s,
        generation == s.commit_detail_load.generation ==> a.commit_detail.detail == detail
            && !a.commit_detail_load.loading && a.commit_detail.file_diff
            == s.commit_detail.file_diff,
        generation == s.commit_detail_load.generation && s.commit_detail.range_detail is Some ==> {
            &&& b.commit_detail.range_detail is Some
            &&& b.commit_detail.range_detail->0.files == files
            &&& b.commit_detail.range_detail->0.commits
                == s.commit_detail.range_detail->0.commits
            &&& b.commit_detail.range_detail->0.oldest_oid
                == s.commit_detail.range_detail->0.oldest_oid
            &&& b.commit_detail.range_detail->0.newest_oid
                == s.commit_detail.range_detail->0.newest_oid
        },
        generation == s.commit_detail_load.generation && s.commit_detail.range_detail is None
            ==> b.commit_detail.range_detail is None,
        generation == s.commit_file_diff_load.generation ==> c.commit_detail.file_diff == diff
            && !c.commit_file_diff_load.loading && c.commit_detail.detail
            == s.commit_detail.detail,
{
}

// ── Labels ───────────────────────────────────────────────────────────────

/// A reference is shown under what it is: a branch of the repository, one of a
/// remote or a tag, each by its name behind the family it belongs to.
pub proof fn law_references_are_shown_by_family(rest: Seq<char>)
    ensures
        label_of("refs/heads/"@ + rest) == Some(LabelModel::Branch(rest)),
        !("/HEAD"@.is_suffix_of(rest)) ==> label_of("refs/remotes/"@ + rest) == Some(
            LabelModel::RemoteBranch(rest),
        ),
        "/HEAD"@.is_suffix_of(rest) ==> label_of("refs/remotes/"@ + rest) is None,
        label_of("refs/tags/"@ + rest) == Some(LabelModel::Tag(rest)),
{
    reveal_strlit("refs/heads/");
    reveal_strlit("refs/remotes/");
    reveal_strlit("refs/tags/");
    let (h, r, t) = ("refs/heads/"@, "refs/remotes/"@, "refs/tags/"@);
    assert((h + rest).skip(h.len() as int) =~= rest);
    assert((r + rest).skip(r.len() as int) =~= rest);
    assert((t + rest).skip(t.len() as int) =~= rest);
    assert(h.is_prefix_of(h + rest)) by {
        assert((h + rest).take(h.len() as int) =~= h);
    }
    assert(r.is_prefix_of(r + rest)) by {
        assert((r + rest).take(r.len() as int) =~= r);
    }
    assert(t.is_prefix_of(t + rest)) by {
        assert((t + rest).take(t.len() as int) =~= t);
    }
    assert((r + rest)[5] == 'r');
    assert((t + rest)[5] == 't');
    assert(h[5] == 'h');
    assert(r[5] == 'r');
    assert(!h.is_prefix_of(r + rest));
    assert(!h.is_prefix_of(t + rest));
    assert(!r.is_prefix_of(t + rest));
}

/// A reference that is shown belongs to one of the three families.
pub proof fn law_shown_references_have_a_family(name: Seq<char>)
    ensures
        label_of(name) is Some ==> "refs/heads/"@.is_prefix_of(name) || "refs/remotes/"@.is_prefix_of(
            name,
        ) || "refs/tags/"@.is_prefix_of(name),
{
}

/// A reference that points at the commit and is shown.
pub open spec fn labels_commit(r: RefRecord, oid: Seq<char>) -> bool {
    r.oid is Some && r.name is Some && r.oid->0@ == oid && label_of(r.name->0@) is Some
}

/// The labels on a commit are those of the references that point at it, in
/// their order, and none of another commit's.
pub proof fn law_labels_are_on_their_commit(refs: Seq<RefRecord>, oid: Seq<char>)
    ensures
        ({
            let f = refs.filter(|r: RefRecord| labels_commit(r, oid));
            &&& labels_on(refs, oid).len() == f.len()
            &&& forall|i: int|
                0 <= i < f.len() ==> Some(#[trigger] labels_on(refs, oid)[i]) == label_of(
                    f[i].name->0@,
                )
        }),
    decreases refs.len(),
{
    reveal(Seq::filter);
    if refs.len() > 0 {
        law_labels_are_on_their_commit(refs.drop_last(), oid);
    }
}

/// The head is shown on the commit it is on, before the other labels, and on no
/// other.
pub proof fn law_head_is_shown_first(refs: Seq<RefRecord>, head: Option<Seq<char>>, oid: Seq<char>)
    ensures
        head == Some(oid) ==> all_labels(refs, head, oid).len() == labels_on(refs, oid).len() + 1
            && all_labels(refs, head, oid)[0] is Head && all_labels(refs, head, oid).drop_first()
            == labels_on(refs, oid),
        head != Some(oid) ==> all_labels(refs, head, oid) == labels_on(refs, oid),
{
    if head == Some(oid) {
        assert(all_labels(refs, head, oid).drop_first() =~= labels_on(refs, oid));
    }
}

// ── The repository ───────────────────────────────────────────────────────

/// A repository is found at its first row.
pub proof fn law_repository_is_found_at_its_row(repos: Seq<WorkspaceRepoMeta>, root: Seq<char>)
    ensures
        match repo_index(repos, root) {
            Some(i) => 0 <= i < repos.len() && same_path(repos[i].repo_root_rel@, root) && forall|
                k: int,
            |
                0 <= k < i ==> !same_path((#[trigger] repos[k]).repo_root_rel@, root),
            None => forall|k: int|
                0 <= k < repos.len() ==> !same_path((#[trigger] repos[k]).repo_root_rel@, root),
        },
    decreases repos.len(),
{
    if repos.len() > 0 {
        let rest = repos.drop_last();
        law_repository_is_found_at_its_row(rest, root);
        assert forall|k: int| 0 <= k < rest.len() implies rest[k] == #[trigger] repos[k] by {}
    }
}

/// The repository that was chosen stays chosen while it is there. Otherwise the
/// only one that is there is taken, and none where there are several.
pub proof fn law_choice_of_the_repository(
    s: RepoCatalogState,
    chosen: String,
    resp: RepoDiscoverResponse,
    k: int,
)
    requires
        s.selected_git_repo == Some(chosen),
    ensures
        0 <= k < resp.repos@.len() && same_path(resp.repos@[k].repo_root_rel@, chosen@)
            ==> s.searched(resp).selected_git_repo == Some(chosen) && lost_effects(
            Some(chosen),
            resp.repos@,
        ).len() == 0,
        (forall|j: int|
            0 <= j < resp.repos@.len() ==> !same_path(
                (#[trigger] resp.repos@[j]).repo_root_rel@,
                chosen@,
            )) && resp.repos@.len() != 1 ==> s.searched(resp).selected_git_repo is None
            && lost_effects(Some(chosen), resp.repos@).len() == 2 && lost_effects(
            Some(chosen),
            resp.repos@,
        )[1] == (Effect::<Seq<char>>::RemovePref { pref: Pref::SelectedRepo }),
        resp.repos@.len() == 1 && !same_path(resp.repos@[0].repo_root_rel@, chosen@)
            ==> s.searched(resp).selected_git_repo == Some(resp.repos@[0].repo_root_rel)
            && lost_effects(Some(chosen), resp.repos@).len() == 2 && lost_effects(
            Some(chosen),
            resp.repos@,
        )[1] == (Effect::<Seq<char>>::SetPref {
            pref: Pref::SelectedRepo,
            value: resp.repos@[0].repo_root_rel@,
        }),
        s.searched(resp).repos == resp.repos,
        s.searched(resp).truncated == resp.truncated,
        !s.searched(resp).discover_load.loading,
{
    law_repository_is_found_at_its_row(resp.repos@, chosen@);
}

/// With none chosen, the only repository is taken.
pub proof fn law_only_repository_needs_no_choice(s: RepoCatalogState, resp: RepoDiscoverResponse)
    requires
        s.selected_git_repo is None,
    ensures
        s.searched(resp).selected_git_repo is Some <==> resp.repos@.len() == 1,
        resp.repos@.len() == 1 ==> s.searched(resp).selected_git_repo == Some(
            resp.repos@[0].repo_root_rel,
        ),
        lost_effects(None, resp.repos@).len() == 0,
{
}

/// The panels work on the repository that is chosen, else on the workspace
/// where that is one.
pub proof fn law_panels_work_on_the_choice(chosen: Option<String>, has_repo: bool)
    ensures
        chosen matches Some(r) ==> active_repo(chosen, has_repo) == Some(r@),
        chosen is None ==> (active_repo(chosen, has_repo) is Some <==> has_repo),
        chosen is None && has_repo ==> active_repo(chosen, has_repo) == Some("."@),
{
}

} // verus!
