//! Laws of the git tab: what its keys ask of git, what comes back, and what is
//! selected then.
use crate::effects::{Effect, Notice, ToastLevel};
use crate::file_tree::FileTree;
use crate::git::FileEntry;
use crate::git_activate::{
    branch_taken, commit_taken, file_opened, publish_taken, pull_taken, quiet_taken, stash_taken,
    Activated,
};
use crate::git_flows::{history_moved, repo_switched, same_stashes, with_new, JobEnd, StatusPayload};
use crate::git_laws::{is_core_of, lemma_core};
use crate::git_pane::{
    chosen, find_item, holds, lists, moved, moves, reverts, same_selection, DiscardTarget, DiffView,
    FileLists, GitPane, PendingStashAction, PushOperation, SelectedFile,
};
use crate::git_stash::StashJob;
use crate::graph::{GraphPane, HighlightedDiff};
use crate::layout::{lies_in, DiffMode};
use crate::paths::pushed_path;
use crate::text::{opt_view, trimmed, views, without_trailing};
use vstd::prelude::*;

verus! {

// ── The diff of the selected file ────────────────────────────────────────

/// The diff that is asked for is that of the selected file, on the side it is
/// selected on, and what comes back under that number is waited for. Without a
/// selected file or a repository none is asked for, and none is shown.
pub proof fn law_diff_is_that_of_the_selection(s: GitPane, repo: Option<Seq<char>>)
    ensures
        s.lists.selected_file matches Some(sel) ==> (repo matches Some(r) ==> {
            &&& s.diff_request(repo).len() == 1
            &&& s.diff_request(repo)[0] is LoadDiff
            &&& s.diff_request(repo)[0]->LoadDiff_repo == r
            &&& s.diff_request(repo)[0]->LoadDiff_path == sel.path@
            &&& s.diff_request(repo)[0]->LoadDiff_staged == sel.is_staged
            &&& s.diff_request(repo)[0]->LoadDiff_generation
                == s.diff_asked(repo).diff.diff_load.generation
            &&& s.diff_asked(repo).diff.diff_load.loading
            &&& s.diff_asked(repo).diff.diff_content == s.diff.diff_content
            &&& s.diff.diff_mode == DiffMode::Compact ==> s.diff_request(
                repo,
            )[0]->LoadDiff_context == 3
            &&& s.diff.diff_mode == DiffMode::FullFile ==> s.diff_request(
                repo,
            )[0]->LoadDiff_context == 9999
        }),
        s.lists.selected_file is None || repo is None ==> s.diff_request(repo).len() == 0
            && s.diff_asked(repo).diff.diff_content is None,
        s.diff_asked(repo).lists == s.lists,
        s.diff_asked(repo).git_status == s.git_status,
{
}

/// A diff is shown where it is the one that was asked for last. One that could
/// not be read leaves what is shown.
pub proof fn law_awaited_diff_is_shown(
    s: DiffView,
    new: DiffView,
    generation: u64,
    result: Result<Option<HighlightedDiff>, String>,
)
    requires
        s.applied(new, generation, result),
    ensures
        generation != s.diff_load.generation ==> new == s,
        generation == s.diff_load.generation ==> !new.diff_load.loading,
        generation == s.diff_load.generation ==> (result matches Ok(d) ==> new.diff_content == d
            && !new.diff_load.stale),
        generation == s.diff_load.generation ==> (result matches Err(e) ==> new.diff_content
            == s.diff_content && new.diff_load.error == Some(e)),
        new.diff_scroll == s.diff_scroll,
        new.diff_mode == s.diff_mode,
{
}

/// The status is asked for under a number that is then waited for.
pub proof fn law_status_is_asked_for(s: GitPane, repo: Option<Seq<char>>)
    ensures
        repo matches Some(r) ==> s.status_request(repo) == seq![
            Effect::<Seq<char>>::RefreshStatus {
                generation: s.status_asked(repo).git_status_load.generation,
                repo: r,
            },
        ] && s.status_asked(repo).git_status_load.loading,
        repo is None ==> s.status_request(repo).len() == 0 && s.status_asked(repo) == s,
        s.reread_requests(repo) == s.status_request(repo) + s.diff_request(repo),
        s.reread(repo).lists == s.lists,
{
}

/// Choosing a file selects it, on the side it was chosen on, with its diff from
/// the start.
pub proof fn law_chosen_file_is_selected(s: GitPane, f: SelectedFile)
    ensures
        s.file_selected(f).lists.selected_file == Some(f),
        s.file_selected(f).diff.diff_scroll == 0,
        s.file_selected(f).diff.diff_h_scroll == 0,
        s.file_selected(f).lists.staged_files == s.lists.staged_files,
        s.file_selected(f).lists.unstaged_files == s.lists.unstaged_files,
        s.unselected().lists.selected_file is None,
        s.unselected().diff.diff_content is None,
{
}

/// The other mode of a diff is another one, and its other is the first again.
/// The diff is shown from its start.
pub proof fn law_diff_modes_alternate(s: GitPane)
    ensures
        s.mode_toggled().diff.diff_mode != s.diff.diff_mode,
        s.mode_toggled().mode_toggled().diff.diff_mode == s.diff.diff_mode,
        s.mode_toggled().diff.diff_scroll == 0,
        s.mode_toggled().lists == s.lists,
        s.diff.diff_layout.other() != s.diff.diff_layout,
        s.diff.diff_layout.other().other() == s.diff.diff_layout,
{
}

// ── Moving over the files ────────────────────────────────────────────────

/// The cursor goes over the staged files, then the unstaged ones, in the order
/// they are shown in. A section that is closed is passed over.
pub proof fn law_cursor_goes_over_the_files(l: FileLists, i: int)
    ensures
        l.selectable().len() == (if l.staged_collapsed {
            0
        } else {
            l.staged_files@.len()
        }) + (if l.unstaged_collapsed {
            0
        } else {
            l.unstaged_files@.len()
        }),
        !l.staged_collapsed && 0 <= i < l.staged_files@.len() ==> l.selectable()[i] == (
            l.staged_files@[i].path,
            true,
        ),
        !l.staged_collapsed && !l.unstaged_collapsed && 0 <= i < l.unstaged_files@.len()
            ==> l.selectable()[l.staged_files@.len() + i] == (l.unstaged_files@[i].path, false),
        l.staged_collapsed && !l.unstaged_collapsed && 0 <= i < l.unstaged_files@.len()
            ==> l.selectable()[i] == (l.unstaged_files@[i].path, false),
{
}

proof fn lemma_find_item(items: Seq<(String, bool)>, path: Seq<char>, staged: bool, i: int, at: int)
    requires
        0 <= i <= at < items.len(),
        items[at].0@ == path,
        items[at].1 == staged,
        forall|k: int|
            i <= k < at ==> !((#[trigger] items[k]).0@ == path && items[k].1 == staged),
    ensures
        find_item(items, path, staged, i) == Some(at),
    decreases at - i,
{
    if i < at {
        assert(!(items[i].0@ == path && items[i].1 == staged));
        lemma_find_item(items, path, staged, i + 1, at);
    }
}

/// From the file in the row `at` a move by `delta` leads `delta` rows on, and
/// stops at the first row and at the last.
pub proof fn law_moves_go_by_rows(l: FileLists, sel: SelectedFile, at: int, delta: int)
    requires
        l.selected_file == Some(sel),
        0 <= at < l.selectable().len(),
        l.selectable()[at].0@ == sel.path@,
        l.selectable()[at].1 == sel.is_staged,
        forall|k: int|
            0 <= k < at ==> !((#[trigger] l.selectable()[k]).0@ == sel.path@ && l.selectable()[k].1
                == sel.is_staged),
    ensures
        ({
            let n = l.selectable().len();
            let to = if at + delta < 0 {
                0
            } else if at + delta >= n {
                n - 1
            } else {
                at + delta
            };
            l.navigated(delta).selected_file == Some(
                SelectedFile { path: l.selectable()[to].0, is_staged: l.selectable()[to].1 },
            )
        }),
        l.navigated(delta).staged_files == l.staged_files,
        l.navigated(delta).unstaged_files == l.unstaged_files,
{
    lemma_find_item(l.selectable(), sel.path@, sel.is_staged, 0, at);
}

/// After the lists were read anew the selected file is the same one: staged
/// where it is staged, else unstaged where it is that. It is dropped where it is
/// in neither list, and only then.
pub proof fn law_selection_follows_its_file(l: FileLists, sel: SelectedFile)
    requires
        l.selected_file == Some(sel),
    ensures
        ({
            let staged = exists|i: int|
                0 <= i < l.staged_files@.len() && #[trigger] l.staged_files@[i].path@ == sel.path@;
            let unstaged = exists|i: int|
                0 <= i < l.unstaged_files@.len() && #[trigger] l.unstaged_files@[i].path@
                    == sel.path@;
            &&& l.settled().selected_file is Some <==> staged || unstaged
            &&& l.settled().selected_file matches Some(t) ==> t.path == sel.path && (t.is_staged
                <==> staged)
        }),
        l.settled().staged_files == l.staged_files,
        l.settled().unstaged_files == l.unstaged_files,
{
    assert(lists(l.staged_files@, sel.path@) == exists|i: int|
        0 <= i < l.staged_files@.len() && #[trigger] l.staged_files@[i].path@ == sel.path@);
    assert(lists(l.unstaged_files@, sel.path@) == exists|i: int|
        0 <= i < l.unstaged_files@.len() && #[trigger] l.unstaged_files@[i].path@ == sel.path@);
}

// ── Staging and discarding ───────────────────────────────────────────────

proof fn lemma_chosen(files: Seq<FileEntry>, folder: Option<Seq<char>>)
    ensures
        ({
            let f = files.filter(|e: FileEntry| folder is None || lies_in(folder->0, e.path@));
            &&& chosen(files, folder).len() == f.len()
            &&& forall|i: int| 0 <= i < f.len() ==> #[trigger] chosen(files, folder)[i] == f[i].path@
        }),
    decreases files.len(),
{
    reveal(Seq::filter);
    if files.len() > 0 {
        lemma_chosen(files.drop_last(), folder);
    }
}

/// An operation on a section takes the files of that section, and no other; one
/// on a folder takes those of them that lie in it. Each is taken once and in
/// its order.
pub proof fn law_bulk_operations_take_their_section(
    s: GitPane,
    staged: bool,
    folder: Option<Seq<char>>,
)
    ensures
        staged ==> ({
            let f = s.lists.staged_files@.filter(
                |e: FileEntry| folder is None || lies_in(folder->0, e.path@),
            );
            &&& s.taken(staged, folder).len() == f.len()
            &&& forall|i: int| 0 <= i < f.len() ==> #[trigger] s.taken(staged, folder)[i]
                == f[i].path@
        }),
        !staged ==> ({
            let f = s.lists.unstaged_files@.filter(
                |e: FileEntry| folder is None || lies_in(folder->0, e.path@),
            );
            &&& s.taken(staged, folder).len() == f.len()
            &&& forall|i: int| 0 <= i < f.len() ==> #[trigger] s.taken(staged, folder)[i]
                == f[i].path@
        }),
{
    lemma_chosen(s.lists.staged_files@, folder);
    lemma_chosen(s.lists.unstaged_files@, folder);
}

/// A file lies in a folder if it is the folder itself, or the folder's path and
/// a separator start its path.
pub proof fn law_files_lie_below_their_folder(folder: Seq<char>, file: Seq<char>)
    requires
        folder.len() > 0,
        folder.last() != '/',
    ensures
        lies_in(folder, file) <==> file == folder || (file.len() > folder.len() && file.take(
            folder.len() as int,
        ) == folder && file[folder.len() as int] == '/'),
{
    let p = folder + seq!['/'];
    assert(without_trailing(folder, '/') == folder);
    if p.is_prefix_of(file) {
        assert(file.take(folder.len() as int) =~= folder);
        assert(file[folder.len() as int] == p[folder.len() as int]);
    }
    if file.len() > folder.len() && file.take(folder.len() as int) == folder
        && file[folder.len() as int] == '/' {
        assert(file.take(p.len() as int) =~= p);
    }
}

/// Each path is staged where that is asked for, and unstaged otherwise, in the
/// repository and in the order of the paths.
pub proof fn law_each_path_is_moved(repo: Seq<char>, paths: Seq<Seq<char>>, stage: bool, i: int)
    requires
        0 <= i < paths.len(),
    ensures
        moves(repo, paths, stage).len() == paths.len(),
        stage ==> moves(repo, paths, stage)[i] is Stage && moves(repo, paths, stage)[i]->Stage_repo
            == repo && moves(repo, paths, stage)[i]->Stage_path == paths[i],
        !stage ==> moves(repo, paths, stage)[i] is Unstage && moves(
            repo,
            paths,
            stage,
        )[i]->Unstage_repo == repo && moves(repo, paths, stage)[i]->Unstage_path == paths[i],
        moved(repo, paths[i], true, true) == (Effect::<Seq<char>>::Stage {
            repo,
            path: paths[i],
            alone: true,
        }),
        moved(repo, paths[i], false, true) == (Effect::<Seq<char>>::Unstage {
            repo,
            path: paths[i],
            alone: true,
        }),
{
}

/// Each path is restored on the side it is asked for on.
pub proof fn law_each_path_is_reverted(repo: Seq<char>, paths: Seq<Seq<char>>, staged: bool, i: int)
    requires
        0 <= i < paths.len(),
    ensures
        reverts(repo, paths, staged).len() == paths.len(),
        reverts(repo, paths, staged)[i] is Revert,
        reverts(repo, paths, staged)[i]->Revert_repo == repo,
        reverts(repo, paths, staged)[i]->Revert_path == paths[i],
        reverts(repo, paths, staged)[i]->Revert_staged == staged,
{
}

/// What is discarded is what was asked about: one file of the working tree, the
/// files of a section, or those of them in a folder.
pub proof fn law_discard_takes_its_target(s: GitPane, target: DiscardTarget)
    ensures
        target matches DiscardTarget::File(p) ==> s.discarded(target).0 == seq![p@]
            && !s.discarded(target).1,
        target matches DiscardTarget::Folder { is_staged, path } ==> s.discarded(target).1
            == is_staged && s.discarded(target).0 == s.taken(is_staged, Some(path@)),
        target matches DiscardTarget::Section { is_staged } ==> s.discarded(target).1 == is_staged
            && s.discarded(target).0 == s.taken(is_staged, None),
{
}

/// A file that was discarded is not selected any more, one that was not stays,
/// and no question is open.
pub proof fn law_discarded_file_is_not_selected(s: GitPane, paths: Seq<Seq<char>>)
    ensures
        s.after_discard(paths).git_status.confirm_discard is None,
        s.lists.selected_file matches Some(sel) ==> {
            &&& paths.contains(sel.path@) ==> s.after_discard(paths).lists.selected_file is None
                && s.after_discard(paths).diff.diff_content is None
            &&& !paths.contains(sel.path@) ==> s.after_discard(paths).lists.selected_file == Some(
                sel,
            ) && s.after_discard(paths).diff == s.diff
        },
        s.after_discard(paths).git_status.commit_message == s.git_status.commit_message,
{
    if let Some(sel) = s.lists.selected_file {
        assert(holds(paths, sel.path@) <==> paths.contains(sel.path@));
    }
}

/// A file that was staged or unstaged stays selected, on the side it went to.
pub proof fn law_selection_follows_a_moved_file(
    l: FileLists,
    paths: Seq<Seq<char>>,
    staged: bool,
    sel: SelectedFile,
)
    requires
        l.selected_file == Some(sel),
    ensures
        paths.contains(sel.path@) ==> l.followed(paths, staged).selected_file == Some(
            SelectedFile { path: sel.path, is_staged: staged },
        ),
        !paths.contains(sel.path@) ==> l.followed(paths, staged) == l,
        l.followed(paths, staged).staged_files == l.staged_files,
        l.followed(paths, staged).unstaged_files == l.unstaged_files,
{
    assert(holds(paths, sel.path@) <==> paths.contains(sel.path@));
}

/// Bulk operations move the files of the other side: staging takes the unstaged
/// ones, unstaging the staged ones.
pub proof fn law_bulk_moves_cross_over(s: GitPane, stage: bool, folder: Option<Seq<char>>, p: SelectedFile)
    requires
        s.lists.selected_file == Some(p),
        s.taken(!stage, folder).contains(p.path@),
    ensures
        s.bulk_moved(stage, folder).lists.selected_file == Some(
            SelectedFile { path: p.path, is_staged: stage },
        ),
{
    law_selection_follows_a_moved_file(s.lists, s.taken(!stage, folder), stage, p);
}

/// Two selections are the same if they are of one file on one side, or both of
/// none.
pub proof fn law_selections_compare_by_file(a: Option<SelectedFile>, b: Option<SelectedFile>)
    ensures
        same_selection(a, b) == same_selection(b, a),
        same_selection(a, a),
        same_selection(a, b) ==> (a is Some <==> b is Some),
        same_selection(a, b) && a is Some ==> a->0.path@ == b->0.path@ && a->0.is_staged
            == b->0.is_staged,
        a is Some && b is Some && (a->0.path@ != b->0.path@ || a->0.is_staged != b->0.is_staged)
            ==> !same_selection(a, b),
{
}

// ── The status ───────────────────────────────────────────────────────────

/// A status is shown as it was read: the staged files as staged, the unstaged
/// ones as unstaged, with the branch, the other branches, the stashes and the
/// distance to the remote.
pub proof fn law_status_is_shown_as_read(s: GitPane, p: StatusPayload)
    ensures
        s.status_taken(p).lists.staged_files == p.staged,
        s.status_taken(p).lists.unstaged_files == p.unstaged,
        s.status_taken(p).branch_name == p.branch_name,
        s.status_taken(p).git_status.branches == p.branches,
        s.status_taken(p).git_status.stashes == p.stashes,
        s.status_taken(p).git_status.ahead_behind == p.ahead_behind,
        s.status_taken(p).git_status.selected_stash_idx < p.stashes@.len() || s.status_taken(
            p,
        ).git_status.selected_stash_idx == 0,
        s.git_status.selected_stash_idx < p.stashes@.len() ==> s.status_taken(
            p,
        ).git_status.selected_stash_idx == s.git_status.selected_stash_idx,
        s.status_taken(p).git_status.commit_message == s.git_status.commit_message,
{
}

/// A status is taken where it is the one that was asked for last.
pub proof fn law_awaited_status_is_taken(
    s: GitPane,
    new: GitPane,
    generation: u64,
    result: Result<StatusPayload, String>,
    tree: FileTree,
    tree2: FileTree,
    repo: Option<Seq<char>>,
    fx: Seq<Effect<Seq<char>>>,
    fx2: Seq<Effect<Seq<char>>>,
)
    requires
        s.status_applied(new, generation, result, tree, tree2, repo, fx, fx2),
    ensures
        generation != s.git_status_load.generation ==> new == s && tree2 == tree && fx2 == fx,
        generation == s.git_status_load.generation ==> (result matches Ok(p) ==> {
            &&& new.lists.staged_files == p.staged
            &&& new.lists.unstaged_files == p.unstaged
            &&& new.branch_name == p.branch_name
            &&& new.git_status.branches == p.branches
            &&& new.git_status.stashes == p.stashes
            &&& new.git_status.ahead_behind == p.ahead_behind
            &&& !new.git_status_load.loading
            &&& !new.git_status_load.stale
        }),
        generation == s.git_status_load.generation ==> (result matches Err(e) ==> new.lists
            == s.lists && new.git_status == s.git_status && new.git_status_load.error == Some(e)
            && fx2 == fx),
{
}

/// After a new status the diff is read again where another file is selected,
/// and the detail of a stash where another one is under the cursor or the
/// stashes changed.
pub proof fn law_new_status_is_followed(s: GitPane, before: GitPane, repo: Option<Seq<char>>)
    ensures
        same_selection(before.lists.selected_file, s.lists.selected_file)
            && s.git_status.stashes@.len() == 0 ==> s.status_requests(before, repo).len() == 0,
        !same_selection(before.lists.selected_file, s.lists.selected_file) && s.lists.selected_file
            is Some && repo is Some ==> s.status_requests(before, repo).len() > 0
            && s.status_requests(before, repo)[0] is LoadDiff && s.status_requests(
            before,
            repo,
        )[0]->LoadDiff_path == s.lists.selected_file->0.path@,
        s.git_status.stashes@.len() > 0 && !same_stashes(
            s.git_status.stashes@,
            before.git_status.stashes@,
        ) ==> s.wants_stash(before),
        s.git_status.stashes@.len() == 0 ==> !s.wants_stash(before),
{
}

// ── Committing, pushing, pulling ─────────────────────────────────────────

/// The graph is due to be read again, whatever it was read from before.
pub proof fn law_moved_history_is_read_again(g: GraphPane)
    ensures
        history_moved(g).graph_load.stale,
        history_moved(g).git_graph.cache_key is None,
        history_moved(g).git_graph.rows == g.git_graph.rows,
        history_moved(g).commit_detail == g.commit_detail,
{
}

/// A commit that succeeded empties the box and says so; one that failed tells
/// why. In both cases status and graph are read again.
pub proof fn law_commit_is_reported(
    s: GitPane,
    new: GitPane,
    end: JobEnd,
    graph: GraphPane,
    graph2: GraphPane,
    repo: Option<Seq<char>>,
    fx: Seq<Effect<Seq<char>>>,
    fx2: Seq<Effect<Seq<char>>>,
)
    requires
        s.commit_ended(new, end, graph, graph2, repo, fx, fx2),
    ensures
        !s.commit_in_flight ==> new == s && graph2 == graph && fx2 == fx,
        s.commit_in_flight && (end matches JobEnd::Done(Ok(_))) ==> {
            &&& new.git_status.commit_message@.len() == 0
            &&& new.git_status.commit_error is None
            &&& !new.git_status.commit_editing
            &&& fx2.len() > 0 && fx2.last() == (Effect::<Seq<char>>::Say {
                level: ToastLevel::Info,
                notice: Notice::Committed,
            })
            &&& new.git_status_load.stale
            &&& graph2.graph_load.stale
        },
        s.commit_in_flight ==> (end matches JobEnd::Done(Err(e)) ==> {
            &&& new.git_status.commit_error == Some(e)
            &&& fx2 == fx.push(
                Effect::<Seq<char>>::Say {
                    level: ToastLevel::Error,
                    notice: Notice::CommitFailed { why: e@ },
                },
            )
            &&& new.git_status_load.stale
            &&& graph2.graph_load.stale
        }),
        s.commit_in_flight && end is Crashed ==> fx2 == fx.push(
            Effect::<Seq<char>>::Say { level: ToastLevel::Error, notice: Notice::CommitCrashed },
        ),
        new.lists == s.lists,
        new.branch_name == s.branch_name,
{
}

/// A push that is over is told as what it was, a push or the publication of a
/// branch: that it succeeded, or why it did not.
pub proof fn law_push_is_reported(
    s: GitPane,
    new: GitPane,
    operation: PushOperation,
    end: JobEnd,
    graph: GraphPane,
    graph2: GraphPane,
    fx: Seq<Effect<Seq<char>>>,
    fx2: Seq<Effect<Seq<char>>>,
)
    requires
        s.push_ended(new, operation, end, graph, graph2, fx, fx2),
    ensures
        !s.push_in_flight ==> new == s && graph2 == graph && fx2 == fx,
        s.push_in_flight ==> fx2.len() == fx.len() + 1 && fx2.drop_last() == fx && fx2.last() is Say,
        s.push_in_flight && (end matches JobEnd::Done(Ok(_))) ==> {
            &&& fx2.last()->Say_level == ToastLevel::Info
            &&& fx2.last()->Say_notice is BranchPublished <==> operation is PublishBranch
            &&& fx2.last()->Say_notice is Pushed <==> operation is Push
            &&& operation is Push ==> fx2.last()->Say_notice->force == operation->force
            &&& new.git_status.push_error is None
            &&& new.git_status_load.stale
            &&& graph2.graph_load.stale
        },
        s.push_in_flight ==> (end matches JobEnd::Done(Err(e)) ==> {
            &&& fx2.last()->Say_level == ToastLevel::Error
            &&& operation is PublishBranch ==> fx2.last()->Say_notice == (
            Notice::<Seq<char>>::PublishFailed { why: e@ })
            &&& operation is Push ==> fx2.last()->Say_notice == (Notice::<Seq<char>>::PushFailed {
                why: e@,
            })
            &&& new.git_status.push_error == Some(e)
            &&& new.git_status.push_error_kind == operation
        }),
        s.push_in_flight && end is Crashed ==> fx2.last()->Say_notice is PushCrashed
            && fx2.last()->Say_level == ToastLevel::Error && new.git_status.push_error
            == s.git_status.push_error,
        new.lists == s.lists,
        new.git_status.commit_message == s.git_status.commit_message,
{
    if s.push_in_flight {
        assert(fx2.drop_last() =~= fx);
    }
}

/// A pull that is over is told, and what it may have changed is read again; no
/// file stays selected.
pub proof fn law_pull_is_reported(
    s: GitPane,
    new: GitPane,
    end: JobEnd,
    graph: GraphPane,
    graph2: GraphPane,
    fx: Seq<Effect<Seq<char>>>,
    fx2: Seq<Effect<Seq<char>>>,
)
    requires
        s.pull_ended(new, end, graph, graph2, fx, fx2),
    ensures
        !s.pull_in_flight ==> new == s && graph2 == graph && fx2 == fx,
        s.pull_in_flight && (end matches JobEnd::Done(Ok(_))) ==> fx2 == fx.push(
            Effect::<Seq<char>>::Say { level: ToastLevel::Info, notice: Notice::Pulled },
        ) && new.git_status.pull_error is None,
        s.pull_in_flight ==> (end matches JobEnd::Done(Err(e)) ==> fx2 == fx.push(
            Effect::<Seq<char>>::Say {
                level: ToastLevel::Error,
                notice: Notice::PullFailed { why: e@ },
            },
        ) && new.git_status.pull_error == Some(e)),
        s.pull_in_flight && end is Done ==> {
            &&& new.lists.selected_file is None
            &&& new.diff.diff_content is None
            &&& new.git_status_load.stale
            &&& new.diff.diff_load.stale
            &&& graph2.graph_load.stale
        },
        s.pull_in_flight && end is Crashed ==> fx2 == fx.push(
            Effect::<Seq<char>>::Say { level: ToastLevel::Error, notice: Notice::PullCrashed },
        ) && new.lists == s.lists,
        new.git_status.commit_message == s.git_status.commit_message,
{
}

/// Enter on the commit button commits what is staged with the message, less the
/// blanks around it. Without a message, without anything staged, without a
/// repository or while a commit runs it commits nothing.
pub proof fn law_commit_needs_a_message_and_files(
    s: GitPane,
    new: GitPane,
    repo: Option<Seq<char>>,
    text: String,
    sent: Seq<Effect<Seq<char>>>,
)
    requires
        commit_taken(s, new, repo, text, sent),
    ensures
        sent.len() > 0 <==> {
            &&& repo is Some
            &&& !s.commit_in_flight
            &&& s.lists.staged_files@.len() > 0
            &&& trimmed(s.git_status.commit_message@).len() > 0
        },
        sent.len() > 0 ==> {
            &&& sent.len() == 1
            &&& sent[0] is Commit
            &&& sent[0]->Commit_repo == repo->0
            &&& is_core_of(sent[0]->Commit_message, s.git_status.commit_message@)
            &&& new.commit_in_flight
        },
        sent.len() == 0 ==> new.commit_in_flight == s.commit_in_flight,
        repo is Some && !s.commit_in_flight && s.lists.staged_files@.len() == 0 && trimmed(
            s.git_status.commit_message@,
        ).len() > 0 ==> new.git_status.commit_error == Some(text),
        new.git_status.commit_message == s.git_status.commit_message,
        new.lists == s.lists,
{
    lemma_core(s.git_status.commit_message@);
}

/// Publishing sends the branch that has none to push to yet, and pulling asks
/// for what the remote has. Neither is asked for twice at a time.
pub proof fn law_one_push_and_one_pull_at_a_time(
    s: GitPane,
    published: GitPane,
    pulled: GitPane,
    repo: Option<Seq<char>>,
    sent: Seq<Effect<Seq<char>>>,
    sent2: Seq<Effect<Seq<char>>>,
)
    requires
        publish_taken(s, published, repo, sent),
        pull_taken(s, pulled, repo, sent2),
    ensures
        sent.len() > 0 ==> !s.push_in_flight && published.push_in_flight && repo is Some && sent
            == seq![Effect::<Seq<char>>::PublishBranch { repo: repo->0 }]
            && published.push_in_flight_kind is PublishBranch,
        sent.len() == 0 ==> published.push_in_flight == s.push_in_flight,
        !s.push_in_flight && repo is Some && s.offers_publish() ==> sent.len() == 1,
        sent2.len() > 0 <==> !s.pull_in_flight && repo is Some,
        sent2.len() > 0 ==> pulled.pull_in_flight && sent2 == seq![
            Effect::<Seq<char>>::Pull { repo: repo->0 },
        ],
        published.git_status.push_error is None,
        pulled.git_status.pull_error is None,
{
}

// ── Branches ─────────────────────────────────────────────────────────────

/// A branch is switched to by its name, less the blanks around it, unless it is
/// the one that is checked out.
pub proof fn law_switching_goes_to_the_branch(s: GitPane, branch: Seq<char>, repo: Option<Seq<char>>)
    ensures
        s.switch_to(branch, repo).len() > 0 <==> repo is Some && trimmed(branch).len() > 0
            && trimmed(branch) != s.branch_name@,
        s.switch_to(branch, repo).len() <= 1,
        s.switch_to(branch, repo).len() > 0 ==> {
            let e = s.switch_to(branch, repo)[0];
            &&& e is Checkout
            &&& e->Checkout_repo == repo->0
            &&& is_core_of(e->Checkout_branch, branch)
        },
{
    lemma_core(branch);
}

/// On another branch no file is selected, nothing waits to be discarded, and
/// the status is on its way.
pub proof fn law_other_branch_starts_fresh(s: GitPane, repo: Option<Seq<char>>)
    ensures
        s.on_other_branch(repo).lists.selected_file is None,
        s.on_other_branch(repo).diff.diff_content is None,
        s.on_other_branch(repo).git_status.confirm_discard is None,
        repo is Some ==> s.on_other_branch(repo).git_status_load.loading,
{
}

proof fn lemma_with_new(start: Seq<Seq<char>>, items: Seq<Seq<char>>)
    ensures
        start.is_prefix_of(with_new(start, items)),
        forall|i: int|
            start.len() <= i < with_new(start, items).len() ==> items.contains(
                #[trigger] with_new(start, items)[i],
            ),
    decreases items.len(),
{
    if items.len() > 0 {
        let rest = items.drop_last();
        lemma_with_new(start, rest);
        assert forall|i: int| start.len() <= i < with_new(start, items).len() implies items.contains(
            #[trigger] with_new(start, items)[i],
        ) by {
            if i < with_new(start, rest).len() {
                assert(rest.contains(with_new(start, rest)[i]));
                let k = choose|k: int| 0 <= k < rest.len() && rest[k] == with_new(start, rest)[i];
                assert(items[k] == rest[k]);
            } else {
                assert(items[items.len() - 1] == items.last());
            }
        }
    }
}

/// The bases of a new branch start with the branch that is checked out, if one
/// is, and are otherwise branches of the repository.
pub proof fn law_bases_are_branches(s: GitPane, i: int)
    requires
        0 <= i < s.bases().len(),
    ensures
        s.bases()[i] == s.branch_name@ || views(s.git_status.branches@).contains(s.bases()[i]),
        s.branch_name@.len() > 0 && s.branch_name@ != "(detached)"@ ==> s.bases()[0]
            == s.branch_name@,
{
    let first = if s.branch_name@.len() > 0 && s.branch_name@ != "(detached)"@ {
        seq![s.branch_name@]
    } else {
        Seq::empty()
    };
    lemma_with_new(first, views(s.git_status.branches@));
    if i < first.len() {
        assert(first[i] == s.bases()[i]);
    }
    if first.len() > 0 {
        assert(s.bases()[0] == first[0]);
    }
}

/// A branch is created once its name is asked for and there is one: under that
/// name, less the blanks around it, from the base that was chosen.
pub proof fn law_branch_is_created_as_asked(s: GitPane, repo: Option<Seq<char>>)
    ensures
        s.creation(repo).len() <= 1,
        s.creation(repo).len() == 1 ==> {
            let d = s.git_status.branch_create_dialog->0;
            let e = s.creation(repo)[0];
            &&& s.git_status.branch_create_dialog is Some
            &&& repo is Some
            &&& d.step is EnterName
            &&& trimmed(d.input@).len() > 0
            &&& e is CreateBranch
            &&& e->CreateBranch_repo == repo->0
            &&& is_core_of(e->CreateBranch_branch, d.input@)
            &&& e->base == opt_view(d.step->base)
        },
        s.git_status.branch_create_dialog matches Some(d) ==> (d.step is EnterName && trimmed(
            d.input@,
        ).len() > 0 && repo is Some ==> s.creation(repo).len() == 1),
{
    if let Some(d) = s.git_status.branch_create_dialog {
        lemma_core(d.input@);
    }
}

/// Enter on a row of the branches switches to the branch of that row; on the
/// first row, which stands for a new branch, it asks for its name; and where the
/// list is closed it opens it, unless no branch is checked out.
pub proof fn law_branch_list_is_taken_by_row(
    s: GitPane,
    new: GitPane,
    repo: Option<Seq<char>>,
    sent: Seq<Effect<Seq<char>>>,
)
    requires
        branch_taken(s, new, repo, sent),
    ensures
        !s.git_status.branch_dropdown_open ==> sent.len() == 0 && (
        new.git_status.branch_dropdown_open <==> s.branch_name@ != "(detached)"@),
        s.git_status.branch_dropdown_open && s.git_status.branch_dropdown_idx == 0 ==> sent.len()
            == 0 && new.git_status.branch_create_dialog is Some
            && !new.git_status.branch_dropdown_open,
        s.git_status.branch_dropdown_open && 0 < s.git_status.branch_dropdown_idx
            <= s.dropdown().len() ==> {
            let picked = s.dropdown()[s.git_status.branch_dropdown_idx - 1]@;
            &&& !new.git_status.branch_dropdown_open
            &&& sent.len() > 0 <==> repo is Some && trimmed(picked).len() > 0 && trimmed(picked)
                != s.branch_name@
            &&& sent.len() > 0 ==> sent[0] is Checkout && is_core_of(
                sent[0]->Checkout_branch,
                picked,
            )
        },
        new.lists == s.lists,
{
    if s.git_status.branch_dropdown_open && 0 < s.git_status.branch_dropdown_idx
        <= s.dropdown().len() {
        law_switching_goes_to_the_branch(
            s,
            s.dropdown()[s.git_status.branch_dropdown_idx - 1]@,
            repo,
        );
    }
}

/// The status of another repository is on its way, and nothing of the one
/// before is shown or pending.
pub proof fn law_other_repository_starts_empty(s: GitPane, new: GitPane)
    requires
        repo_switched(s, new),
    ensures
        new.lists.staged_files@.len() == 0,
        new.lists.unstaged_files@.len() == 0,
        new.git_status.branches@.len() == 0,
        new.git_status.stashes@.len() == 0,
        new.branch_name@.len() == 0,
        new.git_status.ahead_behind is None,
        new.git_status.stash_detail is None,
        new.git_status.confirm_discard is None,
        !new.git_status.confirm_push,
        !new.git_status.confirm_force_push,
        new.git_status.pending_stash_action is None,
        new.git_status.branch_create_dialog is None,
        new.git_status.push_error is None,
        new.git_status.pull_error is None,
        new.git_status.commit_error is None,
        new.git_status.stash_error is None,
        !new.git_status.branch_dropdown_open,
        !new.git_status.repo_selector_open,
        new.diff.diff_content is None,
        new.git_status_load.loading,
{
}

// ── Stashes ──────────────────────────────────────────────────────────────

/// The detail that is asked for is that of the stash under the cursor.
pub proof fn law_stash_detail_is_that_of_the_cursor(s: GitPane, repo: Option<Seq<char>>)
    ensures
        s.git_status.selected_stash_idx < s.git_status.stashes@.len() && repo is Some
            ==> s.stash_request(repo) == seq![
            Effect::<Seq<char>>::LoadStashDetail {
                generation: s.stash_asked(repo).stash_detail_load.generation,
                repo: repo->0,
                stash_ref: s.git_status.stashes@[s.git_status.selected_stash_idx as int].stash_ref@,
            },
        ] && s.stash_asked(repo).stash_detail_load.loading,
        s.git_status.selected_stash_idx >= s.git_status.stashes@.len() || repo is None
            ==> s.stash_request(repo).len() == 0 && !s.stash_asked(repo).stash_detail_load.loading,
        s.stash_asked(repo).git_status.stash_detail is None,
        s.stash_asked(repo).git_status.stashes == s.git_status.stashes,
{
}

/// The detail of a stash is shown where it is the one that was asked for last.
pub proof fn law_awaited_stash_is_shown(
    s: GitPane,
    new: GitPane,
    generation: u64,
    result: Result<crate::git::StashDetail, String>,
)
    requires
        s.stash_detail_applied(new, generation, result),
    ensures
        generation != s.stash_detail_load.generation ==> new == s,
        generation == s.stash_detail_load.generation ==> (result matches Ok(d)
            ==> new.git_status.stash_detail == Some(d)),
        generation == s.stash_detail_load.generation ==> (result matches Err(e)
            ==> new.git_status.stash_error == Some(e) && new.git_status.stash_detail
            == s.git_status.stash_detail),
        generation == s.stash_detail_load.generation ==> !new.stash_detail_load.loading,
{
}

/// Enter on a stash button asks to confirm a stash of what the button says: all
/// changes with the untracked files, the tracked ones, all but what is staged,
/// what is staged, or the selected file.
pub proof fn law_stash_buttons_stash_what_they_say(s: GitPane, new: GitPane)
    requires
        quiet_taken(s, new),
    ensures
        ({
            let f = s.git_status.keyboard_focus;
            let a = new.git_status.pending_stash_action;
            let stash = f is StashButton || f is StashAllButton || f is StashTrackedButton
                || f is StashKeepIndexButton || f is StashStagedButton || (f
                is StashSelectedButton && s.lists.selected_file is Some);
            &&& stash ==> a is Some && a->0 is Push
            &&& stash ==> {
                let o = a->0->options;
                &&& o.include_untracked <==> !(f is StashTrackedButton || f is StashStagedButton)
                &&& o.keep_index <==> f is StashKeepIndexButton
                &&& o.staged_only <==> f is StashStagedButton
                &&& f is StashSelectedButton ==> views(o.paths@) == seq![
                    s.lists.selected_file->0.path@,
                ]
                &&& !(f is StashSelectedButton) ==> o.paths@.len() == 0
            }
            &&& !stash ==> a == s.git_status.pending_stash_action
        }),
        s.git_status.keyboard_focus is PushButton ==> new.git_status.confirm_push
            && !new.git_status.confirm_force_push,
        !(s.git_status.keyboard_focus is PushButton) ==> new.git_status.confirm_push
            == s.git_status.confirm_push,
        s.git_status.keyboard_focus is CommitMessage ==> new.git_status.commit_editing,
        !(s.git_status.keyboard_focus is CommitMessage) ==> new.git_status.commit_editing
            == s.git_status.commit_editing,
        s.git_status.keyboard_focus is StashHeader ==> new.git_status.stash_section_open
            != s.git_status.stash_section_open,
        !(s.git_status.keyboard_focus is StashHeader) ==> new.git_status.stash_section_open
            == s.git_status.stash_section_open,
        new.lists == s.lists,
{
    let f = s.git_status.keyboard_focus;
    if new.git_status.pending_stash_action is Some {
        if let PendingStashAction::Push { options, .. } = new.git_status.pending_stash_action->0 {
            assert(views(options.paths@).len() == options.paths@.len());
        }
    }
}

/// Enter on a stash applies the one under the cursor, and leaves the index as it
/// is. On a dirty tree it asks first.
pub proof fn law_stash_under_the_cursor_is_applied(
    s: GitPane,
    new: GitPane,
    repo: Option<Seq<char>>,
    out: Activated,
)
    requires
        stash_taken(s, new, repo, out),
    ensures
        ({
            let i = s.git_status.selected_stash_idx as int;
            let dirty = s.lists.staged_files@.len() > 0 || s.lists.unstaged_files@.len() > 0;
            let there = i < s.git_status.stashes@.len();
            &&& there && dirty ==> out is Nothing && new.git_status.pending_stash_action == Some(
                PendingStashAction::Apply {
                    stash_ref: s.git_status.stashes@[i].stash_ref,
                    reinstate_index: false,
                },
            )
            &&& there && !dirty && repo is Some ==> out is RunStash && out->RunStash_0.action == (
            PendingStashAction::Apply {
                stash_ref: s.git_status.stashes@[i].stash_ref,
                reinstate_index: false,
            }) && out->RunStash_0.repo@ == repo->0
            &&& !there || (!dirty && repo is None) ==> out is Nothing
            &&& !(there && dirty) ==> new == s
        }),
{
}

/// What is confirmed is what was asked about, and in the repository of the
/// panel.
pub proof fn law_confirmed_stash_is_the_pending_one(
    s: GitPane,
    new: GitPane,
    repo: Option<String>,
    r: Option<StashJob>,
)
    requires
        s.confirmed(new, repo, r),
    ensures
        r is Some <==> s.git_status.pending_stash_action is Some && repo is Some,
        r matches Some(job) ==> s.git_status.pending_stash_action == Some(job.action) && repo
            == Some(job.repo),
        new.git_status.pending_stash_action is None,
        new.git_status.stashes == s.git_status.stashes,
        new.lists == s.lists,
{
}

/// Enter on the files opens the selected one, at its place in the repository.
pub proof fn law_selected_file_is_opened(
    s: GitPane,
    repo: Option<Seq<char>>,
    workdir: Seq<char>,
    out: Activated,
)
    requires
        file_opened(s, repo, workdir, out),
    ensures
        out is Edit <==> s.lists.selected_file is Some && repo is Some,
        !(out is RunStash),
        out is Edit ==> out->Edit_0@ == pushed_path(
            pushed_path(workdir, repo->0),
            s.lists.selected_file->0.path@,
        ),
{
}

} // verus!
