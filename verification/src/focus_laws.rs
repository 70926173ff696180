//! Laws of the keyboard in the git tab: where its stops are, and where the arrow
//! keys lead.
use crate::git_focus::{
    can_step, group, held, is_stash_option, nudged, one, other_branches, stop_from,
};
use crate::git_pane::{GitKeyboardFocus, GitPane};
use crate::repo_catalog::RepoCatalogState;
use crate::text::trimmed;
use vstd::prelude::*;

verus! {

proof fn lemma_one(s: Seq<GitKeyboardFocus>, cond: bool, f: GitKeyboardFocus, g: GitKeyboardFocus)
    ensures
        (s + one(cond, f)).contains(g) <==> s.contains(g) || (cond && f == g),
{
    let t = s + one(cond, f);
    if s.contains(g) {
        let i = choose|i: int| 0 <= i < s.len() && s[i] == g;
        assert(t[i] == g);
    }
    if cond && f == g {
        assert(t[s.len() as int] == g);
    }
    if t.contains(g) {
        let i = choose|i: int| 0 <= i < t.len() && t[i] == g;
        if i < s.len() {
            assert(s[i] == g);
        }
    }
}

/// A stop is there where there is something to do at it: the repository where
/// there are any, the branch where there is one, the push where there is
/// something to push and nothing to pull, the publication where the branch has
/// no counterpart yet, the pull where it has one, the ways to stash where their
/// section is open, and the stashes where it is and there are any. The others
/// are always there.
pub proof fn law_stops_are_where_something_can_be_done(
    s: GitPane,
    c: RepoCatalogState,
    has_repo: bool,
    f: GitKeyboardFocus,
)
    ensures
        s.stops(c, has_repo).contains(f) <==> match f {
            GitKeyboardFocus::Repository => c.repos@.len() > 0 && !c.discover_load.loading,
            GitKeyboardFocus::Branch => (c.selected_git_repo is Some || has_repo) && (
            s.branch_name@.len() > 0 || s.git_status.branches@.len() > 0),
            GitKeyboardFocus::PushButton => (s.git_status.ahead_behind matches Some((ahead, behind))
                && ahead > 0 && behind == 0) && !s.push_in_flight,
            GitKeyboardFocus::PublishBranchButton => s.git_status.ahead_behind is None && trimmed(
                s.branch_name@,
            ).len() > 0 && s.branch_name@ != "(detached)"@ && !s.push_in_flight,
            GitKeyboardFocus::PullButton => s.git_status.ahead_behind is Some && !s.pull_in_flight,
            GitKeyboardFocus::StashAllButton
            | GitKeyboardFocus::StashTrackedButton
            | GitKeyboardFocus::StashKeepIndexButton
            | GitKeyboardFocus::StashStagedButton
            | GitKeyboardFocus::StashSelectedButton => s.git_status.stash_section_open,
            GitKeyboardFocus::Stashes => s.git_status.stash_section_open
                && s.git_status.stashes@.len() > 0,
            _ => true,
        },
{
    let open = s.git_status.stash_section_open;
    let a0 = Seq::<GitKeyboardFocus>::empty();
    let c1 = c.repos@.len() > 0 && !c.discover_load.loading;
    let c2 = s.shows_branches(c.selected_git_repo, has_repo);
    let c5 = match s.git_status.ahead_behind {
        Some(ab) => ab.0 > 0 && ab.1 == 0,
        None => false,
    } && !s.push_in_flight;
    let c6 = s.offers_publish() && !s.push_in_flight;
    let c7 = s.git_status.ahead_behind is Some && !s.pull_in_flight;
    let c15 = open && s.git_status.stashes@.len() > 0;
    let a1 = one(c1, GitKeyboardFocus::Repository);
    let a2 = a1 + one(c2, GitKeyboardFocus::Branch);
    let a3 = a2 + one(true, GitKeyboardFocus::CommitMessage);
    let a4 = a3 + one(true, GitKeyboardFocus::CommitButton);
    let a5 = a4 + one(c5, GitKeyboardFocus::PushButton);
    let a6 = a5 + one(c6, GitKeyboardFocus::PublishBranchButton);
    let a7 = a6 + one(c7, GitKeyboardFocus::PullButton);
    let a8 = a7 + one(true, GitKeyboardFocus::StashButton);
    let a9 = a8 + one(true, GitKeyboardFocus::StashHeader);
    let a10 = a9 + one(open, GitKeyboardFocus::StashAllButton);
    let a11 = a10 + one(open, GitKeyboardFocus::StashTrackedButton);
    let a12 = a11 + one(open, GitKeyboardFocus::StashKeepIndexButton);
    let a13 = a12 + one(open, GitKeyboardFocus::StashStagedButton);
    let a14 = a13 + one(open, GitKeyboardFocus::StashSelectedButton);
    let a15 = a14 + one(c15, GitKeyboardFocus::Stashes);
    let all = a15.push(GitKeyboardFocus::Files);
    reveal(GitPane::stops);
    assert(all == s.stops(c, has_repo));
    assert(a0 + one(c1, GitKeyboardFocus::Repository) =~= a1);
    lemma_one(a0, c1, GitKeyboardFocus::Repository, f);
    lemma_one(a1, c2, GitKeyboardFocus::Branch, f);
    lemma_one(a2, true, GitKeyboardFocus::CommitMessage, f);
    lemma_one(a3, true, GitKeyboardFocus::CommitButton, f);
    lemma_one(a4, c5, GitKeyboardFocus::PushButton, f);
    lemma_one(a5, c6, GitKeyboardFocus::PublishBranchButton, f);
    lemma_one(a6, c7, GitKeyboardFocus::PullButton, f);
    lemma_one(a7, true, GitKeyboardFocus::StashButton, f);
    lemma_one(a8, true, GitKeyboardFocus::StashHeader, f);
    lemma_one(a9, open, GitKeyboardFocus::StashAllButton, f);
    lemma_one(a10, open, GitKeyboardFocus::StashTrackedButton, f);
    lemma_one(a11, open, GitKeyboardFocus::StashKeepIndexButton, f);
    lemma_one(a12, open, GitKeyboardFocus::StashStagedButton, f);
    lemma_one(a13, open, GitKeyboardFocus::StashSelectedButton, f);
    lemma_one(a14, c15, GitKeyboardFocus::Stashes, f);
    assert(all =~= a15 + one(true, GitKeyboardFocus::Files));
    lemma_one(a15, true, GitKeyboardFocus::Files, f);
    assert(!a0.contains(f));
}

/// How far down the panel a stop is.
pub open spec fn row_of_stop(f: GitKeyboardFocus) -> int {
    match f {
        GitKeyboardFocus::Repository => 0,
        GitKeyboardFocus::Branch => 1,
        GitKeyboardFocus::CommitMessage => 2,
        GitKeyboardFocus::CommitButton => 3,
        GitKeyboardFocus::PushButton => 4,
        GitKeyboardFocus::PublishBranchButton => 5,
        GitKeyboardFocus::PullButton => 6,
        GitKeyboardFocus::StashButton => 7,
        GitKeyboardFocus::StashHeader => 8,
        GitKeyboardFocus::StashAllButton => 9,
        GitKeyboardFocus::StashTrackedButton => 10,
        GitKeyboardFocus::StashKeepIndexButton => 11,
        GitKeyboardFocus::StashStagedButton => 12,
        GitKeyboardFocus::StashSelectedButton => 13,
        GitKeyboardFocus::Stashes => 14,
        GitKeyboardFocus::Files => 15,
    }
}

/// The stops stand one below the other, and above the row `end`.
pub open spec fn goes_down(s: Seq<GitKeyboardFocus>, end: int) -> bool {
    &&& forall|i: int| 0 <= i < s.len() ==> row_of_stop(#[trigger] s[i]) < end
    &&& forall|i: int, j: int|
        0 <= i < j < s.len() ==> row_of_stop(#[trigger] s[i]) < row_of_stop(#[trigger] s[j])
}

proof fn lemma_one_down(s: Seq<GitKeyboardFocus>, cond: bool, f: GitKeyboardFocus)
    requires
        goes_down(s, row_of_stop(f)),
    ensures
        goes_down(s + one(cond, f), row_of_stop(f) + 1),
{
}

/// The stops go down the panel: the repository, the branch, the message, the
/// buttons, the stashes and at last the files.
pub proof fn law_stops_go_down_the_panel(s: GitPane, c: RepoCatalogState, has_repo: bool)
    ensures
        goes_down(s.stops(c, has_repo), 16),
{
    let open = s.git_status.stash_section_open;
    let a0 = Seq::<GitKeyboardFocus>::empty();
    let c1 = c.repos@.len() > 0 && !c.discover_load.loading;
    let c2 = s.shows_branches(c.selected_git_repo, has_repo);
    let c5 = match s.git_status.ahead_behind {
        Some(ab) => ab.0 > 0 && ab.1 == 0,
        None => false,
    } && !s.push_in_flight;
    let c6 = s.offers_publish() && !s.push_in_flight;
    let c7 = s.git_status.ahead_behind is Some && !s.pull_in_flight;
    let c15 = open && s.git_status.stashes@.len() > 0;
    let a1 = one(c1, GitKeyboardFocus::Repository);
    let a2 = a1 + one(c2, GitKeyboardFocus::Branch);
    let a3 = a2 + one(true, GitKeyboardFocus::CommitMessage);
    let a4 = a3 + one(true, GitKeyboardFocus::CommitButton);
    let a5 = a4 + one(c5, GitKeyboardFocus::PushButton);
    let a6 = a5 + one(c6, GitKeyboardFocus::PublishBranchButton);
    let a7 = a6 + one(c7, GitKeyboardFocus::PullButton);
    let a8 = a7 + one(true, GitKeyboardFocus::StashButton);
    let a9 = a8 + one(true, GitKeyboardFocus::StashHeader);
    let a10 = a9 + one(open, GitKeyboardFocus::StashAllButton);
    let a11 = a10 + one(open, GitKeyboardFocus::StashTrackedButton);
    let a12 = a11 + one(open, GitKeyboardFocus::StashKeepIndexButton);
    let a13 = a12 + one(open, GitKeyboardFocus::StashStagedButton);
    let a14 = a13 + one(open, GitKeyboardFocus::StashSelectedButton);
    let a15 = a14 + one(c15, GitKeyboardFocus::Stashes);
    assert(a15.push(GitKeyboardFocus::Files) == s.stops(c, has_repo)) by {
        reveal(GitPane::stops);
    }
    assert(a0 + one(c1, GitKeyboardFocus::Repository) =~= a1);
    lemma_one_down(a0, c1, GitKeyboardFocus::Repository);
    lemma_one_down(a1, c2, GitKeyboardFocus::Branch);
    lemma_one_down(a2, true, GitKeyboardFocus::CommitMessage);
    lemma_one_down(a3, true, GitKeyboardFocus::CommitButton);
    lemma_one_down(a4, c5, GitKeyboardFocus::PushButton);
    lemma_one_down(a5, c6, GitKeyboardFocus::PublishBranchButton);
    lemma_one_down(a6, c7, GitKeyboardFocus::PullButton);
    lemma_one_down(a7, true, GitKeyboardFocus::StashButton);
    lemma_one_down(a8, true, GitKeyboardFocus::StashHeader);
    lemma_one_down(a9, open, GitKeyboardFocus::StashAllButton);
    lemma_one_down(a10, open, GitKeyboardFocus::StashTrackedButton);
    lemma_one_down(a11, open, GitKeyboardFocus::StashKeepIndexButton);
    lemma_one_down(a12, open, GitKeyboardFocus::StashStagedButton);
    lemma_one_down(a13, open, GitKeyboardFocus::StashSelectedButton);
    lemma_one_down(a14, c15, GitKeyboardFocus::Stashes);
    assert(a15.push(GitKeyboardFocus::Files) =~= a15 + one(true, GitKeyboardFocus::Files));
    lemma_one_down(a15, true, GitKeyboardFocus::Files);
}

/// The branches of the list are those of the repository but the one that is
/// checked out, in their order, and the first six of them.
pub proof fn law_list_holds_the_other_branches(branches: Seq<String>, current: Seq<char>, limit: nat)
    ensures
        ({
            let f = branches.filter(|b: String| b@ != current);
            &&& other_branches(branches, current, limit).len() == (if f.len() < limit {
                f.len()
            } else {
                limit
            })
            &&& other_branches(branches, current, limit).is_prefix_of(f)
        }),
    decreases branches.len(),
{
    reveal(Seq::filter);
    let f = branches.filter(|b: String| b@ != current);
    let o = other_branches(branches, current, limit);
    if branches.len() > 0 {
        law_list_holds_the_other_branches(branches.drop_last(), current, limit);
        let g = branches.drop_last().filter(|b: String| b@ != current);
        let p = other_branches(branches.drop_last(), current, limit);
        assert forall|i: int| 0 <= i < p.len() implies p[i] == g[i] by {
            assert(g.take(p.len() as int)[i] == g[i]);
        }
        assert(o =~= f.take(o.len() as int));
    } else {
        assert(o =~= f.take(0));
    }
}

proof fn lemma_stop_from(order: Seq<GitKeyboardFocus>, f: GitKeyboardFocus, i: int, at: int)
    requires
        0 <= i <= at < order.len(),
        order[at] == f,
        forall|k: int| i <= k < at ==> #[trigger] order[k] != f,
    ensures
        stop_from(order, f, i) == Some(at),
    decreases at - i,
{
    if i < at {
        assert(order[i] != f);
        lemma_stop_from(order, f, i + 1, at);
    }
}

/// Down leads to the next stop and up to the one before, but for the ways to
/// stash: they are left as one, up to their header, down to the stashes or,
/// where there are none, to the files.
pub proof fn law_arrows_lead_to_the_next_stop(
    s: GitPane,
    c: RepoCatalogState,
    has_repo: bool,
    at: int,
)
    requires
        0 <= at < s.stops(c, has_repo).len(),
        s.stops(c, has_repo)[at] == s.git_status.keyboard_focus,
        forall|k: int|
            0 <= k < at ==> #[trigger] s.stops(c, has_repo)[k] != s.git_status.keyboard_focus,
    ensures
        ({
            let f = s.git_status.keyboard_focus;
            let way = f is StashAllButton || f is StashTrackedButton || f is StashKeepIndexButton
                || f is StashStagedButton || f is StashSelectedButton;
            let order = s.stops(c, has_repo);
            &&& !way && at + 1 < order.len() ==> s.next_stop(c, has_repo, 1) == order[at + 1]
            &&& !way && at > 0 ==> s.next_stop(c, has_repo, -1) == order[at - 1]
            &&& !way && at + 1 == order.len() ==> s.next_stop(c, has_repo, 1) == f
            &&& !way && at == 0 ==> s.next_stop(c, has_repo, -1) == f
            &&& way ==> s.next_stop(c, has_repo, -1) is StashHeader
            &&& way && s.git_status.stashes@.len() > 0 ==> s.next_stop(c, has_repo, 1) is Stashes
            &&& way && s.git_status.stashes@.len() == 0 ==> s.next_stop(c, has_repo, 1) is Files
        }),
{
    lemma_stop_from(s.stops(c, has_repo), s.git_status.keyboard_focus, 0, at);
}

/// In a list the arrow keys go row by row, and leave it at its ends.
pub proof fn law_arrows_go_through_a_list_first(i: int, n: int)
    requires
        0 <= i < n,
    ensures
        can_step(i, n, 1) <==> i + 1 < n,
        can_step(i, n, -1) <==> i > 0,
        !can_step(i, n, 0),
        nudged(i, 1, n) == (if i + 1 < n {
            i + 1
        } else {
            i
        }),
        nudged(i, -1, n) == (if i > 0 {
            i - 1
        } else {
            i
        }),
        nudged(i, 0, n) == i,
{
}

/// A cursor past the end of its list is held on the last row.
pub proof fn law_cursor_is_held_in_its_list(i: usize, n: nat)
    ensures
        i < n ==> held(i, n) == i,
        0 < n <= i ==> held(i, n) == n - 1,
        n == 0 ==> held(i, n) == i,
{
}

/// An arrow key moves the row of the list that has the keys, where it has one to
/// go to; the rest stays.
pub proof fn law_arrows_move_the_row(s: GitPane, c: RepoCatalogState, has_repo: bool, delta: int)
    requires
        delta == 1 || delta == -1,
        !s.in_dropdown(),
    ensures
        ({
            let n = s.normalized(c, has_repo);
            let t = s.went(c, has_repo, delta);
            let i = n.git_status.selected_stash_idx;
            let j = n.git_status.repo_selector_idx;
            &&& n.git_status.keyboard_focus is Stashes && 0 <= i + delta
                < n.git_status.stashes@.len() && i < n.git_status.stashes@.len()
                ==> t.git_status.selected_stash_idx == i + delta && t.git_status.keyboard_focus
                is Stashes && s.crosses_stashes(c, has_repo, delta)
            &&& n.git_status.keyboard_focus is Repository && n.repo_list_open(c) && 0 <= j + delta
                < c.repos@.len() && j < c.repos@.len() ==> t.git_status.repo_selector_idx == j
                + delta && t.git_status.keyboard_focus is Repository
            &&& s.crosses_stashes(c, has_repo, delta) ==> n.git_status.keyboard_focus is Stashes
            &&& t.git_status.commit_message == s.git_status.commit_message
            &&& t.lists.staged_files == s.lists.staged_files
            &&& t.lists.unstaged_files == s.lists.unstaged_files
        }),
{
    assert(s.git_status.stashes.len() == s.git_status.stashes@.len());
    assert(c.repos.len() == c.repos@.len());
}

/// In the open list of branches the arrow keys go over its rows, of which the
/// first stands for a new branch.
pub proof fn law_arrows_move_in_the_branch_list(s: GitPane, c: RepoCatalogState, has_repo: bool)
    requires
        s.git_status.branch_dropdown_open,
        s.git_status.keyboard_focus is Branch,
        s.dropdown().len() < usize::MAX,
    ensures
        ({
            let i = s.git_status.branch_dropdown_idx;
            &&& i < s.dropdown().len() ==> s.went(c, has_repo, 1).git_status.branch_dropdown_idx
                == i + 1
            &&& i == s.dropdown().len() ==> s.went(c, has_repo, 1).git_status.branch_dropdown_idx
                == i
            &&& i > 0 ==> s.went(c, has_repo, -1).git_status.branch_dropdown_idx == i - 1
            &&& i == 0 ==> s.went(c, has_repo, -1).git_status.branch_dropdown_idx == 0
            &&& s.went(c, has_repo, 1).lists == s.lists
        }),
{
}

/// Reaching the files selects the first of them where none is selected, and
/// reaching the repositories puts the cursor on the chosen one.
pub proof fn law_stops_are_entered_at_their_row(s: GitPane, c: RepoCatalogState)
    requires
        !is_stash_option(s.git_status.keyboard_focus),
    ensures
        s.arrived(c, GitKeyboardFocus::Repository).git_status.repo_selector_idx == (
        match c.chosen_row() {
            Some(i) => i as usize,
            None => 0,
        }),
        s.lists.selected_file is None && s.lists.selectable().len() > 0 ==> {
            let t = s.arrived(c, GitKeyboardFocus::Files);
            t.lists.selected_file is Some && t.lists.selected_file->0.path == s.lists.selectable()[0].0
                && t.lists.selected_file->0.is_staged == s.lists.selectable()[0].1
        },
        s.lists.selected_file is Some ==> s.arrived(c, GitKeyboardFocus::Files).lists == s.lists,
        s.arrived(c, GitKeyboardFocus::CommitButton).git_status.keyboard_focus is CommitButton,
{
}

/// Left and right lead over the buttons that are stops, in the order of the
/// stops: from a button to the next of the commit, push and stash buttons, from
/// a way to stash to the next of these.
pub proof fn law_sideways_leads_over_the_buttons(order: Seq<GitKeyboardFocus>, options: bool)
    ensures
        group(order, options) == order.filter(
            |f: GitKeyboardFocus| if options {
                f is StashAllButton || f is StashTrackedButton || f is StashKeepIndexButton
                    || f is StashStagedButton || f is StashSelectedButton
            } else {
                f is CommitButton || f is StashButton || f is PushButton || f
                    is PublishBranchButton || f is PullButton
            },
        ),
    decreases order.len(),
{
    reveal(Seq::filter);
    if order.len() > 0 {
        law_sideways_leads_over_the_buttons(order.drop_last(), options);
    }
}

} // verus!
