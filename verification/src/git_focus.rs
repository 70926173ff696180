//! The keyboard focus in the sidebar of the git tab: the order of its stops,
//! and how the arrow keys move over them.
use crate::effects::Effects;
use crate::git_pane::{GitKeyboardFocus, GitPane, GitStatusState};
use crate::repo_catalog::RepoCatalogState;
use crate::text::{opt_view, same_str, trim, trimmed};
use vstd::prelude::*;
use vstd::string::*;

verus! {

pub open spec fn one(cond: bool, f: GitKeyboardFocus) -> Seq<GitKeyboardFocus> {
    if cond {
        seq![f]
    } else {
        Seq::empty()
    }
}

/// The buttons that the left and right keys move over.
pub open spec fn is_action(f: GitKeyboardFocus) -> bool {
    f == GitKeyboardFocus::CommitButton || f == GitKeyboardFocus::StashButton || f
        == GitKeyboardFocus::PushButton || f == GitKeyboardFocus::PublishBranchButton || f
        == GitKeyboardFocus::PullButton
}

/// The ways to stash.
pub open spec fn is_stash_option(f: GitKeyboardFocus) -> bool {
    f == GitKeyboardFocus::StashAllButton || f == GitKeyboardFocus::StashTrackedButton || f
        == GitKeyboardFocus::StashKeepIndexButton || f == GitKeyboardFocus::StashStagedButton || f
        == GitKeyboardFocus::StashSelectedButton
}

fn action_stop(f: GitKeyboardFocus) -> (r: bool)
    ensures
        r == is_action(f),
{
    f == GitKeyboardFocus::CommitButton || f == GitKeyboardFocus::StashButton || f
        == GitKeyboardFocus::PushButton || f == GitKeyboardFocus::PublishBranchButton || f
        == GitKeyboardFocus::PullButton
}

fn stash_option_stop(f: GitKeyboardFocus) -> (r: bool)
    ensures
        r == is_stash_option(f),
{
    f == GitKeyboardFocus::StashAllButton || f == GitKeyboardFocus::StashTrackedButton || f
        == GitKeyboardFocus::StashKeepIndexButton || f == GitKeyboardFocus::StashStagedButton || f
        == GitKeyboardFocus::StashSelectedButton
}

fn push_if(order: &mut Vec<GitKeyboardFocus>, cond: bool, f: GitKeyboardFocus)
    ensures
        final(order)@ == old(order)@ + one(cond, f),
{
    if cond {
        order.push(f);
    }
    assert(order@ =~= old(order)@ + one(cond, f));
}

/// The first position of `f` at or after `i`.
pub open spec fn stop_from(order: Seq<GitKeyboardFocus>, f: GitKeyboardFocus, i: int) -> Option<int>
    decreases order.len() - i,
{
    if i < 0 || i >= order.len() {
        None
    } else if order[i] == f {
        Some(i)
    } else {
        stop_from(order, f, i + 1)
    }
}

fn find_stop(order: &Vec<GitKeyboardFocus>, f: GitKeyboardFocus) -> (r: Option<usize>)
    ensures
        match stop_from(order@, f, 0) {
            Some(i) => r == Some(i as usize) && 0 <= i < order@.len() && order@[i] == f,
            None => r is None && !order@.contains(f),
        },
{
    let n: usize = order.len();
    let mut i: usize = 0;
    while i < n
        invariant
            i <= n == order@.len(),
            stop_from(order@, f, i as int) == stop_from(order@, f, 0),
            forall|j: int| 0 <= j < i ==> order@[j] != f,
        decreases n - i,
    {
        if order[i] == f {
            return Some(i);
        }
        i = i + 1;
    }
    None
}

/// The stops of one group, in their order.
pub open spec fn group(order: Seq<GitKeyboardFocus>, options: bool) -> Seq<GitKeyboardFocus>
    decreases order.len(),
{
    if order.len() == 0 {
        Seq::empty()
    } else {
        let rest = group(order.drop_last(), options);
        let f = order.last();
        if (options && is_stash_option(f)) || (!options && is_action(f)) {
            rest.push(f)
        } else {
            rest
        }
    }
}

fn collect_group(order: &Vec<GitKeyboardFocus>, options: bool) -> (r: Vec<GitKeyboardFocus>)
    ensures
        r@ == group(order@, options),
{
    let mut out: Vec<GitKeyboardFocus> = Vec::new();
    let mut i: usize = 0;
    assert(order@.take(0).len() == 0);
    assert(out@ =~= group(order@.take(0), options));
    while i < order.len()
        invariant
            i <= order@.len(),
            out@ == group(order@.take(i as int), options),
        decreases order@.len() - i,
    {
        assert(order@.take(i + 1).drop_last() =~= order@.take(i as int));
        let f = order[i];
        if (options && stash_option_stop(f)) || (!options && action_stop(f)) {
            out.push(f);
        }
        i = i + 1;
    }
    assert(order@.take(order@.len() as int) =~= order@);
    out
}

/// `i` moved by the sign of `delta`, held inside `0..n`.
pub open spec fn nudged(i: int, delta: int, n: int) -> int {
    if delta < 0 {
        if i == 0 {
            0
        } else {
            i - 1
        }
    } else if delta > 0 {
        if i + 1 < n {
            i + 1
        } else {
            n - 1
        }
    } else {
        i
    }
}

fn nudge(i: usize, delta: i32, n: usize) -> (r: usize)
    requires
        i < n,
    ensures
        r == nudged(i as int, delta as int, n as int),
        r < n,
{
    if delta < 0 {
        if i == 0 {
            0
        } else {
            i - 1
        }
    } else if delta > 0 {
        if i + 1 < n {
            i + 1
        } else {
            n - 1
        }
    } else {
        i
    }
}

/// `i` held to the last of `n` rows.
pub open spec fn held(i: usize, n: nat) -> usize {
    if n > 0 && i >= n {
        (n - 1) as usize
    } else {
        i
    }
}

fn hold(i: usize, n: usize) -> (r: usize)
    ensures
        r == held(i, n as nat),
{
    if n > 0 && i >= n {
        n - 1
    } else {
        i
    }
}

/// There is a row to go to, up or down, from the row `i` of `n`.
pub open spec fn can_step(i: int, n: int, delta: int) -> bool {
    (delta < 0 && i > 0) || (delta > 0 && i + 1 < n)
}

/// The branches other than the current one, at most `limit`.
pub open spec fn other_branches(branches: Seq<String>, current: Seq<char>, limit: nat) -> Seq<String>
    decreases branches.len(),
{
    if branches.len() == 0 {
        Seq::empty()
    } else {
        let rest = other_branches(branches.drop_last(), current, limit);
        if branches.last()@ != current && rest.len() < limit {
            rest.push(branches.last())
        } else {
            rest
        }
    }
}

impl GitPane {
    pub open spec fn offers_publish(self) -> bool {
        self.git_status.ahead_behind is None && trimmed(self.branch_name@).len() > 0
            && self.branch_name@ != "(detached)"@
    }

    /// A branch without an upstream can be published, unless the head is
    /// detached.
    pub fn should_offer_publish_branch(&self) -> (r: bool)
        ensures
            r == self.offers_publish(),
    {
        let name = trim(self.branch_name.as_str());
        self.git_status.ahead_behind.is_none() && !name.as_str().is_empty() && !same_str(
            self.branch_name.as_str(),
            "(detached)",
        )
    }

    pub open spec fn shows_branches(self, chosen: Option<String>, has_repo: bool) -> bool {
        (chosen is Some || has_repo) && (self.branch_name@.len() > 0
            || self.git_status.branches@.len() > 0)
    }

    pub fn git_branch_selector_visible(&self, catalog: &RepoCatalogState, has_repo: bool) -> (r: bool)
        ensures
            r == self.shows_branches(catalog.selected_git_repo, has_repo),
    {
        if catalog.selected_git_repo.is_none() && !has_repo {
            return false;
        }
        !self.branch_name.as_str().is_empty() || self.git_status.branches.len() > 0
    }

    /// The branches in the dropdown list.
    pub open spec fn dropdown(self) -> Seq<String> {
        other_branches(self.git_status.branches@, self.branch_name@, 6)
    }

    pub fn git_branch_dropdown_branches(&self) -> (r: Vec<String>)
        ensures
            r@ == self.dropdown(),
    {
        let mut out: Vec<String> = Vec::new();
        let mut i: usize = 0;
        let ghost all = self.git_status.branches@;
        assert(out@ =~= other_branches(all.take(0), self.branch_name@, 6));
        while i < self.git_status.branches.len()
            invariant
                i <= all.len(),
                all == self.git_status.branches@,
                out@ == other_branches(all.take(i as int), self.branch_name@, 6),
            decreases all.len() - i,
        {
            assert(all.take(i + 1).drop_last() =~= all.take(i as int));
            if !same_str(self.git_status.branches[i].as_str(), self.branch_name.as_str())
                && out.len() < 6 {
                out.push(self.git_status.branches[i].clone());
            }
            i = i + 1;
        }
        assert(all.take(all.len() as int) =~= all);
        out
    }

    /// The stops of the keyboard from top to bottom. A stop is there only
    /// while what it stands for can be used.
    #[verifier::opaque]
    pub open spec fn stops(self, c: RepoCatalogState, has_repo: bool) -> Seq<GitKeyboardFocus> {
        let open = self.git_status.stash_section_open;
        (one(c.repos@.len() > 0 && !c.discover_load.loading, GitKeyboardFocus::Repository) + one(
            self.shows_branches(c.selected_git_repo, has_repo),
            GitKeyboardFocus::Branch,
        ) + one(true, GitKeyboardFocus::CommitMessage) + one(true, GitKeyboardFocus::CommitButton)
            + one(
            (self.git_status.ahead_behind matches Some(ab) && ab.0 > 0 && ab.1 == 0)
                && !self.push_in_flight,
            GitKeyboardFocus::PushButton,
        ) + one(
            self.offers_publish() && !self.push_in_flight,
            GitKeyboardFocus::PublishBranchButton,
        ) + one(
            self.git_status.ahead_behind is Some && !self.pull_in_flight,
            GitKeyboardFocus::PullButton,
        ) + one(true, GitKeyboardFocus::StashButton) + one(true, GitKeyboardFocus::StashHeader)
            + one(open, GitKeyboardFocus::StashAllButton) + one(
            open,
            GitKeyboardFocus::StashTrackedButton,
        ) + one(open, GitKeyboardFocus::StashKeepIndexButton) + one(
            open,
            GitKeyboardFocus::StashStagedButton,
        ) + one(open, GitKeyboardFocus::StashSelectedButton) + one(
            open && self.git_status.stashes@.len() > 0,
            GitKeyboardFocus::Stashes,
        )).push(GitKeyboardFocus::Files)
    }

    pub fn git_keyboard_focus_order(&self, catalog: &RepoCatalogState, has_repo: bool) -> (r: Vec<
        GitKeyboardFocus,
    >)
        ensures
            r@ == self.stops(*catalog, has_repo),
    {
        let can_push = match self.git_status.ahead_behind {
            Some((ahead, behind)) => ahead > 0 && behind == 0,
            None => false,
        };
        let open = self.git_status.stash_section_open;
        let mut order: Vec<GitKeyboardFocus> = Vec::new();
        let has_repos = catalog.repos.len() > 0 && !catalog.discover_load.loading;
        push_if(&mut order, has_repos, GitKeyboardFocus::Repository);
        assert(order@ =~= one(has_repos, GitKeyboardFocus::Repository));
        push_if(
            &mut order,
            self.git_branch_selector_visible(catalog, has_repo),
            GitKeyboardFocus::Branch,
        );
        push_if(&mut order, true, GitKeyboardFocus::CommitMessage);
        push_if(&mut order, true, GitKeyboardFocus::CommitButton);
        push_if(&mut order, can_push && !self.push_in_flight, GitKeyboardFocus::PushButton);
        push_if(
            &mut order,
            self.should_offer_publish_branch() && !self.push_in_flight,
            GitKeyboardFocus::PublishBranchButton,
        );
        push_if(
            &mut order,
            self.git_status.ahead_behind.is_some() && !self.pull_in_flight,
            GitKeyboardFocus::PullButton,
        );
        push_if(&mut order, true, GitKeyboardFocus::StashButton);
        push_if(&mut order, true, GitKeyboardFocus::StashHeader);
        push_if(&mut order, open, GitKeyboardFocus::StashAllButton);
        push_if(&mut order, open, GitKeyboardFocus::StashTrackedButton);
        push_if(&mut order, open, GitKeyboardFocus::StashKeepIndexButton);
        push_if(&mut order, open, GitKeyboardFocus::StashStagedButton);
        push_if(&mut order, open, GitKeyboardFocus::StashSelectedButton);
        push_if(
            &mut order,
            open && self.git_status.stashes.len() > 0,
            GitKeyboardFocus::Stashes,
        );
        order.push(GitKeyboardFocus::Files);
        proof {
            reveal(GitPane::stops);
        }
        order
    }

    // ── Normal form ──────────────────────────────────────────────────────
    /// With repositories to choose from and none chosen, the keyboard is on
    /// them. A focus that is no stop falls back to the files.
    pub open spec fn proper_focus(self, c: RepoCatalogState, has_repo: bool) -> GitKeyboardFocus {
        let f = if c.selected_git_repo is None && c.repos@.len() > 0 {
            GitKeyboardFocus::Repository
        } else {
            self.git_status.keyboard_focus
        };
        if self.stops(c, has_repo).contains(f) {
            f
        } else {
            GitKeyboardFocus::Files
        }
    }

    pub open spec fn normalized(self, c: RepoCatalogState, has_repo: bool) -> Self {
        GitPane {
            git_status: GitStatusState {
                keyboard_focus: self.proper_focus(c, has_repo),
                repo_selector_idx: held(self.git_status.repo_selector_idx, c.repos@.len()),
                selected_stash_idx: held(
                    self.git_status.selected_stash_idx,
                    self.git_status.stashes@.len(),
                ),
                ..self.git_status
            },
            ..self
        }
    }

    pub fn normalize_git_keyboard_focus(&mut self, catalog: &RepoCatalogState, has_repo: bool)
        ensures
            *final(self) == old(self).normalized(*catalog, has_repo),
    {
        let f = self.find_proper_focus(catalog, has_repo);
        let repo_row: usize = hold(self.git_status.repo_selector_idx, catalog.repos.len());
        let stash_row: usize = hold(
            self.git_status.selected_stash_idx,
            self.git_status.stashes.len(),
        );
        self.git_status.keyboard_focus = f;
        self.git_status.repo_selector_idx = repo_row;
        self.git_status.selected_stash_idx = stash_row;
    }

    fn find_proper_focus(&self, catalog: &RepoCatalogState, has_repo: bool) -> (r: GitKeyboardFocus)
        ensures
            r == self.proper_focus(*catalog, has_repo),
    {
        let order = self.git_keyboard_focus_order(catalog, has_repo);
        let f = if catalog.selected_git_repo.is_none() && catalog.repos.len() > 0 {
            GitKeyboardFocus::Repository
        } else {
            self.git_status.keyboard_focus
        };
        if find_stop(&order, f).is_some() {
            f
        } else {
            GitKeyboardFocus::Files
        }
    }

    pub open spec fn focused(self, f: GitKeyboardFocus) -> Self {
        GitPane { git_status: GitStatusState { keyboard_focus: f, ..self.git_status }, ..self }
    }

    pub open spec fn repo_row(self, i: usize) -> Self {
        GitPane { git_status: GitStatusState { repo_selector_idx: i, ..self.git_status }, ..self }
    }

    pub open spec fn stash_row(self, i: usize) -> Self {
        GitPane { git_status: GitStatusState { selected_stash_idx: i, ..self.git_status }, ..self }
    }

    /// The list of repositories takes the keys: it was opened, or nothing is
    /// chosen yet.
    pub open spec fn repo_list_open(self, c: RepoCatalogState) -> bool {
        self.git_status.repo_selector_open || c.selected_git_repo is None
    }

    pub fn repo_selector_effectively_open(&self, catalog: &RepoCatalogState) -> (r: bool)
        ensures
            r == self.repo_list_open(*catalog),
    {
        self.git_status.repo_selector_open || catalog.selected_git_repo.is_none()
    }

    // ── Up and down ──────────────────────────────────────────────────────
    /// What an arrow key does inside the list that has the focus.
    pub open spec fn inner_move(self, c: RepoCatalogState, delta: int) -> InnerMove {
        let g = self.git_status;
        if g.keyboard_focus == GitKeyboardFocus::Repository && c.repos@.len() > 0
            && self.repo_list_open(c) && can_step(
            g.repo_selector_idx as int,
            c.repos@.len() as int,
            delta,
        ) {
            InnerMove::Repo
        } else if g.keyboard_focus == GitKeyboardFocus::Stashes && g.stashes@.len() > 0 && can_step(
            g.selected_stash_idx as int,
            g.stashes@.len() as int,
            delta,
        ) {
            InnerMove::Stash
        } else if g.keyboard_focus == GitKeyboardFocus::Files && self.lists.selectable().len() > 0
            && can_step(
            match self.lists.selected_at() {
                Some(i) => i,
                None => 0,
            },
            self.lists.selectable().len() as int,
            delta,
        ) {
            InnerMove::File
        } else {
            InnerMove::Leaves
        }
    }

    fn find_inner_move(&self, catalog: &RepoCatalogState, delta: i32) -> (r: InnerMove)
        requires
            catalog.repos@.len() > 0 ==> self.git_status.repo_selector_idx < catalog.repos@.len(),
            self.git_status.stashes@.len() > 0 ==> self.git_status.selected_stash_idx
                < self.git_status.stashes@.len(),
        ensures
            r == self.inner_move(*catalog, delta as int),
    {
        if self.git_status.keyboard_focus == GitKeyboardFocus::Repository && catalog.repos.len() > 0
            && self.repo_selector_effectively_open(catalog) {
            let i: usize = self.git_status.repo_selector_idx;
            if (delta < 0 && i > 0) || (delta > 0 && i + 1 < catalog.repos.len()) {
                return InnerMove::Repo;
            }
        }
        if self.git_status.keyboard_focus == GitKeyboardFocus::Stashes
            && self.git_status.stashes.len() > 0 {
            let i: usize = self.git_status.selected_stash_idx;
            if (delta < 0 && i > 0) || (delta > 0 && i + 1 < self.git_status.stashes.len()) {
                return InnerMove::Stash;
            }
        }
        if self.git_status.keyboard_focus == GitKeyboardFocus::Files {
            let items = self.lists.git_selectable_files();
            if items.len() > 0 {
                let i: usize = match self.lists.git_selected_file_idx() {
                    Some(i) => i,
                    None => 0,
                };
                if (delta < 0 && i > 0) || (delta > 0 && i + 1 < items.len()) {
                    return InnerMove::File;
                }
            }
        }
        InnerMove::Leaves
    }

    /// The stop that an arrow key leads to. From the ways to stash it leads
    /// past them at once.
    pub open spec fn next_stop(self, c: RepoCatalogState, has_repo: bool, delta: int) -> GitKeyboardFocus {
        let f = self.git_status.keyboard_focus;
        let order = self.stops(c, has_repo);
        if is_stash_option(f) {
            if delta < 0 {
                GitKeyboardFocus::StashHeader
            } else if self.git_status.stashes@.len() == 0 {
                GitKeyboardFocus::Files
            } else {
                GitKeyboardFocus::Stashes
            }
        } else {
            order[nudged(
                match stop_from(order, f, 0) {
                    Some(i) => i,
                    None => order.len() - 1,
                },
                delta,
                order.len() as int,
            )]
        }
    }

    fn find_next_stop(&self, catalog: &RepoCatalogState, has_repo: bool, delta: i32) -> (r:
        GitKeyboardFocus)
        ensures
            r == self.next_stop(*catalog, has_repo, delta as int),
    {
        let f = self.git_status.keyboard_focus;
        if stash_option_stop(f) {
            return if delta < 0 {
                GitKeyboardFocus::StashHeader
            } else if self.git_status.stashes.len() == 0 {
                GitKeyboardFocus::Files
            } else {
                GitKeyboardFocus::Stashes
            };
        }
        let order = self.git_keyboard_focus_order(catalog, has_repo);
        proof {
            law_files_are_the_last_stop(*self, *catalog, has_repo);
        }
        let current: usize = match find_stop(&order, f) {
            Some(i) => i,
            None => order.len() - 1,
        };
        order[nudge(current, delta, order.len())]
    }

    /// The state after the focus reached a stop from outside: the list of
    /// repositories opens on the chosen one, and the files on the first if
    /// none is selected. The ways to stash are left without that.
    pub open spec fn arrived(self, c: RepoCatalogState, f: GitKeyboardFocus) -> Self {
        let s = self.focused(f);
        if is_stash_option(self.git_status.keyboard_focus) {
            s
        } else if f == GitKeyboardFocus::Repository {
            s.repo_row(
                match c.chosen_row() {
                    Some(i) => i as usize,
                    None => 0,
                },
            )
        } else if f == GitKeyboardFocus::Files && self.lists.selected_file is None {
            s.moved(0)
        } else {
            s
        }
    }

    fn arrive(&mut self, catalog: &RepoCatalogState, f: GitKeyboardFocus)
        ensures
            *final(self) == old(self).arrived(*catalog, f),
    {
        let was_option = stash_option_stop(self.git_status.keyboard_focus);
        self.git_status.keyboard_focus = f;
        if was_option {
            return;
        }
        if f == GitKeyboardFocus::Repository {
            self.git_status.repo_selector_idx = match catalog.selected_repo_idx() {
                Some(i) => i,
                None => 0,
            };
        } else if f == GitKeyboardFocus::Files && self.lists.selected_file.is_none() {
            self.navigate_files(0);
        }
    }

    pub open spec fn dropdown_moved(self, delta: int) -> Self {
        let i = self.git_status.branch_dropdown_idx;
        let n = self.dropdown().len();
        GitPane {
            git_status: GitStatusState {
                branch_dropdown_idx: if delta < 0 {
                    if i == 0 {
                        0
                    } else {
                        (i - 1) as usize
                    }
                } else if delta > 0 {
                    if i < n {
                        (i + 1) as usize
                    } else {
                        n as usize
                    }
                } else {
                    i
                },
                ..self.git_status
            },
            ..self
        }
    }

    fn move_dropdown(&mut self, delta: i32)
        ensures
            *final(self) == old(self).dropdown_moved(delta as int),
    {
        let max: usize = self.git_branch_dropdown_branches().len();
        let i: usize = self.git_status.branch_dropdown_idx;
        if delta < 0 {
            self.git_status.branch_dropdown_idx = if i == 0 {
                0
            } else {
                i - 1
            };
        } else if delta > 0 {
            self.git_status.branch_dropdown_idx = if i < max {
                i + 1
            } else {
                max
            };
        }
    }

    /// The keyboard is in the open list of branches.
    pub open spec fn in_dropdown(self) -> bool {
        self.git_status.branch_dropdown_open && self.git_status.keyboard_focus
            == GitKeyboardFocus::Branch
    }

    /// The state after an arrow key, before the detail of a stash is asked
    /// for.
    pub open spec fn went(self, c: RepoCatalogState, has_repo: bool, delta: int) -> Self {
        if self.in_dropdown() {
            self.dropdown_moved(delta)
        } else {
            let s = self.normalized(c, has_repo);
            match s.inner_move(c, delta) {
                InnerMove::Repo => s.repo_row(
                    if delta < 0 {
                        (s.git_status.repo_selector_idx - 1) as usize
                    } else {
                        (s.git_status.repo_selector_idx + 1) as usize
                    },
                ),
                InnerMove::Stash => s.stash_row(
                    if delta < 0 {
                        (s.git_status.selected_stash_idx - 1) as usize
                    } else {
                        (s.git_status.selected_stash_idx + 1) as usize
                    },
                ),
                InnerMove::File => s.moved(delta),
                InnerMove::Leaves => s.arrived(c, s.next_stop(c, has_repo, delta)),
            }
        }
    }

    /// Whether an arrow key moves over the stashes, so that another detail is
    /// to be shown.
    pub open spec fn crosses_stashes(self, c: RepoCatalogState, has_repo: bool, delta: int) -> bool {
        !self.in_dropdown() && self.normalized(c, has_repo).inner_move(c, delta)
            == InnerMove::Stash
    }

    fn go(&mut self, catalog: &RepoCatalogState, has_repo: bool, delta: i32) -> (r: bool)
        requires
            !old(self).in_dropdown(),
        ensures
            *final(self) == old(self).went(*catalog, has_repo, delta as int),
            r == old(self).crosses_stashes(*catalog, has_repo, delta as int),
    {
        self.normalize_git_keyboard_focus(catalog, has_repo);
        let step = self.find_inner_move(catalog, delta);
        let repos: usize = catalog.repos.len();
        let stashes: usize = self.git_status.stashes.len();
        match step {
            InnerMove::Repo => {
                let i: usize = self.git_status.repo_selector_idx;
                self.git_status.repo_selector_idx = if delta < 0 {
                    i - 1
                } else {
                    i + 1
                };
                false
            },
            InnerMove::Stash => {
                let i: usize = self.git_status.selected_stash_idx;
                self.git_status.selected_stash_idx = if delta < 0 {
                    i - 1
                } else {
                    i + 1
                };
                true
            },
            InnerMove::File => {
                self.navigate_files(delta);
                false
            },
            InnerMove::Leaves => {
                let f = self.find_next_stop(catalog, has_repo, delta);
                self.arrive(catalog, f);
                false
            },
        }
    }

    /// The up and down keys: inside the list that has the focus while it has
    /// a row to go to, else to the next stop.
    pub fn move_git_keyboard_focus_vertical(
        &mut self,
        delta: i32,
        catalog: &RepoCatalogState,
        has_repo: bool,
        repo: &Option<String>,
        fx: &mut Effects,
    )
        ensures
            ({
                let s = old(self).went(*catalog, has_repo, delta as int);
                if old(self).crosses_stashes(*catalog, has_repo, delta as int) {
                    *final(self) == s.stash_asked(opt_view(*repo)) && final(fx)@ == old(fx)@
                        + s.stash_request(opt_view(*repo))
                } else {
                    *final(self) == s && final(fx)@ == old(fx)@
                }
            }),
    {
        if self.git_status.branch_dropdown_open && self.git_status.keyboard_focus
            == GitKeyboardFocus::Branch {
            self.move_dropdown(delta);
            return;
        }
        if self.go(catalog, has_repo, delta) {
            self.load_selected_stash_detail(repo, fx);
        }
    }

    // ── Left and right ───────────────────────────────────────────────────
    /// The stop beside the focus: in the ways to stash if it is there, else
    /// among the buttons. A focus outside both does not move.
    pub open spec fn beside(self, c: RepoCatalogState, has_repo: bool, delta: int) -> GitKeyboardFocus {
        let f = self.git_status.keyboard_focus;
        let order = self.stops(c, has_repo);
        let options = group(order, true);
        let row = if options.contains(f) {
            options
        } else {
            group(order, false)
        };
        match stop_from(row, f, 0) {
            Some(i) => row[nudged(i, delta, row.len() as int)],
            None => f,
        }
    }

    pub fn move_git_keyboard_focus_horizontal(
        &mut self,
        delta: i32,
        catalog: &RepoCatalogState,
        has_repo: bool,
    )
        ensures
            ({
                let s = old(self).normalized(*catalog, has_repo);
                *final(self) == s.focused(s.beside(*catalog, has_repo, delta as int))
            }),
    {
        self.normalize_git_keyboard_focus(catalog, has_repo);
        let f = self.git_status.keyboard_focus;
        let order = self.git_keyboard_focus_order(catalog, has_repo);
        let options = collect_group(&order, true);
        let row = if find_stop(&options, f).is_some() {
            options
        } else {
            collect_group(&order, false)
        };
        if let Some(i) = find_stop(&row, f) {
            let next: usize = nudge(i, delta, row.len());
            self.git_status.keyboard_focus = row[next];
        }
    }
}

/// Where an arrow key acts.
#[derive(Debug, Clone, Copy, PartialEq, Eq, Structural)]
pub enum InnerMove {
    Repo,
    Stash,
    File,
    /// The key leads out of the list that has the focus.
    Leaves,
}

// ── Laws ─────────────────────────────────────────────────────────────────

proof fn lemma_stop_from(order: Seq<GitKeyboardFocus>, f: GitKeyboardFocus, i: int)
    requires
        0 <= i,
    ensures
        stop_from(order, f, i) matches Some(k) ==> i <= k < order.len() && order[k] == f,
    decreases order.len() - i,
{
    if i < order.len() {
        lemma_stop_from(order, f, i + 1);
    }
}

proof fn lemma_group(order: Seq<GitKeyboardFocus>, options: bool, f: GitKeyboardFocus)
    ensures
        group(order, options).contains(f) ==> order.contains(f) && (if options {
            is_stash_option(f)
        } else {
            is_action(f)
        }),
    decreases order.len(),
{
    if order.len() > 0 {
        let rest = group(order.drop_last(), options);
        lemma_group(order.drop_last(), options, f);
        if group(order, options).contains(f) {
            let k = choose|k: int|
                0 <= k < group(order, options).len() && group(order, options)[k] == f;
            if k < rest.len() {
                assert(rest.contains(f));
                let j = choose|j: int| 0 <= j < order.drop_last().len() && order.drop_last()[j] == f;
                assert(order[j] == f);
            } else {
                assert(order[order.len() - 1] == f);
            }
        }
    }
}

/// The files are the last stop, so there always is one.
pub proof fn law_files_are_the_last_stop(s: GitPane, c: RepoCatalogState, has_repo: bool)
    ensures
        s.stops(c, has_repo).len() > 0,
        s.stops(c, has_repo).last() == GitKeyboardFocus::Files,
        s.stops(c, has_repo).contains(GitKeyboardFocus::Files),
{
    reveal(GitPane::stops);
    let o = s.stops(c, has_repo);
    assert(o[o.len() - 1] == GitKeyboardFocus::Files);
}

/// The stops do not depend on where the focus is, so the normal form of a
/// state has the same stops, its focus is one of them, and it is its own
/// normal form.
pub proof fn law_focus_is_a_stop(s: GitPane, c: RepoCatalogState, has_repo: bool)
    ensures
        ({
            let n = s.normalized(c, has_repo);
            &&& n.stops(c, has_repo) == s.stops(c, has_repo)
            &&& n.stops(c, has_repo).contains(n.git_status.keyboard_focus)
            &&& n.normalized(c, has_repo) == n
        }),
{
    law_files_are_the_last_stop(s, c, has_repo);
    let n = s.normalized(c, has_repo);
    assert(n.stops(c, has_repo) == s.stops(c, has_repo)) by {
        reveal(GitPane::stops);
    }
}

/// The left and right keys lead to a stop, and stay among the buttons or among
/// the ways to stash.
pub proof fn law_sideways_stays_in_its_row(
    s: GitPane,
    c: RepoCatalogState,
    has_repo: bool,
    delta: int,
)
    ensures
        ({
            let n = s.normalized(c, has_repo);
            let f = n.git_status.keyboard_focus;
            let g = n.beside(c, has_repo, delta);
            &&& n.stops(c, has_repo).contains(g)
            &&& g == f || (is_action(f) && is_action(g)) || (is_stash_option(f) && is_stash_option(
                g,
            ))
        }),
{
    law_focus_is_a_stop(s, c, has_repo);
    let n = s.normalized(c, has_repo);
    let f = n.git_status.keyboard_focus;
    let order = n.stops(c, has_repo);
    let options = group(order, true);
    let row = if options.contains(f) {
        options
    } else {
        group(order, false)
    };
    lemma_stop_from(row, f, 0);
    match stop_from(row, f, 0) {
        Some(i) => {
            let k = nudged(i, delta, row.len() as int);
            assert(0 <= k < row.len());
            assert(row.contains(row[k]));
            assert(row.contains(row[i]));
            lemma_group(order, true, row[k]);
            lemma_group(order, false, row[k]);
            lemma_group(order, true, f);
            lemma_group(order, false, f);
        },
        None => {},
    }
}

/// Up and down are inverse between two stops, away from the ends: where a key
/// leads from the `i`th stop to its neighbour, the opposite key leads back.
pub proof fn law_up_undoes_down(i: int, n: int)
    requires
        0 <= i,
        i + 1 < n,
    ensures
        nudged(nudged(i, 1, n), -1, n) == i,
        nudged(nudged(i + 1, -1, n), 1, n) == i + 1,
{
}

} // verus!
