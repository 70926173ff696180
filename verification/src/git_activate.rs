//! What the Enter key does in the sidebar of the git tab.
use crate::effects::{Effect, Effects, Pref};
use crate::git::StashPushOptions;
use crate::git_flows::{graph_switched, repo_switched};
use crate::git_pane::{
    GitKeyboardFocus, GitPane, GitStatusState, PendingStashAction, PushOperation,
};
use crate::git_stash::{stash_message, StashJob};
use crate::graph::GraphPane;
use crate::layout::{Panel, Screen};
use crate::paths::{push_path, pushed_path};
use crate::repo_catalog::{active_repo, RepoCatalogState};
use crate::text::{opt_view, same_str, trimmed, views};
use vstd::prelude::*;
use vstd::string::*;

verus! {

/// What the host is left to do after a key, beside its effects.
#[derive(Debug)]
pub enum Activated {
    Nothing,
    RunStash(StashJob),
    /// Open a file in the external editor.
    Edit(String),
}

/// A stash of these parts waits for its confirmation in `new`.
pub open spec fn push_prepared(
    old: GitPane,
    new: GitPane,
    include_untracked: bool,
    keep_index: bool,
    staged_only: bool,
    paths: Seq<Seq<char>>,
    label: Seq<char>,
) -> bool {
    &&& new.git_status.pending_stash_action matches Some(
        PendingStashAction::Push { options, label: l },
    ) && l@ == label && options.message@ == stash_message(old.branch_name@)
        && options.include_untracked == include_untracked && options.keep_index == keep_index
        && options.staged_only == staged_only && views(options.paths@) == paths
    &&& new == (GitPane {
        git_status: GitStatusState {
            pending_stash_action: new.git_status.pending_stash_action,
            stash_error: None,
            ..old.git_status
        },
        ..old
    })
}

/// Enter on the repository: it opens the list, or takes its row.
pub open spec fn repository_taken(
    old: GitPane,
    new: GitPane,
    c: RepoCatalogState,
    c2: RepoCatalogState,
    g: GraphPane,
    g2: GraphPane,
    sent: Seq<Effect<Seq<char>>>,
) -> bool {
    let i = old.git_status.repo_selector_idx;
    if old.repo_list_open(c) {
        if i < c.repos@.len() {
            let root = c.repos@[i as int].repo_root_rel;
            &&& c2 == (RepoCatalogState { selected_git_repo: Some(root), ..c })
            &&& repo_switched(old, new)
            &&& graph_switched(g, g2)
            &&& sent == seq![
                Effect::SetPref { pref: Pref::SelectedRepo, value: root@ },
                Effect::RefreshStatus {
                    generation: old.git_status_load.begun().generation,
                    repo: root@,
                },
            ]
        } else {
            &&& c2 == c
            &&& g2 == g
            &&& new == old.repo_list(false, i)
            &&& sent == Seq::<Effect<Seq<char>>>::empty()
        }
    } else {
        &&& c2 == c
        &&& g2 == g
        &&& new == old.repo_list(
            true,
            match c.chosen_row() {
                Some(k) => k as usize,
                None => 0,
            },
        )
        &&& sent == Seq::<Effect<Seq<char>>>::empty()
    }
}

/// Enter on the branch: it opens the list, asks for a new branch on its first
/// row, or switches to the branch of another row.
pub open spec fn branch_taken(
    old: GitPane,
    new: GitPane,
    repo: Option<Seq<char>>,
    sent: Seq<Effect<Seq<char>>>,
) -> bool {
    let i = old.git_status.branch_dropdown_idx;
    let list = old.dropdown();
    if old.git_status.branch_dropdown_open {
        if i == 0 {
            &&& new.git_status.branch_create_dialog matches Some(d) && d.is_first()
            &&& new == (GitPane {
                git_status: GitStatusState {
                    branch_dropdown_open: false,
                    branch_create_dialog: new.git_status.branch_create_dialog,
                    ..old.git_status
                },
                ..old
            })
            &&& sent == Seq::<Effect<Seq<char>>>::empty()
        } else if i - 1 < list.len() {
            &&& new == old.branch_list(false, i)
            &&& sent == old.switch_to(list[i - 1]@, repo)
        } else {
            new == old && sent == Seq::<Effect<Seq<char>>>::empty()
        }
    } else if old.branch_name@ != "(detached)"@ {
        new == old.branch_list(true, 0) && sent == Seq::<Effect<Seq<char>>>::empty()
    } else {
        new == old && sent == Seq::<Effect<Seq<char>>>::empty()
    }
}

/// The path of the selected file below the working directory.
pub open spec fn file_path_of(workdir: Seq<char>, repo: Seq<char>, path: Seq<char>) -> Seq<char> {
    pushed_path(pushed_path(workdir, repo), path)
}

/// Enter on a stop whose key asks nothing of the host: it opens the commit box or the stash section,
/// prepares a stash, or asks to confirm a push.
pub open spec fn quiet_taken(s: GitPane, new: GitPane) -> bool {
    match s.git_status.keyboard_focus {
        GitKeyboardFocus::CommitMessage => new == (GitPane {
            git_status: GitStatusState { commit_editing: true, ..s.git_status },
            ..s
        }),
        GitKeyboardFocus::StashHeader => new == (GitPane {
            git_status: GitStatusState {
                stash_section_open: !s.git_status.stash_section_open,
                ..s.git_status
            },
            ..s
        }),
        GitKeyboardFocus::StashButton | GitKeyboardFocus::StashAllButton => push_prepared(
            s,
            new,
            true,
            false,
            false,
            Seq::empty(),
            "all"@,
        ),
        GitKeyboardFocus::StashTrackedButton => push_prepared(
            s,
            new,
            false,
            false,
            false,
            Seq::empty(),
            "tracked"@,
        ),
        GitKeyboardFocus::StashKeepIndexButton => push_prepared(
            s,
            new,
            true,
            true,
            false,
            Seq::empty(),
            "keep-index"@,
        ),
        GitKeyboardFocus::StashStagedButton => push_prepared(
            s,
            new,
            false,
            false,
            true,
            Seq::empty(),
            "staged"@,
        ),
        GitKeyboardFocus::StashSelectedButton => match s.lists.selected_file {
            Some(sel) => push_prepared(s, new, true, false, false, seq![sel.path@], "selected"@),
            None => new == s,
        },
        GitKeyboardFocus::PushButton => new == (GitPane {
            git_status: GitStatusState {
                confirm_push: true,
                confirm_force_push: false,
                push_error: None,
                ..s.git_status
            },
            ..s
        }),
        _ => new == s,
    }
}

/// Enter on the commit button.
pub open spec fn commit_taken(
    s: GitPane,
    new: GitPane,
    repo: Option<Seq<char>>,
    nothing_staged: String,
    sent: Seq<Effect<Seq<char>>>,
) -> bool {
    if !s.may_commit(repo) {
        new == s && sent == nothing()
    } else if s.lists.staged_files@.len() == 0 {
        new == s.with_commit_error(Some(nothing_staged)) && sent == nothing()
    } else {
        new == (GitPane { commit_in_flight: true, ..s }) && sent == seq![
            Effect::Commit { repo: repo->0, message: trimmed(s.git_status.commit_message@) },
        ]
    }
}

/// Enter on the publish button.
pub open spec fn publish_taken(
    s: GitPane,
    new: GitPane,
    repo: Option<Seq<char>>,
    sent: Seq<Effect<Seq<char>>>,
) -> bool {
    let t = GitPane { git_status: GitStatusState { push_error: None, ..s.git_status }, ..s };
    if s.push_in_flight || !s.offers_publish() || repo is None {
        new == t && sent == nothing()
    } else {
        new == t.pushing(PushOperation::PublishBranch) && sent == seq![
            Effect::PublishBranch { repo: repo->0 },
        ]
    }
}

/// Enter on the pull button.
pub open spec fn pull_taken(
    s: GitPane,
    new: GitPane,
    repo: Option<Seq<char>>,
    sent: Seq<Effect<Seq<char>>>,
) -> bool {
    let t = GitPane { git_status: GitStatusState { pull_error: None, ..s.git_status }, ..s };
    if s.pull_in_flight || repo is None {
        new == t && sent == nothing()
    } else {
        new == (GitPane { pull_in_flight: true, ..t }) && sent == seq![
            Effect::Pull { repo: repo->0 },
        ]
    }
}

/// Enter on a stash: it is applied, on a dirty tree after a confirmation.
pub open spec fn stash_taken(s: GitPane, new: GitPane, repo: Option<Seq<char>>, out: Activated) -> bool {
    match s.stash_ref() {
        Some(stash_ref) => {
            let action = PendingStashAction::Apply { stash_ref, reinstate_index: false };
            if s.tree_is_dirty() {
                new == s.with_pending(Some(action)) && out is Nothing
            } else {
                new == s && (match repo {
                    Some(r) => out matches Activated::RunStash(job) && job.repo@ == r && job.action
                        == action,
                    None => out is Nothing,
                })
            }
        },
        None => new == s && out is Nothing,
    }
}

/// Enter on the files: the selected one is opened in the editor.
pub open spec fn file_opened(s: GitPane, repo: Option<Seq<char>>, workdir: Seq<char>, out: Activated) -> bool {
    match (s.lists.selected_file, repo) {
        (Some(sel), Some(r)) => out matches Activated::Edit(p) && p@ == file_path_of(
            workdir,
            r,
            sel.path@,
        ),
        _ => out is Nothing,
    }
}

pub open spec fn nothing() -> Seq<Effect<Seq<char>>> {
    Seq::empty()
}

/// What Enter does on each stop but the repository, from the normal form `s`.
pub open spec fn stop_taken(
    s: GitPane,
    new: GitPane,
    repo: Option<Seq<char>>,
    workdir: Seq<char>,
    nothing_staged: String,
    sent: Seq<Effect<Seq<char>>>,
    out: Activated,
) -> bool {
    match s.git_status.keyboard_focus {
        GitKeyboardFocus::Branch => branch_taken(s, new, repo, sent) && out is Nothing,
        GitKeyboardFocus::CommitButton => commit_taken(s, new, repo, nothing_staged, sent)
            && out is Nothing,
        GitKeyboardFocus::PublishBranchButton => publish_taken(s, new, repo, sent)
            && out is Nothing,
        GitKeyboardFocus::PullButton => pull_taken(s, new, repo, sent) && out is Nothing,
        GitKeyboardFocus::Stashes => stash_taken(s, new, repo, out) && sent == nothing(),
        GitKeyboardFocus::Files => file_opened(s, repo, workdir, out) && new == s && sent
            == nothing(),
        _ => quiet_taken(s, new) && sent == nothing() && out is Nothing,
    }
}

impl GitPane {
    pub open spec fn repo_list(self, open: bool, i: usize) -> Self {
        GitPane {
            git_status: GitStatusState {
                repo_selector_open: open,
                repo_selector_idx: i,
                ..self.git_status
            },
            ..self
        }
    }

    pub open spec fn branch_list(self, open: bool, i: usize) -> Self {
        GitPane {
            git_status: GitStatusState {
                branch_dropdown_open: open,
                branch_dropdown_idx: i,
                ..self.git_status
            },
            ..self
        }
    }

    fn activate_repository(
        &mut self,
        catalog: &mut RepoCatalogState,
        graph: &mut GraphPane,
        fx: &mut Effects,
    )
        ensures
            old(fx)@.is_prefix_of(final(fx)@),
            repository_taken(
                *old(self),
                *final(self),
                *old(catalog),
                *final(catalog),
                *old(graph),
                *final(graph),
                added(old(fx)@, final(fx)@),
            ),
    {
        let i: usize = self.git_status.repo_selector_idx;
        if self.repo_selector_effectively_open(catalog) {
            if i < catalog.repos.len() {
                self.select_git_repo_at_idx(i, catalog, graph, fx);
            } else {
                self.git_status.repo_selector_open = false;
            }
        } else {
            self.git_status.repo_selector_open = true;
            self.git_status.repo_selector_idx = match catalog.selected_repo_idx() {
                Some(k) => k,
                None => 0,
            };
        }
        proof {
            lemma_added(old(fx)@, fx@);
        }
    }

    fn activate_branch(&mut self, repo: &Option<String>, fx: &mut Effects)
        ensures
            old(fx)@.is_prefix_of(final(fx)@),
            branch_taken(
                *old(self),
                *final(self),
                opt_view(*repo),
                added(old(fx)@, final(fx)@),
            ),
    {
        let i: usize = self.git_status.branch_dropdown_idx;
        if self.git_status.branch_dropdown_open {
            if i == 0 {
                self.open_branch_create_dialog();
            } else {
                let list = self.git_branch_dropdown_branches();
                if i - 1 < list.len() {
                    self.git_status.branch_dropdown_open = false;
                    self.checkout_branch(list[i - 1].as_str(), repo, fx);
                }
            }
        } else if !same_str(self.branch_name.as_str(), "(detached)") {
            self.git_status.branch_dropdown_open = true;
            self.git_status.branch_dropdown_idx = 0;
        }
        proof {
            lemma_added(old(fx)@, fx@);
        }
    }

    /// Prepares one of the ways to stash.
    fn prepare_push(
        &mut self,
        include_untracked: bool,
        keep_index: bool,
        staged_only: bool,
        paths: Vec<String>,
        label: &str,
    )
        ensures
            push_prepared(
                *old(self),
                *final(self),
                include_untracked,
                keep_index,
                staged_only,
                views(paths@),
                label@,
            ),
    {
        let message = self.default_stash_message();
        self.prepare_stash_push(
            StashPushOptions { message, include_untracked, keep_index, staged_only, paths },
            label,
        );
    }

    pub fn selected_git_file_path(&self, workdir: &str, repo: &Option<String>) -> (r: Option<String>)
        ensures
            match (self.lists.selected_file, opt_view(*repo)) {
                (Some(sel), Some(root)) => r matches Some(p) && p@ == file_path_of(
                    workdir@,
                    root,
                    sel.path@,
                ),
                _ => r is None,
            },
    {
        match (&self.lists.selected_file, repo) {
            (Some(sel), Some(root)) => {
                let dir = push_path(workdir, root.as_str());
                Some(push_path(dir.as_str(), sel.path.as_str()))
            },
            _ => None,
        }
    }

    fn activate_stashes(&mut self, repo: &Option<String>) -> (r: Activated)
        ensures
            stash_taken(*old(self), *final(self), opt_view(*repo), r),
    {
        match self.selected_stash_ref() {
            Some(stash_ref) => match self.prepare_stash_apply(stash_ref, false, false, repo) {
                Some(job) => Activated::RunStash(job),
                None => Activated::Nothing,
            },
            None => Activated::Nothing,
        }
    }

    fn activate_quiet(&mut self)
        ensures
            quiet_taken(*old(self), *final(self)),
    {
        let none: Vec<String> = Vec::new();
        assert(views(none@) =~= Seq::<Seq<char>>::empty());
        match self.git_status.keyboard_focus {
            GitKeyboardFocus::CommitMessage => {
                self.git_status.commit_editing = true;
            },
            GitKeyboardFocus::StashHeader => {
                self.git_status.stash_section_open = !self.git_status.stash_section_open;
            },
            GitKeyboardFocus::StashButton | GitKeyboardFocus::StashAllButton => {
                self.prepare_push(true, false, false, none, "all");
            },
            GitKeyboardFocus::StashTrackedButton => {
                self.prepare_push(false, false, false, none, "tracked");
            },
            GitKeyboardFocus::StashKeepIndexButton => {
                self.prepare_push(true, true, false, none, "keep-index");
            },
            GitKeyboardFocus::StashStagedButton => {
                self.prepare_push(false, false, true, none, "staged");
            },
            GitKeyboardFocus::StashSelectedButton => {
                self.prepare_selected();
            },
            GitKeyboardFocus::PushButton => {
                self.git_status.confirm_push = true;
                self.git_status.confirm_force_push = false;
                self.git_status.push_error = None;
            },
            _ => {},
        }
    }

    fn prepare_selected(&mut self)
        ensures
            match old(self).lists.selected_file {
                Some(sel) => push_prepared(
                    *old(self),
                    *final(self),
                    true,
                    false,
                    false,
                    seq![sel.path@],
                    "selected"@,
                ),
                None => *final(self) == *old(self),
            },
    {
        let path = match &self.lists.selected_file {
            Some(sel) => sel.path.clone(),
            None => {
                return;
            },
        };
        let mut paths: Vec<String> = Vec::new();
        paths.push(path);
        assert(views(paths@) =~= seq![path@]);
        self.prepare_push(true, false, false, paths, "selected");
    }

    fn activate_commit(&mut self, nothing_staged: String, repo: &Option<String>, fx: &mut Effects)
        ensures
            old(fx)@.is_prefix_of(final(fx)@),
            commit_taken(
                *old(self),
                *final(self),
                opt_view(*repo),
                nothing_staged,
                added(old(fx)@, final(fx)@),
            ),
    {
        self.run_commit(nothing_staged, repo, fx);
        proof {
            lemma_added(old(fx)@, fx@);
        }
    }

    fn activate_publish(&mut self, repo: &Option<String>, fx: &mut Effects)
        ensures
            old(fx)@.is_prefix_of(final(fx)@),
            publish_taken(
                *old(self),
                *final(self),
                opt_view(*repo),
                added(old(fx)@, final(fx)@),
            ),
    {
        self.git_status.push_error = None;
        assert(self.offers_publish() == old(self).offers_publish());
        self.run_publish_branch(repo, fx);
        proof {
            lemma_added(old(fx)@, fx@);
        }
    }

    fn activate_pull(&mut self, repo: &Option<String>, fx: &mut Effects)
        ensures
            old(fx)@.is_prefix_of(final(fx)@),
            pull_taken(*old(self), *final(self), opt_view(*repo), added(old(fx)@, final(fx)@)),
    {
        self.git_status.pull_error = None;
        self.run_pull(repo, fx);
        proof {
            lemma_added(old(fx)@, fx@);
        }
    }

    fn activate_stop(
        &mut self,
        workdir: &str,
        nothing_staged: String,
        repo: &Option<String>,
        fx: &mut Effects,
    ) -> (r: Activated)
        ensures
            old(fx)@.is_prefix_of(final(fx)@),
            stop_taken(
                *old(self),
                *final(self),
                opt_view(*repo),
                workdir@,
                nothing_staged,
                added(old(fx)@, final(fx)@),
                r,
            ),
    {
        proof {
            lemma_added(old(fx)@, fx@);
        }
        match self.git_status.keyboard_focus {
            GitKeyboardFocus::Branch => {
                self.activate_branch(repo, fx);
                Activated::Nothing
            },
            GitKeyboardFocus::CommitButton => {
                self.activate_commit(nothing_staged, repo, fx);
                Activated::Nothing
            },
            GitKeyboardFocus::PublishBranchButton => {
                self.activate_publish(repo, fx);
                Activated::Nothing
            },
            GitKeyboardFocus::PullButton => {
                self.activate_pull(repo, fx);
                Activated::Nothing
            },
            GitKeyboardFocus::Stashes => self.activate_stashes(repo),
            GitKeyboardFocus::Files => match self.selected_git_file_path(workdir, repo) {
                Some(p) => Activated::Edit(p),
                None => Activated::Nothing,
            },
            _ => {
                self.activate_quiet();
                Activated::Nothing
            },
        }
    }

    /// The Enter key: brings the focus into its normal form, moves it to the
    /// sidebar, and acts on the stop.
    pub fn activate_git_keyboard_focus(
        &mut self,
        catalog: &mut RepoCatalogState,
        graph: &mut GraphPane,
        screen: &mut Screen,
        has_repo: bool,
        workdir: &str,
        nothing_staged: String,
        fx: &mut Effects,
    ) -> (r: Activated)
        ensures
            *final(screen) == (Screen { active_panel: Panel::Files, ..*old(screen) }),
            old(fx)@.is_prefix_of(final(fx)@),
            ({
                let s = old(self).normalized(*old(catalog), has_repo);
                let sent = added(old(fx)@, final(fx)@);
                if s.git_status.keyboard_focus == GitKeyboardFocus::Repository {
                    r is Nothing && repository_taken(
                        s,
                        *final(self),
                        *old(catalog),
                        *final(catalog),
                        *old(graph),
                        *final(graph),
                        sent,
                    )
                } else {
                    &&& *final(catalog) == *old(catalog)
                    &&& *final(graph) == *old(graph)
                    &&& stop_taken(
                        s,
                        *final(self),
                        active_repo(old(catalog).selected_git_repo, has_repo),
                        workdir@,
                        nothing_staged,
                        sent,
                        r,
                    )
                }
            }),
    {
        self.normalize_git_keyboard_focus(catalog, has_repo);
        screen.active_panel = Panel::Files;
        if self.git_status.keyboard_focus == GitKeyboardFocus::Repository {
            self.activate_repository(catalog, graph, fx);
            Activated::Nothing
        } else {
            let repo = catalog.status_repo_root_rel(has_repo);
            self.activate_stop(workdir, nothing_staged, &repo, fx)
        }
    }
}

/// What was put behind `before` to get `after`.
pub open spec fn added(before: Seq<Effect<Seq<char>>>, after: Seq<Effect<Seq<char>>>) -> Seq<
    Effect<Seq<char>>,
> {
    after.skip(before.len() as int)
}

proof fn lemma_added(before: Seq<Effect<Seq<char>>>, after: Seq<Effect<Seq<char>>>)
    ensures
        forall|x: Seq<Effect<Seq<char>>>| after == #[trigger] (before + x) ==> added(before, after) == x
            && before.is_prefix_of(after),
        forall|e: Effect<Seq<char>>| after == #[trigger] before.push(e) ==> added(before, after)
            == seq![e] && before.is_prefix_of(after),
        after == before ==> added(before, after) == nothing() && before.is_prefix_of(after),
{
    assert forall|x: Seq<Effect<Seq<char>>>| after == #[trigger] (before + x) implies added(
        before,
        after,
    ) == x && before.is_prefix_of(after) by {
        assert(added(before, after) =~= x);
    }
    assert forall|e: Effect<Seq<char>>| after == #[trigger] before.push(e) implies added(
        before,
        after,
    ) == seq![e] && before.is_prefix_of(after) by {
        assert(added(before, after) =~= seq![e]);
    }
    if after == before {
        assert(added(before, after) =~= nothing());
    }
}

/// Enter never runs an operation on the stashes at once while there are
/// changes: on a dirty tree none is handed to the host.
pub proof fn law_dirty_tree_needs_confirmation(
    s: GitPane,
    new: GitPane,
    repo: Option<Seq<char>>,
    workdir: Seq<char>,
    text: String,
    sent: Seq<Effect<Seq<char>>>,
    out: Activated,
)
    requires
        stop_taken(s, new, repo, workdir, text, sent, out),
        s.tree_is_dirty(),
    ensures
        !(out is RunStash),
{
}

} // verus!
