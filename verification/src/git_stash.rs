//! Stashing in the git tab: which operation waits for its confirmation, what
//! is handed to git, and what follows from its answer.
use crate::effects::{Effect, Effects, ToastLevel};
use crate::git::{StashDetail, StashEntry, StashPushOptions};
use crate::git_pane::{GitPane, GitStatusState, PendingStashAction};
use crate::loads::AsyncState;
use crate::text::{opt_view, trim, trimmed};
use vstd::prelude::*;
use vstd::string::*;

verus! {

/// A stash operation for the host to run on a repository.
#[derive(Debug)]
pub struct StashJob {
    pub repo: String,
    pub action: PendingStashAction,
}

#[derive(Debug, Clone, Copy, PartialEq, Eq, Structural)]
pub enum StashOp {
    Push,
    Apply,
    Pop,
    Drop,
}

impl PendingStashAction {
    pub open spec fn op(self) -> StashOp {
        match self {
            PendingStashAction::Push { .. } => StashOp::Push,
            PendingStashAction::Apply { .. } => StashOp::Apply,
            PendingStashAction::Pop { .. } => StashOp::Pop,
            PendingStashAction::Drop { .. } => StashOp::Drop,
        }
    }

    pub fn kind(&self) -> (r: StashOp)
        ensures
            r == self.op(),
    {
        match self {
            PendingStashAction::Push { .. } => StashOp::Push,
            PendingStashAction::Apply { .. } => StashOp::Apply,
            PendingStashAction::Pop { .. } => StashOp::Pop,
            PendingStashAction::Drop { .. } => StashOp::Drop,
        }
    }
}

pub open spec fn done_text(op: StashOp) -> Seq<char> {
    match op {
        StashOp::Push => "Stashed changes"@,
        StashOp::Apply => "Applied stash"@,
        StashOp::Pop => "Popped stash"@,
        StashOp::Drop => "Dropped stash"@,
    }
}

/// The entry under the cursor of the list of stashes.
pub open spec fn ref_at(stashes: Seq<StashEntry>, i: usize) -> Option<String> {
    if i < stashes.len() {
        Some(stashes[i as int].stash_ref)
    } else {
        None
    }
}

/// The message of a stash that was given none.
pub open spec fn stash_message(branch: Seq<char>) -> Seq<char> {
    "reef stash on "@ + (if branch.len() == 0 {
        "unknown"@
    } else {
        branch
    })
}

fn error_toast(what: &str, why: &str, fx: &mut Effects)
    ensures
        final(fx)@ == old(fx)@.push(
            Effect::Toast { level: ToastLevel::Error, text: what@ + why@ },
        ),
{
    let mut text = what.to_owned();
    text.append(why);
    fx.emit(Effect::Toast { level: ToastLevel::Error, text });
}

impl GitPane {
    pub open spec fn stash_ref(self) -> Option<String> {
        ref_at(self.git_status.stashes@, self.git_status.selected_stash_idx)
    }

    pub fn selected_stash_ref(&self) -> (r: Option<String>)
        ensures
            r == self.stash_ref(),
    {
        let i: usize = self.git_status.selected_stash_idx;
        if i < self.git_status.stashes.len() {
            Some(self.git_status.stashes[i].stash_ref.clone())
        } else {
            None
        }
    }

    pub fn default_stash_message(&self) -> (r: String)
        ensures
            r@ == stash_message(self.branch_name@),
    {
        let mut s = "reef stash on ".to_owned();
        if self.branch_name.as_str().is_empty() {
            s.append("unknown");
        } else {
            s.append(self.branch_name.as_str());
        }
        s
    }

    // ── The detail of the selected stash ─────────────────────────────────
    pub open spec fn with_stash_detail(self, detail: Option<StashDetail>) -> Self {
        GitPane {
            git_status: GitStatusState { stash_detail: detail, ..self.git_status },
            ..self
        }
    }

    /// The detail is on its way, or given up where there is nothing to show.
    pub open spec fn stash_asked(self, repo: Option<Seq<char>>) -> Self {
        GitPane {
            stash_detail_load: if self.stash_ref() is Some && repo is Some {
                self.stash_detail_load.begun()
            } else {
                self.stash_detail_load.dropped(false)
            },
            ..self.with_stash_detail(None)
        }
    }

    pub open spec fn stash_request(self, repo: Option<Seq<char>>) -> Seq<Effect<Seq<char>>> {
        match (self.stash_ref(), repo) {
            (Some(stash_ref), Some(repo)) => seq![
                Effect::LoadStashDetail {
                    generation: self.stash_detail_load.begun().generation,
                    repo,
                    stash_ref: stash_ref@,
                },
            ],
            _ => Seq::empty(),
        }
    }

    pub fn load_selected_stash_detail(&mut self, repo: &Option<String>, fx: &mut Effects)
        ensures
            *final(self) == old(self).stash_asked(opt_view(*repo)),
            final(fx)@ == old(fx)@ + old(self).stash_request(opt_view(*repo)),
    {
        let stash_ref = self.selected_stash_ref();
        self.git_status.stash_detail = None;
        match (stash_ref, repo) {
            (Some(stash_ref), Some(repo)) => {
                let generation: u64 = self.stash_detail_load.begin();
                fx.emit(Effect::LoadStashDetail { generation, repo: repo.clone(), stash_ref });
            },
            _ => {
                self.stash_detail_load.invalidate();
            },
        }
        assert(fx@ =~= old(fx)@ + old(self).stash_request(opt_view(*repo)));
    }

    /// What the detail of a stash changes.
    pub open spec fn stash_detail_applied(
        self,
        new: Self,
        generation: u64,
        result: Result<StashDetail, String>,
    ) -> bool {
        new == (if generation != self.stash_detail_load.generation {
            self
        } else {
            match result {
                Ok(d) => GitPane {
                    stash_detail_load: self.stash_detail_load.done(),
                    ..self.with_stash_detail(Some(d))
                },
                Err(e) => GitPane {
                    stash_detail_load: self.stash_detail_load.failed(e),
                    git_status: GitStatusState {
                        stash_error: Some(e),
                        ..self.git_status
                    },
                    ..self
                },
            }
        })
    }

    pub fn apply_stash_detail(&mut self, generation: u64, result: Result<StashDetail, String>)
        ensures
            old(self).stash_detail_applied(
                *final(self),
                generation,
                result,
            ),
    {
        match result {
            Ok(d) => {
                if self.stash_detail_load.complete_ok(generation) {
                    self.git_status.stash_detail = Some(d);
                }
            },
            Err(e) => {
                if self.stash_detail_load.complete_err(generation, e.clone()) {
                    self.git_status.stash_error = Some(e);
                }
            },
        }
    }

    // ── Asking ───────────────────────────────────────────────────────────
    pub open spec fn with_pending(self, action: Option<PendingStashAction>) -> Self {
        GitPane {
            git_status: GitStatusState { pending_stash_action: action, ..self.git_status },
            ..self
        }
    }

    /// A stash is made only after it was confirmed.
    pub fn prepare_stash_push(&mut self, options: StashPushOptions, label: &str)
        ensures
            final(self).git_status.pending_stash_action matches Some(
                PendingStashAction::Push { options: o, label: l },
            ) && o == options && l@ == label@,
            *final(self) == (GitPane {
                git_status: GitStatusState {
                    pending_stash_action: final(self).git_status.pending_stash_action,
                    stash_error: None,
                    ..old(self).git_status
                },
                ..*old(self)
            }),
    {
        self.git_status.pending_stash_action = Some(
            PendingStashAction::Push { options, label: label.to_owned() },
        );
        self.git_status.stash_error = None;
    }

    pub open spec fn tree_is_dirty(self) -> bool {
        self.lists.staged_files@.len() > 0 || self.lists.unstaged_files@.len() > 0
    }

    /// A stash is applied, or popped, at once on a clean tree, and only after
    /// a confirmation on a dirty one.
    pub fn prepare_stash_apply(
        &mut self,
        stash_ref: String,
        pop: bool,
        reinstate_index: bool,
        repo: &Option<String>,
    ) -> (r: Option<StashJob>)
        ensures
            ({
                let action = if pop {
                    PendingStashAction::Pop { stash_ref, reinstate_index }
                } else {
                    PendingStashAction::Apply { stash_ref, reinstate_index }
                };
                if old(self).tree_is_dirty() {
                    r is None && *final(self) == old(self).with_pending(Some(action))
                } else {
                    *final(self) == *old(self) && (match *repo {
                        Some(repo) => r == Some(StashJob { repo, action }),
                        None => r is None,
                    })
                }
            }),
    {
        let action = if pop {
            PendingStashAction::Pop { stash_ref, reinstate_index }
        } else {
            PendingStashAction::Apply { stash_ref, reinstate_index }
        };
        if self.lists.staged_files.len() > 0 || self.lists.unstaged_files.len() > 0 {
            self.git_status.pending_stash_action = Some(action);
            None
        } else {
            run_stash_action(action, repo)
        }
    }

    pub fn prepare_stash_drop(&mut self, stash_ref: String)
        ensures
            *final(self) == old(self).with_pending(Some(PendingStashAction::Drop { stash_ref })),
    {
        self.git_status.pending_stash_action = Some(PendingStashAction::Drop { stash_ref });
    }

    pub fn cancel_stash_action(&mut self)
        ensures
            *final(self) == old(self).with_pending(None),
    {
        self.git_status.pending_stash_action = None;
    }

    /// What waited is handed out, if there is a repository to run it in, and
    /// waits no longer.
    pub open spec fn confirmed(self, new: Self, repo: Option<String>, r: Option<StashJob>) -> bool {
        &&& new == self.with_pending(None)
        &&& match (self.git_status.pending_stash_action, repo) {
            (Some(action), Some(repo)) => r == Some(StashJob { repo, action }),
            _ => r is None,
        }
    }

    /// Runs what was waiting, once.
    pub fn confirm_stash_action(&mut self, repo: &Option<String>) -> (r: Option<StashJob>)
        ensures
            old(self).confirmed(*final(self), *repo, r),
    {
        match self.git_status.pending_stash_action.take() {
            Some(action) => run_stash_action(action, repo),
            None => None,
        }
    }

    // ── Answers ──────────────────────────────────────────────────────────
    /// The tree changed under the panel: no file is selected, and status and
    /// diff are out of date.
    pub open spec fn after_stash(self) -> Self {
        let s = self.unselected().with_stash_detail(None);
        GitPane {
            git_status_load: self.git_status_load.marked(),
            diff: crate::git_pane::DiffView { diff_load: self.diff.diff_load.marked(), ..s.diff },
            ..s
        }
    }

    fn refresh_after_stash_op(&mut self, graph_load: &mut AsyncState)
        ensures
            *final(self) == old(self).after_stash(),
            *final(graph_load) == old(graph_load).marked(),
    {
        self.unselect();
        self.git_status.stash_detail = None;
        self.git_status_load.mark_stale();
        self.diff.diff_load.mark_stale();
        graph_load.mark_stale();
    }

    pub open spec fn with_stash_error(self, e: Option<String>) -> Self {
        GitPane { git_status: GitStatusState { stash_error: e, ..self.git_status }, ..self }
    }

    /// A confirmed operation came back.
    pub fn stash_finished(
        &mut self,
        op: StashOp,
        result: Result<(), String>,
        graph_load: &mut AsyncState,
        fx: &mut Effects,
    )
        ensures
            match result {
                Ok(_) => {
                    &&& *final(self) == old(self).with_stash_error(None).after_stash()
                    &&& *final(graph_load) == old(graph_load).marked()
                    &&& final(fx)@ == old(fx)@.push(
                        Effect::Toast { level: ToastLevel::Info, text: done_text(op) },
                    )
                },
                Err(e) => {
                    &&& *final(self) == (GitPane {
                        git_status_load: old(self).git_status_load.marked(),
                        ..old(self).with_stash_error(Some(e))
                    })
                    &&& *final(graph_load) == *old(graph_load)
                    &&& final(fx)@ == old(fx)@.push(
                        Effect::Toast {
                            level: ToastLevel::Error,
                            text: "Stash operation failed: "@ + e@,
                        },
                    )
                },
            },
    {
        match result {
            Ok(_) => {
                self.git_status.stash_error = None;
                let label = match op {
                    StashOp::Push => "Stashed changes",
                    StashOp::Apply => "Applied stash",
                    StashOp::Pop => "Popped stash",
                    StashOp::Drop => "Dropped stash",
                };
                fx.emit(Effect::Toast { level: ToastLevel::Info, text: label.to_owned() });
                self.refresh_after_stash_op(graph_load);
            },
            Err(e) => {
                error_toast("Stash operation failed: ", e.as_str(), fx);
                self.git_status.stash_error = Some(e);
                self.git_status_load.mark_stale();
            },
        }
    }

    /// A stash that was made without asking came back.
    pub fn stash_current_done(
        &mut self,
        result: Result<(), String>,
        graph_load: &mut AsyncState,
        fx: &mut Effects,
    )
        ensures
            match result {
                Ok(_) => {
                    &&& *final(self) == old(self).with_stash_error(None).after_stash()
                    &&& *final(graph_load) == old(graph_load).marked()
                    &&& final(fx)@ == old(fx)@.push(
                        Effect::Toast { level: ToastLevel::Info, text: "Stashed changes"@ },
                    )
                },
                Err(e) => {
                    &&& *final(self) == old(self).with_stash_error(Some(e))
                    &&& *final(graph_load) == *old(graph_load)
                    &&& final(fx)@ == old(fx)@.push(
                        Effect::Toast {
                            level: ToastLevel::Error,
                            text: "Stash failed: "@ + e@,
                        },
                    )
                },
            },
    {
        match result {
            Ok(_) => {
                self.git_status.stash_error = None;
                fx.emit(
                    Effect::Toast { level: ToastLevel::Info, text: "Stashed changes".to_owned() },
                );
                self.refresh_after_stash_op(graph_load);
            },
            Err(e) => {
                error_toast("Stash failed: ", e.as_str(), fx);
                self.git_status.stash_error = Some(e);
            },
        }
    }

    /// Asks git to make a branch of the selected stash. A blank name asks for
    /// nothing.
    pub fn stash_branch_selected(&self, branch: &str, repo: &Option<String>, fx: &mut Effects)
        ensures
            final(fx)@ == old(fx)@ + (match (self.stash_ref(), *repo) {
                (Some(stash_ref), Some(repo)) => if trimmed(branch@).len() == 0 {
                    Seq::empty()
                } else {
                    seq![
                        Effect::StashBranch {
                            repo: repo@,
                            stash_ref: stash_ref@,
                            branch: trimmed(branch@),
                        },
                    ]
                },
                _ => Seq::empty(),
            }),
    {
        let branch = trim(branch);
        if !branch.as_str().is_empty() {
            if let (Some(stash_ref), Some(repo)) = (self.selected_stash_ref(), repo) {
                fx.emit(Effect::StashBranch { repo: repo.clone(), stash_ref, branch });
                return;
            }
        }
        assert(fx@ =~= old(fx)@ + Seq::<Effect<Seq<char>>>::empty());
    }

    pub fn stash_branch_done(
        &mut self,
        branch: &str,
        result: Result<(), String>,
        graph_load: &mut AsyncState,
        fx: &mut Effects,
    )
        ensures
            match result {
                Ok(_) => {
                    &&& *final(self) == old(self).after_stash()
                    &&& *final(graph_load) == old(graph_load).marked()
                    &&& final(fx)@ == old(fx)@.push(
                        Effect::Toast {
                            level: ToastLevel::Info,
                            text: "Created branch "@ + branch@ + " from stash"@,
                        },
                    )
                },
                Err(e) => {
                    &&& *final(self) == old(self).with_stash_error(Some(e))
                    &&& *final(graph_load) == *old(graph_load)
                    &&& final(fx)@ == old(fx)@.push(
                        Effect::Toast {
                            level: ToastLevel::Error,
                            text: "Stash branch failed: "@ + e@,
                        },
                    )
                },
            },
    {
        match result {
            Ok(_) => {
                let mut text = "Created branch ".to_owned();
                text.append(branch);
                text.append(" from stash");
                fx.emit(Effect::Toast { level: ToastLevel::Info, text });
                self.refresh_after_stash_op(graph_load);
            },
            Err(e) => {
                error_toast("Stash branch failed: ", e.as_str(), fx);
                self.git_status.stash_error = Some(e);
            },
        }
    }
}

/// The operation for the host, where there is a repository to run it on.
pub fn run_stash_action(action: PendingStashAction, repo: &Option<String>) -> (r: Option<StashJob>)
    ensures
        match *repo {
            Some(repo) => r == Some(StashJob { repo, action }),
            None => r is None,
        },
{
    match repo {
        Some(repo) => Some(StashJob { repo: repo.clone(), action }),
        None => None,
    }
}

/// A stash made without asking, where there is a repository to make it in.
pub fn stash_current_changes(options: StashPushOptions, repo: &Option<String>) -> (r: Option<
    (String, StashPushOptions),
>)
    ensures
        match *repo {
            Some(repo) => r == Some((repo, options)),
            None => r is None,
        },
{
    match repo {
        Some(repo) => Some((repo.clone(), options)),
        None => None,
    }
}

/// What waits for a confirmation is run exactly once: a second confirmation
/// runs nothing and changes nothing.
pub proof fn law_confirmed_once(
    s: GitPane,
    repo: String,
    action: PendingStashAction,
    t: GitPane,
    r1: Option<StashJob>,
    u: GitPane,
    r2: Option<StashJob>,
)
    requires
        s.git_status.pending_stash_action == Some(action),
        s.confirmed(t, Some(repo), r1),
        t.confirmed(u, Some(repo), r2),
    ensures
        r1 == Some(StashJob { repo, action }),
        r2 is None,
        u == t,
{
}

/// An operation on the stashes that succeeded leaves no file selected, no
/// error, and status and diff to be read again.
pub proof fn law_stash_success_invalidates(s: GitPane)
    ensures
        ({
            let t = s.with_stash_error(None).after_stash();
            &&& t.lists.selected_file is None
            &&& t.diff.diff_content is None
            &&& t.git_status.stash_error is None
            &&& t.git_status_load.stale
            &&& t.diff.diff_load.stale
        }),
{
}

} // verus!
