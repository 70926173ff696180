//! What the git tab does with a repository over several steps: committing,
//! pushing, pulling, switching and creating branches, and taking in a new
//! status.
use crate::effects::{Effect, Effects, Notice, Pref, ToastLevel};
use crate::file_tree::{redecorated, FileTree};
use crate::git::{FileEntry, StashEntry};
use crate::git_pane::{
    same_selection, selections_match, BranchCreateDialog, BranchCreateStep, DiffView, FileLists,
    GitPane, GitStatusState, PushOperation,
};
use crate::graph::{GitGraphState, GraphPane};
use crate::repo_catalog::RepoCatalogState;
use crate::text::{opt_view, same_opt, same_str, trim, trimmed, views};
use vstd::prelude::*;
use vstd::string::*;

verus! {

/// How a job that ran in the background ended.
#[derive(Debug)]
pub enum JobEnd {
    Done(Result<(), String>),
    /// Its thread went away without an answer.
    Crashed,
}

fn say(level: ToastLevel, notice: Notice<String>, fx: &mut Effects)
    ensures
        final(fx)@ == old(fx)@.push(Effect::Say { level, notice: notice@ }),
{
    fx.emit(Effect::Say { level, notice });
}

/// The history moved: the graph and the status are out of date.
pub open spec fn history_moved(g: GraphPane) -> GraphPane {
    GraphPane {
        git_graph: GitGraphState { cache_key: None, ..g.git_graph },
        graph_load: g.graph_load.marked(),
        ..g
    }
}

fn note_history_moved(g: &mut GraphPane)
    ensures
        *final(g) == history_moved(*old(g)),
{
    g.git_graph.cache_key = None;
    g.graph_load.mark_stale();
}

impl GitPane {
    pub open spec fn status_marked(self) -> Self {
        GitPane { git_status_load: self.git_status_load.marked(), ..self }
    }

    // ── Commit ───────────────────────────────────────────────────────────
    pub open spec fn with_commit_error(self, e: Option<String>) -> Self {
        GitPane { git_status: GitStatusState { commit_error: e, ..self.git_status }, ..self }
    }

    /// Whether a commit can be tried: none runs, there is a repository, and
    /// there is a message.
    pub open spec fn may_commit(self, repo: Option<Seq<char>>) -> bool {
        !self.commit_in_flight && repo is Some && trimmed(
            self.git_status.commit_message@,
        ).len() > 0
    }

    /// Commits what is staged. With nothing staged the panel says so, in the
    /// words of `nothing_staged`.
    pub fn run_commit(&mut self, nothing_staged: String, repo: &Option<String>, fx: &mut Effects)
        ensures
            if !old(self).may_commit(opt_view(*repo)) {
                *final(self) == *old(self) && final(fx)@ == old(fx)@
            } else if old(self).lists.staged_files@.len() == 0 {
                *final(self) == old(self).with_commit_error(Some(nothing_staged)) && final(fx)@
                    == old(fx)@
            } else {
                *final(self) == (GitPane { commit_in_flight: true, ..*old(self) }) && final(fx)@
                    == old(fx)@.push(
                    Effect::Commit {
                        repo: opt_view(*repo)->0,
                        message: trimmed(old(self).git_status.commit_message@),
                    },
                )
            },
    {
        if self.commit_in_flight {
            return;
        }
        let repo = match repo {
            Some(r) => r.clone(),
            None => {
                return;
            },
        };
        let message = trim(self.git_status.commit_message.as_str());
        if message.as_str().is_empty() {
            return;
        }
        if self.lists.staged_files.len() == 0 {
            self.git_status.commit_error = Some(nothing_staged);
            return;
        }
        self.commit_in_flight = true;
        fx.emit(Effect::Commit { repo, message });
    }

    /// The commit box empty and closed; `empty` is the empty text.
    pub open spec fn box_cleared(self, empty: String) -> Self {
        GitPane {
            git_status: GitStatusState {
                commit_error: None,
                commit_message: empty,
                commit_cursor: 0,
                commit_editing: false,
                ..self.git_status
            },
            commit_in_flight: false,
            ..self
        }
    }

    fn clear_box(&mut self)
        ensures
            *final(self) == old(self).box_cleared(final(self).git_status.commit_message),
            final(self).git_status.commit_message@.len() == 0,
    {
        self.commit_in_flight = false;
        self.git_status.commit_error = None;
        self.git_status.commit_message = String::new();
        self.git_status.commit_cursor = 0;
        self.git_status.commit_editing = false;
    }

    /// What the end of a commit changes; an end that nobody waits for changes nothing.
    pub open spec fn commit_ended(
        self,
        new: Self,
        end: JobEnd,
        graph: GraphPane,
        graph2: GraphPane,
        repo: Option<Seq<char>>,
        fx: Seq<Effect<Seq<char>>>,
        fx2: Seq<Effect<Seq<char>>>,
    ) -> bool {
        &&& !self.commit_in_flight ==> new == self && graph2 == graph && fx2 == fx
        &&& self.commit_in_flight ==> match end {
            JobEnd::Done(Ok(_)) => {
                let m = new.git_status.commit_message;
                let s = self.box_cleared(m);
                &&& m@.len() == 0
                &&& new == s.diff_asked(repo).status_marked()
                &&& graph2 == history_moved(graph)
                &&& fx2 == (fx + s.diff_request(repo)).push(
                    Effect::Say { level: ToastLevel::Info, notice: Notice::Committed },
                )
            },
            JobEnd::Done(Err(e)) => {
                &&& new == (GitPane {
                    commit_in_flight: false,
                    ..self.with_commit_error(Some(e))
                }).status_marked()
                &&& graph2 == history_moved(graph)
                &&& fx2 == fx.push(
                    Effect::Say {
                        level: ToastLevel::Error,
                        notice: Notice::CommitFailed { why: e@ },
                    },
                )
            },
            JobEnd::Crashed => {
                &&& new == (GitPane { commit_in_flight: false, ..self })
                &&& graph2 == graph
                &&& fx2 == fx.push(
                    Effect::Say { level: ToastLevel::Error, notice: Notice::CommitCrashed },
                )
            },
        }
    }

    /// A commit came back. Nothing comes back while none runs.
    pub fn commit_finished(
        &mut self,
        end: JobEnd,
        graph: &mut GraphPane,
        repo: &Option<String>,
        fx: &mut Effects,
    )
        ensures
            old(self).commit_ended(
                *final(self),
                end,
                *old(graph),
                *final(graph),
                opt_view(*repo),
                old(fx)@,
                final(fx)@,
            ),
    {
        if !self.commit_in_flight {
            return;
        }
        match end {
            JobEnd::Done(Ok(_)) => {
                self.clear_box();
                self.load_diff(repo, fx);
                say(ToastLevel::Info, Notice::Committed, fx);
                note_history_moved(graph);
                self.git_status_load.mark_stale();
            },
            JobEnd::Done(Err(e)) => {
                self.commit_in_flight = false;
                say(ToastLevel::Error, Notice::CommitFailed { why: e.clone() }, fx);
                self.git_status.commit_error = Some(e);
                note_history_moved(graph);
                self.git_status_load.mark_stale();
            },
            JobEnd::Crashed => {
                self.commit_in_flight = false;
                say(ToastLevel::Error, Notice::CommitCrashed, fx);
            },
        }
    }

    // ── Push and pull ────────────────────────────────────────────────────
    pub open spec fn pushing(self, kind: PushOperation) -> Self {
        GitPane { push_in_flight: true, push_in_flight_kind: kind, ..self }
    }

    /// One push at a time.
    pub fn run_push(&mut self, force: bool, repo: &Option<String>, fx: &mut Effects)
        ensures
            if old(self).push_in_flight || repo is None {
                *final(self) == *old(self) && final(fx)@ == old(fx)@
            } else {
                *final(self) == old(self).pushing(PushOperation::Push { force }) && final(fx)@
                    == old(fx)@.push(Effect::Push { repo: opt_view(*repo)->0, force })
            },
    {
        if self.push_in_flight {
            return;
        }
        if let Some(repo) = repo {
            self.push_in_flight = true;
            self.push_in_flight_kind = PushOperation::Push { force };
            fx.emit(Effect::Push { repo: repo.clone(), force });
        }
    }

    pub fn run_publish_branch(&mut self, repo: &Option<String>, fx: &mut Effects)
        ensures
            if old(self).push_in_flight || !old(self).offers_publish() || repo is None {
                *final(self) == *old(self) && final(fx)@ == old(fx)@
            } else {
                *final(self) == old(self).pushing(PushOperation::PublishBranch) && final(fx)@
                    == old(fx)@.push(Effect::PublishBranch { repo: opt_view(*repo)->0 })
            },
    {
        if self.push_in_flight || !self.should_offer_publish_branch() {
            return;
        }
        if let Some(repo) = repo {
            self.push_in_flight = true;
            self.push_in_flight_kind = PushOperation::PublishBranch;
            fx.emit(Effect::PublishBranch { repo: repo.clone() });
        }
    }

    pub open spec fn with_push_error(self, kind: PushOperation, e: Option<String>) -> Self {
        GitPane {
            git_status: GitStatusState {
                push_error: e,
                push_error_kind: if e is Some {
                    kind
                } else {
                    self.git_status.push_error_kind
                },
                ..self.git_status
            },
            push_in_flight: false,
            ..self
        }
    }

    fn take_push(&mut self, kind: PushOperation, e: Option<String>)
        ensures
            *final(self) == old(self).with_push_error(kind, e).status_marked(),
    {
        self.push_in_flight = false;
        if e.is_some() {
            self.git_status.push_error_kind = kind;
        }
        self.git_status.push_error = e;
        self.git_status_load.mark_stale();
    }

    /// What the end of a push changes; an end that nobody waits for changes nothing.
    pub open spec fn push_ended(
        self,
        new: Self,
        operation: PushOperation,
        end: JobEnd,
        graph: GraphPane,
        graph2: GraphPane,
        fx: Seq<Effect<Seq<char>>>,
        fx2: Seq<Effect<Seq<char>>>,
    ) -> bool {
        &&& !self.push_in_flight ==> new == self && graph2 == graph && fx2 == fx
        &&& self.push_in_flight ==> match end {
            JobEnd::Done(Ok(_)) => {
                &&& new == self.with_push_error(operation, None).status_marked()
                &&& graph2 == history_moved(graph)
                &&& fx2 == fx.push(
                    Effect::Say {
                        level: ToastLevel::Info,
                        notice: match operation {
                            PushOperation::Push { force } => Notice::Pushed { force },
                            PushOperation::PublishBranch => Notice::BranchPublished,
                        },
                    },
                )
            },
            JobEnd::Done(Err(e)) => {
                &&& new == self.with_push_error(operation, Some(
                    e,
                )).status_marked()
                &&& graph2 == history_moved(graph)
                &&& fx2 == fx.push(
                    Effect::Say {
                        level: ToastLevel::Error,
                        notice: match operation {
                            PushOperation::Push { .. } => Notice::PushFailed { why: e@ },
                            PushOperation::PublishBranch => Notice::PublishFailed { why: e@ },
                        },
                    },
                )
            },
            JobEnd::Crashed => {
                &&& new == (GitPane { push_in_flight: false, ..self })
                &&& graph2 == graph
                &&& fx2 == fx.push(
                    Effect::Say { level: ToastLevel::Error, notice: Notice::PushCrashed },
                )
            },
        }
    }

    /// A push or a publication came back.
    pub fn push_finished(
        &mut self,
        operation: PushOperation,
        end: JobEnd,
        graph: &mut GraphPane,
        fx: &mut Effects,
    )
        ensures
            old(self).push_ended(
                *final(self),
                operation,
                end,
                *old(graph),
                *final(graph),
                old(fx)@,
                final(fx)@,
            ),
    {
        if !self.push_in_flight {
            return;
        }
        match end {
            JobEnd::Done(Ok(_)) => {
                self.take_push(operation, None);
                let notice = match operation {
                    PushOperation::Push { force } => Notice::Pushed { force },
                    PushOperation::PublishBranch => Notice::BranchPublished,
                };
                say(ToastLevel::Info, notice, fx);
                note_history_moved(graph);
            },
            JobEnd::Done(Err(e)) => {
                let notice = match operation {
                    PushOperation::Push { .. } => Notice::PushFailed { why: e.clone() },
                    PushOperation::PublishBranch => Notice::PublishFailed { why: e.clone() },
                };
                self.take_push(operation, Some(e));
                say(ToastLevel::Error, notice, fx);
                note_history_moved(graph);
            },
            JobEnd::Crashed => {
                self.push_in_flight = false;
                say(ToastLevel::Error, Notice::PushCrashed, fx);
            },
        }
    }

    /// One pull at a time.
    pub fn run_pull(&mut self, repo: &Option<String>, fx: &mut Effects)
        ensures
            if old(self).pull_in_flight || repo is None {
                *final(self) == *old(self) && final(fx)@ == old(fx)@
            } else {
                *final(self) == (GitPane { pull_in_flight: true, ..*old(self) }) && final(fx)@
                    == old(fx)@.push(Effect::Pull { repo: opt_view(*repo)->0 })
            },
    {
        if self.pull_in_flight {
            return;
        }
        if let Some(repo) = repo {
            self.pull_in_flight = true;
            fx.emit(Effect::Pull { repo: repo.clone() });
        }
    }

    /// A pull came back: the tree may have changed under the panel, so no
    /// file stays selected.
    pub open spec fn pulled(self, e: Option<String>) -> Self {
        let s = GitPane {
            git_status: GitStatusState { pull_error: e, ..self.git_status },
            pull_in_flight: false,
            ..self
        }.unselected();
        GitPane {
            diff: DiffView { diff_load: self.diff.diff_load.marked(), ..s.diff },
            ..s.status_marked()
        }
    }

    fn take_pull(&mut self, e: Option<String>)
        ensures
            *final(self) == old(self).pulled(e),
    {
        self.pull_in_flight = false;
        self.git_status.pull_error = e;
        self.unselect();
        self.git_status_load.mark_stale();
        self.diff.diff_load.mark_stale();
    }

    /// What the end of a pull changes; an end that nobody waits for changes nothing.
    pub open spec fn pull_ended(
        self,
        new: Self,
        end: JobEnd,
        graph: GraphPane,
        graph2: GraphPane,
        fx: Seq<Effect<Seq<char>>>,
        fx2: Seq<Effect<Seq<char>>>,
    ) -> bool {
        &&& !self.pull_in_flight ==> new == self && graph2 == graph && fx2 == fx
        &&& self.pull_in_flight ==> match end {
            JobEnd::Done(Ok(_)) => {
                &&& new == self.pulled(None)
                &&& graph2 == history_moved(graph)
                &&& fx2 == fx.push(
                    Effect::Say { level: ToastLevel::Info, notice: Notice::Pulled },
                )
            },
            JobEnd::Done(Err(e)) => {
                &&& new == self.pulled(Some(e))
                &&& graph2 == history_moved(graph)
                &&& fx2 == fx.push(
                    Effect::Say {
                        level: ToastLevel::Error,
                        notice: Notice::PullFailed { why: e@ },
                    },
                )
            },
            JobEnd::Crashed => {
                &&& new == (GitPane { pull_in_flight: false, ..self })
                &&& graph2 == graph
                &&& fx2 == fx.push(
                    Effect::Say { level: ToastLevel::Error, notice: Notice::PullCrashed },
                )
            },
        }
    }

    /// A pull came back.
    pub fn pull_finished(
        &mut self,
        end: JobEnd,
        graph: &mut GraphPane,
        fx: &mut Effects,
    )
        ensures
            old(self).pull_ended(
                *final(self),
                end,
                *old(graph),
                *final(graph),
                old(fx)@,
                final(fx)@,
            ),
    {
        if !self.pull_in_flight {
            return;
        }
        match end {
            JobEnd::Done(Ok(_)) => {
                self.take_pull(None);
                say(ToastLevel::Info, Notice::Pulled, fx);
                note_history_moved(graph);
            },
            JobEnd::Done(Err(e)) => {
                say(ToastLevel::Error, Notice::PullFailed { why: e.clone() }, fx);
                self.take_pull(Some(e));
                note_history_moved(graph);
            },
            JobEnd::Crashed => {
                self.pull_in_flight = false;
                say(ToastLevel::Error, Notice::PullCrashed, fx);
            },
        }
    }

    // ── Branches ─────────────────────────────────────────────────────────
    /// The branch to switch to, unless the name is blank or the current one.
    pub open spec fn switch_to(self, branch: Seq<char>, repo: Option<Seq<char>>) -> Seq<
        Effect<Seq<char>>,
    > {
        let name = trimmed(branch);
        match repo {
            Some(repo) => if name.len() == 0 || name == self.branch_name@ {
                Seq::empty()
            } else {
                seq![Effect::Checkout { repo, branch: name }]
            },
            None => Seq::empty(),
        }
    }

    pub fn checkout_branch(&self, branch: &str, repo: &Option<String>, fx: &mut Effects)
        ensures
            final(fx)@ == old(fx)@ + self.switch_to(branch@, opt_view(*repo)),
    {
        let name = trim(branch);
        if !name.as_str().is_empty() && !same_str(name.as_str(), self.branch_name.as_str()) {
            if let Some(repo) = repo {
                fx.emit(Effect::Checkout { repo: repo.clone(), branch: name });
            }
        }
        assert(fx@ =~= old(fx)@ + self.switch_to(branch@, opt_view(*repo)));
    }

    /// Another branch is checked out: no file is selected, nothing waits to be
    /// discarded, and the status is read again.
    pub open spec fn on_other_branch(self, repo: Option<Seq<char>>) -> Self {
        let s = self.unselected();
        GitPane {
            git_status: GitStatusState { confirm_discard: None, ..s.git_status },
            ..s
        }.status_asked(repo)
    }

    fn leave_branch(&mut self, graph: &mut GraphPane, repo: &Option<String>, fx: &mut Effects)
        ensures
            *final(self) == old(self).on_other_branch(opt_view(*repo)),
            graph_emptied(*old(graph), *final(graph)),
            final(fx)@ == old(fx)@ + old(self).status_request(opt_view(*repo)),
    {
        self.unselect();
        self.git_status.confirm_discard = None;
        graph.clear_graph_snapshot();
        self.refresh_status(repo, fx);
        graph.graph_load.invalidate_stale();
    }

    pub fn checkout_done(
        &mut self,
        result: Result<(), String>,
        graph: &mut GraphPane,
        repo: &Option<String>,
        fx: &mut Effects,
    )
        ensures
            match result {
                Ok(_) => {
                    &&& *final(self) == old(self).on_other_branch(opt_view(*repo))
                    &&& graph_emptied(*old(graph), *final(graph))
                    &&& final(fx)@ == old(fx)@ + old(self).status_request(opt_view(*repo))
                },
                Err(e) => {
                    &&& *final(self) == *old(self)
                    &&& *final(graph) == *old(graph)
                    &&& final(fx)@ == old(fx)@.push(
                        Effect::Toast {
                            level: ToastLevel::Error,
                            text: "Checkout failed: "@ + e@,
                        },
                    )
                },
            },
    {
        match result {
            Ok(_) => {
                self.leave_branch(graph, repo, fx);
            },
            Err(e) => {
                let mut text = "Checkout failed: ".to_owned();
                text.append(e.as_str());
                fx.emit(Effect::Toast { level: ToastLevel::Error, text });
            },
        }
    }

    /// The bases a new branch can start from: the current branch first, then
    /// the others, each once.
    pub open spec fn bases(self) -> Seq<Seq<char>> {
        let first = if self.branch_name@.len() > 0 && self.branch_name@ != "(detached)"@ {
            seq![self.branch_name@]
        } else {
            Seq::empty()
        };
        with_new(first, views(self.git_status.branches@))
    }

    pub fn branch_create_base_choices(&self) -> (r: Vec<String>)
        ensures
            views(r@) == self.bases(),
    {
        let mut choices: Vec<String> = Vec::new();
        let ghost all = views(self.git_status.branches@);
        let ghost start = views(choices@);
        if !self.branch_name.as_str().is_empty() && !same_str(
            self.branch_name.as_str(),
            "(detached)",
        ) {
            choices.push(self.branch_name.clone());
        }
        let ghost first = views(choices@);
        assert(first =~= (if self.branch_name@.len() > 0 && self.branch_name@ != "(detached)"@ {
            seq![self.branch_name@]
        } else {
            Seq::<Seq<char>>::empty()
        }));
        let mut i: usize = 0;
        assert(all.take(0) =~= Seq::<Seq<char>>::empty());
        while i < self.git_status.branches.len()
            invariant
                i <= self.git_status.branches@.len(),
                all == views(self.git_status.branches@),
                views(choices@) == with_new(first, all.take(i as int)),
            decreases self.git_status.branches@.len() - i,
        {
            assert(all.take(i + 1).drop_last() =~= all.take(i as int));
            let b = self.git_status.branches[i].clone();
            if !has_text(&choices, b.as_str()) {
                let ghost before = choices@;
                choices.push(b);
                assert(views(choices@) =~= views(before).push(b@));
            }
            i = i + 1;
        }
        assert(all.take(all.len() as int) =~= all);
        choices
    }

    pub open spec fn with_dialog(self, d: Option<BranchCreateDialog>) -> Self {
        GitPane {
            git_status: GitStatusState { branch_create_dialog: d, ..self.git_status },
            ..self
        }
    }

    pub fn open_branch_create_dialog(&mut self)
        ensures
            final(self).git_status.branch_create_dialog matches Some(d) && d.is_first(),
            *final(self) == (GitPane {
                git_status: GitStatusState {
                    branch_dropdown_open: false,
                    branch_create_dialog: final(self).git_status.branch_create_dialog,
                    ..old(self).git_status
                },
                ..*old(self)
            }),
    {
        self.git_status.branch_dropdown_open = false;
        self.git_status.branch_create_dialog = Some(BranchCreateDialog::choose_mode());
    }

    pub fn cancel_branch_create_dialog(&mut self)
        ensures
            *final(self) == old(self).with_dialog(None),
    {
        self.git_status.branch_create_dialog = None;
    }

    /// The dialog asks for the name of a branch from `base`.
    fn ask_name(&mut self, base: Option<String>)
        ensures
            *final(self) == old(self).with_dialog(final(self).git_status.branch_create_dialog),
            match old(self).git_status.branch_create_dialog {
                Some(d) => final(self).git_status.branch_create_dialog matches Some(e) && e.step
                    == (BranchCreateStep::EnterName { base }) && e.input@.len() == 0 && e
                    == (BranchCreateDialog {
                    step: e.step,
                    input: e.input,
                    cursor: 0,
                    error: None,
                    ..d
                }),
                None => final(self).git_status.branch_create_dialog is None,
            },
    {
        if let Some(d) = self.git_status.branch_create_dialog.take() {
            self.git_status.branch_create_dialog = Some(
                BranchCreateDialog {
                    step: BranchCreateStep::EnterName { base },
                    input: String::new(),
                    cursor: 0,
                    selected_base_idx: d.selected_base_idx,
                    error: None,
                },
            );
        }
    }

    pub fn start_branch_create_from_current(&mut self)
        ensures
            *final(self) == old(self).with_dialog(final(self).git_status.branch_create_dialog),
            match old(self).git_status.branch_create_dialog {
                Some(d) => final(self).git_status.branch_create_dialog matches Some(e) && e.step
                    == (BranchCreateStep::EnterName { base: None }) && e.input@.len() == 0 && e
                    == (BranchCreateDialog {
                    step: e.step,
                    input: e.input,
                    cursor: 0,
                    error: None,
                    ..d
                }),
                None => final(self).git_status.branch_create_dialog is None,
            },
    {
        self.ask_name(None);
    }

    pub fn start_branch_create_choose_base(&mut self)
        ensures
            *final(self) == old(self).with_dialog(
                match old(self).git_status.branch_create_dialog {
                    Some(d) => Some(
                        BranchCreateDialog {
                            step: BranchCreateStep::ChooseBase,
                            selected_base_idx: 0,
                            error: None,
                            ..d
                        },
                    ),
                    None => None,
                },
            ),
    {
        if let Some(d) = self.git_status.branch_create_dialog.take() {
            self.git_status.branch_create_dialog = Some(
                BranchCreateDialog {
                    step: BranchCreateStep::ChooseBase,
                    input: d.input,
                    cursor: d.cursor,
                    selected_base_idx: 0,
                    error: None,
                },
            );
        }
    }

    /// Takes the base in a row of the choices; a row past them is ignored.
    pub fn select_branch_create_base(&mut self, idx: usize)
        ensures
            *final(self) == old(self).with_dialog(final(self).git_status.branch_create_dialog),
            match old(self).git_status.branch_create_dialog {
                Some(d) => if idx < old(self).bases().len() {
                    final(self).git_status.branch_create_dialog matches Some(e) && (e.step matches BranchCreateStep::EnterName {
                        base: Some(b),
                    } && b@ == old(self).bases()[idx as int]) && e.input@.len() == 0 && e
                        == (BranchCreateDialog {
                        step: e.step,
                        input: e.input,
                        cursor: 0,
                        error: None,
                        ..d
                    })
                } else {
                    final(self).git_status.branch_create_dialog == Some(d)
                },
                None => final(self).git_status.branch_create_dialog is None,
            },
    {
        let choices = self.branch_create_base_choices();
        if idx < choices.len() {
            assert(choices@[idx as int]@ == views(choices@)[idx as int]);
            self.ask_name(Some(choices[idx].clone()));
        }
    }

    /// What submitting the dialog asks of git: a branch of the trimmed name,
    /// once the dialog is at that question.
    pub open spec fn creation(self, repo: Option<Seq<char>>) -> Seq<Effect<Seq<char>>> {
        match (self.git_status.branch_create_dialog, repo) {
            (Some(d), Some(repo)) => match d.step {
                BranchCreateStep::EnterName { base } => if trimmed(d.input@).len() > 0 {
                    seq![
                        Effect::CreateBranch {
                            repo,
                            branch: trimmed(d.input@),
                            base: opt_view(base),
                        },
                    ]
                } else {
                    Seq::empty()
                },
                _ => Seq::empty(),
            },
            _ => Seq::empty(),
        }
    }

    /// Submits the dialog. A blank name is refused in the words of
    /// `empty_name`.
    pub fn submit_branch_create_dialog(
        &mut self,
        empty_name: String,
        repo: &Option<String>,
        fx: &mut Effects,
    )
        ensures
            *final(self) == old(self).with_dialog(
                match old(self).git_status.branch_create_dialog {
                    Some(d) => if trimmed(d.input@).len() == 0 {
                        Some(BranchCreateDialog { error: Some(empty_name), ..d })
                    } else {
                        Some(d)
                    },
                    None => None,
                },
            ),
            final(fx)@ == old(fx)@ + old(self).creation(opt_view(*repo)),
    {
        match &self.git_status.branch_create_dialog {
            Some(d) => {
                let branch = trim(d.input.as_str());
                if branch.as_str().is_empty() {
                    assert(fx@ =~= old(fx)@ + old(self).creation(opt_view(*repo)));
                    self.set_dialog_error(empty_name);
                    return;
                }
                if let (BranchCreateStep::EnterName { base }, Some(repo)) = (&d.step, repo) {
                    fx.emit(
                        Effect::CreateBranch { repo: repo.clone(), branch, base: base.clone() },
                    );
                }
            },
            None => {},
        }
        assert(fx@ =~= old(fx)@ + old(self).creation(opt_view(*repo)));
    }

    fn set_dialog_error(&mut self, e: String)
        ensures
            *final(self) == old(self).with_dialog(
                match old(self).git_status.branch_create_dialog {
                    Some(d) => Some(BranchCreateDialog { error: Some(e), ..d }),
                    None => None,
                },
            ),
    {
        if let Some(d) = self.git_status.branch_create_dialog.take() {
            self.git_status.branch_create_dialog = Some(
                BranchCreateDialog {
                    step: d.step,
                    input: d.input,
                    cursor: d.cursor,
                    selected_base_idx: d.selected_base_idx,
                    error: Some(e),
                },
            );
        }
    }

    /// Git answered: the branch is there and checked out, or the dialog says
    /// why not, in the words of the error.
    pub fn branch_created(
        &mut self,
        branch: String,
        result: Result<(), String>,
        graph: &mut GraphPane,
        repo: &Option<String>,
        fx: &mut Effects,
    )
        ensures
            match result {
                Ok(_) => {
                    let s = old(self).with_dialog(None);
                    &&& *final(self) == s.on_other_branch(opt_view(*repo))
                    &&& graph_emptied(*old(graph), *final(graph))
                    &&& final(fx)@ == (old(fx)@ + s.status_request(opt_view(*repo))).push(
                        Effect::Say {
                            level: ToastLevel::Info,
                            notice: Notice::BranchCreated { branch: branch@ },
                        },
                    )
                },
                Err(e) => {
                    &&& *final(self) == old(self).with_dialog(
                        match old(self).git_status.branch_create_dialog {
                            Some(d) => Some(BranchCreateDialog { error: Some(e), ..d }),
                            None => None,
                        },
                    )
                    &&& *final(graph) == *old(graph)
                    &&& final(fx)@ == old(fx)@
                },
            },
    {
        match result {
            Ok(_) => {
                self.git_status.branch_create_dialog = None;
                self.leave_branch(graph, repo, fx);
                say(ToastLevel::Info, Notice::BranchCreated { branch }, fx);
            },
            Err(e) => {
                self.set_dialog_error(e);
            },
        }
    }
}

/// The graph shows nothing and is due to be read again.
pub open spec fn graph_emptied(old: GraphPane, new: GraphPane) -> bool {
    &&& new.git_graph.rows@.len() == 0
    &&& new.git_graph.ref_map@.len() == 0
    &&& new == (GraphPane {
        graph_load: old.graph_load.dropped(true),
        ..old.emptied(new.git_graph.rows, new.git_graph.ref_map)
    })
}

pub open spec fn occurs(list: Seq<Seq<char>>, s: Seq<char>) -> bool {
    exists|i: int| 0 <= i < list.len() && #[trigger] list[i] == s
}

fn has_text(list: &Vec<String>, s: &str) -> (r: bool)
    ensures
        r == occurs(views(list@), s@),
{
    let ghost all = views(list@);
    let mut i: usize = 0;
    while i < list.len()
        invariant
            i <= list@.len(),
            all == views(list@),
            forall|j: int| 0 <= j < i ==> #[trigger] all[j] != s@,
        decreases list@.len() - i,
    {
        assert(all[i as int] == list@[i as int]@);
        if same_str(list[i].as_str(), s) {
            return true;
        }
        i = i + 1;
    }
    false
}

/// `start`, then the items that are not there yet, in their order.
pub open spec fn with_new(start: Seq<Seq<char>>, items: Seq<Seq<char>>) -> Seq<Seq<char>>
    decreases items.len(),
{
    if items.len() == 0 {
        start
    } else {
        let rest = with_new(start, items.drop_last());
        if occurs(rest, items.last()) {
            rest
        } else {
            rest.push(items.last())
        }
    }
}

// ── A new status ─────────────────────────────────────────────────────────

/// What a look at the repository brought.
#[derive(Debug)]
pub struct StatusPayload {
    pub staged: Vec<FileEntry>,
    pub unstaged: Vec<FileEntry>,
    pub ahead_behind: Option<(usize, usize)>,
    pub branches: Vec<String>,
    pub stashes: Vec<StashEntry>,
    pub branch_name: String,
}

pub open spec fn same_entry(a: StashEntry, b: StashEntry) -> bool {
    &&& a.index == b.index
    &&& a.stash_ref@ == b.stash_ref@
    &&& a.message@ == b.message@
    &&& a.created@ == b.created@
    &&& a.branch@ == b.branch@
    &&& a.files_changed == b.files_changed
    &&& a.insertions == b.insertions
    &&& a.deletions == b.deletions
    &&& a.includes_untracked == b.includes_untracked
}

fn entries_match(a: &StashEntry, b: &StashEntry) -> (r: bool)
    ensures
        r == same_entry(*a, *b),
{
    a.index == b.index && same_str(a.stash_ref.as_str(), b.stash_ref.as_str()) && same_str(
        a.message.as_str(),
        b.message.as_str(),
    ) && same_str(a.created.as_str(), b.created.as_str()) && same_str(
        a.branch.as_str(),
        b.branch.as_str(),
    ) && a.files_changed == b.files_changed && a.insertions == b.insertions && a.deletions
        == b.deletions && a.includes_untracked == b.includes_untracked
}

pub open spec fn same_stashes(a: Seq<StashEntry>, b: Seq<StashEntry>) -> bool {
    a.len() == b.len() && forall|i: int| 0 <= i < a.len() ==> same_entry(#[trigger] a[i], b[i])
}

fn stashes_match(a: &Vec<StashEntry>, b: &Vec<StashEntry>) -> (r: bool)
    ensures
        r == same_stashes(a@, b@),
{
    if a.len() != b.len() {
        return false;
    }
    let mut i: usize = 0;
    while i < a.len()
        invariant
            i <= a@.len() == b@.len(),
            forall|j: int| 0 <= j < i ==> same_entry(#[trigger] a@[j], b@[j]),
        decreases a@.len() - i,
    {
        if !entries_match(&a[i], &b[i]) {
            assert(!same_entry(a@[i as int], b@[i as int]));
            return false;
        }
        i = i + 1;
    }
    true
}

impl GitPane {
    /// The status that was asked for has come.
    pub open spec fn status_done(self) -> Self {
        GitPane { git_status_load: self.git_status_load.done(), ..self }
    }

    /// The state after a status was taken in, before anything is loaded. A
    /// cursor past the stashes goes to the first one.
    pub open spec fn status_taken(self, p: StatusPayload) -> Self {
        let lists = FileLists {
            staged_files: p.staged,
            unstaged_files: p.unstaged,
            ..self.lists
        }.settled();
        GitPane {
            lists,
            diff: if self.lists.selected_file is Some && lists.selected_file is None {
                DiffView { diff_content: None, ..self.diff }
            } else {
                self.diff
            },
            git_status: GitStatusState {
                ahead_behind: p.ahead_behind,
                branches: p.branches,
                stashes: p.stashes,
                selected_stash_idx: if self.git_status.selected_stash_idx >= p.stashes@.len() {
                    0
                } else {
                    self.git_status.selected_stash_idx
                },
                ..self.git_status
            },
            branch_name: p.branch_name,
            ..self
        }
    }

    /// The stashes changed in any way since `before`, or others are under the
    /// cursor.
    pub open spec fn stashes_moved(self, before: GitPane) -> bool {
        !same_stashes(self.git_status.stashes@, before.git_status.stashes@) || opt_view(
            self.stash_ref(),
        ) != opt_view(before.stash_ref())
    }

    /// The detail of a stash is to be loaded.
    pub open spec fn wants_stash(self, before: GitPane) -> bool {
        self.git_status.stashes@.len() > 0 && (self.stashes_moved(before) || (
        self.git_status.stash_detail is None && !self.stash_detail_load.loading))
    }

    /// There is no stash left whose detail could be shown or loaded.
    pub open spec fn drops_stash(self, before: GitPane) -> bool {
        self.git_status.stashes@.len() == 0 && (!same_stashes(
            self.git_status.stashes@,
            before.git_status.stashes@,
        ) || self.git_status.stash_detail is Some || self.stash_detail_load.loading)
    }

    /// After a new status: the diff is loaded where the selection changed,
    /// and the detail of the stash under the cursor where that changed.
    pub open spec fn status_followed(self, before: GitPane, repo: Option<Seq<char>>) -> Self {
        let s = if same_selection(before.lists.selected_file, self.lists.selected_file) {
            self
        } else {
            self.diff_asked(repo)
        };
        if self.wants_stash(before) {
            s.stash_asked(repo)
        } else if self.drops_stash(before) {
            s.stash_given_up()
        } else {
            s
        }
    }

    /// No detail of a stash is shown or on its way.
    pub open spec fn stash_given_up(self) -> Self {
        GitPane {
            stash_detail_load: self.stash_detail_load.dropped(false),
            ..self.with_stash_detail(None)
        }
    }

    pub open spec fn status_requests(self, before: GitPane, repo: Option<Seq<char>>) -> Seq<
        Effect<Seq<char>>,
    > {
        (if same_selection(before.lists.selected_file, self.lists.selected_file) {
            Seq::empty()
        } else {
            self.diff_request(repo)
        }) + (if self.wants_stash(before) {
            self.stash_request(repo)
        } else {
            Seq::empty()
        })
    }

    fn take_status(&mut self, payload: StatusPayload) -> (r: (bool, bool, bool))
        ensures
            *final(self) == old(self).status_taken(payload),
            r.0 == same_selection(old(self).lists.selected_file, final(self).lists.selected_file),
            r.1 == same_stashes(final(self).git_status.stashes@, old(self).git_status.stashes@),
            r.2 == (opt_view(final(self).stash_ref()) == opt_view(old(self).stash_ref())),
    {
        let previous_ref = self.selected_stash_ref();
        let before = self.lists.selected_file.clone();
        let same = stashes_match(&payload.stashes, &self.git_status.stashes);
        self.take_lists(payload.staged, payload.unstaged);
        self.git_status.ahead_behind = payload.ahead_behind;
        self.git_status.branches = payload.branches;
        self.git_status.stashes = payload.stashes;
        if self.git_status.selected_stash_idx >= self.git_status.stashes.len() {
            self.git_status.selected_stash_idx = 0;
        }
        self.branch_name = payload.branch_name;
        let new_ref = self.selected_stash_ref();
        (
            selections_match(&before, &self.lists.selected_file),
            same,
            same_opt(&new_ref, &previous_ref),
        )
    }

    fn take_lists(&mut self, staged: Vec<FileEntry>, unstaged: Vec<FileEntry>)
        ensures
            *final(self) == ({
                let lists = FileLists {
                    staged_files: staged,
                    unstaged_files: unstaged,
                    ..old(self).lists
                }.settled();
                GitPane {
                    lists,
                    diff: if old(self).lists.selected_file is Some && lists.selected_file is None {
                        DiffView { diff_content: None, ..old(self).diff }
                    } else {
                        old(self).diff
                    },
                    ..*old(self)
                }
            }),
    {
        let had = self.lists.selected_file.is_some();
        self.lists.staged_files = staged;
        self.lists.unstaged_files = unstaged;
        self.lists.settle();
        if had && self.lists.selected_file.is_none() {
            self.diff.diff_content = None;
        }
    }

    /// What a status changes, here and in the tree.
    pub open spec fn status_applied(
        self,
        new: Self,
        generation: u64,
        result: Result<StatusPayload, String>,
        tree: FileTree,
        tree2: FileTree,
        repo: Option<Seq<char>>,
        fx: Seq<Effect<Seq<char>>>,
        fx2: Seq<Effect<Seq<char>>>,
    ) -> bool {
        &&& generation != self.git_status_load.generation ==> new == self
            && tree2 == tree && fx2 == fx
        &&& generation == self.git_status_load.generation ==> match result {
            Ok(p) => {
                let before = self.status_done();
                let s = before.status_taken(p);
                &&& new == s.status_followed(before, repo)
                &&& redecorated(tree, tree2, p.staged@, p.unstaged@)
                &&& fx2 == fx + s.status_requests(before, repo)
            },
            Err(e) => {
                &&& new == (GitPane {
                    git_status_load: self.git_status_load.failed(e),
                    ..self
                })
                &&& tree2 == tree
                &&& fx2 == fx
            },
        }
    }

    /// Takes in a status, if it is the latest one asked for, and has the tree
    /// show it.
    pub fn apply_git_status(
        &mut self,
        generation: u64,
        result: Result<StatusPayload, String>,
        tree: &mut FileTree,
        repo: &Option<String>,
        fx: &mut Effects,
    )
        requires
            old(tree).wf(),
        ensures
            old(self).status_applied(
                *final(self),
                generation,
                result,
                *old(tree),
                *final(tree),
                opt_view(*repo),
                old(fx)@,
                final(fx)@,
            ),
    {
        match result {
            Err(e) => {
                let _ = self.git_status_load.complete_err(generation, e);
            },
            Ok(payload) => {
                if self.git_status_load.complete_ok(generation) {
                    self.take_in(payload, tree, repo, fx);
                }
            },
        }
    }

    fn take_in(
        &mut self,
        payload: StatusPayload,
        tree: &mut FileTree,
        repo: &Option<String>,
        fx: &mut Effects,
    )
        requires
            old(tree).wf(),
        ensures
            ({
                let s = old(self).status_taken(payload);
                &&& *final(self) == s.status_followed(*old(self), opt_view(*repo))
                &&& redecorated(*old(tree), *final(tree), payload.staged@, payload.unstaged@)
                &&& final(fx)@ == old(fx)@ + s.status_requests(*old(self), opt_view(*repo))
            }),
    {
        let ghost before = *self;
        let (same_sel, same_stash, same_ref) = self.take_status(payload);
        tree.refresh_git_statuses(
            self.lists.staged_files.as_slice(),
            self.lists.unstaged_files.as_slice(),
        );
        self.follow_status(Ghost(before), same_sel, same_stash, same_ref, repo, fx);
    }

    fn follow_status(
        &mut self,
        Ghost(before): Ghost<GitPane>,
        same_sel: bool,
        same_stash: bool,
        same_ref: bool,
        repo: &Option<String>,
        fx: &mut Effects,
    )
        requires
            same_sel == same_selection(before.lists.selected_file, old(self).lists.selected_file),
            same_stash == same_stashes(
                old(self).git_status.stashes@,
                before.git_status.stashes@,
            ),
            same_ref == (opt_view(old(self).stash_ref()) == opt_view(before.stash_ref())),
        ensures
            *final(self) == old(self).status_followed(before, opt_view(*repo)),
            final(fx)@ == old(fx)@ + old(self).status_requests(before, opt_view(*repo)),
    {
        let wants = self.git_status.stashes.len() > 0 && (!same_stash || !same_ref || (
        self.git_status.stash_detail.is_none() && !self.stash_detail_load.loading));
        let drops = self.git_status.stashes.len() == 0 && (!same_stash
            || self.git_status.stash_detail.is_some() || self.stash_detail_load.loading);
        if !same_sel {
            self.load_diff(repo, fx);
        }
        assert(self.stash_request(opt_view(*repo)) == old(self).stash_request(opt_view(*repo)));
        self.follow_stashes(wants, drops, repo, fx);
        assert(fx@ =~= old(fx)@ + old(self).status_requests(before, opt_view(*repo)));
    }

    fn follow_stashes(&mut self, wants: bool, drops: bool, repo: &Option<String>, fx: &mut Effects)
        ensures
            *final(self) == (if wants {
                old(self).stash_asked(opt_view(*repo))
            } else if drops {
                old(self).stash_given_up()
            } else {
                *old(self)
            }),
            final(fx)@ == old(fx)@ + (if wants {
                old(self).stash_request(opt_view(*repo))
            } else {
                Seq::empty()
            }),
    {
        if wants {
            self.load_selected_stash_detail(repo, fx);
        } else {
            assert(fx@ =~= old(fx)@ + Seq::<Effect<Seq<char>>>::empty());
            if drops {
                self.git_status.stash_detail = None;
                self.stash_detail_load.invalidate();
            }
        }
    }

    // ── Another repository ───────────────────────────────────────────────
    /// Nothing of the repository is left in the lists; the containers are
    /// empty.
    pub open spec fn status_emptied(
        self,
        staged: Vec<FileEntry>,
        unstaged: Vec<FileEntry>,
        branches: Vec<String>,
        stashes: Vec<StashEntry>,
        branch_name: String,
    ) -> Self {
        let s = self.unselected();
        GitPane {
            lists: FileLists { staged_files: staged, unstaged_files: unstaged, ..s.lists },
            git_status: GitStatusState {
                ahead_behind: None,
                branches,
                stashes,
                stash_detail: None,
                ..s.git_status
            },
            branch_name,
            ..s
        }
    }

    /// `new` is `self` with nothing of the repository left in it.
    pub open spec fn emptied_to(self, new: GitPane) -> bool {
        &&& new.lists.staged_files@.len() == 0
        &&& new.lists.unstaged_files@.len() == 0
        &&& new.git_status.branches@.len() == 0
        &&& new.git_status.stashes@.len() == 0
        &&& new.branch_name@.len() == 0
        &&& new == self.status_emptied(
            new.lists.staged_files,
            new.lists.unstaged_files,
            new.git_status.branches,
            new.git_status.stashes,
            new.branch_name,
        )
    }

    fn empty_status(&mut self)
        ensures
            old(self).emptied_to(*final(self)),
    {
        self.unselect();
        self.lists.staged_files = Vec::new();
        self.lists.unstaged_files = Vec::new();
        self.git_status.ahead_behind = None;
        self.git_status.branches = Vec::new();
        self.git_status.stashes = Vec::new();
        self.git_status.stash_detail = None;
        self.branch_name = String::new();
    }

    pub fn clear_git_status_snapshot(&mut self, tree: &mut FileTree)
        requires
            old(tree).wf(),
        ensures
            old(self).emptied_to(*final(self)),
            redecorated(*old(tree), *final(tree), Seq::empty(), Seq::empty()),
    {
        self.empty_status();
        let none: Vec<FileEntry> = Vec::new();
        tree.refresh_git_statuses(none.as_slice(), none.as_slice());
        assert(none@ =~= Seq::<FileEntry>::empty());
    }

    /// Everything that was open or pending in the old repository is closed.
    pub open spec fn closed(self) -> Self {
        GitPane {
            diff: DiffView {
                diff_scroll: 0,
                diff_h_scroll: 0,
                diff_load: self.diff.diff_load.dropped(false),
                ..self.diff
            },
            git_status: GitStatusState {
                confirm_discard: None,
                confirm_push: false,
                confirm_force_push: false,
                branch_dropdown_open: false,
                repo_selector_open: false,
                branch_dropdown_idx: 0,
                selected_stash_idx: 0,
                stash_error: None,
                pending_stash_action: None,
                branch_create_dialog: None,
                push_error: None,
                pull_error: None,
                commit_error: None,
                ..self.git_status
            },
            stash_detail_load: self.stash_detail_load.dropped(false),
            ..self
        }
    }

    fn close_all(&mut self)
        ensures
            *final(self) == old(self).closed(),
    {
        self.diff.diff_scroll = 0;
        self.diff.diff_h_scroll = 0;
        self.diff.diff_load.invalidate();
        self.git_status.confirm_discard = None;
        self.git_status.confirm_push = false;
        self.git_status.confirm_force_push = false;
        self.git_status.branch_dropdown_open = false;
        self.git_status.repo_selector_open = false;
        self.git_status.branch_dropdown_idx = 0;
        self.git_status.selected_stash_idx = 0;
        self.git_status.stash_error = None;
        self.git_status.pending_stash_action = None;
        self.git_status.branch_create_dialog = None;
        self.git_status.push_error = None;
        self.git_status.pull_error = None;
        self.git_status.commit_error = None;
        self.stash_detail_load.invalidate();
    }

    /// The panes know nothing of the repository that was shown, and results
    /// that are still on their way from it will not be taken.
    pub fn reset_git_snapshot_for_repo_switch(&mut self, graph: &mut GraphPane)
        ensures
            old(self).closed().emptied_to(*final(self)),
            graph_reset(*old(graph), *final(graph)),
    {
        self.close_all();
        self.empty_status();
        graph.clear_graph_snapshot();
        graph.commit_detail_load.invalidate();
        graph.commit_file_diff_load.invalidate();
    }

    /// Chooses the repository in a row of the catalog. A row past its end is
    /// ignored.
    pub fn select_git_repo_at_idx(
        &mut self,
        idx: usize,
        catalog: &mut RepoCatalogState,
        graph: &mut GraphPane,
        fx: &mut Effects,
    )
        ensures
            if idx < old(catalog).repos@.len() {
                let root = old(catalog).repos@[idx as int].repo_root_rel;
                &&& *final(catalog) == (RepoCatalogState {
                    selected_git_repo: Some(root),
                    ..*old(catalog)
                })
                &&& repo_switched(*old(self), *final(self))
                &&& graph_switched(*old(graph), *final(graph))
                &&& final(fx)@ == old(fx)@ + seq![
                    Effect::SetPref { pref: Pref::SelectedRepo, value: root@ },
                    Effect::RefreshStatus {
                        generation: old(self).git_status_load.begun().generation,
                        repo: root@,
                    },
                ]
            } else {
                &&& *final(catalog) == *old(catalog)
                &&& *final(self) == *old(self)
                &&& *final(graph) == *old(graph)
                &&& final(fx)@ == old(fx)@
            },
    {
        if idx >= catalog.repos.len() {
            return;
        }
        let root = catalog.repos[idx].repo_root_rel.clone();
        catalog.selected_git_repo = Some(root.clone());
        fx.emit(Effect::SetPref { pref: Pref::SelectedRepo, value: root.clone() });
        self.reset_git_snapshot_for_repo_switch(graph);
        graph.graph_load.invalidate_stale();
        self.refresh_status(&Some(root), fx);
        assert(fx@ =~= old(fx)@ + seq![
            Effect::SetPref { pref: Pref::SelectedRepo, value: root@ },
            Effect::RefreshStatus {
                generation: old(self).git_status_load.begun().generation,
                repo: root@,
            },
        ]);
    }
}

/// `new` is `old` with nothing of the repository left, and the loads of its
/// commits given up.
pub open spec fn graph_reset(old: GraphPane, new: GraphPane) -> bool {
    &&& new.git_graph.rows@.len() == 0
    &&& new.git_graph.ref_map@.len() == 0
    &&& new == (GraphPane {
        commit_detail_load: old.commit_detail_load.dropped(false),
        commit_file_diff_load: old.commit_file_diff_load.dropped(false),
        ..old.emptied(new.git_graph.rows, new.git_graph.ref_map)
    })
}

/// As `graph_reset`, with the history due to be read.
pub open spec fn graph_switched(old: GraphPane, new: GraphPane) -> bool {
    graph_reset(old, GraphPane { graph_load: old.graph_load, ..new }) && new.graph_load
        == old.graph_load.dropped(true)
}

/// The git pane after another repository was chosen: empty, closed, and with
/// its status on the way.
pub open spec fn repo_switched(old: GitPane, new: GitPane) -> bool {
    old.closed().emptied_to(GitPane { git_status_load: old.git_status_load, ..new })
        && new.git_status_load == old.git_status_load.begun()
}

// ── Laws ─────────────────────────────────────────────────────────────────

/// A result that was asked for before another repository was chosen is not
/// taken afterwards, whichever load it belongs to.
pub proof fn law_old_repository_is_forgotten(
    git: GitPane,
    git2: GitPane,
    graph: GraphPane,
    graph2: GraphPane,
)
    requires
        repo_switched(git, git2),
        graph_switched(graph, graph2),
    ensures
        git2.git_status_load.generation != git.git_status_load.generation,
        git2.diff.diff_load.generation != git.diff.diff_load.generation,
        git2.stash_detail_load.generation != git.stash_detail_load.generation,
        graph2.graph_load.generation != graph.graph_load.generation,
        graph2.commit_detail_load.generation != graph.commit_detail_load.generation,
        graph2.commit_file_diff_load.generation != graph.commit_file_diff_load.generation,
        git2.lists.selected_file is None,
        graph2.git_graph.selected_commit is None,
{
}

/// The base choices of a new branch hold each branch once.
pub proof fn law_bases_are_distinct(start: Seq<Seq<char>>, items: Seq<Seq<char>>, i: int, j: int)
    requires
        start.len() <= 1,
        0 <= i < j < with_new(start, items).len(),
    ensures
        with_new(start, items)[i] != with_new(start, items)[j],
    decreases items.len(),
{
    if items.len() > 0 {
        let rest = with_new(start, items.drop_last());
        if !occurs(rest, items.last()) {
            if j < rest.len() {
                law_bases_are_distinct(start, items.drop_last(), i, j);
            } else {
                assert(rest[i] != items.last());
            }
        } else {
            law_bases_are_distinct(start, items.drop_last(), i, j);
        }
    }
}

/// Every branch is among the base choices.
pub proof fn law_bases_hold_every_branch(start: Seq<Seq<char>>, items: Seq<Seq<char>>, k: int)
    requires
        0 <= k < items.len(),
    ensures
        occurs(with_new(start, items), items[k]),
    decreases items.len(),
{
    let rest = with_new(start, items.drop_last());
    if k + 1 == items.len() {
        if !occurs(rest, items.last()) {
            assert(with_new(start, items)[rest.len() as int] == items.last());
        }
    } else {
        law_bases_hold_every_branch(start, items.drop_last(), k);
        let i = choose|i: int| 0 <= i < rest.len() && #[trigger] rest[i] == items.drop_last()[k];
        assert(with_new(start, items)[i] == items[k]);
    }
}

/// A status that equals the one before, with nothing selected elsewhere and
/// the stash detail shown, loads nothing.
pub proof fn law_unchanged_status_is_quiet(before: GitPane, after: GitPane, repo: Option<Seq<char>>)
    requires
        same_selection(before.lists.selected_file, after.lists.selected_file),
        same_stashes(after.git_status.stashes@, before.git_status.stashes@),
        after.git_status.selected_stash_idx == before.git_status.selected_stash_idx,
        after.git_status.stashes@.len() > 0 ==> after.git_status.stash_detail is Some,
    ensures
        after.status_requests(before, repo) == Seq::<Effect<Seq<char>>>::empty(),
{
    let i = after.git_status.selected_stash_idx;
    if i < after.git_status.stashes@.len() {
        assert(same_entry(after.git_status.stashes@[i as int], before.git_status.stashes@[i as int]));
    }
    assert(after.status_requests(before, repo) =~= Seq::<Effect<Seq<char>>>::empty());
}

/// A push, a pull or a commit that came back no longer runs, also where it
/// crashed, so that it can be tried again.
pub proof fn law_ended_jobs_can_be_retried(
    git: GitPane,
    pushed: GitPane,
    pulled: GitPane,
    committed: GitPane,
    operation: PushOperation,
    end: JobEnd,
    graph: GraphPane,
    graph2: GraphPane,
    repo: Option<Seq<char>>,
    fx: Seq<Effect<Seq<char>>>,
    fx2: Seq<Effect<Seq<char>>>,
)
    ensures
        git.push_ended(pushed, operation, end, graph, graph2, fx, fx2) ==> !pushed.push_in_flight,
        git.pull_ended(pulled, end, graph, graph2, fx, fx2) ==> !pulled.pull_in_flight,
        git.commit_ended(committed, end, graph, graph2, repo, fx, fx2)
            ==> !committed.commit_in_flight,
{
}

/// The draft of a commit outlasts its failure.
pub proof fn law_failed_commit_keeps_the_draft(
    git: GitPane,
    new: GitPane,
    end: JobEnd,
    graph: GraphPane,
    graph2: GraphPane,
    repo: Option<Seq<char>>,
    fx: Seq<Effect<Seq<char>>>,
    fx2: Seq<Effect<Seq<char>>>,
)
    requires
        git.commit_ended(new, end, graph, graph2, repo, fx, fx2),
        !(end matches JobEnd::Done(Ok(_))),
    ensures
        new.git_status.commit_message == git.git_status.commit_message,
        new.git_status.commit_cursor == git.git_status.commit_cursor,
{
}

} // verus!
