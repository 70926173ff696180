//! The results that come back from the background, and what each changes.
use crate::app::{catalog_applied, App};
use crate::backend::RepoDiscoverResponse;
use crate::effects::{Effect, Effects};
use crate::file_tree::TreeEntry;
use crate::files_pane::FilesPane;
use crate::git::{CommitDetail, FileEntry, StashDetail};
use crate::git_flows::StatusPayload;
use crate::git_pane::GitPane;
use crate::global_search::{GlobalSearch, ReplaceEnd, SearchHit};
use crate::graph::{CommitFileDiff, GraphPayload, HighlightedDiff};
use crate::paths::same_opt_path;
use crate::preview::PreviewContent;
use crate::preview_pane::{PreviewHighlight, PreviewPane};
use vstd::prelude::*;

verus! {

/// A piece of work that ended, or a part of one, with the generation it was
/// asked for under.
#[allow(inconsistent_fields)]
#[derive(Debug)]
pub enum WorkerResult {
    RepoCatalog { generation: u64, result: Result<RepoDiscoverResponse, String> },
    FileTree { generation: u64, result: Result<(Vec<TreeEntry>, usize), String> },
    Preview { generation: u64, result: Result<Option<PreviewContent>, String> },
    GitStatus { generation: u64, result: Result<StatusPayload, String> },
    StashDetail { generation: u64, result: Result<StashDetail, String> },
    Diff { generation: u64, result: Result<Option<HighlightedDiff>, String> },
    Graph { generation: u64, result: Result<GraphPayload, String> },
    CommitDetail { generation: u64, result: Result<Option<CommitDetail>, String> },
    CommitFileDiff { generation: u64, result: Result<Option<CommitFileDiff>, String> },
    RangeDetail { generation: u64, result: Result<Vec<FileEntry>, String> },
    RangeFileDiff { generation: u64, result: Result<Option<CommitFileDiff>, String> },
    GlobalSearchChunk { generation: u64, hits: Vec<SearchHit> },
    GlobalSearchDone { generation: u64, truncated: bool },
    FileCopy { generation: u64, result: Result<usize, String> },
    FsMutation { generation: u64, kind: String, result: Result<(), String> },
    ReplaceProgress { generation: u64, files_done: usize, files_total: usize },
    ReplaceDone { generation: u64, result: ReplaceEnd },
}

/// Whether a rebuilt tree was taken and selects another path.
pub open spec fn reselects(
    old: FilesPane,
    new: FilesPane,
    generation: u64,
    result: Result<(Vec<TreeEntry>, usize), String>,
) -> bool {
    generation == old.file_tree_load.generation && result is Ok && !same_opt_path(
        old.selected_path(),
        new.selected_path(),
    )
}

impl App {
    /// A rebuilt tree is decorated with the changes that are known, and the
    /// preview follows the selection.
    pub open spec fn tree_taken(
        self,
        new: Self,
        generation: u64,
        result: Result<(Vec<TreeEntry>, usize), String>,
        now: u64,
    ) -> bool {
        let changed = reselects(self.files, new.files, generation, result);
        &&& self.files.tree_applied(
            new.files,
            generation,
            result,
            self.git.lists.staged_files,
            self.git.lists.unstaged_files,
            changed,
        )
        &&& new == (App {
            files: new.files,
            preview: if changed {
                self.preview.selected_scheduled(new.files.file_tree, now)
            } else {
                self.preview
            },
            ..self
        })
    }

    fn take_tree(
        &mut self,
        generation: u64,
        result: Result<(Vec<TreeEntry>, usize), String>,
        now: u64,
    )
        requires
            old(self).wf(),
        ensures
            final(self).wf(),
            old(self).tree_taken(*final(self), generation, result, now),
    {
        if self.files.apply_file_tree(
            generation,
            result,
            &self.git.lists.staged_files,
            &self.git.lists.unstaged_files,
        ) {
            self.preview.load_preview(&self.files.file_tree, now);
        }
    }

    pub open spec fn preview_taken(
        self,
        new: Self,
        generation: u64,
        result: Result<Option<PreviewContent>, String>,
        now: u64,
        r: Option<image::DynamicImage>,
    ) -> bool {
        &&& self.preview.preview_applied(
            new.preview,
            generation,
            result,
            self.screen,
            new.screen,
            now,
            r,
        )
        &&& new == (App { preview: new.preview, screen: new.screen, ..self })
    }

    fn take_preview(
        &mut self,
        generation: u64,
        result: Result<Option<PreviewContent>, String>,
        now: u64,
    ) -> (r: Option<image::DynamicImage>)
        ensures
            old(self).preview_taken(*final(self), generation, result, now, r),
    {
        self.preview.apply_preview(generation, result, &mut self.screen, now)
    }

    /// A status decorates the tree, and what follows from it is asked of the
    /// repository that the git tab works on.
    pub open spec fn status_taken(
        self,
        new: Self,
        generation: u64,
        result: Result<StatusPayload, String>,
        fx: Seq<Effect<Seq<char>>>,
        fx2: Seq<Effect<Seq<char>>>,
    ) -> bool {
        &&& new == (App {
            git: new.git,
            files: FilesPane { file_tree: new.files.file_tree, ..self.files },
            ..self
        })
        &&& self.git.status_applied(
            new.git,
            generation,
            result,
            self.files.file_tree,
            new.files.file_tree,
            self.repo(),
            fx,
            fx2,
        )
    }

    fn take_status(
        &mut self,
        generation: u64,
        result: Result<StatusPayload, String>,
        fx: &mut Effects,
    )
        requires
            old(self).wf(),
        ensures
            final(self).wf(),
            old(self).status_taken(*final(self), generation, result, old(fx)@, final(fx)@),
    {
        let repo = self.repo_root();
        self.git.apply_git_status(generation, result, &mut self.files.file_tree, &repo, fx);
    }

    fn take_graph(&mut self, generation: u64, result: Result<GraphPayload, String>, fx: &mut Effects)
        ensures
            *final(self) == (App { graph: final(self).graph, ..*old(self) }),
            old(self).graph.walk_applied(
                final(self).graph,
                generation,
                result,
                old(self).repo(),
                old(fx)@,
                final(fx)@,
            ),
    {
        let repo = self.repo_root();
        self.graph.apply_graph(generation, result, &repo, fx);
    }

    /// The end of a search for text; where it found nothing, the search tab
    /// points at nothing.
    fn take_search_end(&mut self, generation: u64, truncated: bool)
        ensures
            *final(self) == old(self).search_ended(
                final(self).global_search,
                final(self).preview.preview_highlight,
            ),
            old(self).global_search.done_applied(
                final(self).global_search,
                generation,
                truncated,
                old(self).screen.active_tab,
                old(self).preview.preview_highlight,
                final(self).preview.preview_highlight,
            ),
    {
        self.global_search.apply_done(
            generation,
            truncated,
            self.screen.active_tab,
            &mut self.preview.preview_highlight,
        );
    }

    pub open spec fn search_ended(
        self,
        search: GlobalSearch,
        highlight: Option<PreviewHighlight>,
    ) -> Self {
        App {
            global_search: search,
            preview: PreviewPane { preview_highlight: highlight, ..self.preview },
            ..self
        }
    }

    /// Whether the end of a replacement is taken and files may have changed.
    pub open spec fn replaces(self, generation: u64, result: ReplaceEnd) -> bool {
        generation == self.global_search.replace_load.generation && result is Done
    }

    /// After a replacement the status is read again.
    pub open spec fn replace_taken(
        self,
        new: Self,
        generation: u64,
        result: ReplaceEnd,
        fx: Seq<Effect<Seq<char>>>,
        fx2: Seq<Effect<Seq<char>>>,
    ) -> bool {
        let changed = self.replaces(generation, result);
        let asked = if changed {
            self.git.status_request(self.repo())
        } else {
            Seq::empty()
        };
        &&& new == (App {
            global_search: new.global_search,
            git: if changed {
                self.git.status_asked(self.repo())
            } else {
                self.git
            },
            ..self
        })
        &&& fx2.len() >= asked.len()
        &&& fx2.skip(fx2.len() - asked.len()) == asked
        &&& self.global_search.replace_applied(
            new.global_search,
            generation,
            result,
            fx,
            fx2.take(fx2.len() - asked.len()),
            changed,
        )
    }

    fn take_replace_end(&mut self, generation: u64, result: ReplaceEnd, fx: &mut Effects)
        ensures
            old(self).replace_taken(*final(self), generation, result, old(fx)@, final(fx)@),
    {
        let changed = self.global_search.apply_replace_done(generation, result, fx);
        let ghost mid = fx@;
        if changed {
            let repo = self.repo_root();
            self.git.refresh_status(&repo, fx);
        }
        proof {
            let asked = if changed {
                old(self).git.status_request(old(self).repo())
            } else {
                Seq::empty()
            };
            assert(fx@ =~= mid + asked);
            assert(fx@.skip(fx@.len() - asked.len()) =~= asked);
            assert(fx@.take(fx@.len() - asked.len()) =~= mid);
        }
    }

    // ── All of them ──────────────────────────────────────────────────────
    /// What a result changes, what it asks for, and the pixels it hands over.
    pub open spec fn result_taken(
        self,
        new: Self,
        result: WorkerResult,
        now: u64,
        fx: Seq<Effect<Seq<char>>>,
        fx2: Seq<Effect<Seq<char>>>,
        r: Option<image::DynamicImage>,
    ) -> bool {
        &&& !(result is Preview) ==> r is None
        &&& match result {
            WorkerResult::RepoCatalog { generation, result } => catalog_applied(
                self,
                new,
                generation,
                result,
                fx,
                fx2,
            ),
            WorkerResult::FileTree { generation, result } => self.tree_taken(
                new,
                generation,
                result,
                now,
            ) && fx2 == fx,
            WorkerResult::Preview { generation, result } => self.preview_taken(
                new,
                generation,
                result,
                now,
                r,
            ) && fx2 == fx,
            WorkerResult::GitStatus { generation, result } => self.status_taken(
                new,
                generation,
                result,
                fx,
                fx2,
            ),
            WorkerResult::StashDetail { generation, result } => {
                &&& new == (App { git: new.git, ..self })
                &&& self.git.stash_detail_applied(new.git, generation, result)
                &&& fx2 == fx
            },
            WorkerResult::Diff { generation, result } => {
                &&& new == (App { git: GitPane { diff: new.git.diff, ..self.git }, ..self })
                &&& self.git.diff.applied(new.git.diff, generation, result)
                &&& fx2 == fx
            },
            WorkerResult::Graph { generation, result } => {
                &&& new == (App { graph: new.graph, ..self })
                &&& self.graph.walk_applied(new.graph, generation, result, self.repo(), fx, fx2)
            },
            WorkerResult::CommitDetail { generation, result } => {
                &&& new == (App { graph: new.graph, ..self })
                &&& self.graph.detail_applied(new.graph, generation, result)
                &&& fx2 == fx
            },
            WorkerResult::RangeDetail { generation, result } => {
                &&& new == (App { graph: new.graph, ..self })
                &&& self.graph.range_applied(new.graph, generation, result)
                &&& fx2 == fx
            },
            WorkerResult::CommitFileDiff { generation, result }
            | WorkerResult::RangeFileDiff { generation, result } => {
                &&& new == (App { graph: new.graph, ..self })
                &&& self.graph.file_diff_applied(new.graph, generation, result)
                &&& fx2 == fx
            },
            WorkerResult::GlobalSearchChunk { generation, hits } => {
                &&& new == (App { global_search: new.global_search, ..self })
                &&& self.global_search.chunk_applied(
                    new.global_search,
                    generation,
                    hits,
                    self.screen.active_tab,
                    self.preview.preview_highlight,
                    fx,
                    fx2,
                )
            },
            WorkerResult::GlobalSearchDone { generation, truncated } => {
                &&& new == self.search_ended(new.global_search, new.preview.preview_highlight)
                &&& self.global_search.done_applied(
                    new.global_search,
                    generation,
                    truncated,
                    self.screen.active_tab,
                    self.preview.preview_highlight,
                    new.preview.preview_highlight,
                )
                &&& fx2 == fx
            },
            WorkerResult::FileCopy { generation, result } => {
                &&& new == (App { files: new.files, ..self })
                &&& self.files.file_copy_applied(new.files, generation, result, fx, fx2)
            },
            WorkerResult::FsMutation { generation, kind, result } => {
                &&& new == (App { files: new.files, ..self })
                &&& self.files.fs_mutation_applied(new.files, generation, kind, result, fx, fx2)
            },
            WorkerResult::ReplaceProgress { generation, files_done, files_total } => {
                &&& new == (App { global_search: new.global_search, ..self })
                &&& self.global_search.progress_applied(
                    new.global_search,
                    generation,
                    files_done,
                    files_total,
                )
                &&& fx2 == fx
            },
            WorkerResult::ReplaceDone { generation, result } => self.replace_taken(
                new,
                generation,
                result,
                fx,
                fx2,
            ),
        }
    }

    /// Takes a result from the background. The pixels of a picture that is to
    /// be shown are handed back.
    #[verifier::rlimit(60)]
    pub fn apply_worker_result(
        &mut self,
        result: WorkerResult,
        now: u64,
        fx: &mut Effects,
    ) -> (r: Option<image::DynamicImage>)
        requires
            old(self).wf(),
        ensures
            final(self).wf(),
            old(self).result_taken(*final(self), result, now, old(fx)@, final(fx)@, r),
    {
        match result {
            WorkerResult::RepoCatalog { generation, result } => {
                self.apply_repo_catalog(generation, result, fx);
            },
            WorkerResult::FileTree { generation, result } => {
                self.take_tree(generation, result, now);
            },
            WorkerResult::Preview { generation, result } => {
                return self.take_preview(generation, result, now);
            },
            WorkerResult::GitStatus { generation, result } => {
                self.take_status(generation, result, fx);
            },
            WorkerResult::StashDetail { generation, result } => {
                self.git.apply_stash_detail(generation, result);
            },
            WorkerResult::Diff { generation, result } => {
                self.git.diff.apply(generation, result);
            },
            WorkerResult::Graph { generation, result } => {
                self.take_graph(generation, result, fx);
            },
            WorkerResult::CommitDetail { generation, result } => {
                self.graph.apply_commit_detail(generation, result);
            },
            WorkerResult::RangeDetail { generation, result } => {
                self.graph.apply_range_detail(generation, result);
            },
            WorkerResult::CommitFileDiff { generation, result } => {
                self.graph.apply_commit_file_diff(generation, result);
            },
            WorkerResult::RangeFileDiff { generation, result } => {
                self.graph.apply_commit_file_diff(generation, result);
            },
            WorkerResult::GlobalSearchChunk { generation, hits } => {
                self.global_search.apply_chunk(
                    generation,
                    hits,
                    self.screen.active_tab,
                    &self.preview.preview_highlight,
                    fx,
                );
            },
            WorkerResult::GlobalSearchDone { generation, truncated } => {
                self.take_search_end(generation, truncated);
            },
            WorkerResult::FileCopy { generation, result } => {
                self.files.apply_file_copy(generation, result, fx);
            },
            WorkerResult::FsMutation { generation, kind, result } => {
                self.files.apply_fs_mutation(generation, kind, result, fx);
            },
            WorkerResult::ReplaceProgress { generation, files_done, files_total } => {
                self.global_search.apply_replace_progress(generation, files_done, files_total);
            },
            WorkerResult::ReplaceDone { generation, result } => {
                self.take_replace_end(generation, result, fx);
            },
        }
        None
    }
}

// ── Laws ─────────────────────────────────────────────────────────────────

/// The generation a result carries and the one it is held against.
pub open spec fn generations(s: App, result: WorkerResult) -> (u64, u64) {
    match result {
        WorkerResult::RepoCatalog { generation, .. } => (
            generation,
            s.repo_catalog.discover_load.generation,
        ),
        WorkerResult::FileTree { generation, .. } => (
            generation,
            s.files.file_tree_load.generation,
        ),
        WorkerResult::Preview { generation, .. } => (
            generation,
            s.preview.preview_load.generation,
        ),
        WorkerResult::GitStatus { generation, .. } => (
            generation,
            s.git.git_status_load.generation,
        ),
        WorkerResult::StashDetail { generation, .. } => (
            generation,
            s.git.stash_detail_load.generation,
        ),
        WorkerResult::Diff { generation, .. } => (generation, s.git.diff.diff_load.generation),
        WorkerResult::Graph { generation, .. } => (generation, s.graph.graph_load.generation),
        WorkerResult::CommitDetail { generation, .. } => (
            generation,
            s.graph.commit_detail_load.generation,
        ),
        WorkerResult::RangeDetail { generation, .. } => (
            generation,
            s.graph.commit_detail_load.generation,
        ),
        WorkerResult::CommitFileDiff { generation, .. } => (
            generation,
            s.graph.commit_file_diff_load.generation,
        ),
        WorkerResult::RangeFileDiff { generation, .. } => (
            generation,
            s.graph.commit_file_diff_load.generation,
        ),
        WorkerResult::GlobalSearchChunk { generation, .. } => (
            generation,
            s.global_search.global_search_load.generation,
        ),
        WorkerResult::GlobalSearchDone { generation, .. } => (
            generation,
            s.global_search.global_search_load.generation,
        ),
        WorkerResult::FileCopy { generation, .. } => (
            generation,
            s.files.file_copy_load.generation,
        ),
        WorkerResult::FsMutation { generation, .. } => (
            generation,
            s.files.fs_mutation_load.generation,
        ),
        WorkerResult::ReplaceProgress { generation, .. } => (
            generation,
            s.global_search.replace_load.generation,
        ),
        WorkerResult::ReplaceDone { generation, .. } => (
            generation,
            s.global_search.replace_load.generation,
        ),
    }
}

/// A result that was superseded changes nothing, asks for nothing and hands
/// nothing over, whatever it is of.
pub proof fn law_superseded_results_change_nothing(
    s: App,
    t: App,
    result: WorkerResult,
    now: u64,
    fx: Seq<Effect<Seq<char>>>,
    fx2: Seq<Effect<Seq<char>>>,
    r: Option<image::DynamicImage>,
)
    requires
        s.result_taken(t, result, now, fx, fx2, r),
        generations(s, result).0 != generations(s, result).1,
    ensures
        t == s,
        fx2 =~= fx,
        r is None,
{
}

} // verus!
