//! The repositories of the workspace, and which one the git tabs work on.
use crate::backend::{RepoDiscoverOpts, RepoDiscoverResponse, WorkspaceRepoMeta};
use crate::effects::{Effect, Effects, Pref, ToastLevel};
use crate::loads::{idle, AsyncState};
use crate::paths::{same_path, same_paths};
use crate::text::{opt_view, same_opt};
use vstd::prelude::*;
use vstd::string::*;

verus! {

#[derive(Debug)]
pub struct RepoCatalogState {
    pub repos: Vec<WorkspaceRepoMeta>,
    pub selected_git_repo: Option<String>,
    pub discover_load: AsyncState,
    pub max_depth: u64,
    pub include_nested: bool,
    pub max_repos: Option<u64>,
    pub truncated: bool,
}

/// The first repository at `root`.
pub open spec fn repo_index(repos: Seq<WorkspaceRepoMeta>, root: Seq<char>) -> Option<int>
    decreases repos.len(),
{
    if repos.len() == 0 {
        None
    } else {
        match repo_index(repos.drop_last(), root) {
            Some(i) => Some(i),
            None => if same_path(repos.last().repo_root_rel@, root) {
                Some(repos.len() - 1)
            } else {
                None
            },
        }
    }
}

/// The repository that needs no choosing: the only one.
pub open spec fn only_repo(repos: Seq<WorkspaceRepoMeta>) -> Option<String> {
    if repos.len() == 1 {
        Some(repos[0].repo_root_rel)
    } else {
        None
    }
}

/// Whether the chosen repository is not among those found.
pub open spec fn choice_lost(chosen: Option<String>, repos: Seq<WorkspaceRepoMeta>) -> bool {
    match chosen {
        Some(r) => repo_index(repos, r@) is None,
        None => false,
    }
}

/// The choice after a search found `repos`: it stays where it is still there.
pub open spec fn choice_after(chosen: Option<String>, repos: Seq<WorkspaceRepoMeta>) -> Option<
    String,
> {
    if chosen is Some && !choice_lost(chosen, repos) {
        chosen
    } else {
        only_repo(repos)
    }
}

/// The repository that status, diff and graph work on: the chosen one, else
/// the workspace itself where that is a repository.
pub open spec fn active_repo(chosen: Option<String>, has_repo: bool) -> Option<Seq<char>> {
    match chosen {
        Some(r) => Some(r@),
        None => if has_repo {
            Some("."@)
        } else {
            None
        },
    }
}

/// What is said, and kept, when the choice was lost.
pub open spec fn lost_effects(chosen: Option<String>, repos: Seq<WorkspaceRepoMeta>) -> Seq<
    Effect<Seq<char>>,
> {
    match chosen {
        Some(previous) => if repo_index(repos, previous@) is None {
            let told = Effect::Toast {
                level: ToastLevel::Info,
                text: "Saved repository selection '"@ + previous@ + "' is no longer available"@,
            };
            let kept = match only_repo(repos) {
                Some(r) => Effect::SetPref { pref: Pref::SelectedRepo, value: r@ },
                None => Effect::RemovePref { pref: Pref::SelectedRepo },
            };
            seq![told, kept]
        } else {
            Seq::empty()
        },
        None => Seq::empty(),
    }
}

impl RepoCatalogState {
    /// A catalog that has not been searched yet. `saved` is the choice of an
    /// earlier session.
    pub fn from_prefs(opts: RepoDiscoverOpts, saved: Option<String>) -> (r: Self)
        ensures
            r.repos@.len() == 0,
            r == (RepoCatalogState {
                repos: r.repos,
                selected_git_repo: saved,
                discover_load: idle(),
                max_depth: opts.max_depth,
                include_nested: opts.include_nested,
                max_repos: opts.max_repos,
                truncated: false,
            }),
    {
        RepoCatalogState {
            repos: Vec::new(),
            selected_git_repo: saved,
            discover_load: AsyncState::default(),
            max_depth: opts.max_depth,
            include_nested: opts.include_nested,
            max_repos: opts.max_repos,
            truncated: false,
        }
    }

    pub open spec fn opts(self) -> RepoDiscoverOpts {
        RepoDiscoverOpts {
            max_depth: self.max_depth,
            include_nested: self.include_nested,
            max_repos: self.max_repos,
        }
    }

    pub fn discover_opts(&self) -> (r: RepoDiscoverOpts)
        ensures
            r == self.opts(),
    {
        RepoDiscoverOpts {
            max_depth: self.max_depth,
            include_nested: self.include_nested,
            max_repos: self.max_repos,
        }
    }

    pub fn find_repo(&self, root: &str) -> (r: Option<usize>)
        ensures
            match repo_index(self.repos@, root@) {
                Some(i) => r == Some(i as usize) && 0 <= i < self.repos@.len(),
                None => r is None,
            },
    {
        let n: usize = self.repos.len();
        let mut i: usize = 0;
        while i < n
            invariant
                i <= n == self.repos@.len(),
                repo_index(self.repos@.take(i as int), root@) is None,
            decreases n - i,
        {
            assert(self.repos@.take(i + 1).drop_last() =~= self.repos@.take(i as int));
            if same_paths(self.repos[i].repo_root_rel.as_str(), root) {
                proof {
                    lemma_repo_found_early(self.repos@, root@, i + 1);
                }
                return Some(i);
            }
            i = i + 1;
        }
        assert(self.repos@.take(n as int) =~= self.repos@);
        None
    }

    /// The row of the chosen repository.
    pub open spec fn chosen_row(self) -> Option<int> {
        match self.selected_git_repo {
            Some(r) => repo_index(self.repos@, r@),
            None => None,
        }
    }

    pub fn selected_repo_idx(&self) -> (r: Option<usize>)
        ensures
            match self.chosen_row() {
                Some(i) => r == Some(i as usize) && 0 <= i < self.repos@.len(),
                None => r is None,
            },
    {
        match &self.selected_git_repo {
            Some(r) => self.find_repo(r.as_str()),
            None => None,
        }
    }

    fn only(&self) -> (r: Option<String>)
        ensures
            r == only_repo(self.repos@),
    {
        if self.repos.len() == 1 {
            Some(self.repos[0].repo_root_rel.clone())
        } else {
            None
        }
    }

    /// Drops a choice that is not among the repositories, and tells the lost
    /// choice with what takes its place.
    pub fn reconcile_selected_repo(&mut self) -> (r: Option<(String, Option<String>)>)
        ensures
            *final(self) == (if choice_lost(old(self).selected_git_repo, old(self).repos@) {
                RepoCatalogState { selected_git_repo: only_repo(old(self).repos@), ..*old(self) }
            } else {
                *old(self)
            }),
            match old(self).selected_git_repo {
                Some(p) => if choice_lost(Some(p), old(self).repos@) {
                    r == Some((p, only_repo(old(self).repos@)))
                } else {
                    r is None
                },
                None => r is None,
            },
    {
        let previous = match &self.selected_git_repo {
            Some(p) => p.clone(),
            None => {
                return None;
            },
        };
        if self.find_repo(previous.as_str()).is_some() {
            return None;
        }
        self.selected_git_repo = self.only();
        Some((previous, self.selected_git_repo.clone()))
    }

    /// Keeps a choice that is among the repositories, else takes the only one.
    pub fn auto_select_repo(&mut self)
        ensures
            *final(self) == (RepoCatalogState {
                selected_git_repo: choice_after(old(self).selected_git_repo, old(self).repos@),
                ..*old(self)
            }),
    {
        if let Some(r) = &self.selected_git_repo {
            if self.find_repo(r.as_str()).is_some() {
                return;
            }
        }
        self.selected_git_repo = self.only();
    }

    /// The repository that the git tabs work on.
    pub fn status_repo_root_rel(&self, has_repo: bool) -> (r: Option<String>)
        ensures
            opt_view(r) == active_repo(self.selected_git_repo, has_repo),
    {
        match &self.selected_git_repo {
            Some(r) => Some(r.clone()),
            None => if has_repo {
                Some(".".to_owned())
            } else {
                None
            },
        }
    }

    pub fn refresh_repo_catalog(&mut self, fx: &mut Effects)
        ensures
            *final(self) == (RepoCatalogState {
                discover_load: old(self).discover_load.begun(),
                ..*old(self)
            }),
            final(fx)@ == old(fx)@.push(
                Effect::DiscoverRepos {
                    generation: old(self).discover_load.begun().generation,
                    opts: old(self).opts(),
                },
            ),
    {
        let generation: u64 = self.discover_load.begin();
        let opts = self.discover_opts();
        fx.emit(Effect::DiscoverRepos { generation, opts });
    }

    /// The catalog after a search that was accepted.
    pub open spec fn searched(self, resp: RepoDiscoverResponse) -> Self {
        RepoCatalogState {
            repos: resp.repos,
            truncated: resp.truncated,
            discover_load: self.discover_load.done(),
            selected_git_repo: choice_after(self.selected_git_repo, resp.repos@),
            ..self
        }
    }

    /// Takes the result of a search if it is the latest one. Says whether
    /// another repository is chosen than before.
    pub fn apply_catalog(
        &mut self,
        generation: u64,
        result: Result<RepoDiscoverResponse, String>,
        fx: &mut Effects,
    ) -> (r: bool)
        ensures
            generation != old(self).discover_load.generation ==> *final(self) == *old(self)
                && final(fx)@ == old(fx)@ && !r,
            generation == old(self).discover_load.generation ==> match result {
                Ok(resp) => {
                    &&& *final(self) == old(self).searched(resp)
                    &&& final(fx)@ == old(fx)@ + lost_effects(
                        old(self).selected_git_repo,
                        resp.repos@,
                    )
                    &&& r == (opt_view(old(self).selected_git_repo) != opt_view(
                        final(self).selected_git_repo,
                    ))
                },
                Err(e) => *final(self) == (RepoCatalogState {
                    discover_load: old(self).discover_load.failed(e),
                    ..*old(self)
                }) && final(fx)@ == old(fx)@ && !r,
            },
    {
        let resp = match result {
            Ok(resp) => resp,
            Err(e) => {
                let _ = self.discover_load.complete_err(generation, e);
                return false;
            },
        };
        if !self.discover_load.complete_ok(generation) {
            return false;
        }
        let before = self.selected_git_repo.clone();
        self.repos = resp.repos;
        self.truncated = resp.truncated;
        let reconciled = self.reconcile_selected_repo();
        if before.is_none() {
            self.auto_select_repo();
        }
        if let Some((previous, selected)) = reconciled {
            let mut text = "Saved repository selection '".to_owned();
            text.append(previous.as_str());
            text.append("' is no longer available");
            fx.emit(Effect::Toast { level: ToastLevel::Info, text });
            match selected {
                Some(r) => fx.emit(Effect::SetPref { pref: Pref::SelectedRepo, value: r }),
                None => fx.emit(Effect::RemovePref { pref: Pref::SelectedRepo }),
            }
        }
        assert(fx@ =~= old(fx)@ + lost_effects(old(self).selected_git_repo, resp.repos@));
        !same_opt(&before, &self.selected_git_repo)
    }
}

proof fn lemma_repo_found_early(repos: Seq<WorkspaceRepoMeta>, root: Seq<char>, n: int)
    requires
        0 <= n <= repos.len(),
        repo_index(repos.take(n), root) is Some,
    ensures
        repo_index(repos, root) == repo_index(repos.take(n), root),
    decreases repos.len(),
{
    if n < repos.len() {
        assert(repos.drop_last().take(n) =~= repos.take(n));
        lemma_repo_found_early(repos.drop_last(), root, n);
    } else {
        assert(repos.take(n) =~= repos);
    }
}

/// After a search the choice is one of the repositories found, and a choice
/// that was found again is never changed.
pub proof fn law_choice_is_listed(chosen: Option<String>, repos: Seq<WorkspaceRepoMeta>)
    ensures
        !choice_lost(choice_after(chosen, repos), repos),
        chosen is Some && !choice_lost(chosen, repos) ==> choice_after(chosen, repos) == chosen,
{
    if repos.len() == 1 {
        assert(repos.drop_last().len() == 0);
        assert(repo_index(repos.drop_last(), repos[0].repo_root_rel@) is None);
    }
}

/// A second search with the same outcome changes nothing.
pub proof fn law_choice_is_stable(chosen: Option<String>, repos: Seq<WorkspaceRepoMeta>)
    ensures
        choice_after(choice_after(chosen, repos), repos) == choice_after(chosen, repos),
        lost_effects(choice_after(chosen, repos), repos) == Seq::<Effect<Seq<char>>>::empty(),
{
    law_choice_is_listed(chosen, repos);
}

} // verus!
