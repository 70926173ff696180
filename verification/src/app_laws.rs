//! What the application as a whole does: how a session starts, what a click, a
//! turn of the loop and a finished piece of work change, and what they leave.
use crate::actions::{ActionStep, ClickAction};
use crate::app::{catalog_applied, App, Startup};
use crate::backend::RepoDiscoverResponse;
use crate::effects::{Effect, Notice, Pref, ToastLevel};
use crate::file_tree::TreeEntry;
use crate::files_pane::CopyJob;
use crate::global_search::SearchPanelFocus;
use crate::layout::{Tab, ViewMode};
use crate::loads::AsyncState;
use crate::paths::pushed_path;
use crate::text::opt_view;
use crate::tick::Tick;
use crate::worker::{reselects, WorkerResult};
use vstd::prelude::*;
use vstd::string::*;

verus! {

/// The git tabs work on the chosen repository, else on the workspace where
/// that is one, else on none.
pub proof fn law_repository_of_the_app(s: App)
    ensures
        s.repo_catalog.selected_git_repo matches Some(r) ==> s.repo() == Some(r@),
        s.repo_catalog.selected_git_repo is None && s.has_repo ==> s.repo() == Some("."@),
        s.repo_catalog.selected_git_repo is None && !s.has_repo ==> s.repo() is None,
{
}

/// A session starts with nothing shown, selected, typed or running, on the
/// repository and with the preferences that were kept.
pub proof fn law_session_starts_empty(a: App, s: Startup, now: u64)
    requires
        a.is_fresh(s, now),
    ensures
        a.git.lists.staged_files@.len() == 0,
        a.git.lists.unstaged_files@.len() == 0,
        a.git.lists.selected_file is None,
        a.git.git_status.commit_message@.len() == 0,
        a.git.git_status.tree_mode == s.status_tree_mode,
        a.git.diff.diff_layout == s.diff_layout,
        a.git.diff.diff_mode == s.diff_mode,
        a.git.branch_name == s.branch_name,
        !a.git.push_in_flight && !a.git.pull_in_flight && !a.git.commit_in_flight,
        a.graph.git_graph.rows@.len() == 0,
        a.graph.git_graph.selected_commit is None,
        a.graph.git_graph.selection_anchor is None,
        a.files.file_tree == s.file_tree,
        !a.files.place_mode.active,
        a.files.file_selection@.len() == 0,
        a.files.file_clipboard.mode is None,
        a.files.tree_delete_confirm is None,
        a.preview.preview_content is None,
        a.preview.has_picker == s.has_picker,
        a.global_search.query@.len() == 0,
        a.global_search.results@.len() == 0,
        !a.global_search.replace_open,
        a.repo_catalog.selected_git_repo == s.saved_repo,
        a.repo_catalog.repos@.len() == 0,
        a.repo_catalog.max_depth == s.discover_opts.max_depth,
        a.repo_catalog.include_nested == s.discover_opts.include_nested,
        a.repo_catalog.max_repos == s.discover_opts.max_repos,
        a.has_repo == s.has_repo,
        a.is_remote == s.is_remote,
        !a.should_quit && !a.should_quit_session,
        a.next_git_revalidate_at >= now,
        a.next_graph_revalidate_at >= now,
{
}

/// A session first asks for the status, exactly where there is a repository,
/// and in any case for the repositories and the tree.
pub proof fn law_session_asks_first(s: Startup)
    ensures
        ({
            let fx = App::first_requests(s);
            &&& fx.len() == (if s.saved_repo is Some || s.has_repo {
                3int
            } else {
                2int
            })
            &&& s.saved_repo matches Some(r) ==> fx[0] == (Effect::<Seq<char>>::RefreshStatus {
                generation: 1,
                repo: r@,
            })
            &&& s.saved_repo is None && s.has_repo ==> fx[0] == (Effect::<
                Seq<char>,
            >::RefreshStatus { generation: 1, repo: "."@ })
            &&& fx[fx.len() - 2] == (Effect::<Seq<char>>::DiscoverRepos {
                generation: 1,
                opts: s.discover_opts,
            })
            &&& fx.last() is RebuildTree
            &&& fx.last()->RebuildTree_generation == 1
            &&& fx.last()->selected_idx == s.file_tree.selected
            &&& (s.file_tree.selected < s.file_tree.entries@.len() ==> fx.last()->select == Some(
                s.file_tree.entries@[s.file_tree.selected as int].path@,
            ))
            &&& (s.file_tree.selected >= s.file_tree.entries@.len() ==> fx.last()->select is None)
        }),
{
    assert(s.file_tree.entries.len() == s.file_tree.entries@.len());
}

/// Choosing the tab in front does nothing. Another tab comes to the front: the
/// status or the history is out of date then, a tree only where it is empty;
/// what the other tabs hold stays.
pub proof fn law_chosen_tab_is_shown(
    s: App,
    t: App,
    tab: Tab,
    fx: Seq<Effect<Seq<char>>>,
    fx2: Seq<Effect<Seq<char>>>,
)
    requires
        s.tab_set(t, tab, fx, fx2),
    ensures
        t.screen.active_tab == tab,
        s.screen.active_tab == tab ==> t == s && fx2 == fx,
        s.screen.active_tab != tab ==> ({
            &&& tab == Tab::Git ==> t.git.git_status_load.stale
            &&& tab == Tab::Graph ==> t.graph.graph_load.stale
            &&& tab == Tab::Files ==> t.files.file_tree_load.stale == (
            s.files.file_tree.entries@.len() == 0 || s.files.file_tree_load.stale)
        }),
        tab != Tab::Git ==> t.git == s.git,
        tab != Tab::Graph ==> t.graph == s.graph,
        t.git.lists == s.git.lists,
        t.git.git_status_load.generation == s.git.git_status_load.generation,
        t.graph.git_graph == s.graph.git_graph,
        t.files.file_tree == s.files.file_tree,
        t.preview == s.preview,
        t.search == s.search,
        t.global_search == s.global_search,
        t.repo_catalog == s.repo_catalog,
        tab != Tab::Search ==> fx2 =~= fx,
        fx2 =~= fx || fx2 =~= fx.push(Effect::ShowSearchHit),
{
}

/// A load is told of by its name: that it runs, else why it failed, else that
/// it is out of date, else not at all.
pub proof fn law_loads_are_told_of(label: Seq<char>, s: AsyncState)
    ensures
        App::load_text(label, s) is Some <==> s.loading || s.error is Some || s.stale,
        App::load_text(label, s) matches Some(text) ==> label.is_prefix_of(text),
        s.loading ==> App::load_text(label, s) == Some(label + " refreshing…"@),
        !s.loading && s.error is Some ==> App::load_text(label, s) == Some(
            label + " error: "@ + s.error->0@,
        ),
        !s.loading && s.error is None && s.stale ==> App::load_text(label, s) == Some(
            label + " stale"@,
        ),
{
    if let Some(text) = App::load_text(label, s) {
        assert(text.take(label.len() as int) == label);
    }
}

/// Each tab tells of its own loads, the first one first: nothing where none of
/// them runs, failed or is out of date.
pub proof fn law_tab_tells_of_its_loads(s: App)
    ensures
        s.screen.active_tab == Tab::Files ==> {
            &&& s.activity() is None <==> App::load_text("copy"@, s.files.file_copy_load) is None
                && App::load_text("files"@, s.files.file_tree_load) is None && App::load_text(
                "preview"@,
                s.preview.preview_load,
            ) is None
            &&& s.files.file_copy_load.loading ==> s.activity() == Some("copy"@ + " refreshing…"@)
        },
        s.screen.active_tab == Tab::Git ==> {
            &&& s.git.git_status_load.loading ==> s.activity() == Some("git"@ + " refreshing…"@)
            &&& App::load_text("git"@, s.git.git_status_load) is None ==> s.activity()
                == App::load_text("diff"@, s.git.diff.diff_load)
        },
        s.screen.active_tab == Tab::Graph ==> {
            &&& s.graph.graph_load.loading ==> s.activity() == Some("graph"@ + " refreshing…"@)
            &&& App::load_text("graph"@, s.graph.graph_load) is None
                && s.graph.commit_detail_load.loading ==> s.activity() == Some(
                "commit"@ + " refreshing…"@,
            )
            &&& App::load_text("graph"@, s.graph.graph_load) is None && App::load_text(
                "commit"@,
                s.graph.commit_detail_load,
            ) is None ==> s.activity() == App::load_text(
                "commit diff"@,
                s.graph.commit_file_diff_load,
            )
        },
        s.screen.active_tab == Tab::Search ==> {
            &&& s.global_search.global_search_load.loading ==> s.activity() == Some(
                "search scanning…"@,
            )
            &&& !s.global_search.global_search_load.loading ==> s.activity() == App::load_text(
                "preview"@,
                s.preview.preview_load,
            )
        },
{
}

/// After files changed on disk the tree, the preview, the status, the diff and
/// the repositories are out of date. The history is not, and nothing that is
/// shown goes.
pub proof fn law_changed_files_are_read_again(s: App)
    ensures
        ({
            let t = s.dirtied();
            &&& t.files.file_tree_load.stale
            &&& t.preview.preview_load.stale
            &&& t.git.git_status_load.stale
            &&& t.git.diff.diff_load.stale
            &&& t.repo_catalog.discover_load.stale
            &&& t.graph == s.graph
            &&& t.screen == s.screen
            &&& t.global_search == s.global_search
            &&& t.files.file_tree == s.files.file_tree
            &&& t.preview.preview_content == s.preview.preview_content
            &&& t.git.lists == s.git.lists
            &&& t.git.diff.diff_content == s.git.diff.diff_content
            &&& t.git.git_status_load.generation == s.git.git_status_load.generation
            &&& t.files.file_tree_load.generation == s.files.file_tree_load.generation
            &&& t.preview.preview_load.generation == s.preview.preview_load.generation
            &&& t.repo_catalog.selected_git_repo == s.repo_catalog.selected_git_repo
        }),
{
}

/// The tree and the repositories are asked for exactly if they are out of date
/// and not being read; what was asked for is then on its way.
pub proof fn law_due_trees_and_repositories_are_asked_for(s: App)
    ensures
        ({
            let f = s.files.file_tree_load;
            let d = s.repo_catalog.discover_load;
            &&& s.tree_kick().len() == (if f.stale && !f.loading {
                1int
            } else {
                0int
            })
            &&& f.stale && !f.loading ==> s.tree_kick()[0] is RebuildTree
                && s.tree_kicked().files.file_tree_load.loading
            &&& !(f.stale && !f.loading) ==> s.tree_kicked() == s
            &&& s.catalog_kick().len() == (if d.stale && !d.loading {
                1int
            } else {
                0int
            })
            &&& d.stale && !d.loading ==> s.catalog_kicked().repo_catalog.discover_load.loading && (
            s.catalog_kick()[0] matches Effect::DiscoverRepos { generation, opts } && (generation
                == s.catalog_kicked().repo_catalog.discover_load.generation && opts.max_depth
                == s.repo_catalog.max_depth && opts.include_nested == s.repo_catalog.include_nested
                && opts.max_repos == s.repo_catalog.max_repos))
            &&& !(d.stale && !d.loading) ==> s.catalog_kicked() == s
        }),
{
}

/// The status is asked for when it is out of date or its time has come, never
/// while it is being read, and by the clock only where there is a repository.
/// The history likewise, and also when none is shown.
pub proof fn law_polls_keep_their_time(s: App, now: u64)
    ensures
        s.polls_git(now) <==> !s.git.git_status_load.loading && (s.git.git_status_load.stale || (
        s.repo() is Some && now >= s.next_git_revalidate_at)),
        s.polls_graph(now) <==> !s.graph.graph_load.loading && (s.graph.graph_load.stale || (
        s.repo() is Some && (s.graph.git_graph.rows@.len() == 0 || now
            >= s.next_graph_revalidate_at))),
        !s.polls_git(now) ==> s.git_kicked(now).next_git_revalidate_at == s.next_git_revalidate_at,
        s.polls_git(now) && now < u64::MAX ==> s.git_kicked(now).next_git_revalidate_at > now,
        s.graph_kick(now).len() == (if s.polls_graph(now) && s.repo() is Some {
            1int
        } else {
            0int
        }),
        s.polls_graph(now) && s.repo() is Some ==> (s.graph_kick(now)[0] matches Effect::RefreshGraph {
            repo,
            ..
        } && Some(repo) == s.repo()),
        s.git_kicked(now).graph == s.graph,
        s.git_kicked(now).files == s.files,
{
}

/// A preview that is out of date is loaded anew on the files tab for the
/// selected row, on the search tab for the selected hit; else nothing happens.
pub proof fn law_stale_previews_are_loaded(s: App, now: u64)
    ensures
        ({
            let l = s.preview.preview_load;
            let t = s.preview_kicked(now);
            let i = s.global_search.selected as int;
            &&& !(l.stale && !l.loading) ==> t == s
            &&& l.stale && !l.loading && s.screen.active_tab != Tab::Files && i
                < s.global_search.results@.len() ==> t.preview == s.preview.scheduled(
                s.global_search.results@[i].path,
                now,
            )
            &&& l.stale && !l.loading && s.screen.active_tab == Tab::Files ==> t.preview
                == s.preview.selected_scheduled(s.files.file_tree, now)
            &&& t.files == s.files && t.git == s.git && t.graph == s.graph
        }),
{
}

/// The search for repositories that was awaited is taken: its list is shown,
/// and the choice stays where it is still listed. A failed one leaves the list
/// and the choice.
pub proof fn law_found_repositories_are_listed(
    s: App,
    t: App,
    generation: u64,
    result: Result<RepoDiscoverResponse, String>,
    fx: Seq<Effect<Seq<char>>>,
    fx2: Seq<Effect<Seq<char>>>,
)
    requires
        catalog_applied(s, t, generation, result, fx, fx2),
    ensures
        generation != s.repo_catalog.discover_load.generation ==> t == s && fx2 == fx,
        generation == s.repo_catalog.discover_load.generation ==> !t.repo_catalog.discover_load.loading,
        result matches Ok(resp) ==> (generation == s.repo_catalog.discover_load.generation
            ==> t.repo_catalog.repos == resp.repos && t.repo_catalog.truncated == resp.truncated
            && !t.repo_catalog.discover_load.stale),
        result matches Err(e) ==> (generation == s.repo_catalog.discover_load.generation
            ==> t.repo_catalog.repos == s.repo_catalog.repos && t.repo_catalog.selected_git_repo
            == s.repo_catalog.selected_git_repo && t.repo_catalog.discover_load.error == Some(e)
            && fx2 == fx),
        t.screen == s.screen,
        t.preview == s.preview,
        t.global_search == s.global_search,
{
}

/// A click on a row selects it. A directory then opens or closes, a file is
/// shown; a click below the rows shows nothing.
pub proof fn law_clicked_rows_are_selected(
    s: App,
    t: App,
    i: usize,
    now: u64,
    fx: Seq<Effect<Seq<char>>>,
    fx2: Seq<Effect<Seq<char>>>,
)
    requires
        s.row_clicked(t, i, now, fx, fx2),
        i < s.files.file_tree.entries@.len(),
    ensures
        !s.files.file_tree.entries@[i as int].is_dir ==> t.files.file_tree.selected == i && fx2 == fx
            && t.files.file_tree.entries == s.files.file_tree.entries,
        s.files.file_tree.entries@[i as int].is_dir ==> fx2.len() == fx.len() + 1 && fx2.last()
            is RebuildTree && t.preview == s.preview,
        t.git == s.git,
        t.graph == s.graph,
        t.screen == s.screen,
{
    assert(s.files.file_tree.entries.len() == s.files.file_tree.entries@.len());
}

/// A click on empty space selects no row, and drops a name that is being
/// typed.
pub proof fn law_empty_space_selects_nothing(s: App, t: App)
    requires
        s.selection_cleared(t),
    ensures
        t.files.file_tree.selected == s.files.file_tree.entries@.len(),
        t.files.file_tree.entries == s.files.file_tree.entries,
        !t.files.tree_edit.active,
        t.files.file_selection == s.files.file_selection,
        t.preview == s.preview,
        t.git == s.git,
{
    assert(s.files.file_tree.entries.len() == s.files.file_tree.entries@.len());
}

/// Files are dropped into a row exactly if it is a directory, and then into
/// that one; what is copied are the files that are being placed.
pub proof fn law_files_are_dropped_into_directories(
    s: App,
    t: App,
    i: usize,
    fx: Seq<Effect<Seq<char>>>,
    fx2: Seq<Effect<Seq<char>>>,
    job: Option<CopyJob>,
)
    requires
        s.folder_clicked(t, i, fx, fx2, job),
    ensures
        job matches Some(j) ==> (i < s.files.file_tree.entries@.len()
            && s.files.file_tree.entries@[i as int].is_dir && j.dest_dir@ == pushed_path(
            s.files.file_tree.root@,
            s.files.file_tree.entries@[i as int].path@,
        ) && j.sources@ == s.files.place_mode.sources@),
        job is None && i < s.files.file_tree.entries@.len()
            && s.files.file_tree.entries@[i as int].is_dir ==> s.files.file_copy_load.loading
            && t == s && fx2.len() == fx.len() + 1,
        i >= s.files.file_tree.entries@.len() || !s.files.file_tree.entries@[i as int].is_dir
            ==> !t.files.place_mode.active && job is None && fx2 == fx,
        t.git == s.git,
        t.preview == s.preview,
{
    assert(s.files.file_tree.entries.len() == s.files.file_tree.entries@.len());
}

/// A drop onto the root copies the files that are being placed there, unless a
/// copy runs.
pub proof fn law_files_are_dropped_into_the_root(
    s: App,
    t: App,
    enabled: bool,
    included: Seq<bool>,
    now: u64,
    fx: Seq<Effect<Seq<char>>>,
    fx2: Seq<Effect<Seq<char>>>,
    r: ActionStep,
)
    requires
        s.clicked(t, ClickAction::PlaceModeRoot, enabled, included, now, fx, fx2, r),
    ensures
        r matches ActionStep::Copy(j) ==> j.dest_dir@ == s.files.file_tree.root@ && j.sources@
            == s.files.place_mode.sources@,
        !(r is Copy) ==> s.files.file_copy_load.loading && t == s && fx2 == fx.push(
            Effect::Say { level: ToastLevel::Warn, notice: Notice::CopyInFlight },
        ),
{
}

/// The button beside a changed file stages that file, the one beside a staged
/// file unstages it, in the repository that the tab works on.
pub proof fn law_buttons_stage_their_file(
    s: App,
    t: App,
    path: String,
    enabled: bool,
    included: Seq<bool>,
    now: u64,
    fx: Seq<Effect<Seq<char>>>,
    fx2: Seq<Effect<Seq<char>>>,
    r: ActionStep,
)
    ensures
        s.clicked(t, ClickAction::StageFile(path), enabled, included, now, fx, fx2, r) ==> {
            &&& t == s
            &&& r is Nothing
            &&& s.repo() matches Some(repo) ==> fx2 == fx.push(
                Effect::Stage { repo, path: path@, alone: true },
            )
            &&& s.repo() is None ==> fx2 == fx
        },
        s.clicked(t, ClickAction::UnstageFile(path), enabled, included, now, fx, fx2, r) ==> {
            &&& t == s
            &&& r is Nothing
            &&& s.repo() matches Some(repo) ==> fx2 == fx.push(
                Effect::Unstage { repo, path: path@, alone: true },
            )
            &&& s.repo() is None ==> fx2 == fx
        },
{
    if let Some(repo) = s.repo() {
        assert(fx + s.stage_request(path@, true) =~= fx.push(
            Effect::Stage { repo, path: path@, alone: true },
        ));
        assert(fx + s.stage_request(path@, false) =~= fx.push(
            Effect::Unstage { repo, path: path@, alone: true },
        ));
    } else {
        assert(fx + s.stage_request(path@, true) =~= fx);
        assert(fx + s.stage_request(path@, false) =~= fx);
    }
}

/// The heading of the staged files shows and hides those, the heading of the
/// others hides those; no list changes.
pub proof fn law_headings_fold_their_section(s: App)
    ensures
        s.section_toggled(true).git.lists.staged_collapsed == !s.git.lists.staged_collapsed,
        s.section_toggled(true).git.lists.unstaged_collapsed == s.git.lists.unstaged_collapsed,
        s.section_toggled(false).git.lists.unstaged_collapsed == !s.git.lists.unstaged_collapsed,
        s.section_toggled(false).git.lists.staged_collapsed == s.git.lists.staged_collapsed,
        forall|staged: bool|
            (#[trigger] s.section_toggled(staged)).git.lists.staged_files
                == s.git.lists.staged_files && s.section_toggled(staged).git.lists.unstaged_files
                == s.git.lists.unstaged_files && s.section_toggled(staged).git.lists.selected_file
                == s.git.lists.selected_file && s.section_toggled(staged).files == s.files,
{
}

/// A click on the heading of the staged files folds those.
pub proof fn law_click_folds_the_staged(
    s: App,
    t: App,
    enabled: bool,
    included: Seq<bool>,
    now: u64,
    fx: Seq<Effect<Seq<char>>>,
    fx2: Seq<Effect<Seq<char>>>,
    r: ActionStep,
)
    requires
        s.clicked(t, ClickAction::ToggleStaged, enabled, included, now, fx, fx2, r),
    ensures
        t.git.lists.staged_collapsed != s.git.lists.staged_collapsed,
        t.git.lists.unstaged_collapsed == s.git.lists.unstaged_collapsed,
        fx2 == fx,
{
}

/// A click on the heading of the files that are not staged folds those.
pub proof fn law_click_folds_the_unstaged(
    s: App,
    t: App,
    enabled: bool,
    included: Seq<bool>,
    now: u64,
    fx: Seq<Effect<Seq<char>>>,
    fx2: Seq<Effect<Seq<char>>>,
    r: ActionStep,
)
    requires
        s.clicked(t, ClickAction::ToggleUnstaged, enabled, included, now, fx, fx2, r),
    ensures
        t.git.lists.unstaged_collapsed != s.git.lists.unstaged_collapsed,
        t.git.lists.staged_collapsed == s.git.lists.staged_collapsed,
        fx2 == fx,
{
}

/// A click shows and hides the sidebar.
pub proof fn law_click_toggles_the_sidebar(
    s: App,
    t: App,
    enabled: bool,
    included: Seq<bool>,
    now: u64,
    fx: Seq<Effect<Seq<char>>>,
    fx2: Seq<Effect<Seq<char>>>,
    r: ActionStep,
)
    requires
        s.clicked(t, ClickAction::ToggleSidebar, enabled, included, now, fx, fx2, r),
    ensures
        t.screen.sidebar_visible == !s.screen.sidebar_visible,
        t.screen.active_tab == s.screen.active_tab,
        t.files == s.files,
{
}

/// A click on the line beside the sidebar starts to drag that one.
pub proof fn law_click_drags_the_split(
    s: App,
    t: App,
    enabled: bool,
    included: Seq<bool>,
    now: u64,
    fx: Seq<Effect<Seq<char>>>,
    fx2: Seq<Effect<Seq<char>>>,
    r: ActionStep,
)
    requires
        s.clicked(t, ClickAction::StartDragSplit, enabled, included, now, fx, fx2, r),
    ensures
        t.screen.dragging_split,
        t.screen.dragging_graph_diff_split == s.screen.dragging_graph_diff_split,
        fx2 == fx,
{
}

/// A click on the line beside the diff of a commit starts to drag that one.
pub proof fn law_click_drags_the_diff_split(
    s: App,
    t: App,
    enabled: bool,
    included: Seq<bool>,
    now: u64,
    fx: Seq<Effect<Seq<char>>>,
    fx2: Seq<Effect<Seq<char>>>,
    r: ActionStep,
)
    requires
        s.clicked(t, ClickAction::StartDragGraphDiffSplit, enabled, included, now, fx, fx2, r),
    ensures
        t.screen.dragging_graph_diff_split,
        t.screen.dragging_split == s.screen.dragging_split,
        fx2 == fx,
{
}

/// A click on a tab brings it to the front.
pub proof fn law_click_switches_the_tab(
    s: App,
    t: App,
    tab: Tab,
    enabled: bool,
    included: Seq<bool>,
    now: u64,
    fx: Seq<Effect<Seq<char>>>,
    fx2: Seq<Effect<Seq<char>>>,
    r: ActionStep,
)
    requires
        s.clicked(t, ClickAction::SwitchTab(tab), enabled, included, now, fx, fx2, r),
    ensures
        t.screen.active_tab == tab,
        r is Nothing,
{
}

/// A click beside the menu closes it.
pub proof fn law_click_closes_the_menu(
    s: App,
    t: App,
    enabled: bool,
    included: Seq<bool>,
    now: u64,
    fx: Seq<Effect<Seq<char>>>,
    fx2: Seq<Effect<Seq<char>>>,
    r: ActionStep,
)
    requires
        s.clicked(t, ClickAction::TreeContextMenuClose, enabled, included, now, fx, fx2, r),
    ensures
        !t.files.tree_context_menu.active,
        t.files.file_tree == s.files.file_tree,
        t.git == s.git,
        fx2 == fx,
{
}

/// A click on a changed file selects that one, staged or not.
pub proof fn law_click_selects_the_file(
    s: App,
    t: App,
    path: String,
    staged: bool,
    enabled: bool,
    included: Seq<bool>,
    now: u64,
    fx: Seq<Effect<Seq<char>>>,
    fx2: Seq<Effect<Seq<char>>>,
    r: ActionStep,
)
    requires
        s.clicked(t, ClickAction::SelectFile { path, staged }, enabled, included, now, fx, fx2, r),
    ensures
        t.git.lists.selected_file matches Some(f) && (f.path@ == path@ && f.is_staged == staged),
        t.files == s.files,
        t.graph == s.graph,
{
}

/// A click that another part of the program carries out is handed on as it
/// is, and changes nothing here.
pub proof fn law_clicks_are_handed_on(
    s: App,
    t: App,
    action: ClickAction,
    enabled: bool,
    included: Seq<bool>,
    now: u64,
    fx: Seq<Effect<Seq<char>>>,
    fx2: Seq<Effect<Seq<char>>>,
    r: ActionStep,
)
    requires
        s.clicked(t, action, enabled, included, now, fx, fx2, r),
    ensures
        action matches ClickAction::GitCommand { command, args } ==> t == s && fx2 == fx.push(
            Effect::PanelCommand { command: command@, args: args@ },
        ),
        action matches ClickAction::HostsPickerSelect(index) ==> t == s && fx2 == fx.push(
            Effect::SelectHost { index },
        ),
        action matches ClickAction::SearchToggleMatch(index) ==> t == s && fx2 == fx.push(
            Effect::ToggleMatch { index },
        ),
        action matches ClickAction::SettingsRow(index) ==> t == s && (s.screen.view_mode
            == ViewMode::Settings ==> fx2 == fx.push(Effect::SelectSetting { index })) && (
        s.screen.view_mode != ViewMode::Settings ==> fx2 == fx),
        (action is DbPrevPage || action is DbNextPage || action is DbGotoPage) ==> t == s,
        r is Copy ==> action is PlaceModeFolder || action is PlaceModeRoot,
        r is Menu ==> action is TreeContextMenuItem,
        r is Page ==> action is DbPrevPage || action is DbNextPage || action is DbGotoPage,
        r is Replace ==> action is SearchApplyReplace,
{
}

/// Clicks in the search over all files: a hit is selected and shown, an input
/// takes the keys, and the replacement is shown or hidden; outside of its tab
/// they do nothing.
pub proof fn law_clicks_in_the_search(
    s: App,
    t: App,
    action: ClickAction,
    enabled: bool,
    included: Seq<bool>,
    now: u64,
    fx: Seq<Effect<Seq<char>>>,
    fx2: Seq<Effect<Seq<char>>>,
    r: ActionStep,
)
    requires
        s.clicked(t, action, enabled, included, now, fx, fx2, r),
    ensures
        s.screen.active_tab == Tab::Search ==> {
            &&& action matches ClickAction::GlobalSearchSelect(i) ==> t.global_search.selected == i
                && fx2 == fx.push(Effect::ShowSearchHit)
            &&& action is GlobalSearchFocusInput ==> t.global_search.focus
                == SearchPanelFocus::FindInput
            &&& action is GlobalSearchFocusReplaceInput && s.global_search.replace_open
                ==> t.global_search.focus == SearchPanelFocus::ReplaceInput
            &&& action is GlobalSearchFocusReplaceInput && !s.global_search.replace_open ==> t == s
            &&& action is SearchToggleReplace ==> t.global_search.replace_open
                == !s.global_search.replace_open
        },
        s.screen.active_tab != Tab::Search && (action is GlobalSearchSelect
            || action is GlobalSearchFocusInput || action is GlobalSearchFocusReplaceInput
            || action is SearchToggleReplace) ==> t == s && fx2 == fx,
        action is GlobalSearchSelect || action is GlobalSearchFocusInput
            || action is GlobalSearchFocusReplaceInput || action is SearchToggleReplace
            ==> t.global_search.query == s.global_search.query && t.global_search.results
            == s.global_search.results,
{
}

/// The button that refreshes reads the tree again, and the status where there
/// is a repository.
pub proof fn law_refresh_reads_again(s: App)
    ensures
        s.reread().files.file_tree_load.loading,
        s.repo() is Some ==> s.reread().git.git_status_load.loading,
        s.reread().files.file_tree == s.files.file_tree,
        s.reread().preview == s.preview,
        s.reread().graph == s.graph,
{
}

/// In one turn of the loop what files that changed on disk make out of date is
/// noticed first, exactly if they did.
pub proof fn law_turn_notices_changed_files(
    s: App,
    t: App,
    dirty: bool,
    fx: Seq<Effect<Seq<char>>>,
    fx2: Seq<Effect<Seq<char>>>,
)
    requires
        s.dirt_noticed(t, dirty, fx, fx2),
    ensures
        dirty ==> t.files.file_tree_load.stale && t.git.git_status_load.stale
            && t.preview.preview_load.stale && fx2 == fx.push(Effect::StaleQuickOpen),
        !dirty ==> t == s && fx2 == fx,
{
    reveal(App::dirt_noticed);
}

/// A turn without a finished push, pull or commit reports none, and each
/// report leaves the files, the preview and the searches.
pub proof fn law_turn_reports_what_ended(
    s: App,
    t: App,
    tick: Tick,
    fx: Seq<Effect<Seq<char>>>,
    fx2: Seq<Effect<Seq<char>>>,
)
    ensures
        s.push_reported(t, tick.push_end, fx, fx2) ==> {
            &&& tick.push_end is None ==> t == s && fx2 == fx
            &&& t.files == s.files && t.preview == s.preview && t.screen == s.screen
                && t.global_search == s.global_search
        },
        s.pull_reported(t, tick.pull_end, fx, fx2) ==> {
            &&& tick.pull_end is None ==> t == s && fx2 == fx
            &&& t.files == s.files && t.preview == s.preview && t.screen == s.screen
                && t.global_search == s.global_search
        },
        s.commit_reported(t, tick.commit_end, fx, fx2) ==> {
            &&& tick.commit_end is None ==> t == s && fx2 == fx
            &&& t.files == s.files && t.preview == s.preview && t.screen == s.screen
                && t.global_search == s.global_search
        },
{
    reveal(App::push_reported);
    reveal(App::pull_reported);
    reveal(App::commit_reported);
}

/// A closed directory under files that are being placed or dragged opens once
/// they have hovered long enough; without a row, or without anything in hand,
/// nothing opens.
pub proof fn law_hovered_directories_open(
    s: App,
    t: App,
    dragging: bool,
    due: Option<usize>,
    fx: Seq<Effect<Seq<char>>>,
    fx2: Seq<Effect<Seq<char>>>,
)
    ensures
        s.place_opened(t, due, fx, fx2) ==> {
            &&& due is None || !s.files.place_mode.active || s.files.file_tree_load.loading ==> t
                == s && fx2 == fx
            &&& s.files.place_mode.active && !s.files.file_tree_load.loading && (due matches Some(i)
                && s.files.opens_on_hover(i)) ==> fx2.len() == fx.len() + 1 && fx2.last()
                is RebuildTree
        },
        s.drag_opened(t, dragging, due, fx, fx2) ==> {
            &&& due is None || !dragging ==> t == s && fx2 == fx
            &&& dragging && (due matches Some(i) && s.files.opens_on_hover(i)) ==> fx2.len()
                == fx.len() + 1 && fx2.last() is RebuildTree
        },
{
    reveal(App::place_opened);
    reveal(App::drag_opened);
}

/// A result of work in the background changes its own pane alone.
pub proof fn law_results_change_their_pane(
    s: App,
    t: App,
    result: WorkerResult,
    now: u64,
    fx: Seq<Effect<Seq<char>>>,
    fx2: Seq<Effect<Seq<char>>>,
    r: Option<image::DynamicImage>,
)
    requires
        s.result_taken(t, result, now, fx, fx2, r),
    ensures
        !(result is RepoCatalog || result is GitStatus || result is StashDetail || result is Diff
            || result is ReplaceDone) ==> t.git == s.git,
        !(result is RepoCatalog || result is Graph || result is CommitDetail || result
            is RangeDetail || result is CommitFileDiff || result is RangeFileDiff) ==> t.graph
            == s.graph,
        !(result is RepoCatalog || result is FileTree || result is GitStatus || result is FileCopy
            || result is FsMutation) ==> t.files == s.files,
        !(result is FileTree || result is Preview || result is GlobalSearchDone) ==> t.preview
            == s.preview,
        !(result is GlobalSearchChunk || result is GlobalSearchDone || result is ReplaceProgress
            || result is ReplaceDone) ==> t.global_search == s.global_search,
        !(result is RepoCatalog) ==> t.repo_catalog == s.repo_catalog,
        !(result is Preview) ==> t.screen == s.screen && r is None,
        t.has_repo == s.has_repo,
        t.should_quit == s.should_quit,
        t.search == s.search,
{
}

/// The preview follows a rebuilt tree exactly if it selects another path than
/// before.
pub proof fn law_preview_follows_the_tree(
    s: App,
    t: App,
    generation: u64,
    result: Result<(Vec<TreeEntry>, usize), String>,
    now: u64,
)
    requires
        s.tree_taken(t, generation, result, now),
    ensures
        generation != s.files.file_tree_load.generation || result is Err ==> t.preview == s.preview,
        reselects(s.files, t.files, generation, result) ==> t.preview
            == s.preview.selected_scheduled(t.files.file_tree, now),
        t.git == s.git,
        t.graph == s.graph,
{
}

/// After a replacement that was carried out the status is read again, where
/// there is a repository; after one that was not, nothing is asked for.
pub proof fn law_status_is_read_after_a_replacement(
    s: App,
    t: App,
    generation: u64,
    result: crate::global_search::ReplaceEnd,
    fx: Seq<Effect<Seq<char>>>,
    fx2: Seq<Effect<Seq<char>>>,
)
    requires
        s.replace_taken(t, generation, result, fx, fx2),
    ensures
        generation == s.global_search.replace_load.generation && result is Done && s.repo() is Some
            ==> t.git.git_status_load.loading && fx2.len() > 0 && fx2.last() is RefreshStatus,
        generation != s.global_search.replace_load.generation || !(result is Done) ==> t.git
            == s.git,
        t.files == s.files,
        t.preview == s.preview,
{
    if generation == s.global_search.replace_load.generation && result is Done && s.repo()
        is Some {
        let asked = s.git.status_request(s.repo());
        assert(fx2.last() == fx2.skip(fx2.len() - asked.len()).last());
    }
}

/// Files wait to be placed with nothing asked but what a search that is left
/// gives back; without a search nothing is asked at all.
pub proof fn law_placing_asks_for_nothing(
    s: App,
    t: App,
    sources: Vec<String>,
    fx: Seq<Effect<Seq<char>>>,
    fx2: Seq<Effect<Seq<char>>>,
)
    requires
        s.place_entered(t, sources, fx, fx2),
    ensures
        !s.search.active ==> fx2 =~= fx && t.search == s.search && t.git == s.git && t.graph
            == s.graph && t.preview == s.preview,
        t.global_search == s.global_search,
        t.repo_catalog == s.repo_catalog,
        t.files.file_clipboard == s.files.file_clipboard,
{
}

/// A preference is kept under a name of its own.
pub proof fn law_preferences_have_names_of_their_own(a: Pref, b: Pref)
    requires
        a.name() == b.name(),
    ensures
        a == b,
{
    reveal_strlit("diff.layout");
    reveal_strlit("diff.mode");
    reveal_strlit("status.tree_mode");
    reveal_strlit("commit.diff_layout");
    reveal_strlit("commit.diff_mode");
    reveal_strlit("commit.files_tree_mode");
    reveal_strlit("status.selected_repo");
    let n = a.name();
    assert(n.len() == b.name().len());
    assert(n[0] == b.name()[0]);
}

/// An effect is what it says it is, with what it was given: its model has the
/// same name and the same contents.
pub proof fn law_effects_are_what_they_say(e: Effect<String>)
    ensures
        (match e {
            Effect::RefreshStatus { generation, repo } => e@ is RefreshStatus && e@->RefreshStatus_generation == generation && e@->RefreshStatus_repo == repo@,
            Effect::DiscoverRepos { generation, opts } => e@ is DiscoverRepos && e@->DiscoverRepos_generation == generation && e@->DiscoverRepos_opts == opts,
            Effect::RebuildTree { generation, select, selected_idx } => e@ is RebuildTree && e@->RebuildTree_generation == generation && e@->RebuildTree_select == opt_view(select) && e@->RebuildTree_selected_idx == selected_idx,
            Effect::LoadPreview { generation, path, wants_image } => e@ is LoadPreview && e@->LoadPreview_generation == generation && e@->LoadPreview_path == path@ && e@->LoadPreview_wants_image == wants_image,
            Effect::PrefetchPreview { path, wants_image } => e@ is PrefetchPreview && e@->PrefetchPreview_path == path@ && e@->PrefetchPreview_wants_image == wants_image,
            Effect::LoadDbPage { path, table, offset, limit } => e@ is LoadDbPage && e@->LoadDbPage_path == path@ && e@->LoadDbPage_table == table@ && e@->LoadDbPage_offset == offset && e@->LoadDbPage_limit == limit,
            Effect::LoadDiff { generation, repo, path, staged, context } => e@ is LoadDiff && e@->LoadDiff_generation == generation && e@->LoadDiff_repo == repo@ && e@->LoadDiff_path == path@ && e@->LoadDiff_staged == staged && e@->LoadDiff_context == context,
            Effect::LoadStashDetail { generation, repo, stash_ref } => e@ is LoadStashDetail && e@->LoadStashDetail_generation == generation && e@->LoadStashDetail_repo == repo@ && e@->LoadStashDetail_stash_ref == stash_ref@,
            Effect::RefreshGraph { generation, repo, limit } => e@ is RefreshGraph && e@->RefreshGraph_generation == generation && e@->RefreshGraph_repo == repo@ && e@->RefreshGraph_limit == limit,
            Effect::LoadCommitDetail { generation, repo, oid } => e@ is LoadCommitDetail && e@->LoadCommitDetail_generation == generation && e@->LoadCommitDetail_repo == repo@ && e@->LoadCommitDetail_oid == oid@,
            Effect::LoadCommitRange { generation, repo, oldest, newest } => e@ is LoadCommitRange && e@->LoadCommitRange_generation == generation && e@->LoadCommitRange_repo == repo@ && e@->LoadCommitRange_oldest == oldest@ && e@->LoadCommitRange_newest == newest@,
            Effect::LoadCommitFileDiff { generation, repo, oid, path, context } => e@ is LoadCommitFileDiff && e@->LoadCommitFileDiff_generation == generation && e@->LoadCommitFileDiff_repo == repo@ && e@->LoadCommitFileDiff_oid == oid@ && e@->LoadCommitFileDiff_path == path@ && e@->LoadCommitFileDiff_context == context,
            Effect::LoadRangeFileDiff { generation, repo, oldest, newest, path, context } => e@ is LoadRangeFileDiff && e@->LoadRangeFileDiff_generation == generation && e@->LoadRangeFileDiff_repo == repo@ && e@->LoadRangeFileDiff_oldest == oldest@ && e@->LoadRangeFileDiff_newest == newest@ && e@->LoadRangeFileDiff_path == path@ && e@->LoadRangeFileDiff_context == context,
            Effect::SearchAll { generation, query } => e@ is SearchAll && e@->SearchAll_generation == generation && e@->SearchAll_query == query@,
            Effect::CancelSearch => e@ is CancelSearch,
            Effect::ShowSearchHit => e@ is ShowSearchHit,
            Effect::ReloadSearch => e@ is ReloadSearch,
            Effect::StaleQuickOpen => e@ is StaleQuickOpen,
            Effect::Commit { repo, message } => e@ is Commit && e@->Commit_repo == repo@ && e@->Commit_message == message@,
            Effect::Push { repo, force } => e@ is Push && e@->Push_repo == repo@ && e@->Push_force == force,
            Effect::PublishBranch { repo } => e@ is PublishBranch && e@->PublishBranch_repo == repo@,
            Effect::Pull { repo } => e@ is Pull && e@->Pull_repo == repo@,
            Effect::Stage { repo, path, alone } => e@ is Stage && e@->Stage_repo == repo@ && e@->Stage_path == path@ && e@->Stage_alone == alone,
            Effect::Unstage { repo, path, alone } => e@ is Unstage && e@->Unstage_repo == repo@ && e@->Unstage_path == path@ && e@->Unstage_alone == alone,
            Effect::Revert { repo, path, staged } => e@ is Revert && e@->Revert_repo == repo@ && e@->Revert_path == path@ && e@->Revert_staged == staged,
            Effect::Checkout { repo, branch } => e@ is Checkout && e@->Checkout_repo == repo@ && e@->Checkout_branch == branch@,
            Effect::CreateBranch { repo, branch, base } => e@ is CreateBranch && e@->CreateBranch_repo == repo@ && e@->CreateBranch_branch == branch@ && e@->CreateBranch_base == opt_view(base),
            Effect::StashBranch { repo, stash_ref, branch } => e@ is StashBranch && e@->StashBranch_repo == repo@ && e@->StashBranch_stash_ref == stash_ref@ && e@->StashBranch_branch == branch@,
            Effect::CreateFile { generation, path, name } => e@ is CreateFile && e@->CreateFile_generation == generation && e@->CreateFile_path == path@ && e@->CreateFile_name == name@,
            Effect::CreateFolder { generation, path, name } => e@ is CreateFolder && e@->CreateFolder_generation == generation && e@->CreateFolder_path == path@ && e@->CreateFolder_name == name@,
            Effect::Rename { generation, old_path, new_path, old_name, new_name } => e@ is Rename && e@->Rename_generation == generation && e@->Rename_old_path == old_path@ && e@->Rename_new_path == new_path@ && e@->Rename_old_name == old_name@ && e@->Rename_new_name == new_name@,
            Effect::Trash { generation, path, name } => e@ is Trash && e@->Trash_generation == generation && e@->Trash_path == path@ && e@->Trash_name == name@,
            Effect::HardDelete { generation, path, name } => e@ is HardDelete && e@->HardDelete_generation == generation && e@->HardDelete_path == path@ && e@->HardDelete_name == name@,
            Effect::RevealInFinder { path } => e@ is RevealInFinder && e@->RevealInFinder_path == path@,
            Effect::CopyText { text, count, relative } => e@ is CopyText && e@->CopyText_text == text@ && e@->CopyText_count == count && e@->CopyText_relative == relative,
            Effect::SetPref { pref, value } => e@ is SetPref && e@->SetPref_pref == pref && e@->SetPref_value == value@,
            Effect::SetFlag { pref, value } => e@ is SetFlag && e@->SetFlag_pref == pref && e@->SetFlag_value == value,
            Effect::RemovePref { pref } => e@ is RemovePref && e@->RemovePref_pref == pref,
            Effect::RefreshSettings => e@ is RefreshSettings,
            Effect::SelectHost { index } => e@ is SelectHost && e@->SelectHost_index == index,
            Effect::SelectSetting { index } => e@ is SelectSetting && e@->SelectSetting_index == index,
            Effect::PanelCommand { command, args } => e@ is PanelCommand && e@->PanelCommand_command == command@ && e@->PanelCommand_args == args@,
            Effect::ToggleMatch { index } => e@ is ToggleMatch && e@->ToggleMatch_index == index,
            Effect::Toast { level, text } => e@ is Toast && e@->Toast_level == level && e@->Toast_text == text@,
            Effect::Say { level, notice } => e@ is Say && e@->Say_level == level && e@->Say_notice == notice@,
        }),
{
}

/// A notice says what it was given to say.
pub proof fn law_notices_say_what_they_say(e: Notice<String>)
    ensures
        (match e {
            Notice::SidebarHidden => e@ is SidebarHidden,
            Notice::PlaceBlockedBySelectMode => e@ is PlaceBlockedBySelectMode,
            Notice::CopyInFlight => e@ is CopyInFlight,
            Notice::TreeOpInFlight => e@ is TreeOpInFlight,
            Notice::ClipboardEmpty => e@ is ClipboardEmpty,
            Notice::PasteIntoItself => e@ is PasteIntoItself,
            Notice::PasteNothingToDo => e@ is PasteNothingToDo,
            Notice::PasteCancelled => e@ is PasteCancelled,
            Notice::PathsCopied { count, relative } => e@ is PathsCopied && e@->PathsCopied_count == count && e@->PathsCopied_relative == relative,
            Notice::PathsNotUtf8 => e@ is PathsNotUtf8,
            Notice::Committed => e@ is Committed,
            Notice::CommitFailed { why } => e@ is CommitFailed && e@->CommitFailed_why == why@,
            Notice::CommitCrashed => e@ is CommitCrashed,
            Notice::Pushed { force } => e@ is Pushed && e@->Pushed_force == force,
            Notice::PushFailed { why } => e@ is PushFailed && e@->PushFailed_why == why@,
            Notice::BranchPublished => e@ is BranchPublished,
            Notice::PublishFailed { why } => e@ is PublishFailed && e@->PublishFailed_why == why@,
            Notice::PushCrashed => e@ is PushCrashed,
            Notice::Pulled => e@ is Pulled,
            Notice::PullFailed { why } => e@ is PullFailed && e@->PullFailed_why == why@,
            Notice::PullCrashed => e@ is PullCrashed,
            Notice::BranchCreated { branch } => e@ is BranchCreated && e@->BranchCreated_branch == branch@,
            Notice::FilesCopied { count } => e@ is FilesCopied && e@->FilesCopied_count == count,
            Notice::CopyFailed { why } => e@ is CopyFailed && e@->CopyFailed_why == why@,
            Notice::FsDone { kind } => e@ is FsDone && e@->FsDone_kind == kind@,
            Notice::FsFailed { kind, why } => e@ is FsFailed && e@->FsFailed_kind == kind@ && e@->FsFailed_why == why@,
            Notice::RevealUnsupported => e@ is RevealUnsupported,
            Notice::Replaced { summary } => e@ is Replaced && e@->Replaced_summary == summary,
        }),
{
}

} // verus!
