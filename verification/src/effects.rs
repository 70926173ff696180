//! What the application state asks its host to do. Every effect is performed
//! in order, and those that start background work carry the generation under
//! which their result comes back.
use crate::backend::RepoDiscoverOpts;
use crate::text::opt_view;
use vstd::prelude::*;

verus! {

#[derive(Debug, Clone, Copy, PartialEq, Eq, Structural)]
pub enum ToastLevel {
    Info,
    Warn,
    Error,
}

/// The settings that survive a session.
#[derive(Debug, Clone, Copy, PartialEq, Eq, Structural)]
pub enum Pref {
    DiffLayout,
    DiffMode,
    StatusTreeMode,
    CommitDiffLayout,
    CommitDiffMode,
    CommitFilesTreeMode,
    SelectedRepo,
}

impl Pref {
    pub open spec fn name(self) -> Seq<char> {
        match self {
            Pref::DiffLayout => "diff.layout"@,
            Pref::DiffMode => "diff.mode"@,
            Pref::StatusTreeMode => "status.tree_mode"@,
            Pref::CommitDiffLayout => "commit.diff_layout"@,
            Pref::CommitDiffMode => "commit.diff_mode"@,
            Pref::CommitFilesTreeMode => "commit.files_tree_mode"@,
            Pref::SelectedRepo => "status.selected_repo"@,
        }
    }

    /// The name under which the setting is kept.
    pub fn key(self) -> (r: &'static str)
        ensures
            r@ == self.name(),
    {
        match self {
            Pref::DiffLayout => "diff.layout",
            Pref::DiffMode => "diff.mode",
            Pref::StatusTreeMode => "status.tree_mode",
            Pref::CommitDiffLayout => "commit.diff_layout",
            Pref::CommitDiffMode => "commit.diff_mode",
            Pref::CommitFilesTreeMode => "commit.files_tree_mode",
            Pref::SelectedRepo => "status.selected_repo",
        }
    }
}

#[derive(Debug, Clone, Copy, PartialEq, Eq, Structural)]
pub struct ReplaceCounts {
    pub lines_replaced: usize,
    pub files_changed: usize,
    pub skipped_stale: usize,
    pub skipped_too_large: usize,
    pub errors: usize,
}

/// Messages whose wording depends on the user's language.
#[derive(Debug)]
#[allow(inconsistent_fields)]
pub enum Notice<S> {
    /// The hint that shows how a hidden sidebar comes back.
    SidebarHidden,
    PlaceBlockedBySelectMode,
    CopyInFlight,
    TreeOpInFlight,
    ClipboardEmpty,
    PasteIntoItself,
    PasteNothingToDo,
    PasteCancelled,
    PathsCopied { count: usize, relative: bool },
    PathsNotUtf8,
    Committed,
    CommitFailed { why: S },
    CommitCrashed,
    Pushed { force: bool },
    PushFailed { why: S },
    BranchPublished,
    PublishFailed { why: S },
    PushCrashed,
    Pulled,
    PullFailed { why: S },
    PullCrashed,
    BranchCreated { branch: S },
    FilesCopied { count: usize },
    CopyFailed { why: S },
    /// An operation on the file tree is done; `kind` is the operation, as the host names it.
    FsDone { kind: S },
    FsFailed { kind: S, why: S },
    RevealUnsupported,
    /// How a replacement over many files went.
    Replaced { summary: ReplaceCounts },
}

impl View for Notice<String> {
    type V = Notice<Seq<char>>;

    open spec fn view(&self) -> Notice<Seq<char>> {
        match *self {
            Notice::SidebarHidden => Notice::SidebarHidden,
            Notice::PlaceBlockedBySelectMode => Notice::PlaceBlockedBySelectMode,
            Notice::CopyInFlight => Notice::CopyInFlight,
            Notice::TreeOpInFlight => Notice::TreeOpInFlight,
            Notice::ClipboardEmpty => Notice::ClipboardEmpty,
            Notice::PasteIntoItself => Notice::PasteIntoItself,
            Notice::PasteNothingToDo => Notice::PasteNothingToDo,
            Notice::PasteCancelled => Notice::PasteCancelled,
            Notice::PathsCopied { count, relative } => Notice::PathsCopied {
                count, relative,
            },
            Notice::PathsNotUtf8 => Notice::PathsNotUtf8,
            Notice::Committed => Notice::Committed,
            Notice::CommitFailed { why } => Notice::CommitFailed {
                why: why@,
            },
            Notice::CommitCrashed => Notice::CommitCrashed,
            Notice::Pushed { force } => Notice::Pushed {
                force,
            },
            Notice::PushFailed { why } => Notice::PushFailed {
                why: why@,
            },
            Notice::BranchPublished => Notice::BranchPublished,
            Notice::PublishFailed { why } => Notice::PublishFailed {
                why: why@,
            },
            Notice::PushCrashed => Notice::PushCrashed,
            Notice::Pulled => Notice::Pulled,
            Notice::PullFailed { why } => Notice::PullFailed {
                why: why@,
            },
            Notice::PullCrashed => Notice::PullCrashed,
            Notice::BranchCreated { branch } => Notice::BranchCreated {
                branch: branch@,
            },
            Notice::FilesCopied { count } => Notice::FilesCopied {
                count,
            },
            Notice::CopyFailed { why } => Notice::CopyFailed {
                why: why@,
            },
            Notice::FsDone { kind } => Notice::FsDone {
                kind: kind@,
            },
            Notice::FsFailed { kind, why } => Notice::FsFailed {
                kind: kind@, why: why@,
            },
            Notice::RevealUnsupported => Notice::RevealUnsupported,
            Notice::Replaced { summary } => Notice::Replaced {
                summary,
            },
        }
    }
}

/// One thing for the host to do. `S` is the type of its texts.
#[derive(Debug)]
#[allow(inconsistent_fields)]
pub enum Effect<S> {
    RefreshStatus { generation: u64, repo: S },
    DiscoverRepos { generation: u64, opts: RepoDiscoverOpts },
    /// Walk the expanded directories again; select `select` if it is still there.
    RebuildTree { generation: u64, select: Option<S>, selected_idx: usize },
    LoadPreview { generation: u64, path: S, wants_image: bool },
    PrefetchPreview { path: S, wants_image: bool },
    LoadDbPage { path: S, table: S, offset: u64, limit: u32 },
    LoadDiff { generation: u64, repo: S, path: S, staged: bool, context: u32 },
    LoadStashDetail { generation: u64, repo: S, stash_ref: S },
    RefreshGraph { generation: u64, repo: S, limit: usize },
    LoadCommitDetail { generation: u64, repo: S, oid: S },
    LoadCommitRange { generation: u64, repo: S, oldest: S, newest: S },
    LoadCommitFileDiff { generation: u64, repo: S, oid: S, path: S, context: u32 },
    LoadRangeFileDiff { generation: u64, repo: S, oldest: S, newest: S, path: S, context: u32 },
    SearchAll { generation: u64, query: S },
    CancelSearch,
    /// Bring the selected search hit into the preview.
    ShowSearchHit,
    /// Search for the query again, with every hit included.
    ReloadSearch,
    /// Have the file index of the quick-open list rebuilt when it is next opened.
    StaleQuickOpen,
    Commit { repo: S, message: S },
    Push { repo: S, force: bool },
    PublishBranch { repo: S },
    Pull { repo: S },
    /// Stage a path. What follows is told to the panel where it stands alone;
    /// a bulk operation reads the status itself.
    Stage { repo: S, path: S, alone: bool },
    Unstage { repo: S, path: S, alone: bool },
    Revert { repo: S, path: S, staged: bool },
    Checkout { repo: S, branch: S },
    CreateBranch { repo: S, branch: S, base: Option<S> },
    StashBranch { repo: S, stash_ref: S, branch: S },
    CreateFile { generation: u64, path: S, name: S },
    CreateFolder { generation: u64, path: S, name: S },
    Rename { generation: u64, old_path: S, new_path: S, old_name: S, new_name: S },
    Trash { generation: u64, path: S, name: S },
    HardDelete { generation: u64, path: S, name: S },
    RevealInFinder { path: S },
    /// Put a text on the system clipboard; `count` paths, relative or not.
    CopyText { text: S, count: usize, relative: bool },
    SetPref { pref: Pref, value: S },
    SetFlag { pref: Pref, value: bool },
    RemovePref { pref: Pref },
    RefreshSettings,
    /// Move the list of hosts to a row and ask for a path on it.
    SelectHost { index: usize },
    SelectSetting { index: usize },
    /// A click on a command of the git panels.
    PanelCommand { command: S, args: S },
    /// Take a search hit out of the replacement, or back in.
    ToggleMatch { index: usize },
    Toast { level: ToastLevel, text: S },
    Say { level: ToastLevel, notice: Notice<S> },
}

impl View for Effect<String> {
    type V = Effect<Seq<char>>;

    open spec fn view(&self) -> Effect<Seq<char>> {
        match *self {
            Effect::RefreshStatus { generation, repo } => Effect::RefreshStatus {
                generation, repo: repo@,
            },
            Effect::DiscoverRepos { generation, opts } => Effect::DiscoverRepos {
                generation, opts,
            },
            Effect::RebuildTree { generation, select, selected_idx } => Effect::RebuildTree {
                generation, select: opt_view(select), selected_idx,
            },
            Effect::LoadPreview { generation, path, wants_image } => Effect::LoadPreview {
                generation, path: path@, wants_image,
            },
            Effect::PrefetchPreview { path, wants_image } => Effect::PrefetchPreview {
                path: path@, wants_image,
            },
            Effect::LoadDbPage { path, table, offset, limit } => Effect::LoadDbPage {
                path: path@, table: table@, offset, limit,
            },
            Effect::LoadDiff { generation, repo, path, staged, context } => Effect::LoadDiff {
                generation, repo: repo@, path: path@, staged, context,
            },
            Effect::LoadStashDetail { generation, repo, stash_ref } => Effect::LoadStashDetail {
                generation, repo: repo@, stash_ref: stash_ref@,
            },
            Effect::RefreshGraph { generation, repo, limit } => Effect::RefreshGraph {
                generation, repo: repo@, limit,
            },
            Effect::LoadCommitDetail { generation, repo, oid } => Effect::LoadCommitDetail {
                generation, repo: repo@, oid: oid@,
            },
            Effect::LoadCommitRange { generation, repo, oldest, newest } => Effect::LoadCommitRange {
                generation, repo: repo@, oldest: oldest@, newest: newest@,
            },
            Effect::LoadCommitFileDiff { generation, repo, oid, path, context } => Effect::LoadCommitFileDiff {
                generation, repo: repo@, oid: oid@, path: path@, context,
            },
            Effect::LoadRangeFileDiff { generation, repo, oldest, newest, path, context } => Effect::LoadRangeFileDiff {
                generation, repo: repo@, oldest: oldest@, newest: newest@, path: path@, context,
            },
            Effect::SearchAll { generation, query } => Effect::SearchAll {
                generation, query: query@,
            },
            Effect::CancelSearch => Effect::CancelSearch,
            Effect::ShowSearchHit => Effect::ShowSearchHit,
            Effect::ReloadSearch => Effect::ReloadSearch,
            Effect::StaleQuickOpen => Effect::StaleQuickOpen,
            Effect::Commit { repo, message } => Effect::Commit {
                repo: repo@, message: message@,
            },
            Effect::Push { repo, force } => Effect::Push {
                repo: repo@, force,
            },
            Effect::PublishBranch { repo } => Effect::PublishBranch {
                repo: repo@,
            },
            Effect::Pull { repo } => Effect::Pull {
                repo: repo@,
            },
            Effect::Stage { repo, path, alone } => Effect::Stage {
                repo: repo@, path: path@, alone,
            },
            Effect::Unstage { repo, path, alone } => Effect::Unstage {
                repo: repo@, path: path@, alone,
            },
            Effect::Revert { repo, path, staged } => Effect::Revert {
                repo: repo@, path: path@, staged,
            },
            Effect::Checkout { repo, branch } => Effect::Checkout {
                repo: repo@, branch: branch@,
            },
            Effect::CreateBranch { repo, branch, base } => Effect::CreateBranch {
                repo: repo@, branch: branch@, base: opt_view(base),
            },
            Effect::StashBranch { repo, stash_ref, branch } => Effect::StashBranch {
                repo: repo@, stash_ref: stash_ref@, branch: branch@,
            },
            Effect::CreateFile { generation, path, name } => Effect::CreateFile {
                generation, path: path@, name: name@,
            },
            Effect::CreateFolder { generation, path, name } => Effect::CreateFolder {
                generation, path: path@, name: name@,
            },
            Effect::Rename { generation, old_path, new_path, old_name, new_name } => Effect::Rename {
                generation, old_path: old_path@, new_path: new_path@, old_name: old_name@, new_name: new_name@,
            },
            Effect::Trash { generation, path, name } => Effect::Trash {
                generation, path: path@, name: name@,
            },
            Effect::HardDelete { generation, path, name } => Effect::HardDelete {
                generation, path: path@, name: name@,
            },
            Effect::RevealInFinder { path } => Effect::RevealInFinder {
                path: path@,
            },
            Effect::CopyText { text, count, relative } => Effect::CopyText {
                text: text@, count, relative,
            },
            Effect::SetPref { pref, value } => Effect::SetPref {
                pref, value: value@,
            },
            Effect::SetFlag { pref, value } => Effect::SetFlag {
                pref, value,
            },
            Effect::RemovePref { pref } => Effect::RemovePref {
                pref,
            },
            Effect::RefreshSettings => Effect::RefreshSettings,
            Effect::SelectHost { index } => Effect::SelectHost {
                index,
            },
            Effect::SelectSetting { index } => Effect::SelectSetting {
                index,
            },
            Effect::PanelCommand { command, args } => Effect::PanelCommand {
                command: command@, args: args@,
            },
            Effect::ToggleMatch { index } => Effect::ToggleMatch {
                index,
            },
            Effect::Toast { level, text } => Effect::Toast {
                level, text: text@,
            },
            Effect::Say { level, notice } => Effect::Say {
                level, notice: notice@,
            },
        }
    }
}

/// The effects asked for so far, in order.
#[derive(Debug)]
pub struct Effects {
    pub list: Vec<Effect<String>>,
}

impl View for Effects {
    type V = Seq<Effect<Seq<char>>>;

    open spec fn view(&self) -> Seq<Effect<Seq<char>>> {
        self.list@.map_values(|e: Effect<String>| e@)
    }
}

impl Effects {
    pub fn new() -> (r: Self)
        ensures
            r@ == Seq::<Effect<Seq<char>>>::empty(),
    {
        let r = Effects { list: Vec::new() };
        assert(r@ =~= Seq::<Effect<Seq<char>>>::empty());
        r
    }

    pub fn emit(&mut self, e: Effect<String>)
        ensures
            final(self)@ == old(self)@.push(e@),
    {
        let ghost before = self.list@;
        self.list.push(e);
        assert(self@ =~= old(self)@.push(e@));
    }
}

} // verus!
