//! What crosses the wire says what was meant: the conversions keep every field
//! and every case, a request names its operation, and an answer tells the
//! outcome.
use crate::agent::{
    command_from, first_failure, fits, plans, same_database, tells, AgentIdentity, AgentStep,
    CommandModel, Outcome, Removal,
};
use crate::backend::{
    BackendError, ColumnInfo, ContainerAction, ContainerInfo, ContainerState, ContentMatchHit,
    ContentSearchRequest, DatabaseInfo, DirEntry, RepoDiscoverOpts, SqliteValue, WalkOpts,
};
use crate::convert::{
    column_dto, container_dto, dir_dto, entry_dto, hit_domain, hit_dto, info_dto, label_dto,
    line_dto, same_commit, same_hunk, same_snapshot, shown_patch, stash_dto, state_dto, status_dto,
    tag_dto, value_dto,
};
use crate::git::{
    CommitDetail, CommitInfo, DiffHunk, DiffLine, FileEntry, FileStatus, LineTag, RefLabel,
    StashEntry, StashPushOptions,
};
use crate::ops::{action_dto, named_repo, request_of, scoped, BackendOp};
use crate::paths::{child_path, cleaned};
use crate::proto::{
    CommitDetailDto, DatabaseInfoDto, DiffHunkDto, DirEntryDto, Envelope, Frame, Notification,
    Payload, RefLabelDto, RepoDiscoverResponseDto, Request, Response, SqliteValueDto,
    StatusSnapshotDto, WorkspaceRepoMetaDto, PROTOCOL_VERSION,
};
use crate::backend::{RepoDiscoverResponse, StatusSnapshot};
use crate::remote::{discovered, discovery_fault, hears, id_after, RemoteBackend, Routed};
use crate::remote_files::open_dirs;
use vstd::prelude::*;
use vstd::string::*;

verus! {

/// A status, a tag of a diff line, a state of a container and an action on one
/// go over the wire under their own names.
pub proof fn law_cases_keep_their_names(
    s: FileStatus,
    t: LineTag,
    c: ContainerState,
    a: ContainerAction,
)
    ensures
        status_dto(s) is Modified <==> s is Modified,
        status_dto(s) is Added <==> s is Added,
        status_dto(s) is Deleted <==> s is Deleted,
        status_dto(s) is Renamed <==> s is Renamed,
        status_dto(s) is Untracked <==> s is Untracked,
        tag_dto(t) is Context <==> t is Context,
        tag_dto(t) is Added <==> t is Added,
        tag_dto(t) is Removed <==> t is Removed,
        state_dto(c) is Running <==> c is Running,
        state_dto(c) is Exited <==> c is Exited,
        state_dto(c) is Paused <==> c is Paused,
        state_dto(c) is Restarting <==> c is Restarting,
        state_dto(c) is Created <==> c is Created,
        state_dto(c) is Dead <==> c is Dead,
        action_dto(a) is Start <==> a is Start,
        action_dto(a) is Stop <==> a is Stop,
        action_dto(a) is Restart <==> a is Restart,
{
}

/// A label and a value of a database go over the wire under their own names,
/// with what they hold.
pub proof fn law_labels_and_values_keep_their_names(l: RefLabel, v: SqliteValue)
    ensures
        label_dto(l) is Head <==> l is Head,
        label_dto(l) matches RefLabelDto::Branch(n) ==> l == RefLabel::Branch(n),
        label_dto(l) matches RefLabelDto::RemoteBranch(n) ==> l == RefLabel::RemoteBranch(n),
        label_dto(l) matches RefLabelDto::Tag(n) ==> l == RefLabel::Tag(n),
        value_dto(v) is Null <==> v is Null,
        value_dto(v) matches SqliteValueDto::Integer { value } ==> v == SqliteValue::Integer(value),
        value_dto(v) matches SqliteValueDto::Real { bits } ==> v == SqliteValue::Real(bits),
        value_dto(v) matches SqliteValueDto::Text { value, truncated } ==> v == (SqliteValue::Text {
            value,
            truncated,
        }),
        value_dto(v) matches SqliteValueDto::Blob { len } ==> v == (SqliteValue::Blob { len }),
{
}

/// Every field of a changed file, of a directory's row and of a column arrives
/// in its place.
pub proof fn law_file_fields_arrive(e: FileEntry, d: DirEntry, c: ColumnInfo)
    ensures
        entry_dto(e).path == e.path,
        entry_dto(e).additions == e.additions,
        entry_dto(e).deletions == e.deletions,
        entry_dto(e).status is Added <==> e.status is Added,
        entry_dto(e).status is Deleted <==> e.status is Deleted,
        dir_dto(d).name == d.name,
        dir_dto(d).is_dir == d.is_dir,
        column_dto(c).name == c.name,
        column_dto(c).decl_type == c.decl_type,
{
}

/// Every field of a line of a diff arrives in its place, and a hunk keeps its
/// header and its lines in their order.
pub proof fn law_diff_fields_arrive(l: DiffLine, h: DiffHunk, d: DiffHunkDto, i: int)
    requires
        same_hunk(h, d),
        0 <= i < d.lines@.len(),
    ensures
        line_dto(l).content == l.content,
        line_dto(l).old_lineno == l.old_lineno,
        line_dto(l).new_lineno == l.new_lineno,
        line_dto(l).tag is Added <==> l.tag is Added,
        line_dto(l).tag is Removed <==> l.tag is Removed,
        d.header == h.header,
        d.lines@.len() == h.lines@.len(),
        d.lines@[i].content == h.lines@[i].content,
        d.lines@[i].old_lineno == h.lines@[i].old_lineno,
        d.lines@[i].new_lineno == h.lines@[i].new_lineno,
        d.lines@[i].tag is Added <==> h.lines@[i].tag is Added,
        d.lines@[i].tag is Removed <==> h.lines@[i].tag is Removed,
{
    assert(line_dto(h.lines@[i]) == d.lines@[i]);
}

/// Every field of a commit arrives in its place, the committer's beside the
/// author's.
pub proof fn law_commit_fields_arrive(c: CommitInfo, x: CommitDetail, y: CommitDetailDto)
    requires
        same_commit(x, y),
    ensures
        info_dto(c).oid == c.oid,
        info_dto(c).short_oid == c.short_oid,
        info_dto(c).parents == c.parents,
        info_dto(c).author_name == c.author_name,
        info_dto(c).author_email == c.author_email,
        info_dto(c).time == c.time,
        info_dto(c).subject == c.subject,
        y.info.oid == x.info.oid,
        y.info.author_name == x.info.author_name,
        y.info.time == x.info.time,
        y.info.subject == x.info.subject,
        y.message == x.message,
        y.committer_name == x.committer_name,
        y.committer_time == x.committer_time,
        y.files@.len() == x.files@.len(),
{
}

/// Every field of a stash arrives in its place.
pub proof fn law_stash_fields_arrive(s: StashEntry)
    ensures
        stash_dto(s).index == s.index,
        stash_dto(s).stash_ref == s.stash_ref,
        stash_dto(s).message == s.message,
        stash_dto(s).created == s.created,
        stash_dto(s).branch == s.branch,
        stash_dto(s).files_changed == s.files_changed,
        stash_dto(s).insertions == s.insertions,
        stash_dto(s).deletions == s.deletions,
        stash_dto(s).includes_untracked == s.includes_untracked,
{
}

/// Every field of a container arrives in its place.
pub proof fn law_container_fields_arrive(c: ContainerInfo)
    ensures
        container_dto(c).id == c.id,
        container_dto(c).image == c.image,
        container_dto(c).command == c.command,
        container_dto(c).created == c.created,
        container_dto(c).status == c.status,
        container_dto(c).names == c.names,
        container_dto(c).ports == c.ports,
        container_dto(c).state is Running <==> c.state is Running,
{
}

/// A hit of a search arrives with its path, its line and its text; its range
/// keeps its start and its end, as far as 32 bits hold them.
pub proof fn law_hit_fields_arrive(h: ContentMatchHit)
    ensures
        hit_dto(h).path == h.path,
        hit_dto(h).display == h.display,
        hit_dto(h).line == h.line,
        hit_dto(h).line_text == h.line_text,
        h.byte_start <= u32::MAX ==> hit_dto(h).byte_range_start == h.byte_start,
        h.byte_end <= u32::MAX ==> hit_dto(h).byte_range_end == h.byte_end,
        hit_domain(hit_dto(h)).path == h.path,
        hit_domain(hit_dto(h)).byte_start == hit_dto(h).byte_range_start,
        hit_domain(hit_dto(h)).byte_end == hit_dto(h).byte_range_end,
{
}

/// The staged files arrive as the staged ones, the unstaged as the unstaged,
/// each with its path, its status and its counts.
pub proof fn law_status_arrives(s: StatusSnapshot, d: StatusSnapshotDto, i: int, j: int)
    requires
        same_snapshot(s, d),
        0 <= i < s.staged@.len(),
        0 <= j < s.unstaged@.len(),
    ensures
        d.staged@.len() == s.staged@.len(),
        d.unstaged@.len() == s.unstaged@.len(),
        d.branch_name == s.branch_name,
        d.ahead_behind == s.ahead_behind,
        d.staged@[i].path == s.staged@[i].path,
        d.staged@[i].additions == s.staged@[i].additions,
        d.staged@[i].deletions == s.staged@[i].deletions,
        d.unstaged@[j].path == s.unstaged@[j].path,
        d.unstaged@[j].additions == s.unstaged@[j].additions,
        d.unstaged@[j].deletions == s.unstaged@[j].deletions,
        d.unstaged@[j].status is Untracked <==> s.unstaged@[j].status is Untracked,
{
    assert(entry_dto(s.staged@[i]) == d.staged@[i]);
    assert(entry_dto(s.unstaged@[j]) == d.unstaged@[j]);
}

/// A patch that was cut is shown whole as far as it goes, with a line after it
/// that says so; a whole patch is shown as it is.
pub proof fn law_cut_patches_say_so(patch: Seq<char>)
    ensures
        shown_patch(patch, false) == patch,
        patch.is_prefix_of(shown_patch(patch, true)),
        shown_patch(patch, true).len() > patch.len(),
        shown_patch(patch, true)[patch.len() as int] == '\n',
{
    reveal_strlit("\n... stash patch truncated ...");
    assert(shown_patch(patch, true).take(patch.len() as int) == patch);
}

/// A request names its operation and hands on its arguments, each in its
/// place: in the workspace's own repository where none is named, in the named
/// one by the twin of the request.
pub proof fn law_request_names_its_operation(op: BackendOp)
    ensures
        (match request_of(op) {
            Request::ReadDir { path } => op == (BackendOp::ReadDir { path }),
            Request::ReadFile { path, max_bytes } => op == (BackendOp::ReadFile { path, max_bytes }),
            Request::ListContainers => op is ListContainers,
            Request::GitStatus => op == (BackendOp::GitStatus { repo: None }),
            Request::GitStatusFor { repo_root_rel } => op == (BackendOp::GitStatus { repo: Some(repo_root_rel) }),
            Request::StagedDiff { path, context_lines } => op == (BackendOp::StagedDiff { repo: None, path, context_lines }),
            Request::StagedDiffFor { repo_root_rel, path, context_lines } => op == (BackendOp::StagedDiff { repo: Some(repo_root_rel), path, context_lines }),
            Request::UnstagedDiff { path, context_lines } => op == (BackendOp::UnstagedDiff { repo: None, path, context_lines }),
            Request::UnstagedDiffFor { repo_root_rel, path, context_lines } => op == (BackendOp::UnstagedDiff { repo: Some(repo_root_rel), path, context_lines }),
            Request::UntrackedDiff { path } => op == (BackendOp::UntrackedDiff { repo: None, path }),
            Request::UntrackedDiffFor { repo_root_rel, path } => op == (BackendOp::UntrackedDiff { repo: Some(repo_root_rel), path }),
            Request::Stage { path } => op == (BackendOp::Stage { repo: None, path }),
            Request::StageFor { repo_root_rel, path } => op == (BackendOp::Stage { repo: Some(repo_root_rel), path }),
            Request::Unstage { path } => op == (BackendOp::Unstage { repo: None, path }),
            Request::UnstageFor { repo_root_rel, path } => op == (BackendOp::Unstage { repo: Some(repo_root_rel), path }),
            Request::Restore { path } => op == (BackendOp::Restore { path }),
            Request::RevertPath { path, is_staged } => op == (BackendOp::RevertPath { repo: None, path, is_staged }),
            Request::RevertPathFor { repo_root_rel, path, is_staged } => op == (BackendOp::RevertPath { repo: Some(repo_root_rel), path, is_staged }),
            Request::Push { force } => op == (BackendOp::Push { repo: None, force }),
            Request::PushFor { repo_root_rel, force } => op == (BackendOp::Push { repo: Some(repo_root_rel), force }),
            Request::PublishBranch => op == (BackendOp::PublishBranch { repo: None }),
            Request::PublishBranchFor { repo_root_rel } => op == (BackendOp::PublishBranch { repo: Some(repo_root_rel) }),
            Request::Pull => op == (BackendOp::Pull { repo: None }),
            Request::PullFor { repo_root_rel } => op == (BackendOp::Pull { repo: Some(repo_root_rel) }),
            Request::CheckoutBranch { branch } => op == (BackendOp::CheckoutBranch { repo: None, branch }),
            Request::CheckoutBranchFor { repo_root_rel, branch } => op == (BackendOp::CheckoutBranch { repo: Some(repo_root_rel), branch }),
            Request::CreateBranch { branch, base } => op == (BackendOp::CreateBranch { repo: None, branch, base }),
            Request::CreateBranchFor { repo_root_rel, branch, base } => op == (BackendOp::CreateBranch { repo: Some(repo_root_rel), branch, base }),
            Request::MergeBranch { branch } => op == (BackendOp::MergeBranch { repo: None, branch }),
            Request::MergeBranchFor { repo_root_rel, branch } => op == (BackendOp::MergeBranch { repo: Some(repo_root_rel), branch }),
            Request::ListStashes => op == (BackendOp::ListStashes { repo: None }),
            Request::ListStashesFor { repo_root_rel } => op == (BackendOp::ListStashes { repo: Some(repo_root_rel) }),
            Request::StashDetail { stash_ref } => op == (BackendOp::StashDetail { repo: None, stash_ref }),
            Request::StashDetailFor { repo_root_rel, stash_ref } => op == (BackendOp::StashDetail { repo: Some(repo_root_rel), stash_ref }),
            Request::StashApply { stash_ref, reinstate_index } => op == (BackendOp::StashApply { repo: None, stash_ref, reinstate_index }),
            Request::StashApplyFor { repo_root_rel, stash_ref, reinstate_index } => op == (BackendOp::StashApply { repo: Some(repo_root_rel), stash_ref, reinstate_index }),
            Request::StashPop { stash_ref, reinstate_index } => op == (BackendOp::StashPop { repo: None, stash_ref, reinstate_index }),
            Request::StashPopFor { repo_root_rel, stash_ref, reinstate_index } => op == (BackendOp::StashPop { repo: Some(repo_root_rel), stash_ref, reinstate_index }),
            Request::StashDrop { stash_ref } => op == (BackendOp::StashDrop { repo: None, stash_ref }),
            Request::StashDropFor { repo_root_rel, stash_ref } => op == (BackendOp::StashDrop { repo: Some(repo_root_rel), stash_ref }),
            Request::StashBranch { stash_ref, branch } => op == (BackendOp::StashBranch { repo: None, stash_ref, branch }),
            Request::StashBranchFor { repo_root_rel, stash_ref, branch } => op == (BackendOp::StashBranch { repo: Some(repo_root_rel), stash_ref, branch }),
            Request::Commit { message } => op == (BackendOp::Commit { repo: None, message }),
            Request::CommitFor { repo_root_rel, message } => op == (BackendOp::Commit { repo: Some(repo_root_rel), message }),
            Request::ListCommits { limit } => op == (BackendOp::ListCommits { repo: None, limit }),
            Request::ListCommitsFor { repo_root_rel, limit } => op == (BackendOp::ListCommits { repo: Some(repo_root_rel), limit }),
            Request::ListRefs => op == (BackendOp::ListRefs { repo: None }),
            Request::ListRefsFor { repo_root_rel } => op == (BackendOp::ListRefs { repo: Some(repo_root_rel) }),
            Request::HeadOid => op == (BackendOp::HeadOid { repo: None }),
            Request::HeadOidFor { repo_root_rel } => op == (BackendOp::HeadOid { repo: Some(repo_root_rel) }),
            Request::CommitDetail { oid } => op == (BackendOp::CommitDetail { repo: None, oid }),
            Request::CommitDetailFor { repo_root_rel, oid } => op == (BackendOp::CommitDetail { repo: Some(repo_root_rel), oid }),
            Request::CommitFileDiff { oid, path, context_lines } => op == (BackendOp::CommitFileDiff { repo: None, oid, path, context_lines }),
            Request::CommitFileDiffFor { repo_root_rel, oid, path, context_lines } => op == (BackendOp::CommitFileDiff { repo: Some(repo_root_rel), oid, path, context_lines }),
            Request::RangeFiles { oldest_oid, newest_oid } => op == (BackendOp::RangeFiles { repo: None, oldest_oid, newest_oid }),
            Request::RangeFilesFor { repo_root_rel, oldest_oid, newest_oid } => op == (BackendOp::RangeFiles { repo: Some(repo_root_rel), oldest_oid, newest_oid }),
            Request::RangeFileDiff { oldest_oid, newest_oid, path, context_lines } => op == (BackendOp::RangeFileDiff { repo: None, oldest_oid, newest_oid, path, context_lines }),
            Request::RangeFileDiffFor { repo_root_rel, oldest_oid, newest_oid, path, context_lines } => op == (BackendOp::RangeFileDiff { repo: Some(repo_root_rel), oldest_oid, newest_oid, path, context_lines }),
            Request::CreateFile { rel_path } => op == (BackendOp::CreateFile { rel_path }),
            Request::CreateDirAll { rel_path } => op == (BackendOp::CreateDirAll { rel_path }),
            Request::Rename { from_rel, to_rel } => op == (BackendOp::Rename { from_rel, to_rel }),
            Request::CopyFile { from_rel, to_rel } => op == (BackendOp::CopyFile { from_rel, to_rel }),
            Request::CopyDirRecursive { from_rel, to_rel } => op == (BackendOp::CopyDirRecursive { from_rel, to_rel }),
            Request::RemoveFile { rel_path } => op == (BackendOp::RemoveFile { rel_path }),
            Request::RemoveDirAll { rel_path } => op == (BackendOp::RemoveDirAll { rel_path }),
            Request::FileSize { rel_path } => op == (BackendOp::FileSize { rel_path }),
            Request::WriteFile { rel_path, content } => op == (BackendOp::WriteFile { rel_path, content }),
            Request::Trash { rel_paths } => op == (BackendOp::Trash { rel_paths }),
            Request::HardDelete { rel_paths } => op == (BackendOp::HardDelete { rel_paths }),
            Request::LoadDbInitial { rel_path, page_size } => op == (BackendOp::LoadDbInitial { rel_path, page_size }),
            Request::LoadDbPage { rel_path, table, offset, limit } => op == (BackendOp::LoadDbPage { rel_path, table, offset, limit }),
            _ => true,
        }),
{
}

/// A search, a walk, a discovery, a stash and an action on a container are
/// asked for with the options that were given.
pub proof fn law_options_are_handed_on(
    d: RepoDiscoverOpts,
    p: StashPushOptions,
    w: WalkOpts,
    r: ContentSearchRequest,
    id: String,
    action: ContainerAction,
)
    ensures
        request_of(BackendOp::DiscoverRepos { opts: d }) matches Request::DiscoverRepos { opts } && (
        opts.max_depth == d.max_depth && opts.include_nested == d.include_nested && opts.max_repos
            == d.max_repos),
        request_of(BackendOp::StashPush { repo: None, options: p }) matches Request::StashPush {
            options,
        } && (options.message == p.message && options.include_untracked == p.include_untracked
            && options.keep_index == p.keep_index && options.staged_only == p.staged_only
            && options.paths == p.paths),
        request_of(BackendOp::WalkRepoPaths { opts: w }) matches Request::WalkRepoPaths { opts } && (
        opts.include_hidden == w.include_hidden && opts.respect_gitignore == w.respect_gitignore
            && opts.max_files == w.max_files),
        request_of(BackendOp::SearchContent { request: r }) matches Request::SearchContent {
            request,
        } && (request.pattern == r.pattern && request.fixed_strings == r.fixed_strings
            && request.case_sensitive == r.case_sensitive && request.max_results == r.max_results
            && request.max_line_chars == r.max_line_chars),
        request_of(BackendOp::ContainerAction { id, action }) matches Request::ContainerAction {
            id: named,
            action: asked,
        } && (named == id && (asked is Start <==> action is Start) && (asked is Stop
            <==> action is Stop) && (asked is Restart <==> action is Restart)),
{
}

/// A stash in a named repository is asked for there, with its options.
pub proof fn law_stash_is_asked_for_in_its_repository(root: String, p: StashPushOptions)
    ensures
        request_of(
            BackendOp::StashPush { repo: Some(root), options: p },
        ) matches Request::StashPushFor { repo_root_rel, options } && (repo_root_rel == root
            && options.message == p.message && options.include_untracked == p.include_untracked
            && options.keep_index == p.keep_index && options.staged_only == p.staged_only
            && options.paths == p.paths),
{
}

/// A repository other than the workspace's own is named as it is.
pub proof fn law_other_repositories_are_named(root: String)
    ensures
        root@ != "."@ ==> named_repo(Some(root)) == Some(root),
        root@ == "."@ ==> named_repo(Some(root)) is None,
        named_repo(None) is None,
{
}

/// Naming the repository changes nothing else of an operation: it is the same
/// one, with the same arguments. One without a repository is not touched.
pub proof fn law_naming_keeps_the_operation(op: BackendOp)
    ensures
        (match op {
            BackendOp::GitStatus { repo } => scoped(op) == (BackendOp::GitStatus { repo: named_repo(repo) }),
            BackendOp::StagedDiff { repo, path, context_lines } => scoped(op) == (BackendOp::StagedDiff { repo: named_repo(repo), path, context_lines }),
            BackendOp::UnstagedDiff { repo, path, context_lines } => scoped(op) == (BackendOp::UnstagedDiff { repo: named_repo(repo), path, context_lines }),
            BackendOp::UntrackedDiff { repo, path } => scoped(op) == (BackendOp::UntrackedDiff { repo: named_repo(repo), path }),
            BackendOp::Stage { repo, path } => scoped(op) == (BackendOp::Stage { repo: named_repo(repo), path }),
            BackendOp::Unstage { repo, path } => scoped(op) == (BackendOp::Unstage { repo: named_repo(repo), path }),
            BackendOp::RevertPath { repo, path, is_staged } => scoped(op) == (BackendOp::RevertPath { repo: named_repo(repo), path, is_staged }),
            BackendOp::Push { repo, force } => scoped(op) == (BackendOp::Push { repo: named_repo(repo), force }),
            BackendOp::PublishBranch { repo } => scoped(op) == (BackendOp::PublishBranch { repo: named_repo(repo) }),
            BackendOp::Pull { repo } => scoped(op) == (BackendOp::Pull { repo: named_repo(repo) }),
            BackendOp::CheckoutBranch { repo, branch } => scoped(op) == (BackendOp::CheckoutBranch { repo: named_repo(repo), branch }),
            BackendOp::CreateBranch { repo, branch, base } => scoped(op) == (BackendOp::CreateBranch { repo: named_repo(repo), branch, base }),
            BackendOp::MergeBranch { repo, branch } => scoped(op) == (BackendOp::MergeBranch { repo: named_repo(repo), branch }),
            BackendOp::ListStashes { repo } => scoped(op) == (BackendOp::ListStashes { repo: named_repo(repo) }),
            BackendOp::StashDetail { repo, stash_ref } => scoped(op) == (BackendOp::StashDetail { repo: named_repo(repo), stash_ref }),
            BackendOp::StashPush { repo, options } => scoped(op) == (BackendOp::StashPush { repo: named_repo(repo), options }),
            BackendOp::StashApply { repo, stash_ref, reinstate_index } => scoped(op) == (BackendOp::StashApply { repo: named_repo(repo), stash_ref, reinstate_index }),
            BackendOp::StashPop { repo, stash_ref, reinstate_index } => scoped(op) == (BackendOp::StashPop { repo: named_repo(repo), stash_ref, reinstate_index }),
            BackendOp::StashDrop { repo, stash_ref } => scoped(op) == (BackendOp::StashDrop { repo: named_repo(repo), stash_ref }),
            BackendOp::StashBranch { repo, stash_ref, branch } => scoped(op) == (BackendOp::StashBranch { repo: named_repo(repo), stash_ref, branch }),
            BackendOp::Commit { repo, message } => scoped(op) == (BackendOp::Commit { repo: named_repo(repo), message }),
            BackendOp::ListCommits { repo, limit } => scoped(op) == (BackendOp::ListCommits { repo: named_repo(repo), limit }),
            BackendOp::ListRefs { repo } => scoped(op) == (BackendOp::ListRefs { repo: named_repo(repo) }),
            BackendOp::HeadOid { repo } => scoped(op) == (BackendOp::HeadOid { repo: named_repo(repo) }),
            BackendOp::CommitDetail { repo, oid } => scoped(op) == (BackendOp::CommitDetail { repo: named_repo(repo), oid }),
            BackendOp::CommitFileDiff { repo, oid, path, context_lines } => scoped(op) == (BackendOp::CommitFileDiff { repo: named_repo(repo), oid, path, context_lines }),
            BackendOp::RangeFiles { repo, oldest_oid, newest_oid } => scoped(op) == (BackendOp::RangeFiles { repo: named_repo(repo), oldest_oid, newest_oid }),
            BackendOp::RangeFileDiff { repo, oldest_oid, newest_oid, path, context_lines } => scoped(op) == (BackendOp::RangeFileDiff { repo: named_repo(repo), oldest_oid, newest_oid, path, context_lines }),
            _ => scoped(op) == op,
        }),
{
}

/// An outcome fits an operation exactly if it is what that operation gives: a
/// diff for the five that read one, a list of files for a range, and so on.
pub proof fn law_outcome_is_what_was_asked(op: BackendOp, o: Outcome)
    requires
        fits(op, o),
    ensures
        o is Dir <==> op is ReadDir,
        o is File <==> op is ReadFile,
        o is Repos <==> op is DiscoverRepos,
        o is Containers <==> op is ListContainers,
        o is Status <==> op is GitStatus,
        o is Diff <==> (op is StagedDiff || op is UnstagedDiff || op is UntrackedDiff
            || op is CommitFileDiff || op is RangeFileDiff),
        o is Stashes <==> op is ListStashes,
        o is StashDetail <==> op is StashDetail,
        o is Commits <==> op is ListCommits,
        o is Refs <==> op is ListRefs,
        o is HeadOid <==> op is HeadOid,
        o is CommitDetail <==> op is CommitDetail,
        o is Files <==> op is RangeFiles,
        o is Size <==> op is FileSize,
        o is Trash <==> op is Trash,
        o is Walk <==> op is WalkRepoPaths,
        o is SearchCompleted <==> op is SearchContent,
        o is Database <==> op is LoadDbInitial,
        o is Page <==> op is LoadDbPage,
{
}

/// An answer is of the kind of its outcome and says what it holds.
pub proof fn law_answer_tells_the_outcome(p: Payload, o: Outcome)
    requires
        tells(p, o),
    ensures
        p is Done <==> o is Done,
        p is Dir <==> o is Dir,
        p is Status <==> o is Status,
        p is Diff <==> o is Diff,
        p is Stashes <==> o is Stashes,
        p is Commits <==> o is Commits,
        p is Refs <==> o is Refs,
        p is Files <==> o is Files,
        p is Containers <==> o is Containers,
        o matches Outcome::File(f) ==> p == Payload::File(f),
        o matches Outcome::HeadOid(h) ==> p == Payload::HeadOid(h),
        o matches Outcome::Size(n) ==> p == Payload::Size(n),
        o matches Outcome::Trash { used_trash } ==> p->Trash_0.used_trash == used_trash,
        o matches Outcome::SearchCompleted { truncated } ==> p->SearchCompleted_0.truncated
            == truncated,
        o matches Outcome::Walk(w) ==> p->Walk_0.truncated == w.truncated && p->Walk_0.paths
            == w.paths,
        o matches Outcome::Repos(r) ==> p->Repos_0.truncated == r.truncated
            && p->Repos_0.repos@.len() == r.repos@.len(),
        o matches Outcome::Diff(d) ==> (p->Diff_0 is Some <==> d is Some),
        o matches Outcome::CommitDetail(d) ==> (p->CommitDetail_0 is Some <==> d is Some),
        o matches Outcome::Database(d) ==> (p->Database_0 is Some <==> d is Some),
        o matches Outcome::Dir(d) ==> p->Dir_0@.len() == d@.len(),
        o matches Outcome::Files(f) ==> p->Files_0@.len() == f@.len(),
{
}

/// A discovered repository is told by its root and its name.
pub proof fn law_repositories_are_told(p: Payload, o: Outcome, i: int)
    requires
        tells(p, o),
        o is Repos,
        0 <= i < o->Repos_0.repos@.len(),
    ensures
        p->Repos_0.repos@[i].repo_root_rel == o->Repos_0.repos@[i].repo_root_rel,
        p->Repos_0.repos@[i].display_name == o->Repos_0.repos@[i].display_name,
{
    assert(crate::agent::repo_dto(o->Repos_0.repos@[i]) == p->Repos_0.repos@[i]);
}

/// A database is told by its tables, the one that is selected and its size.
pub proof fn law_databases_are_told(d: DatabaseInfo, w: DatabaseInfoDto, i: int)
    requires
        same_database(d, w),
        0 <= i < d.tables@.len(),
    ensures
        w.tables@.len() == d.tables@.len(),
        w.tables@[i].name == d.tables@[i].name,
        w.tables@[i].row_count == d.tables@[i].row_count,
        w.tables@[i].columns@.len() == d.tables@[i].columns@.len(),
        d.selected_table <= u32::MAX ==> w.selected_table == d.selected_table,
        w.bytes_on_disk == d.bytes_on_disk,
        w.initial_page.rows@.len() == d.initial_page.rows@.len(),
{
    assert(crate::convert::same_table(d.tables@[i], w.tables@[i]));
}

/// The agent answers a handshake with what it is, a shutdown and a
/// subscription at once, a search never here; everything else it runs, under
/// the id of the request.
pub proof fn law_agent_plans(who: AgentIdentity, env: Envelope, r: AgentStep)
    requires
        plans(who, env, r),
    ensures
        env.body is Handshake ==> (r matches AgentStep::Respond(
            Response::Success { id, result: Payload::Handshake(h) },
        ) && (id == env.id && h.workdir == who.workdir && h.workdir_name == who.workdir_name
            && h.branch_name == who.branch_name && h.agent_version == who.agent_version
            && h.protocol_version == PROTOCOL_VERSION)),
        env.body is Shutdown ==> (r matches AgentStep::Respond(
            Response::Success { id, result },
        ) && (id == env.id && result is ShuttingDown)),
        env.body is Subscribe ==> (r matches AgentStep::Respond(
            Response::Success { id, result },
        ) && (id == env.id && result is Subscribed)),
        env.body is SearchContent ==> (r matches AgentStep::Respond(
            Response::Failure { id, code, .. },
        ) && (id == env.id && code is Protocol)),
        (env.body is Stage || env.body is Commit || env.body is ReadDir || env.body is Trash) ==> r
            is Run,
        r matches AgentStep::Run { id, op, .. } ==> (id == env.id && request_of(op) == env.body),
        r is Run <==> !(env.body is Handshake || env.body is Shutdown || env.body is Subscribe
            || env.body is SearchContent),
{
}

/// What a list of arguments means after a part of it was read without a fault
/// is what the rest means, given what that part said.
proof fn lemma_read_on(
    args: Seq<Seq<char>>,
    tail: Seq<Seq<char>>,
    i: int,
    stdio: bool,
    workdir: Option<Seq<char>>,
)
    requires
        0 <= i <= args.len(),
        command_from(args, i, stdio, workdir) is Serve,
    ensures
        ({
            let m = command_from(args, i, stdio, workdir);
            command_from(args + tail, i, stdio, workdir) == command_from(
                args + tail,
                args.len() as int,
                m->stdio,
                m->workdir,
            )
        }),
    decreases args.len() - i,
{
    if i < args.len() {
        assert((args + tail)[i] == args[i]);
        if args[i] == "--stdio"@ {
            lemma_read_on(args, tail, i + 1, true, workdir);
        } else if args[i] == "--workdir"@ {
            assert((args + tail)[i + 1] == args[i + 1]);
            lemma_read_on(args, tail, i + 2, stdio, Some(args[i + 1]));
        }
    }
}

/// The agent's command line, argument by argument: none serves nothing yet,
/// `--stdio` serves over the standard streams, `--workdir` with a path serves
/// there, the last one counting, and the questions are answered instead.
pub proof fn law_agent_arguments(args: Seq<Seq<char>>, x: Seq<char>)
    requires
        command_from(args, 0, false, None) is Serve,
    ensures
        ({
            let m = command_from(args, 0, false, None);
            let stdio = command_from(args + seq!["--stdio"@], 0, false, None);
            let there = command_from(args + seq!["--workdir"@, x], 0, false, None);
            &&& command_from(Seq::empty(), 0, false, None) == (CommandModel::Serve {
                stdio: false,
                workdir: None,
            })
            &&& stdio == (CommandModel::Serve { stdio: true, workdir: m->workdir })
            &&& there == (CommandModel::Serve { stdio: m->stdio, workdir: Some(x) })
            &&& command_from(args + seq!["--workdir"@], 0, false, None) is Fault
            &&& command_from(args + seq!["--version"@, x], 0, false, None) is PrintVersion
            &&& command_from(args + seq!["--protocol-version"@, x], 0, false, None)
                is PrintProtocolVersion
            &&& command_from(args + seq!["--help"@, x], 0, false, None) is PrintUsage
            &&& command_from(args + seq!["-h"@, x], 0, false, None) is PrintUsage
            &&& x.len() == 0 ==> command_from(args + seq![x], 0, false, None) is Fault
        }),
{
    reveal_strlit("--stdio");
    reveal_strlit("--workdir");
    reveal_strlit("--version");
    reveal_strlit("--protocol-version");
    reveal_strlit("--help");
    reveal_strlit("-h");
    let m = command_from(args, 0, false, None);
    let n = args.len() as int;
    let s = args + seq!["--stdio"@];
    lemma_read_on(args, seq!["--stdio"@], 0, false, None);
    assert(s[n] == "--stdio"@);
    assert(command_from(s, n + 1, true, m->workdir) == (CommandModel::Serve {
        stdio: true,
        workdir: m->workdir,
    }));
    let w = args + seq!["--workdir"@, x];
    lemma_read_on(args, seq!["--workdir"@, x], 0, false, None);
    assert("--workdir"@.len() != "--stdio"@.len());
    assert(w[n] == "--workdir"@ && w[n + 1] == x);
    assert(command_from(w, n + 2, m->stdio, Some(x)) == (CommandModel::Serve {
        stdio: m->stdio,
        workdir: Some(x),
    }));
    lemma_read_on(args, seq!["--workdir"@], 0, false, None);
    assert((args + seq!["--workdir"@])[n] == "--workdir"@);
    assert("--version"@[2] == 'v' && "--workdir"@[2] == 'w');
    lemma_read_on(args, seq!["--version"@, x], 0, false, None);
    assert((args + seq!["--version"@, x])[n] == "--version"@);
    lemma_read_on(args, seq!["--protocol-version"@, x], 0, false, None);
    assert((args + seq!["--protocol-version"@, x])[n] == "--protocol-version"@);
    lemma_read_on(args, seq!["--help"@, x], 0, false, None);
    assert((args + seq!["--help"@, x])[n] == "--help"@);
    lemma_read_on(args, seq!["-h"@, x], 0, false, None);
    assert((args + seq!["-h"@, x])[n] == "-h"@);
    lemma_read_on(args, seq![x], 0, false, None);
    assert((args + seq![x])[n] == x);
}

/// Removals report nothing exactly if each of them succeeded; else they report
/// the first that failed, with its path and its fault.
pub proof fn law_first_failed_removal_is_reported(v: Seq<Removal>)
    ensures
        first_failure(v) is None <==> forall|i: int| 0 <= i < v.len() ==> (#[trigger] v[i]).error
            is None,
        first_failure(v) matches Some(text) ==> exists|i: int|
            0 <= i < v.len() && (#[trigger] v[i]).error is Some && text == "delete "@ + v[i].path@
                + ": "@ + v[i].error->0@ && (forall|j: int|
                0 <= j < i ==> (#[trigger] v[j]).error is None),
    decreases v.len(),
{
    if v.len() > 0 && v[0].error is None {
        let t = v.drop_first();
        law_first_failed_removal_is_reported(t);
        if first_failure(t) is None {
            assert forall|i: int| 0 <= i < v.len() implies (#[trigger] v[i]).error is None by {
                if i > 0 {
                    assert(t[i - 1] == v[i]);
                }
            }
        } else {
            let k = choose|i: int|
                0 <= i < t.len() && (#[trigger] t[i]).error is Some && first_failure(t)->0
                    == "delete "@ + t[i].path@ + ": "@ + t[i].error->0@ && (forall|j: int|
                    0 <= j < i ==> (#[trigger] t[j]).error is None);
            assert(v[k + 1] == t[k]);
            assert forall|j: int| 0 <= j < k + 1 implies (#[trigger] v[j]).error is None by {
                if j > 0 {
                    assert(t[j - 1] == v[j]);
                }
            }
        }
    } else if v.len() > 0 {
        assert(v[0].error is Some);
    }
}

/// A response reaches the request that waits for it and settles that one
/// alone; a response that nobody waits for is dropped.
pub proof fn law_responses_reach_their_request(
    s: RemoteBackend,
    t: RemoteBackend,
    resp: Response,
    id: u64,
    r: Routed,
)
    requires
        s.frame_routed(t, Frame::Response(resp), r),
        match resp {
            Response::Success { id: i, .. } => i == id,
            Response::Failure { id: i, .. } => i == id,
        },
    ensures
        s.pending@.contains(id) ==> r == Routed::Response(resp),
        !s.pending@.contains(id) ==> r is Dropped,
        forall|k: u64| #[trigger] t.pending@.contains(k) <==> s.pending@.contains(k) && k != id,
        t.search_chunks == s.search_chunks,
        t.next_id == s.next_id,
        t.workdir == s.workdir,
        t.branch_name_cache == s.branch_name_cache,
{
}

/// A notification changes nothing on this side. Hits reach the search that
/// wants them, and are dropped once it is over; a line of the agent's log
/// comes with its level and its message.
pub proof fn law_notifications_are_routed(
    s: RemoteBackend,
    t: RemoteBackend,
    note: Notification,
    r: Routed,
)
    requires
        s.frame_routed(t, Frame::Notification(note), r),
    ensures
        t == s,
        note is FsChanged <==> r is FsChanged,
        note matches Notification::AgentLog { level, message } ==> r == (Routed::Log {
            level,
            message,
        }),
        note matches Notification::SearchChunk { request_id, hits } ==> ((
        s.search_chunks@.contains(request_id) ==> r == (Routed::Chunk { request_id, hits })) && (
        !s.search_chunks@.contains(request_id) ==> r is Dropped)),
{
}

/// The status of the workspace's own repository renews the branch that is
/// shown; that of another one, and every other answer, leaves it.
pub proof fn law_only_the_own_status_renews_the_branch(
    s: RemoteBackend,
    t: RemoteBackend,
    p: Payload,
    repo: Option<String>,
    roots: Seq<Result<String, BackendError>>,
    r: Result<Outcome, BackendError>,
)
    requires
        s.heard(t, p, repo, roots, r),
    ensures
        p matches Payload::Status(d) ==> (repo is None ==> t.branch_name_cache == d.branch_name),
        repo is Some || !(p is Status) ==> t.branch_name_cache == s.branch_name_cache,
        t.workdir == s.workdir,
        t.pending == s.pending,
        t.next_id == s.next_id,
        !(p is Repos) ==> r is Ok,
        p is Status ==> (r matches Ok(o) && o is Status),
{
}

/// A stash that arrives shows its patch, and that it was cut where it was; a
/// database keeps the table that is selected.
pub proof fn law_answers_are_heard(p: Payload, o: Outcome)
    requires
        hears(p, o),
    ensures
        p matches Payload::StashDetail(d) ==> (o matches Outcome::StashDetail(s) && (
        s.entry.stash_ref == d.entry.stash_ref && s.entry.message == d.entry.message
            && s.entry.insertions == d.entry.insertions && s.entry.deletions == d.entry.deletions
            && (!d.patch_truncated ==> s.patch@ == d.patch@) && (d.patch_truncated
            ==> d.patch@.is_prefix_of(s.patch@) && s.patch@.len() > d.patch@.len()))),
        p matches Payload::Database(Some(d)) ==> (o matches Outcome::Database(Some(i)) && (
        i.selected_table == d.selected_table && i.bytes_on_disk == d.bytes_on_disk
            && i.tables@.len() == d.tables@.len())),
        (p is ShuttingDown || p is Subscribed || p is Handshake) ==> o is Done,
        p matches Payload::Size(n) ==> o == Outcome::Size(n),
        p matches Payload::File(f) ==> o == Outcome::File(f),
{
    if let Payload::StashDetail(d) = p {
        law_cut_patches_say_so(d.patch@);
    }
}

/// The first fault from position `i` on is there, and nothing before it is at
/// fault.
proof fn lemma_discovery_fault(
    repos: Seq<WorkspaceRepoMetaDto>,
    roots: Seq<Result<String, BackendError>>,
    i: int,
)
    requires
        0 <= i,
    ensures
        (match discovery_fault(repos, roots, i) {
            Some(k) => i <= k < repos.len() && (repos[k].repo_root_rel@.len() == 0 || roots[k]
                is Err) && (forall|j: int|
                i <= j < k ==> (#[trigger] repos[j]).repo_root_rel@.len() > 0 && roots[j] is Ok),
            None => forall|j: int|
                i <= j < repos.len() ==> (#[trigger] repos[j]).repo_root_rel@.len() > 0 && roots[j]
                    is Ok,
        }),
    decreases repos.len() - i,
{
    if i < repos.len() {
        lemma_discovery_fault(repos, roots, i + 1);
    }
}

/// A discovery succeeds exactly if every root is there and could be
/// normalised; it then lists each repository by its normalised root and its
/// name, in the order in which they came.
pub proof fn law_discovery_needs_every_root(
    resp: RepoDiscoverResponseDto,
    roots: Seq<Result<String, BackendError>>,
    r: Result<RepoDiscoverResponse, BackendError>,
)
    requires
        discovered(resp, roots, r),
    ensures
        r is Ok <==> forall|j: int|
            0 <= j < resp.repos@.len() ==> (#[trigger] resp.repos@[j]).repo_root_rel@.len() > 0
                && roots[j] is Ok,
        r matches Ok(out) ==> (out.truncated == resp.truncated && out.repos@.len()
            == resp.repos@.len() && forall|j: int|
            0 <= j < resp.repos@.len() ==> (#[trigger] out.repos@[j]).display_name
                == resp.repos@[j].display_name && Ok::<String, BackendError>(
                out.repos@[j].repo_root_rel,
            ) == roots[j]),
{
    lemma_discovery_fault(resp.repos@, roots, 0);
}

/// Ids go up by one, and after the last one they start over.
pub proof fn law_ids_go_up_by_one(id: u64)
    ensures
        id < u64::MAX ==> id_after(id) == id + 1,
        id_after(u64::MAX) == 0,
{
}

/// The open directories of a listing are those that are directories, are open
/// and are not the repository's own.
pub proof fn law_open_directories_are_read(
    dir: Seq<char>,
    entries: Seq<DirEntryDto>,
    expanded: Set<Seq<char>>,
    p: Seq<char>,
)
    ensures
        open_dirs(dir, entries, expanded).contains(p) <==> exists|i: int|
            0 <= i < entries.len() && (#[trigger] entries[i]).is_dir && entries[i].name@ != ".git"@
                && expanded.contains(cleaned(child_path(dir, entries[i].name@))) && p == child_path(
                dir,
                entries[i].name@,
            ),
        open_dirs(dir, entries, expanded).len() <= entries.len(),
    decreases entries.len(),
{
    if entries.len() > 0 {
        let e = entries.last();
        let t = entries.drop_last();
        let rest = open_dirs(dir, t, expanded);
        law_open_directories_are_read(dir, t, expanded, p);
        let all = open_dirs(dir, entries, expanded);
        if rest.contains(p) {
            let i = choose|i: int|
                0 <= i < t.len() && (#[trigger] t[i]).is_dir && t[i].name@ != ".git"@
                    && expanded.contains(cleaned(child_path(dir, t[i].name@))) && p == child_path(
                    dir,
                    t[i].name@,
                );
            assert(entries[i] == t[i]);
            let k = choose|k: int| 0 <= k < rest.len() && rest[k] == p;
            assert(all[k] == p);
        }
        if exists|i: int|
            0 <= i < entries.len() && (#[trigger] entries[i]).is_dir && entries[i].name@ != ".git"@
                && expanded.contains(cleaned(child_path(dir, entries[i].name@))) && p == child_path(
                dir,
                entries[i].name@,
            ) {
            let i = choose|i: int|
                0 <= i < entries.len() && (#[trigger] entries[i]).is_dir && entries[i].name@
                    != ".git"@ && expanded.contains(cleaned(child_path(dir, entries[i].name@))) && p
                    == child_path(dir, entries[i].name@);
            if i < t.len() {
                assert(t[i] == entries[i]);
            } else {
                assert(all.last() == p);
            }
        }
        if all.contains(p) && !rest.contains(p) {
            let k = choose|k: int| 0 <= k < all.len() && all[k] == p;
            if k < rest.len() {
                assert(rest[k] == p);
            }
            assert(entries[entries.len() - 1] == e);
        }
    } else {
        assert(open_dirs(dir, entries, expanded).len() == 0);
    }
}

} // verus!
