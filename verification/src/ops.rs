//! The operations that a backend performs, and their requests on the wire.
//!
//! An operation that can run in a child repository names it; without one it
//! runs in the workspace itself. On the wire the two are different requests.
use crate::backend::{ContainerAction, ContentSearchRequest, RepoDiscoverOpts, WalkOpts};
use crate::git::StashPushOptions;
use crate::proto::{
    ContainerActionDto, ContentSearchRequestDto, RepoDiscoverOptsDto, Request, StashPushOptionsDto,
    WalkOptsDto,
};
use crate::text::same_str;
use vstd::prelude::*;

verus! {

#[allow(inconsistent_fields)]
#[derive(Debug)]
pub enum BackendOp {
    ReadDir { path: String },
    ReadFile { path: String, max_bytes: u64 },
    DiscoverRepos { opts: RepoDiscoverOpts },
    ListContainers,
    ContainerAction { id: String, action: ContainerAction },
    GitStatus { repo: Option<String> },
    StagedDiff { repo: Option<String>, path: String, context_lines: u32 },
    UnstagedDiff { repo: Option<String>, path: String, context_lines: u32 },
    UntrackedDiff { repo: Option<String>, path: String },
    Stage { repo: Option<String>, path: String },
    Unstage { repo: Option<String>, path: String },
    Restore { path: String },
    RevertPath { repo: Option<String>, path: String, is_staged: bool },
    Push { repo: Option<String>, force: bool },
    PublishBranch { repo: Option<String> },
    Pull { repo: Option<String> },
    CheckoutBranch { repo: Option<String>, branch: String },
    CreateBranch { repo: Option<String>, branch: String, base: Option<String> },
    MergeBranch { repo: Option<String>, branch: String },
    ListStashes { repo: Option<String> },
    StashDetail { repo: Option<String>, stash_ref: String },
    StashPush { repo: Option<String>, options: StashPushOptions },
    StashApply { repo: Option<String>, stash_ref: String, reinstate_index: bool },
    StashPop { repo: Option<String>, stash_ref: String, reinstate_index: bool },
    StashDrop { repo: Option<String>, stash_ref: String },
    StashBranch { repo: Option<String>, stash_ref: String, branch: String },
    Commit { repo: Option<String>, message: String },
    ListCommits { repo: Option<String>, limit: u64 },
    ListRefs { repo: Option<String> },
    HeadOid { repo: Option<String> },
    CommitDetail { repo: Option<String>, oid: String },
    CommitFileDiff { repo: Option<String>, oid: String, path: String, context_lines: u32 },
    RangeFiles { repo: Option<String>, oldest_oid: String, newest_oid: String },
    RangeFileDiff { repo: Option<String>, oldest_oid: String, newest_oid: String, path: String, context_lines: u32 },
    CreateFile { rel_path: String },
    CreateDirAll { rel_path: String },
    Rename { from_rel: String, to_rel: String },
    CopyFile { from_rel: String, to_rel: String },
    CopyDirRecursive { from_rel: String, to_rel: String },
    RemoveFile { rel_path: String },
    RemoveDirAll { rel_path: String },
    FileSize { rel_path: String },
    WriteFile { rel_path: String, content: Vec<u8> },
    Trash { rel_paths: Vec<String> },
    HardDelete { rel_paths: Vec<String> },
    WalkRepoPaths { opts: WalkOpts },
    SearchContent { request: ContentSearchRequest },
    LoadDbInitial { rel_path: String, page_size: u32 },
    LoadDbPage { rel_path: String, table: String, offset: u64, limit: u32 },
}

pub open spec fn discover_dto(o: RepoDiscoverOpts) -> RepoDiscoverOptsDto {
    RepoDiscoverOptsDto {
        max_depth: o.max_depth,
        include_nested: o.include_nested,
        max_repos: o.max_repos,
    }
}

pub open spec fn discover_domain(o: RepoDiscoverOptsDto) -> RepoDiscoverOpts {
    RepoDiscoverOpts {
        max_depth: o.max_depth,
        include_nested: o.include_nested,
        max_repos: o.max_repos,
    }
}

fn discover_opts_dto(o: RepoDiscoverOpts) -> (r: RepoDiscoverOptsDto)
    ensures
        r == discover_dto(o),
{
    RepoDiscoverOptsDto {
        max_depth: o.max_depth,
        include_nested: o.include_nested,
        max_repos: o.max_repos,
    }
}

fn discover_opts_domain(o: RepoDiscoverOptsDto) -> (r: RepoDiscoverOpts)
    ensures
        r == discover_domain(o),
{
    RepoDiscoverOpts {
        max_depth: o.max_depth,
        include_nested: o.include_nested,
        max_repos: o.max_repos,
    }
}

pub open spec fn action_dto(a: ContainerAction) -> ContainerActionDto {
    match a {
        ContainerAction::Start => ContainerActionDto::Start,
        ContainerAction::Stop => ContainerActionDto::Stop,
        ContainerAction::Restart => ContainerActionDto::Restart,
    }
}

pub open spec fn action_domain(a: ContainerActionDto) -> ContainerAction {
    match a {
        ContainerActionDto::Start => ContainerAction::Start,
        ContainerActionDto::Stop => ContainerAction::Stop,
        ContainerActionDto::Restart => ContainerAction::Restart,
    }
}

pub fn container_action_to_dto(a: ContainerAction) -> (r: ContainerActionDto)
    ensures
        r == action_dto(a),
{
    match a {
        ContainerAction::Start => ContainerActionDto::Start,
        ContainerAction::Stop => ContainerActionDto::Stop,
        ContainerAction::Restart => ContainerActionDto::Restart,
    }
}

pub fn container_action_from_dto(a: ContainerActionDto) -> (r: ContainerAction)
    ensures
        r == action_domain(a),
{
    match a {
        ContainerActionDto::Start => ContainerAction::Start,
        ContainerActionDto::Stop => ContainerAction::Stop,
        ContainerActionDto::Restart => ContainerAction::Restart,
    }
}

pub open spec fn push_options_dto(o: StashPushOptions) -> StashPushOptionsDto {
    StashPushOptionsDto {
        message: o.message,
        include_untracked: o.include_untracked,
        keep_index: o.keep_index,
        staged_only: o.staged_only,
        paths: o.paths,
    }
}

pub open spec fn push_options_domain(o: StashPushOptionsDto) -> StashPushOptions {
    StashPushOptions {
        message: o.message,
        include_untracked: o.include_untracked,
        keep_index: o.keep_index,
        staged_only: o.staged_only,
        paths: o.paths,
    }
}

pub fn stash_options_to_dto(o: StashPushOptions) -> (r: StashPushOptionsDto)
    ensures
        r == push_options_dto(o),
{
    StashPushOptionsDto {
        message: o.message,
        include_untracked: o.include_untracked,
        keep_index: o.keep_index,
        staged_only: o.staged_only,
        paths: o.paths,
    }
}

pub fn stash_options_from_dto(o: StashPushOptionsDto) -> (r: StashPushOptions)
    ensures
        r == push_options_domain(o),
{
    StashPushOptions {
        message: o.message,
        include_untracked: o.include_untracked,
        keep_index: o.keep_index,
        staged_only: o.staged_only,
        paths: o.paths,
    }
}

pub open spec fn walk_dto(o: WalkOpts) -> WalkOptsDto {
    WalkOptsDto {
        include_hidden: o.include_hidden,
        respect_gitignore: o.respect_gitignore,
        max_files: o.max_files,
    }
}

pub open spec fn walk_domain(o: WalkOptsDto) -> WalkOpts {
    WalkOpts {
        include_hidden: o.include_hidden,
        respect_gitignore: o.respect_gitignore,
        max_files: o.max_files,
    }
}

fn walk_opts_dto(o: WalkOpts) -> (r: WalkOptsDto)
    ensures
        r == walk_dto(o),
{
    WalkOptsDto {
        include_hidden: o.include_hidden,
        respect_gitignore: o.respect_gitignore,
        max_files: o.max_files,
    }
}

fn walk_opts_domain(o: WalkOptsDto) -> (r: WalkOpts)
    ensures
        r == walk_domain(o),
{
    WalkOpts {
        include_hidden: o.include_hidden,
        respect_gitignore: o.respect_gitignore,
        max_files: o.max_files,
    }
}

pub open spec fn search_dto(r: ContentSearchRequest) -> ContentSearchRequestDto {
    ContentSearchRequestDto {
        pattern: r.pattern,
        fixed_strings: r.fixed_strings,
        case_sensitive: r.case_sensitive,
        max_results: r.max_results,
        max_line_chars: r.max_line_chars,
    }
}

pub open spec fn search_domain(r: ContentSearchRequestDto) -> ContentSearchRequest {
    ContentSearchRequest {
        pattern: r.pattern,
        fixed_strings: r.fixed_strings,
        case_sensitive: r.case_sensitive,
        max_results: r.max_results,
        max_line_chars: r.max_line_chars,
    }
}

fn search_request_dto(q: ContentSearchRequest) -> (r: ContentSearchRequestDto)
    ensures
        r == search_dto(q),
{
    ContentSearchRequestDto {
        pattern: q.pattern,
        fixed_strings: q.fixed_strings,
        case_sensitive: q.case_sensitive,
        max_results: q.max_results,
        max_line_chars: q.max_line_chars,
    }
}

fn search_request_domain(q: ContentSearchRequestDto) -> (r: ContentSearchRequest)
    ensures
        r == search_domain(q),
{
    ContentSearchRequest {
        pattern: q.pattern,
        fixed_strings: q.fixed_strings,
        case_sensitive: q.case_sensitive,
        max_results: q.max_results,
        max_line_chars: q.max_line_chars,
    }
}

/// The request that asks for an operation.
pub open spec fn request_of(op: BackendOp) -> Request {
    match op {
        BackendOp::ReadDir { path } => Request::ReadDir { path },
        BackendOp::ReadFile { path, max_bytes } => Request::ReadFile { path, max_bytes },
        BackendOp::DiscoverRepos { opts } => Request::DiscoverRepos { opts: discover_dto(opts) },
        BackendOp::ListContainers => Request::ListContainers,
        BackendOp::ContainerAction { id, action } => Request::ContainerAction { id, action: action_dto(action) },
        BackendOp::GitStatus { repo } => match repo {
            Some(repo_root_rel) => Request::GitStatusFor { repo_root_rel },
            None => Request::GitStatus,
        },
        BackendOp::StagedDiff { repo, path, context_lines } => match repo {
            Some(repo_root_rel) => Request::StagedDiffFor { repo_root_rel, path, context_lines },
            None => Request::StagedDiff { path, context_lines },
        },
        BackendOp::UnstagedDiff { repo, path, context_lines } => match repo {
            Some(repo_root_rel) => Request::UnstagedDiffFor { repo_root_rel, path, context_lines },
            None => Request::UnstagedDiff { path, context_lines },
        },
        BackendOp::UntrackedDiff { repo, path } => match repo {
            Some(repo_root_rel) => Request::UntrackedDiffFor { repo_root_rel, path },
            None => Request::UntrackedDiff { path },
        },
        BackendOp::Stage { repo, path } => match repo {
            Some(repo_root_rel) => Request::StageFor { repo_root_rel, path },
            None => Request::Stage { path },
        },
        BackendOp::Unstage { repo, path } => match repo {
            Some(repo_root_rel) => Request::UnstageFor { repo_root_rel, path },
            None => Request::Unstage { path },
        },
        BackendOp::Restore { path } => Request::Restore { path },
        BackendOp::RevertPath { repo, path, is_staged } => match repo {
            Some(repo_root_rel) => Request::RevertPathFor { repo_root_rel, path, is_staged },
            None => Request::RevertPath { path, is_staged },
        },
        BackendOp::Push { repo, force } => match repo {
            Some(repo_root_rel) => Request::PushFor { repo_root_rel, force },
            None => Request::Push { force },
        },
        BackendOp::PublishBranch { repo } => match repo {
            Some(repo_root_rel) => Request::PublishBranchFor { repo_root_rel },
            None => Request::PublishBranch,
        },
        BackendOp::Pull { repo } => match repo {
            Some(repo_root_rel) => Request::PullFor { repo_root_rel },
            None => Request::Pull,
        },
        BackendOp::CheckoutBranch { repo, branch } => match repo {
            Some(repo_root_rel) => Request::CheckoutBranchFor { repo_root_rel, branch },
            None => Request::CheckoutBranch { branch },
        },
        BackendOp::CreateBranch { repo, branch, base } => match repo {
            Some(repo_root_rel) => Request::CreateBranchFor { repo_root_rel, branch, base },
            None => Request::CreateBranch { branch, base },
        },
        BackendOp::MergeBranch { repo, branch } => match repo {
            Some(repo_root_rel) => Request::MergeBranchFor { repo_root_rel, branch },
            None => Request::MergeBranch { branch },
        },
        BackendOp::ListStashes { repo } => match repo {
            Some(repo_root_rel) => Request::ListStashesFor { repo_root_rel },
            None => Request::ListStashes,
        },
        BackendOp::StashDetail { repo, stash_ref } => match repo {
            Some(repo_root_rel) => Request::StashDetailFor { repo_root_rel, stash_ref },
            None => Request::StashDetail { stash_ref },
        },
        BackendOp::StashPush { repo, options } => match repo {
            Some(repo_root_rel) => Request::StashPushFor { repo_root_rel, options: push_options_dto(options) },
            None => Request::StashPush { options: push_options_dto(options) },
        },
        BackendOp::StashApply { repo, stash_ref, reinstate_index } => match repo {
            Some(repo_root_rel) => Request::StashApplyFor { repo_root_rel, stash_ref, reinstate_index },
            None => Request::StashApply { stash_ref, reinstate_index },
        },
        BackendOp::StashPop { repo, stash_ref, reinstate_index } => match repo {
            Some(repo_root_rel) => Request::StashPopFor { repo_root_rel, stash_ref, reinstate_index },
            None => Request::StashPop { stash_ref, reinstate_index },
        },
        BackendOp::StashDrop { repo, stash_ref } => match repo {
            Some(repo_root_rel) => Request::StashDropFor { repo_root_rel, stash_ref },
            None => Request::StashDrop { stash_ref },
        },
        BackendOp::StashBranch { repo, stash_ref, branch } => match repo {
            Some(repo_root_rel) => Request::StashBranchFor { repo_root_rel, stash_ref, branch },
            None => Request::StashBranch { stash_ref, branch },
        },
        BackendOp::Commit { repo, message } => match repo {
            Some(repo_root_rel) => Request::CommitFor { repo_root_rel, message },
            None => Request::Commit { message },
        },
        BackendOp::ListCommits { repo, limit } => match repo {
            Some(repo_root_rel) => Request::ListCommitsFor { repo_root_rel, limit },
            None => Request::ListCommits { limit },
        },
        BackendOp::ListRefs { repo } => match repo {
            Some(repo_root_rel) => Request::ListRefsFor { repo_root_rel },
            None => Request::ListRefs,
        },
        BackendOp::HeadOid { repo } => match repo {
            Some(repo_root_rel) => Request::HeadOidFor { repo_root_rel },
            None => Request::HeadOid,
        },
        BackendOp::CommitDetail { repo, oid } => match repo {
            Some(repo_root_rel) => Request::CommitDetailFor { repo_root_rel, oid },
            None => Request::CommitDetail { oid },
        },
        BackendOp::CommitFileDiff { repo, oid, path, context_lines } => match repo {
            Some(repo_root_rel) => Request::CommitFileDiffFor { repo_root_rel, oid, path, context_lines },
            None => Request::CommitFileDiff { oid, path, context_lines },
        },
        BackendOp::RangeFiles { repo, oldest_oid, newest_oid } => match repo {
            Some(repo_root_rel) => Request::RangeFilesFor { repo_root_rel, oldest_oid, newest_oid },
            None => Request::RangeFiles { oldest_oid, newest_oid },
        },
        BackendOp::RangeFileDiff { repo, oldest_oid, newest_oid, path, context_lines } => match repo {
            Some(repo_root_rel) => Request::RangeFileDiffFor { repo_root_rel, oldest_oid, newest_oid, path, context_lines },
            None => Request::RangeFileDiff { oldest_oid, newest_oid, path, context_lines },
        },
        BackendOp::CreateFile { rel_path } => Request::CreateFile { rel_path },
        BackendOp::CreateDirAll { rel_path } => Request::CreateDirAll { rel_path },
        BackendOp::Rename { from_rel, to_rel } => Request::Rename { from_rel, to_rel },
        BackendOp::CopyFile { from_rel, to_rel } => Request::CopyFile { from_rel, to_rel },
        BackendOp::CopyDirRecursive { from_rel, to_rel } => Request::CopyDirRecursive { from_rel, to_rel },
        BackendOp::RemoveFile { rel_path } => Request::RemoveFile { rel_path },
        BackendOp::RemoveDirAll { rel_path } => Request::RemoveDirAll { rel_path },
        BackendOp::FileSize { rel_path } => Request::FileSize { rel_path },
        BackendOp::WriteFile { rel_path, content } => Request::WriteFile { rel_path, content },
        BackendOp::Trash { rel_paths } => Request::Trash { rel_paths },
        BackendOp::HardDelete { rel_paths } => Request::HardDelete { rel_paths },
        BackendOp::WalkRepoPaths { opts } => Request::WalkRepoPaths { opts: walk_dto(opts) },
        BackendOp::SearchContent { request } => Request::SearchContent { request: search_dto(request) },
        BackendOp::LoadDbInitial { rel_path, page_size } => Request::LoadDbInitial { rel_path, page_size },
        BackendOp::LoadDbPage { rel_path, table, offset, limit } => Request::LoadDbPage { rel_path, table, offset, limit },
    }
}

/// Client side: the request for an operation.
pub fn request_for(op: BackendOp) -> (r: Request)
    ensures
        r == request_of(op),
{
    match op {
        BackendOp::ReadDir { path } => Request::ReadDir { path },
        BackendOp::ReadFile { path, max_bytes } => Request::ReadFile { path, max_bytes },
        BackendOp::DiscoverRepos { opts } => Request::DiscoverRepos { opts: discover_opts_dto(opts) },
        BackendOp::ListContainers => Request::ListContainers,
        BackendOp::ContainerAction { id, action } => Request::ContainerAction { id, action: container_action_to_dto(action) },
        BackendOp::GitStatus { repo } => match repo {
            Some(repo_root_rel) => Request::GitStatusFor { repo_root_rel },
            None => Request::GitStatus,
        },
        BackendOp::StagedDiff { repo, path, context_lines } => match repo {
            Some(repo_root_rel) => Request::StagedDiffFor { repo_root_rel, path, context_lines },
            None => Request::StagedDiff { path, context_lines },
        },
        BackendOp::UnstagedDiff { repo, path, context_lines } => match repo {
            Some(repo_root_rel) => Request::UnstagedDiffFor { repo_root_rel, path, context_lines },
            None => Request::UnstagedDiff { path, context_lines },
        },
        BackendOp::UntrackedDiff { repo, path } => match repo {
            Some(repo_root_rel) => Request::UntrackedDiffFor { repo_root_rel, path },
            None => Request::UntrackedDiff { path },
        },
        BackendOp::Stage { repo, path } => match repo {
            Some(repo_root_rel) => Request::StageFor { repo_root_rel, path },
            None => Request::Stage { path },
        },
        BackendOp::Unstage { repo, path } => match repo {
            Some(repo_root_rel) => Request::UnstageFor { repo_root_rel, path },
            None => Request::Unstage { path },
        },
        BackendOp::Restore { path } => Request::Restore { path },
        BackendOp::RevertPath { repo, path, is_staged } => match repo {
            Some(repo_root_rel) => Request::RevertPathFor { repo_root_rel, path, is_staged },
            None => Request::RevertPath { path, is_staged },
        },
        BackendOp::Push { repo, force } => match repo {
            Some(repo_root_rel) => Request::PushFor { repo_root_rel, force },
            None => Request::Push { force },
        },
        BackendOp::PublishBranch { repo } => match repo {
            Some(repo_root_rel) => Request::PublishBranchFor { repo_root_rel },
            None => Request::PublishBranch,
        },
        BackendOp::Pull { repo } => match repo {
            Some(repo_root_rel) => Request::PullFor { repo_root_rel },
            None => Request::Pull,
        },
        BackendOp::CheckoutBranch { repo, branch } => match repo {
            Some(repo_root_rel) => Request::CheckoutBranchFor { repo_root_rel, branch },
            None => Request::CheckoutBranch { branch },
        },
        BackendOp::CreateBranch { repo, branch, base } => match repo {
            Some(repo_root_rel) => Request::CreateBranchFor { repo_root_rel, branch, base },
            None => Request::CreateBranch { branch, base },
        },
        BackendOp::MergeBranch { repo, branch } => match repo {
            Some(repo_root_rel) => Request::MergeBranchFor { repo_root_rel, branch },
            None => Request::MergeBranch { branch },
        },
        BackendOp::ListStashes { repo } => match repo {
            Some(repo_root_rel) => Request::ListStashesFor { repo_root_rel },
            None => Request::ListStashes,
        },
        BackendOp::StashDetail { repo, stash_ref } => match repo {
            Some(repo_root_rel) => Request::StashDetailFor { repo_root_rel, stash_ref },
            None => Request::StashDetail { stash_ref },
        },
        BackendOp::StashPush { repo, options } => match repo {
            Some(repo_root_rel) => Request::StashPushFor { repo_root_rel, options: stash_options_to_dto(options) },
            None => Request::StashPush { options: stash_options_to_dto(options) },
        },
        BackendOp::StashApply { repo, stash_ref, reinstate_index } => match repo {
            Some(repo_root_rel) => Request::StashApplyFor { repo_root_rel, stash_ref, reinstate_index },
            None => Request::StashApply { stash_ref, reinstate_index },
        },
        BackendOp::StashPop { repo, stash_ref, reinstate_index } => match repo {
            Some(repo_root_rel) => Request::StashPopFor { repo_root_rel, stash_ref, reinstate_index },
            None => Request::StashPop { stash_ref, reinstate_index },
        },
        BackendOp::StashDrop { repo, stash_ref } => match repo {
            Some(repo_root_rel) => Request::StashDropFor { repo_root_rel, stash_ref },
            None => Request::StashDrop { stash_ref },
        },
        BackendOp::StashBranch { repo, stash_ref, branch } => match repo {
            Some(repo_root_rel) => Request::StashBranchFor { repo_root_rel, stash_ref, branch },
            None => Request::StashBranch { stash_ref, branch },
        },
        BackendOp::Commit { repo, message } => match repo {
            Some(repo_root_rel) => Request::CommitFor { repo_root_rel, message },
            None => Request::Commit { message },
        },
        BackendOp::ListCommits { repo, limit } => match repo {
            Some(repo_root_rel) => Request::ListCommitsFor { repo_root_rel, limit },
            None => Request::ListCommits { limit },
        },
        BackendOp::ListRefs { repo } => match repo {
            Some(repo_root_rel) => Request::ListRefsFor { repo_root_rel },
            None => Request::ListRefs,
        },
        BackendOp::HeadOid { repo } => match repo {
            Some(repo_root_rel) => Request::HeadOidFor { repo_root_rel },
            None => Request::HeadOid,
        },
        BackendOp::CommitDetail { repo, oid } => match repo {
            Some(repo_root_rel) => Request::CommitDetailFor { repo_root_rel, oid },
            None => Request::CommitDetail { oid },
        },
        BackendOp::CommitFileDiff { repo, oid, path, context_lines } => match repo {
            Some(repo_root_rel) => Request::CommitFileDiffFor { repo_root_rel, oid, path, context_lines },
            None => Request::CommitFileDiff { oid, path, context_lines },
        },
        BackendOp::RangeFiles { repo, oldest_oid, newest_oid } => match repo {
            Some(repo_root_rel) => Request::RangeFilesFor { repo_root_rel, oldest_oid, newest_oid },
            None => Request::RangeFiles { oldest_oid, newest_oid },
        },
        BackendOp::RangeFileDiff { repo, oldest_oid, newest_oid, path, context_lines } => match repo {
            Some(repo_root_rel) => Request::RangeFileDiffFor { repo_root_rel, oldest_oid, newest_oid, path, context_lines },
            None => Request::RangeFileDiff { oldest_oid, newest_oid, path, context_lines },
        },
        BackendOp::CreateFile { rel_path } => Request::CreateFile { rel_path },
        BackendOp::CreateDirAll { rel_path } => Request::CreateDirAll { rel_path },
        BackendOp::Rename { from_rel, to_rel } => Request::Rename { from_rel, to_rel },
        BackendOp::CopyFile { from_rel, to_rel } => Request::CopyFile { from_rel, to_rel },
        BackendOp::CopyDirRecursive { from_rel, to_rel } => Request::CopyDirRecursive { from_rel, to_rel },
        BackendOp::RemoveFile { rel_path } => Request::RemoveFile { rel_path },
        BackendOp::RemoveDirAll { rel_path } => Request::RemoveDirAll { rel_path },
        BackendOp::FileSize { rel_path } => Request::FileSize { rel_path },
        BackendOp::WriteFile { rel_path, content } => Request::WriteFile { rel_path, content },
        BackendOp::Trash { rel_paths } => Request::Trash { rel_paths },
        BackendOp::HardDelete { rel_paths } => Request::HardDelete { rel_paths },
        BackendOp::WalkRepoPaths { opts } => Request::WalkRepoPaths { opts: walk_opts_dto(opts) },
        BackendOp::SearchContent { request } => Request::SearchContent { request: search_request_dto(request) },
        BackendOp::LoadDbInitial { rel_path, page_size } => Request::LoadDbInitial { rel_path, page_size },
        BackendOp::LoadDbPage { rel_path, table, offset, limit } => Request::LoadDbPage { rel_path, table, offset, limit },
    }
}

// ── Repositories ─────────────────────────────────────────────────────────

/// The repository by which a request names the one at `repo`: the workspace's
/// own, at `.`, is not named.
pub open spec fn named_repo(repo: Option<String>) -> Option<String> {
    match repo {
        Some(root) => if root@ == "."@ {
            None
        } else {
            Some(root)
        },
        None => None,
    }
}

fn name_repo(repo: Option<String>) -> (r: Option<String>)
    ensures
        r == named_repo(repo),
{
    match repo {
        Some(root) => if same_str(root.as_str(), ".") {
            None
        } else {
            Some(root)
        },
        None => None,
    }
}

/// The operation with its repository named as on the wire.
pub open spec fn scoped(op: BackendOp) -> BackendOp {
    match op {
        BackendOp::GitStatus { repo } => BackendOp::GitStatus { repo: named_repo(repo) },
        BackendOp::StagedDiff { repo, path, context_lines } => BackendOp::StagedDiff {
            repo: named_repo(repo),
            path,
            context_lines,
        },
        BackendOp::UnstagedDiff { repo, path, context_lines } => BackendOp::UnstagedDiff {
            repo: named_repo(repo),
            path,
            context_lines,
        },
        BackendOp::UntrackedDiff { repo, path } => BackendOp::UntrackedDiff {
            repo: named_repo(repo),
            path,
        },
        BackendOp::Stage { repo, path } => BackendOp::Stage { repo: named_repo(repo), path },
        BackendOp::Unstage { repo, path } => BackendOp::Unstage { repo: named_repo(repo), path },
        BackendOp::RevertPath { repo, path, is_staged } => BackendOp::RevertPath {
            repo: named_repo(repo),
            path,
            is_staged,
        },
        BackendOp::Push { repo, force } => BackendOp::Push { repo: named_repo(repo), force },
        BackendOp::PublishBranch { repo } => BackendOp::PublishBranch { repo: named_repo(repo) },
        BackendOp::Pull { repo } => BackendOp::Pull { repo: named_repo(repo) },
        BackendOp::CheckoutBranch { repo, branch } => BackendOp::CheckoutBranch {
            repo: named_repo(repo),
            branch,
        },
        BackendOp::CreateBranch { repo, branch, base } => BackendOp::CreateBranch {
            repo: named_repo(repo),
            branch,
            base,
        },
        BackendOp::MergeBranch { repo, branch } => BackendOp::MergeBranch {
            repo: named_repo(repo),
            branch,
        },
        BackendOp::ListStashes { repo } => BackendOp::ListStashes { repo: named_repo(repo) },
        BackendOp::StashDetail { repo, stash_ref } => BackendOp::StashDetail {
            repo: named_repo(repo),
            stash_ref,
        },
        BackendOp::StashPush { repo, options } => BackendOp::StashPush {
            repo: named_repo(repo),
            options,
        },
        BackendOp::StashApply { repo, stash_ref, reinstate_index } => BackendOp::StashApply {
            repo: named_repo(repo),
            stash_ref,
            reinstate_index,
        },
        BackendOp::StashPop { repo, stash_ref, reinstate_index } => BackendOp::StashPop {
            repo: named_repo(repo),
            stash_ref,
            reinstate_index,
        },
        BackendOp::StashDrop { repo, stash_ref } => BackendOp::StashDrop {
            repo: named_repo(repo),
            stash_ref,
        },
        BackendOp::StashBranch { repo, stash_ref, branch } => BackendOp::StashBranch {
            repo: named_repo(repo),
            stash_ref,
            branch,
        },
        BackendOp::Commit { repo, message } => BackendOp::Commit {
            repo: named_repo(repo),
            message,
        },
        BackendOp::ListCommits { repo, limit } => BackendOp::ListCommits {
            repo: named_repo(repo),
            limit,
        },
        BackendOp::ListRefs { repo } => BackendOp::ListRefs { repo: named_repo(repo) },
        BackendOp::HeadOid { repo } => BackendOp::HeadOid { repo: named_repo(repo) },
        BackendOp::CommitDetail { repo, oid } => BackendOp::CommitDetail {
            repo: named_repo(repo),
            oid,
        },
        BackendOp::CommitFileDiff { repo, oid, path, context_lines } => BackendOp::CommitFileDiff {
            repo: named_repo(repo),
            oid,
            path,
            context_lines,
        },
        BackendOp::RangeFiles { repo, oldest_oid, newest_oid } => BackendOp::RangeFiles {
            repo: named_repo(repo),
            oldest_oid,
            newest_oid,
        },
        BackendOp::RangeFileDiff { repo, oldest_oid, newest_oid, path, context_lines } => BackendOp::RangeFileDiff {
            repo: named_repo(repo),
            oldest_oid,
            newest_oid,
            path,
            context_lines,
        },
        _ => op,
    }
}

/// The request that a client makes for an operation.
pub fn client_request(op: BackendOp) -> (r: Request)
    ensures
        r == request_of(scoped(op)),
{
    let named = match op {
        BackendOp::GitStatus { repo } => BackendOp::GitStatus { repo: name_repo(repo) },
        BackendOp::StagedDiff { repo, path, context_lines } => BackendOp::StagedDiff {
            repo: name_repo(repo),
            path,
            context_lines,
        },
        BackendOp::UnstagedDiff { repo, path, context_lines } => BackendOp::UnstagedDiff {
            repo: name_repo(repo),
            path,
            context_lines,
        },
        BackendOp::UntrackedDiff { repo, path } => BackendOp::UntrackedDiff {
            repo: name_repo(repo),
            path,
        },
        BackendOp::Stage { repo, path } => BackendOp::Stage { repo: name_repo(repo), path },
        BackendOp::Unstage { repo, path } => BackendOp::Unstage { repo: name_repo(repo), path },
        BackendOp::RevertPath { repo, path, is_staged } => BackendOp::RevertPath {
            repo: name_repo(repo),
            path,
            is_staged,
        },
        BackendOp::Push { repo, force } => BackendOp::Push { repo: name_repo(repo), force },
        BackendOp::PublishBranch { repo } => BackendOp::PublishBranch { repo: name_repo(repo) },
        BackendOp::Pull { repo } => BackendOp::Pull { repo: name_repo(repo) },
        BackendOp::CheckoutBranch { repo, branch } => BackendOp::CheckoutBranch {
            repo: name_repo(repo),
            branch,
        },
        BackendOp::CreateBranch { repo, branch, base } => BackendOp::CreateBranch {
            repo: name_repo(repo),
            branch,
            base,
        },
        BackendOp::MergeBranch { repo, branch } => BackendOp::MergeBranch {
            repo: name_repo(repo),
            branch,
        },
        BackendOp::ListStashes { repo } => BackendOp::ListStashes { repo: name_repo(repo) },
        BackendOp::StashDetail { repo, stash_ref } => BackendOp::StashDetail {
            repo: name_repo(repo),
            stash_ref,
        },
        BackendOp::StashPush { repo, options } => BackendOp::StashPush {
            repo: name_repo(repo),
            options,
        },
        BackendOp::StashApply { repo, stash_ref, reinstate_index } => BackendOp::StashApply {
            repo: name_repo(repo),
            stash_ref,
            reinstate_index,
        },
        BackendOp::StashPop { repo, stash_ref, reinstate_index } => BackendOp::StashPop {
            repo: name_repo(repo),
            stash_ref,
            reinstate_index,
        },
        BackendOp::StashDrop { repo, stash_ref } => BackendOp::StashDrop {
            repo: name_repo(repo),
            stash_ref,
        },
        BackendOp::StashBranch { repo, stash_ref, branch } => BackendOp::StashBranch {
            repo: name_repo(repo),
            stash_ref,
            branch,
        },
        BackendOp::Commit { repo, message } => BackendOp::Commit { repo: name_repo(repo), message },
        BackendOp::ListCommits { repo, limit } => BackendOp::ListCommits {
            repo: name_repo(repo),
            limit,
        },
        BackendOp::ListRefs { repo } => BackendOp::ListRefs { repo: name_repo(repo) },
        BackendOp::HeadOid { repo } => BackendOp::HeadOid { repo: name_repo(repo) },
        BackendOp::CommitDetail { repo, oid } => BackendOp::CommitDetail {
            repo: name_repo(repo),
            oid,
        },
        BackendOp::CommitFileDiff { repo, oid, path, context_lines } => BackendOp::CommitFileDiff {
            repo: name_repo(repo),
            oid,
            path,
            context_lines,
        },
        BackendOp::RangeFiles { repo, oldest_oid, newest_oid } => BackendOp::RangeFiles {
            repo: name_repo(repo),
            oldest_oid,
            newest_oid,
        },
        BackendOp::RangeFileDiff { repo, oldest_oid, newest_oid, path, context_lines } => BackendOp::RangeFileDiff {
            repo: name_repo(repo),
            oldest_oid,
            newest_oid,
            path,
            context_lines,
        },
        other => other,
    };
    request_for(named)
}

/// What a request asks of the agent.
#[derive(Debug)]
pub enum Ask {
    Handshake,
    Shutdown,
    Subscribe,
    Run(BackendOp),
}

pub open spec fn asked_request(a: Ask) -> Request {
    match a {
        Ask::Handshake => Request::Handshake,
        Ask::Shutdown => Request::Shutdown,
        Ask::Subscribe => Request::Subscribe,
        Ask::Run(op) => request_of(op),
    }
}

/// The other way round: what each request asks.
pub open spec fn ask_of(r: Request) -> Ask {
    match r {
        Request::Handshake => Ask::Handshake,
        Request::Shutdown => Ask::Shutdown,
        Request::Subscribe => Ask::Subscribe,
        Request::ReadDir { path } => Ask::Run(BackendOp::ReadDir { path }),
        Request::ReadFile { path, max_bytes } => Ask::Run(BackendOp::ReadFile { path, max_bytes }),
        Request::DiscoverRepos { opts } => Ask::Run(BackendOp::DiscoverRepos { opts: discover_domain(opts) }),
        Request::ListContainers => Ask::Run(BackendOp::ListContainers),
        Request::ContainerAction { id, action } => Ask::Run(BackendOp::ContainerAction { id, action: action_domain(action) }),
        Request::GitStatus => Ask::Run(BackendOp::GitStatus { repo: None }),
        Request::GitStatusFor { repo_root_rel } => Ask::Run(BackendOp::GitStatus { repo: Some(repo_root_rel) }),
        Request::StagedDiff { path, context_lines } => Ask::Run(BackendOp::StagedDiff { repo: None, path, context_lines }),
        Request::StagedDiffFor { repo_root_rel, path, context_lines } => Ask::Run(BackendOp::StagedDiff { repo: Some(repo_root_rel), path, context_lines }),
        Request::UnstagedDiff { path, context_lines } => Ask::Run(BackendOp::UnstagedDiff { repo: None, path, context_lines }),
        Request::UnstagedDiffFor { repo_root_rel, path, context_lines } => Ask::Run(BackendOp::UnstagedDiff { repo: Some(repo_root_rel), path, context_lines }),
        Request::UntrackedDiff { path } => Ask::Run(BackendOp::UntrackedDiff { repo: None, path }),
        Request::UntrackedDiffFor { repo_root_rel, path } => Ask::Run(BackendOp::UntrackedDiff { repo: Some(repo_root_rel), path }),
        Request::Stage { path } => Ask::Run(BackendOp::Stage { repo: None, path }),
        Request::StageFor { repo_root_rel, path } => Ask::Run(BackendOp::Stage { repo: Some(repo_root_rel), path }),
        Request::Unstage { path } => Ask::Run(BackendOp::Unstage { repo: None, path }),
        Request::UnstageFor { repo_root_rel, path } => Ask::Run(BackendOp::Unstage { repo: Some(repo_root_rel), path }),
        Request::Restore { path } => Ask::Run(BackendOp::Restore { path }),
        Request::RevertPath { path, is_staged } => Ask::Run(BackendOp::RevertPath { repo: None, path, is_staged }),
        Request::RevertPathFor { repo_root_rel, path, is_staged } => Ask::Run(BackendOp::RevertPath { repo: Some(repo_root_rel), path, is_staged }),
        Request::Push { force } => Ask::Run(BackendOp::Push { repo: None, force }),
        Request::PushFor { repo_root_rel, force } => Ask::Run(BackendOp::Push { repo: Some(repo_root_rel), force }),
        Request::PublishBranch => Ask::Run(BackendOp::PublishBranch { repo: None }),
        Request::PublishBranchFor { repo_root_rel } => Ask::Run(BackendOp::PublishBranch { repo: Some(repo_root_rel) }),
        Request::Pull => Ask::Run(BackendOp::Pull { repo: None }),
        Request::PullFor { repo_root_rel } => Ask::Run(BackendOp::Pull { repo: Some(repo_root_rel) }),
        Request::CheckoutBranch { branch } => Ask::Run(BackendOp::CheckoutBranch { repo: None, branch }),
        Request::CheckoutBranchFor { repo_root_rel, branch } => Ask::Run(BackendOp::CheckoutBranch { repo: Some(repo_root_rel), branch }),
        Request::CreateBranch { branch, base } => Ask::Run(BackendOp::CreateBranch { repo: None, branch, base }),
        Request::CreateBranchFor { repo_root_rel, branch, base } => Ask::Run(BackendOp::CreateBranch { repo: Some(repo_root_rel), branch, base }),
        Request::MergeBranch { branch } => Ask::Run(BackendOp::MergeBranch { repo: None, branch }),
        Request::MergeBranchFor { repo_root_rel, branch } => Ask::Run(BackendOp::MergeBranch { repo: Some(repo_root_rel), branch }),
        Request::ListStashes => Ask::Run(BackendOp::ListStashes { repo: None }),
        Request::ListStashesFor { repo_root_rel } => Ask::Run(BackendOp::ListStashes { repo: Some(repo_root_rel) }),
        Request::StashDetail { stash_ref } => Ask::Run(BackendOp::StashDetail { repo: None, stash_ref }),
        Request::StashDetailFor { repo_root_rel, stash_ref } => Ask::Run(BackendOp::StashDetail { repo: Some(repo_root_rel), stash_ref }),
        Request::StashPush { options } => Ask::Run(BackendOp::StashPush { repo: None, options: push_options_domain(options) }),
        Request::StashPushFor { repo_root_rel, options } => Ask::Run(BackendOp::StashPush { repo: Some(repo_root_rel), options: push_options_domain(options) }),
        Request::StashApply { stash_ref, reinstate_index } => Ask::Run(BackendOp::StashApply { repo: None, stash_ref, reinstate_index }),
        Request::StashApplyFor { repo_root_rel, stash_ref, reinstate_index } => Ask::Run(BackendOp::StashApply { repo: Some(repo_root_rel), stash_ref, reinstate_index }),
        Request::StashPop { stash_ref, reinstate_index } => Ask::Run(BackendOp::StashPop { repo: None, stash_ref, reinstate_index }),
        Request::StashPopFor { repo_root_rel, stash_ref, reinstate_index } => Ask::Run(BackendOp::StashPop { repo: Some(repo_root_rel), stash_ref, reinstate_index }),
        Request::StashDrop { stash_ref } => Ask::Run(BackendOp::StashDrop { repo: None, stash_ref }),
        Request::StashDropFor { repo_root_rel, stash_ref } => Ask::Run(BackendOp::StashDrop { repo: Some(repo_root_rel), stash_ref }),
        Request::StashBranch { stash_ref, branch } => Ask::Run(BackendOp::StashBranch { repo: None, stash_ref, branch }),
        Request::StashBranchFor { repo_root_rel, stash_ref, branch } => Ask::Run(BackendOp::StashBranch { repo: Some(repo_root_rel), stash_ref, branch }),
        Request::Commit { message } => Ask::Run(BackendOp::Commit { repo: None, message }),
        Request::CommitFor { repo_root_rel, message } => Ask::Run(BackendOp::Commit { repo: Some(repo_root_rel), message }),
        Request::ListCommits { limit } => Ask::Run(BackendOp::ListCommits { repo: None, limit }),
        Request::ListCommitsFor { repo_root_rel, limit } => Ask::Run(BackendOp::ListCommits { repo: Some(repo_root_rel), limit }),
        Request::ListRefs => Ask::Run(BackendOp::ListRefs { repo: None }),
        Request::ListRefsFor { repo_root_rel } => Ask::Run(BackendOp::ListRefs { repo: Some(repo_root_rel) }),
        Request::HeadOid => Ask::Run(BackendOp::HeadOid { repo: None }),
        Request::HeadOidFor { repo_root_rel } => Ask::Run(BackendOp::HeadOid { repo: Some(repo_root_rel) }),
        Request::CommitDetail { oid } => Ask::Run(BackendOp::CommitDetail { repo: None, oid }),
        Request::CommitDetailFor { repo_root_rel, oid } => Ask::Run(BackendOp::CommitDetail { repo: Some(repo_root_rel), oid }),
        Request::CommitFileDiff { oid, path, context_lines } => Ask::Run(BackendOp::CommitFileDiff { repo: None, oid, path, context_lines }),
        Request::CommitFileDiffFor { repo_root_rel, oid, path, context_lines } => Ask::Run(BackendOp::CommitFileDiff { repo: Some(repo_root_rel), oid, path, context_lines }),
        Request::RangeFiles { oldest_oid, newest_oid } => Ask::Run(BackendOp::RangeFiles { repo: None, oldest_oid, newest_oid }),
        Request::RangeFilesFor { repo_root_rel, oldest_oid, newest_oid } => Ask::Run(BackendOp::RangeFiles { repo: Some(repo_root_rel), oldest_oid, newest_oid }),
        Request::RangeFileDiff { oldest_oid, newest_oid, path, context_lines } => Ask::Run(BackendOp::RangeFileDiff { repo: None, oldest_oid, newest_oid, path, context_lines }),
        Request::RangeFileDiffFor { repo_root_rel, oldest_oid, newest_oid, path, context_lines } => Ask::Run(BackendOp::RangeFileDiff { repo: Some(repo_root_rel), oldest_oid, newest_oid, path, context_lines }),
        Request::CreateFile { rel_path } => Ask::Run(BackendOp::CreateFile { rel_path }),
        Request::CreateDirAll { rel_path } => Ask::Run(BackendOp::CreateDirAll { rel_path }),
        Request::Rename { from_rel, to_rel } => Ask::Run(BackendOp::Rename { from_rel, to_rel }),
        Request::CopyFile { from_rel, to_rel } => Ask::Run(BackendOp::CopyFile { from_rel, to_rel }),
        Request::CopyDirRecursive { from_rel, to_rel } => Ask::Run(BackendOp::CopyDirRecursive { from_rel, to_rel }),
        Request::RemoveFile { rel_path } => Ask::Run(BackendOp::RemoveFile { rel_path }),
        Request::RemoveDirAll { rel_path } => Ask::Run(BackendOp::RemoveDirAll { rel_path }),
        Request::FileSize { rel_path } => Ask::Run(BackendOp::FileSize { rel_path }),
        Request::WriteFile { rel_path, content } => Ask::Run(BackendOp::WriteFile { rel_path, content }),
        Request::Trash { rel_paths } => Ask::Run(BackendOp::Trash { rel_paths }),
        Request::HardDelete { rel_paths } => Ask::Run(BackendOp::HardDelete { rel_paths }),
        Request::WalkRepoPaths { opts } => Ask::Run(BackendOp::WalkRepoPaths { opts: walk_domain(opts) }),
        Request::SearchContent { request } => Ask::Run(BackendOp::SearchContent { request: search_domain(request) }),
        Request::LoadDbInitial { rel_path, page_size } => Ask::Run(BackendOp::LoadDbInitial { rel_path, page_size }),
        Request::LoadDbPage { rel_path, table, offset, limit } => Ask::Run(BackendOp::LoadDbPage { rel_path, table, offset, limit }),
    }
}

/// Agent side: what a request asks. It is the one operation whose request
/// this is.
pub fn ask_for(request: Request) -> (r: Ask)
    ensures
        asked_request(r) == request,
{
    match request {
        Request::Handshake => Ask::Handshake,
        Request::Shutdown => Ask::Shutdown,
        Request::Subscribe => Ask::Subscribe,
        Request::ReadDir { path } => Ask::Run(BackendOp::ReadDir { path }),
        Request::ReadFile { path, max_bytes } => Ask::Run(BackendOp::ReadFile { path, max_bytes }),
        Request::DiscoverRepos { opts } => Ask::Run(BackendOp::DiscoverRepos { opts: discover_opts_domain(opts) }),
        Request::ListContainers => Ask::Run(BackendOp::ListContainers),
        Request::ContainerAction { id, action } => Ask::Run(BackendOp::ContainerAction { id, action: container_action_from_dto(action) }),
        Request::GitStatus => Ask::Run(BackendOp::GitStatus { repo: None }),
        Request::GitStatusFor { repo_root_rel } => Ask::Run(BackendOp::GitStatus { repo: Some(repo_root_rel) }),
        Request::StagedDiff { path, context_lines } => Ask::Run(BackendOp::StagedDiff { repo: None, path, context_lines }),
        Request::StagedDiffFor { repo_root_rel, path, context_lines } => Ask::Run(BackendOp::StagedDiff { repo: Some(repo_root_rel), path, context_lines }),
        Request::UnstagedDiff { path, context_lines } => Ask::Run(BackendOp::UnstagedDiff { repo: None, path, context_lines }),
        Request::UnstagedDiffFor { repo_root_rel, path, context_lines } => Ask::Run(BackendOp::UnstagedDiff { repo: Some(repo_root_rel), path, context_lines }),
        Request::UntrackedDiff { path } => Ask::Run(BackendOp::UntrackedDiff { repo: None, path }),
        Request::UntrackedDiffFor { repo_root_rel, path } => Ask::Run(BackendOp::UntrackedDiff { repo: Some(repo_root_rel), path }),
        Request::Stage { path } => Ask::Run(BackendOp::Stage { repo: None, path }),
        Request::StageFor { repo_root_rel, path } => Ask::Run(BackendOp::Stage { repo: Some(repo_root_rel), path }),
        Request::Unstage { path } => Ask::Run(BackendOp::Unstage { repo: None, path }),
        Request::UnstageFor { repo_root_rel, path } => Ask::Run(BackendOp::Unstage { repo: Some(repo_root_rel), path }),
        Request::Restore { path } => Ask::Run(BackendOp::Restore { path }),
        Request::RevertPath { path, is_staged } => Ask::Run(BackendOp::RevertPath { repo: None, path, is_staged }),
        Request::RevertPathFor { repo_root_rel, path, is_staged } => Ask::Run(BackendOp::RevertPath { repo: Some(repo_root_rel), path, is_staged }),
        Request::Push { force } => Ask::Run(BackendOp::Push { repo: None, force }),
        Request::PushFor { repo_root_rel, force } => Ask::Run(BackendOp::Push { repo: Some(repo_root_rel), force }),
        Request::PublishBranch => Ask::Run(BackendOp::PublishBranch { repo: None }),
        Request::PublishBranchFor { repo_root_rel } => Ask::Run(BackendOp::PublishBranch { repo: Some(repo_root_rel) }),
        Request::Pull => Ask::Run(BackendOp::Pull { repo: None }),
        Request::PullFor { repo_root_rel } => Ask::Run(BackendOp::Pull { repo: Some(repo_root_rel) }),
        Request::CheckoutBranch { branch } => Ask::Run(BackendOp::CheckoutBranch { repo: None, branch }),
        Request::CheckoutBranchFor { repo_root_rel, branch } => Ask::Run(BackendOp::CheckoutBranch { repo: Some(repo_root_rel), branch }),
        Request::CreateBranch { branch, base } => Ask::Run(BackendOp::CreateBranch { repo: None, branch, base }),
        Request::CreateBranchFor { repo_root_rel, branch, base } => Ask::Run(BackendOp::CreateBranch { repo: Some(repo_root_rel), branch, base }),
        Request::MergeBranch { branch } => Ask::Run(BackendOp::MergeBranch { repo: None, branch }),
        Request::MergeBranchFor { repo_root_rel, branch } => Ask::Run(BackendOp::MergeBranch { repo: Some(repo_root_rel), branch }),
        Request::ListStashes => Ask::Run(BackendOp::ListStashes { repo: None }),
        Request::ListStashesFor { repo_root_rel } => Ask::Run(BackendOp::ListStashes { repo: Some(repo_root_rel) }),
        Request::StashDetail { stash_ref } => Ask::Run(BackendOp::StashDetail { repo: None, stash_ref }),
        Request::StashDetailFor { repo_root_rel, stash_ref } => Ask::Run(BackendOp::StashDetail { repo: Some(repo_root_rel), stash_ref }),
        Request::StashPush { options } => Ask::Run(BackendOp::StashPush { repo: None, options: stash_options_from_dto(options) }),
        Request::StashPushFor { repo_root_rel, options } => Ask::Run(BackendOp::StashPush { repo: Some(repo_root_rel), options: stash_options_from_dto(options) }),
        Request::StashApply { stash_ref, reinstate_index } => Ask::Run(BackendOp::StashApply { repo: None, stash_ref, reinstate_index }),
        Request::StashApplyFor { repo_root_rel, stash_ref, reinstate_index } => Ask::Run(BackendOp::StashApply { repo: Some(repo_root_rel), stash_ref, reinstate_index }),
        Request::StashPop { stash_ref, reinstate_index } => Ask::Run(BackendOp::StashPop { repo: None, stash_ref, reinstate_index }),
        Request::StashPopFor { repo_root_rel, stash_ref, reinstate_index } => Ask::Run(BackendOp::StashPop { repo: Some(repo_root_rel), stash_ref, reinstate_index }),
        Request::StashDrop { stash_ref } => Ask::Run(BackendOp::StashDrop { repo: None, stash_ref }),
        Request::StashDropFor { repo_root_rel, stash_ref } => Ask::Run(BackendOp::StashDrop { repo: Some(repo_root_rel), stash_ref }),
        Request::StashBranch { stash_ref, branch } => Ask::Run(BackendOp::StashBranch { repo: None, stash_ref, branch }),
        Request::StashBranchFor { repo_root_rel, stash_ref, branch } => Ask::Run(BackendOp::StashBranch { repo: Some(repo_root_rel), stash_ref, branch }),
        Request::Commit { message } => Ask::Run(BackendOp::Commit { repo: None, message }),
        Request::CommitFor { repo_root_rel, message } => Ask::Run(BackendOp::Commit { repo: Some(repo_root_rel), message }),
        Request::ListCommits { limit } => Ask::Run(BackendOp::ListCommits { repo: None, limit }),
        Request::ListCommitsFor { repo_root_rel, limit } => Ask::Run(BackendOp::ListCommits { repo: Some(repo_root_rel), limit }),
        Request::ListRefs => Ask::Run(BackendOp::ListRefs { repo: None }),
        Request::ListRefsFor { repo_root_rel } => Ask::Run(BackendOp::ListRefs { repo: Some(repo_root_rel) }),
        Request::HeadOid => Ask::Run(BackendOp::HeadOid { repo: None }),
        Request::HeadOidFor { repo_root_rel } => Ask::Run(BackendOp::HeadOid { repo: Some(repo_root_rel) }),
        Request::CommitDetail { oid } => Ask::Run(BackendOp::CommitDetail { repo: None, oid }),
        Request::CommitDetailFor { repo_root_rel, oid } => Ask::Run(BackendOp::CommitDetail { repo: Some(repo_root_rel), oid }),
        Request::CommitFileDiff { oid, path, context_lines } => Ask::Run(BackendOp::CommitFileDiff { repo: None, oid, path, context_lines }),
        Request::CommitFileDiffFor { repo_root_rel, oid, path, context_lines } => Ask::Run(BackendOp::CommitFileDiff { repo: Some(repo_root_rel), oid, path, context_lines }),
        Request::RangeFiles { oldest_oid, newest_oid } => Ask::Run(BackendOp::RangeFiles { repo: None, oldest_oid, newest_oid }),
        Request::RangeFilesFor { repo_root_rel, oldest_oid, newest_oid } => Ask::Run(BackendOp::RangeFiles { repo: Some(repo_root_rel), oldest_oid, newest_oid }),
        Request::RangeFileDiff { oldest_oid, newest_oid, path, context_lines } => Ask::Run(BackendOp::RangeFileDiff { repo: None, oldest_oid, newest_oid, path, context_lines }),
        Request::RangeFileDiffFor { repo_root_rel, oldest_oid, newest_oid, path, context_lines } => Ask::Run(BackendOp::RangeFileDiff { repo: Some(repo_root_rel), oldest_oid, newest_oid, path, context_lines }),
        Request::CreateFile { rel_path } => Ask::Run(BackendOp::CreateFile { rel_path }),
        Request::CreateDirAll { rel_path } => Ask::Run(BackendOp::CreateDirAll { rel_path }),
        Request::Rename { from_rel, to_rel } => Ask::Run(BackendOp::Rename { from_rel, to_rel }),
        Request::CopyFile { from_rel, to_rel } => Ask::Run(BackendOp::CopyFile { from_rel, to_rel }),
        Request::CopyDirRecursive { from_rel, to_rel } => Ask::Run(BackendOp::CopyDirRecursive { from_rel, to_rel }),
        Request::RemoveFile { rel_path } => Ask::Run(BackendOp::RemoveFile { rel_path }),
        Request::RemoveDirAll { rel_path } => Ask::Run(BackendOp::RemoveDirAll { rel_path }),
        Request::FileSize { rel_path } => Ask::Run(BackendOp::FileSize { rel_path }),
        Request::WriteFile { rel_path, content } => Ask::Run(BackendOp::WriteFile { rel_path, content }),
        Request::Trash { rel_paths } => Ask::Run(BackendOp::Trash { rel_paths }),
        Request::HardDelete { rel_paths } => Ask::Run(BackendOp::HardDelete { rel_paths }),
        Request::WalkRepoPaths { opts } => Ask::Run(BackendOp::WalkRepoPaths { opts: walk_opts_domain(opts) }),
        Request::SearchContent { request } => Ask::Run(BackendOp::SearchContent { request: search_request_domain(request) }),
        Request::LoadDbInitial { rel_path, page_size } => Ask::Run(BackendOp::LoadDbInitial { rel_path, page_size }),
        Request::LoadDbPage { rel_path, table, offset, limit } => Ask::Run(BackendOp::LoadDbPage { rel_path, table, offset, limit }),
    }
}

/// The agent runs the operation that the client asked for: turning an
/// operation into its request and reading that request can give nothing else.
pub proof fn law_agent_runs_what_client_asked(op: BackendOp, heard: Ask)
    requires
        asked_request(heard) == request_of(op),
    ensures
        heard == Ask::Run(op),
{
    lemma_ask_of(heard);
    lemma_ask_of(Ask::Run(op));
}

/// Each request asks one thing.
pub proof fn lemma_ask_of(a: Ask)
    ensures
        ask_of(asked_request(a)) == a,
{
}

/// No two operations share a request.
pub proof fn law_requests_distinct(a: BackendOp, b: BackendOp)
    requires
        request_of(a) == request_of(b),
    ensures
        a == b,
{
    law_agent_runs_what_client_asked(a, Ask::Run(b));
}

/// The workspace's own repository is never named by a request, and naming it
/// or not makes the same one.
pub proof fn law_own_repository_is_not_named(repo: Option<String>, op: BackendOp)
    ensures
        (repo matches Some(root) && root@ == "."@) ==> named_repo(repo) == named_repo(None),
        named_repo(repo) matches Some(root) ==> root@ != "."@,
        scoped(scoped(op)) == scoped(op),
{
}

} // verus!
