//! The agent's side of the protocol: what it is started with, what each
//! request makes it do, and how the outcome is answered.
use crate::backend::{
    ContainerInfo, ContentMatchHit, DatabaseInfo, DbPage, DirEntry, RepoDiscoverResponse,
    StatusSnapshot, TableSummary, WalkResponse, WorkspaceRepoMeta,
};
use crate::convert::{
    commit_detail_to_dto, commit_info_to_dto, container_dto, container_info_to_dto,
    database_info_to_dto, db_page_to_dto, dir_dto, dir_entry_to_dto, file_entries_to_dto, hit_dto,
    info_dto, low32, match_hit_to_dto, opt_diff_to_dto, pairwise, ref_row_to_dto, same_commit,
    same_entries, same_opt_diff, same_page, same_row, same_snapshot, same_table, snapshot_to_dto,
    stash_detail_to_dto, stash_dto, stash_entry_to_dto,
};
use crate::git::{CommitDetail, CommitInfo, DiffContent, FileEntry, StashDetail, StashEntry};
use crate::ops::{
    ask_for, ask_of, asked_request, lemma_ask_of, request_of, Ask, BackendOp,
};
use crate::proto::{
    CommitInfoDto, ContainerInfoDto, ContentSearchCompletedDto, DatabaseInfoDto, DirEntryDto,
    Envelope, ErrorCode, Frame, HandshakeResponse, MatchHitDto, Notification, Payload,
    ReadFileResponse, RefLabelDto, RepoDiscoverResponseDto, Request, Response, StashEntryDto,
    TableSummaryDto, TrashResponseDto, WalkResponseDto, WorkspaceRepoMetaDto, PROTOCOL_VERSION,
};
use crate::refs::RefRow;
use crate::text::{map_vec, same_str, views};
use vstd::prelude::*;
use vstd::string::*;

verus! {

// ── Command line ─────────────────────────────────────────────────────────

#[derive(Debug)]
pub struct Args {
    pub stdio: bool,
    pub workdir: Option<String>,
}

/// What the command line asks the agent to do.
#[derive(Debug)]
pub enum AgentCommand {
    Serve(Args),
    PrintVersion,
    PrintProtocolVersion,
    PrintUsage,
}

/// The meaning of a command line by its contents.
pub enum CommandModel {
    Serve { stdio: bool, workdir: Option<Seq<char>> },
    PrintVersion,
    PrintProtocolVersion,
    PrintUsage,
    Fault(Seq<char>),
}

/// What the arguments from position `i` on mean, given what was read before.
pub open spec fn command_from(
    args: Seq<Seq<char>>,
    i: int,
    stdio: bool,
    workdir: Option<Seq<char>>,
) -> CommandModel
    decreases
            (if i < args.len() {
                args.len() - i
            } else {
                0
            }),
{
    if i < 0 || i >= args.len() {
        CommandModel::Serve { stdio, workdir }
    } else if args[i] == "--stdio"@ {
        command_from(args, i + 1, true, workdir)
    } else if args[i] == "--workdir"@ {
        if i + 1 < args.len() {
            command_from(args, i + 2, stdio, Some(args[i + 1]))
        } else {
            CommandModel::Fault("--workdir needs a path"@)
        }
    } else if args[i] == "--version"@ {
        CommandModel::PrintVersion
    } else if args[i] == "--protocol-version"@ {
        CommandModel::PrintProtocolVersion
    } else if args[i] == "--help"@ || args[i] == "-h"@ {
        CommandModel::PrintUsage
    } else {
        CommandModel::Fault("unknown argument: "@ + args[i])
    }
}

pub open spec fn command_model(r: Result<AgentCommand, String>) -> CommandModel {
    match r {
        Ok(AgentCommand::Serve(a)) => CommandModel::Serve {
            stdio: a.stdio,
            workdir: crate::text::opt_view(a.workdir),
        },
        Ok(AgentCommand::PrintVersion) => CommandModel::PrintVersion,
        Ok(AgentCommand::PrintProtocolVersion) => CommandModel::PrintProtocolVersion,
        Ok(AgentCommand::PrintUsage) => CommandModel::PrintUsage,
        Err(e) => CommandModel::Fault(e@),
    }
}

/// Reads the arguments behind the program's name.
pub fn parse_args(argv: &Vec<String>) -> (r: Result<AgentCommand, String>)
    ensures
        command_model(r) == command_from(views(argv@), 0, false, None),
{
    let ghost all = views(argv@);
    let mut args = Args { stdio: false, workdir: None };
    let n: usize = argv.len();
    let mut i: usize = 0;
    while i < n
        invariant
            i <= n == argv@.len(),
            all == views(argv@),
            command_from(all, i as int, args.stdio, crate::text::opt_view(args.workdir))
                == command_from(all, 0, false, None),
        decreases n - i,
    {
        assert(all[i as int] == argv@[i as int]@);
        let arg = argv[i].as_str();
        if same_str(arg, "--stdio") {
            args.stdio = true;
            i = i + 1;
        } else if same_str(arg, "--workdir") {
            if i + 1 >= n {
                return Err("--workdir needs a path".to_owned());
            }
            assert(all[i + 1] == argv@[i + 1]@);
            args.workdir = Some(argv[i + 1].clone());
            i = i + 2;
        } else if same_str(arg, "--version") {
            return Ok(AgentCommand::PrintVersion);
        } else if same_str(arg, "--protocol-version") {
            return Ok(AgentCommand::PrintProtocolVersion);
        } else if same_str(arg, "--help") || same_str(arg, "-h") {
            return Ok(AgentCommand::PrintUsage);
        } else {
            let mut m = "unknown argument: ".to_owned();
            m.append(arg);
            return Err(m);
        }
    }
    Ok(AgentCommand::Serve(args))
}

// ── Requests ─────────────────────────────────────────────────────────────

/// Who the agent is, for the handshake.
#[derive(Debug)]
pub struct AgentIdentity {
    pub workdir: String,
    pub workdir_name: String,
    pub branch_name: String,
    pub agent_version: String,
}

/// What the agent does about a request.
#[derive(Debug)]
pub enum AgentStep {
    Respond(Response),
    /// Run the operation, then answer with a value of the kind `reply`.
    Run { id: u64, op: BackendOp, reply: ReplyKind },
}

pub open spec fn succeeded(id: u64, result: Payload) -> AgentStep {
    AgentStep::Respond(Response::Success { id, result })
}

/// The plan for an envelope: an answer at once, or the operation to run.
pub open spec fn plans(who: AgentIdentity, env: Envelope, r: AgentStep) -> bool {
    match env.body {
        Request::Handshake => r == succeeded(
            env.id,
            Payload::Handshake(
                HandshakeResponse {
                    workdir: who.workdir,
                    workdir_name: who.workdir_name,
                    branch_name: who.branch_name,
                    agent_version: who.agent_version,
                    protocol_version: PROTOCOL_VERSION,
                },
            ),
        ),
        Request::Shutdown => r == succeeded(env.id, Payload::ShuttingDown),
        Request::Subscribe => r == succeeded(env.id, Payload::Subscribed),
        Request::SearchContent { request } => {
            &&& r matches AgentStep::Respond(Response::Failure { id, code, message })
            &&& id == env.id
            &&& code == ErrorCode::Protocol
            &&& message@ == "SearchContent must be routed through dispatch_search_content"@
        },
        _ => {
            &&& r matches AgentStep::Run { id, op, reply }
            &&& id == env.id
            &&& request_of(op) == env.body
            &&& reply == asked_kind(op)
        },
    }
}

/// The plan for an envelope. The requests about the agent itself are answered
/// at once; every other one runs the operation that it asks for. A content
/// search does not come this way, because it streams.
pub fn dispatch(who: AgentIdentity, env: Envelope) -> (r: AgentStep)
    ensures
        plans(who, env, r),
{
    let id: u64 = env.id;
    let ghost body = env.body;
    let asked = ask_for(env.body);
    assert(asked_request(asked) == body);
    match asked {
        Ask::Handshake => AgentStep::Respond(
            Response::Success {
                id,
                result: Payload::Handshake(
                    HandshakeResponse {
                        workdir: who.workdir,
                        workdir_name: who.workdir_name,
                        branch_name: who.branch_name,
                        agent_version: who.agent_version,
                        protocol_version: PROTOCOL_VERSION,
                    },
                ),
            },
        ),
        Ask::Shutdown => AgentStep::Respond(
            Response::Success { id, result: Payload::ShuttingDown },
        ),
        Ask::Subscribe => AgentStep::Respond(Response::Success { id, result: Payload::Subscribed }),
        Ask::Run(op) => match op {
            BackendOp::SearchContent { request } => AgentStep::Respond(
                Response::Failure {
                    id,
                    code: ErrorCode::Protocol,
                    message: "SearchContent must be routed through dispatch_search_content"
                        .to_owned(),
                },
            ),
            other => {
                let reply = reply_kind(&other);
                AgentStep::Run { id, op: other, reply }
            },
        },
    }
}

/// The domain value that an operation came to.
#[derive(Debug)]
pub enum Outcome {
    Done,
    Dir(Vec<DirEntry>),
    File(ReadFileResponse),
    Repos(RepoDiscoverResponse),
    Containers(Vec<ContainerInfo>),
    Status(StatusSnapshot),
    Diff(Option<DiffContent>),
    Stashes(Vec<StashEntry>),
    StashDetail(StashDetail),
    Commits(Vec<CommitInfo>),
    Refs(Vec<RefRow>),
    HeadOid(Option<String>),
    CommitDetail(Option<CommitDetail>),
    Files(Vec<FileEntry>),
    Size(u64),
    Trash { used_trash: bool },
    Walk(WalkResponse),
    SearchCompleted { truncated: bool },
    Database(Option<DatabaseInfo>),
    Page(DbPage),
}

// ── Kinds of answers ─────────────────────────────────────────────────────

/// What kind of value answers a request.
#[derive(Debug, Clone, Copy, PartialEq, Eq, Structural)]
pub enum ReplyKind {
    Done,
    ShuttingDown,
    Subscribed,
    Handshake,
    Dir,
    File,
    Repos,
    Containers,
    Status,
    Diff,
    Stashes,
    StashDetail,
    Commits,
    Refs,
    HeadOid,
    CommitDetail,
    Files,
    Size,
    Trash,
    Walk,
    SearchCompleted,
    Database,
    Page,
}

/// The kind of value that answers an operation.
pub open spec fn asked_kind(op: BackendOp) -> ReplyKind {
    match op {
        BackendOp::ReadDir { .. } => ReplyKind::Dir,
        BackendOp::ReadFile { .. } => ReplyKind::File,
        BackendOp::DiscoverRepos { .. } => ReplyKind::Repos,
        BackendOp::ListContainers => ReplyKind::Containers,
        BackendOp::GitStatus { .. } => ReplyKind::Status,
        BackendOp::StagedDiff { .. }
        | BackendOp::UnstagedDiff { .. }
        | BackendOp::UntrackedDiff { .. }
        | BackendOp::CommitFileDiff { .. }
        | BackendOp::RangeFileDiff { .. } => ReplyKind::Diff,
        BackendOp::ListStashes { .. } => ReplyKind::Stashes,
        BackendOp::StashDetail { .. } => ReplyKind::StashDetail,
        BackendOp::ListCommits { .. } => ReplyKind::Commits,
        BackendOp::ListRefs { .. } => ReplyKind::Refs,
        BackendOp::HeadOid { .. } => ReplyKind::HeadOid,
        BackendOp::CommitDetail { .. } => ReplyKind::CommitDetail,
        BackendOp::RangeFiles { .. } => ReplyKind::Files,
        BackendOp::FileSize { .. } => ReplyKind::Size,
        BackendOp::Trash { .. } => ReplyKind::Trash,
        BackendOp::WalkRepoPaths { .. } => ReplyKind::Walk,
        BackendOp::SearchContent { .. } => ReplyKind::SearchCompleted,
        BackendOp::LoadDbInitial { .. } => ReplyKind::Database,
        BackendOp::LoadDbPage { .. } => ReplyKind::Page,
        _ => ReplyKind::Done,
    }
}

pub fn reply_kind(op: &BackendOp) -> (r: ReplyKind)
    ensures
        r == asked_kind(*op),
{
    match op {
        BackendOp::ReadDir { .. } => ReplyKind::Dir,
        BackendOp::ReadFile { .. } => ReplyKind::File,
        BackendOp::DiscoverRepos { .. } => ReplyKind::Repos,
        BackendOp::ListContainers => ReplyKind::Containers,
        BackendOp::GitStatus { .. } => ReplyKind::Status,
        BackendOp::StagedDiff { .. }
        | BackendOp::UnstagedDiff { .. }
        | BackendOp::UntrackedDiff { .. }
        | BackendOp::CommitFileDiff { .. }
        | BackendOp::RangeFileDiff { .. } => ReplyKind::Diff,
        BackendOp::ListStashes { .. } => ReplyKind::Stashes,
        BackendOp::StashDetail { .. } => ReplyKind::StashDetail,
        BackendOp::ListCommits { .. } => ReplyKind::Commits,
        BackendOp::ListRefs { .. } => ReplyKind::Refs,
        BackendOp::HeadOid { .. } => ReplyKind::HeadOid,
        BackendOp::CommitDetail { .. } => ReplyKind::CommitDetail,
        BackendOp::RangeFiles { .. } => ReplyKind::Files,
        BackendOp::FileSize { .. } => ReplyKind::Size,
        BackendOp::Trash { .. } => ReplyKind::Trash,
        BackendOp::WalkRepoPaths { .. } => ReplyKind::Walk,
        BackendOp::SearchContent { .. } => ReplyKind::SearchCompleted,
        BackendOp::LoadDbInitial { .. } => ReplyKind::Database,
        BackendOp::LoadDbPage { .. } => ReplyKind::Page,
        _ => ReplyKind::Done,
    }
}

pub open spec fn outcome_kind(o: Outcome) -> ReplyKind {
    match o {
        Outcome::Done => ReplyKind::Done,
        Outcome::Dir(_) => ReplyKind::Dir,
        Outcome::File(_) => ReplyKind::File,
        Outcome::Repos(_) => ReplyKind::Repos,
        Outcome::Containers(_) => ReplyKind::Containers,
        Outcome::Status(_) => ReplyKind::Status,
        Outcome::Diff(_) => ReplyKind::Diff,
        Outcome::Stashes(_) => ReplyKind::Stashes,
        Outcome::StashDetail(_) => ReplyKind::StashDetail,
        Outcome::Commits(_) => ReplyKind::Commits,
        Outcome::Refs(_) => ReplyKind::Refs,
        Outcome::HeadOid(_) => ReplyKind::HeadOid,
        Outcome::CommitDetail(_) => ReplyKind::CommitDetail,
        Outcome::Files(_) => ReplyKind::Files,
        Outcome::Size(_) => ReplyKind::Size,
        Outcome::Trash { .. } => ReplyKind::Trash,
        Outcome::Walk(_) => ReplyKind::Walk,
        Outcome::SearchCompleted { .. } => ReplyKind::SearchCompleted,
        Outcome::Database(_) => ReplyKind::Database,
        Outcome::Page(_) => ReplyKind::Page,
    }
}

fn kind_of_outcome(o: &Outcome) -> (r: ReplyKind)
    ensures
        r == outcome_kind(*o),
{
    match o {
        Outcome::Done => ReplyKind::Done,
        Outcome::Dir(_) => ReplyKind::Dir,
        Outcome::File(_) => ReplyKind::File,
        Outcome::Repos(_) => ReplyKind::Repos,
        Outcome::Containers(_) => ReplyKind::Containers,
        Outcome::Status(_) => ReplyKind::Status,
        Outcome::Diff(_) => ReplyKind::Diff,
        Outcome::Stashes(_) => ReplyKind::Stashes,
        Outcome::StashDetail(_) => ReplyKind::StashDetail,
        Outcome::Commits(_) => ReplyKind::Commits,
        Outcome::Refs(_) => ReplyKind::Refs,
        Outcome::HeadOid(_) => ReplyKind::HeadOid,
        Outcome::CommitDetail(_) => ReplyKind::CommitDetail,
        Outcome::Files(_) => ReplyKind::Files,
        Outcome::Size(_) => ReplyKind::Size,
        Outcome::Trash { .. } => ReplyKind::Trash,
        Outcome::Walk(_) => ReplyKind::Walk,
        Outcome::SearchCompleted { .. } => ReplyKind::SearchCompleted,
        Outcome::Database(_) => ReplyKind::Database,
        Outcome::Page(_) => ReplyKind::Page,
    }
}

pub open spec fn payload_kind(p: Payload) -> ReplyKind {
    match p {
        Payload::Done => ReplyKind::Done,
        Payload::ShuttingDown => ReplyKind::ShuttingDown,
        Payload::Subscribed => ReplyKind::Subscribed,
        Payload::Handshake(_) => ReplyKind::Handshake,
        Payload::Dir(_) => ReplyKind::Dir,
        Payload::File(_) => ReplyKind::File,
        Payload::Repos(_) => ReplyKind::Repos,
        Payload::Containers(_) => ReplyKind::Containers,
        Payload::Status(_) => ReplyKind::Status,
        Payload::Diff(_) => ReplyKind::Diff,
        Payload::Stashes(_) => ReplyKind::Stashes,
        Payload::StashDetail(_) => ReplyKind::StashDetail,
        Payload::Commits(_) => ReplyKind::Commits,
        Payload::Refs(_) => ReplyKind::Refs,
        Payload::HeadOid(_) => ReplyKind::HeadOid,
        Payload::CommitDetail(_) => ReplyKind::CommitDetail,
        Payload::Files(_) => ReplyKind::Files,
        Payload::Size(_) => ReplyKind::Size,
        Payload::Trash(_) => ReplyKind::Trash,
        Payload::Walk(_) => ReplyKind::Walk,
        Payload::SearchCompleted(_) => ReplyKind::SearchCompleted,
        Payload::Database(_) => ReplyKind::Database,
        Payload::Page(_) => ReplyKind::Page,
    }
}

/// The outcome is one that the operation can come to.
pub open spec fn fits(op: BackendOp, o: Outcome) -> bool {
    asked_kind(op) == outcome_kind(o)
}

/// The kind of value that answers a request.
pub open spec fn request_kind(request: Request) -> ReplyKind {
    match ask_of(request) {
        Ask::Handshake => ReplyKind::Handshake,
        Ask::Shutdown => ReplyKind::ShuttingDown,
        Ask::Subscribe => ReplyKind::Subscribed,
        Ask::Run(op) => asked_kind(op),
    }
}

pub open spec fn repo_dto(m: WorkspaceRepoMeta) -> WorkspaceRepoMetaDto {
    WorkspaceRepoMetaDto { repo_root_rel: m.repo_root_rel, display_name: m.display_name }
}

fn repo_meta_to_dto(m: WorkspaceRepoMeta) -> (r: WorkspaceRepoMetaDto)
    ensures
        r == repo_dto(m),
{
    WorkspaceRepoMetaDto { repo_root_rel: m.repo_root_rel, display_name: m.display_name }
}

pub open spec fn same_database(d: DatabaseInfo, w: DatabaseInfoDto) -> bool {
    &&& pairwise(d.tables@, w.tables@, |x: TableSummary, y: TableSummaryDto| same_table(x, y))
    &&& w.selected_table == low32(d.selected_table)
    &&& same_page(d.initial_page, w.initial_page)
    &&& w.bytes_on_disk == d.bytes_on_disk
}

/// The payload says what the outcome is.
pub open spec fn tells(p: Payload, o: Outcome) -> bool {
    match (o, p) {
        (Outcome::Done, Payload::Done) => true,
        (Outcome::Dir(a), Payload::Dir(b)) => pairwise(
            a@,
            b@,
            |x: DirEntry, y: DirEntryDto| dir_dto(x) == y,
        ),
        (Outcome::File(a), Payload::File(b)) => a == b,
        (Outcome::Repos(a), Payload::Repos(b)) => a.truncated == b.truncated && pairwise(
            a.repos@,
            b.repos@,
            |x: WorkspaceRepoMeta, y: WorkspaceRepoMetaDto| repo_dto(x) == y,
        ),
        (Outcome::Containers(a), Payload::Containers(b)) => pairwise(
            a@,
            b@,
            |x: ContainerInfo, y: ContainerInfoDto| container_dto(x) == y,
        ),
        (Outcome::Status(a), Payload::Status(b)) => same_snapshot(a, b),
        (Outcome::Diff(a), Payload::Diff(b)) => same_opt_diff(a, b),
        (Outcome::Stashes(a), Payload::Stashes(b)) => pairwise(
            a@,
            b@,
            |x: StashEntry, y: StashEntryDto| stash_dto(x) == y,
        ),
        (Outcome::StashDetail(a), Payload::StashDetail(b)) => {
            &&& b.entry == stash_dto(a.entry)
            &&& same_entries(a.files@, b.files@)
            &&& !b.patch_truncated ==> b.patch == a.patch
            &&& b.patch_truncated <==> vstd::utf8::encode_utf8(a.patch@).len()
                > crate::convert::MAX_STASH_PATCH_BYTES
            &&& b.patch_truncated ==> vstd::utf8::encode_utf8(b.patch@)
                == vstd::utf8::encode_utf8(a.patch@).take(
                crate::convert::cut_point(
                    vstd::utf8::encode_utf8(a.patch@),
                    crate::convert::MAX_STASH_PATCH_BYTES as int,
                ),
            )
        },
        (Outcome::Commits(a), Payload::Commits(b)) => pairwise(
            a@,
            b@,
            |x: CommitInfo, y: CommitInfoDto| info_dto(x) == y,
        ),
        (Outcome::Refs(a), Payload::Refs(b)) => pairwise(
            a@,
            b@,
            |x: RefRow, y: (String, Vec<RefLabelDto>)| same_row(x, y),
        ),
        (Outcome::HeadOid(a), Payload::HeadOid(b)) => a == b,
        (Outcome::CommitDetail(a), Payload::CommitDetail(b)) => match (a, b) {
            (Some(x), Some(y)) => same_commit(x, y),
            (None, None) => true,
            _ => false,
        },
        (Outcome::Files(a), Payload::Files(b)) => same_entries(a@, b@),
        (Outcome::Size(a), Payload::Size(b)) => a == b,
        (Outcome::Trash { used_trash }, Payload::Trash(b)) => b.used_trash == used_trash,
        (Outcome::Walk(a), Payload::Walk(b)) => a.paths == b.paths && a.truncated == b.truncated,
        (Outcome::SearchCompleted { truncated }, Payload::SearchCompleted(b)) => b.truncated
            == truncated,
        (Outcome::Database(a), Payload::Database(b)) => match (a, b) {
            (Some(x), Some(y)) => same_database(x, y),
            (None, None) => true,
            _ => false,
        },
        (Outcome::Page(a), Payload::Page(b)) => same_page(a, b),
        _ => false,
    }
}

/// The payload for an outcome.
pub fn payload_of(o: Outcome) -> (r: Payload)
    ensures
        tells(r, o),
{
    match o {
        Outcome::Done => Payload::Done,
        Outcome::Dir(v) => Payload::Dir(map_vec(v, dir_entry_to_dto)),
        Outcome::File(f) => Payload::File(f),
        Outcome::Repos(x) => Payload::Repos(
            RepoDiscoverResponseDto {
                repos: map_vec(x.repos, repo_meta_to_dto),
                truncated: x.truncated,
            },
        ),
        Outcome::Containers(v) => Payload::Containers(map_vec(v, container_info_to_dto)),
        Outcome::Status(s) => Payload::Status(snapshot_to_dto(s)),
        Outcome::Diff(d) => Payload::Diff(opt_diff_to_dto(d)),
        Outcome::Stashes(v) => Payload::Stashes(map_vec(v, stash_entry_to_dto)),
        Outcome::StashDetail(d) => Payload::StashDetail(stash_detail_to_dto(d)),
        Outcome::Commits(v) => Payload::Commits(map_vec(v, commit_info_to_dto)),
        Outcome::Refs(v) => Payload::Refs(map_vec(v, ref_row_to_dto)),
        Outcome::HeadOid(x) => Payload::HeadOid(x),
        Outcome::CommitDetail(x) => match x {
            Some(c) => Payload::CommitDetail(Some(commit_detail_to_dto(c))),
            None => Payload::CommitDetail(None),
        },
        Outcome::Files(v) => Payload::Files(file_entries_to_dto(v)),
        Outcome::Size(n) => Payload::Size(n),
        Outcome::Trash { used_trash } => Payload::Trash(TrashResponseDto { used_trash }),
        Outcome::Walk(w) => Payload::Walk(
            WalkResponseDto { paths: w.paths, truncated: w.truncated },
        ),
        Outcome::SearchCompleted { truncated } => Payload::SearchCompleted(
            ContentSearchCompletedDto { truncated },
        ),
        Outcome::Database(d) => match d {
            Some(d) => Payload::Database(Some(database_info_to_dto(d))),
            None => Payload::Database(None),
        },
        Outcome::Page(p) => Payload::Page(db_page_to_dto(p)),
    }
}

/// The response to a request whose operation came to `result`.
pub open spec fn answers(id: u64, result: Result<Outcome, (ErrorCode, String)>, r: Response) -> bool {
    &&& r.spec_id() == id
    &&& match (result, r) {
        (Ok(o), Response::Success { result: p, .. }) => tells(p, o),
        (Err(e), Response::Failure { code, message, .. }) => e == (code, message),
        _ => false,
    }
}

/// The response to the request `id`: what the operation came to, or the
/// backend's error code and message.
pub fn respond(id: u64, result: Result<Outcome, (ErrorCode, String)>) -> (r: Response)
    ensures
        answers(id, result, r),
{
    match result {
        Ok(o) => Response::Success { id, result: payload_of(o) },
        Err((code, message)) => Response::Failure { id, code, message },
    }
}

/// The response `r` to the request `id`, which asks for a value of the kind
/// `reply`: an outcome of another kind is a fault of the protocol.
pub open spec fn answers_as(
    id: u64,
    reply: ReplyKind,
    result: Result<Outcome, (ErrorCode, String)>,
    r: Response,
) -> bool {
    if result matches Ok(o) && outcome_kind(o) != reply {
        &&& r matches Response::Failure { id: i, code, message }
        &&& i == id
        &&& code == ErrorCode::Protocol
        &&& message@ == "outcome of another kind than asked for"@
    } else {
        answers(id, result, r)
    }
}

pub fn respond_as(id: u64, reply: ReplyKind, result: Result<Outcome, (ErrorCode, String)>) -> (r:
    Response)
    ensures
        answers_as(id, reply, result, r),
{
    if let Ok(o) = &result {
        if kind_of_outcome(o) != reply {
            return Response::Failure {
                id,
                code: ErrorCode::Protocol,
                message: "outcome of another kind than asked for".to_owned(),
            };
        }
    }
    respond(id, result)
}

pub open spec fn says_goodbye(resp: Option<Response>) -> bool {
    resp matches Some(Response::Success { result, .. }) && result is ShuttingDown
}

/// Whether the agent is to exit after this reply.
pub fn is_shutdown_reply(resp: &Option<Response>) -> (r: bool)
    ensures
        r == says_goodbye(*resp),
{
    match resp {
        Some(Response::Success { result: Payload::ShuttingDown, .. }) => true,
        _ => false,
    }
}

// ── Content search ───────────────────────────────────────────────────────

/// The frame that carries hits of the search `id` to the client.
pub fn search_chunk(id: u64, hits: Vec<ContentMatchHit>) -> (r: Frame)
    ensures
        r matches Frame::Notification(Notification::SearchChunk { request_id, hits: sent })
            && request_id == id && pairwise(
            hits@,
            sent@,
            |x: ContentMatchHit, y: MatchHitDto| hit_dto(x) == y,
        ),
{
    Frame::Notification(
        Notification::SearchChunk { request_id: id, hits: map_vec(hits, match_hit_to_dto) },
    )
}

/// The last word on a search: nothing when the client is gone, for then the
/// response could not be delivered either.
pub fn dispatch_search_content(
    id: u64,
    broken: bool,
    result: Result<bool, (ErrorCode, String)>,
) -> (r: Option<Response>)
    ensures
        broken <==> r is None,
        !broken ==> match result {
            Ok(truncated) => r == Some(
                Response::Success {
                    id,
                    result: Payload::SearchCompleted(ContentSearchCompletedDto { truncated }),
                },
            ),
            Err((code, message)) => r == Some(Response::Failure { id, code, message }),
        },
{
    if broken {
        return None;
    }
    match result {
        Ok(truncated) => Some(
            Response::Success {
                id,
                result: Payload::SearchCompleted(ContentSearchCompletedDto { truncated }),
            },
        ),
        Err((code, message)) => Some(Response::Failure { id, code, message }),
    }
}

// ── Files ────────────────────────────────────────────────────────────────

/// What was found at a path inside the working directory.
#[derive(Debug)]
pub enum Lookup {
    Missing,
    /// The path cannot be used, for instance because it leaves the working
    /// directory.
    Refused(ErrorCode, String),
    NotAFile,
    File,
}

/// The answer to a read: a missing path is no error but no file; the contents
/// come up to `max_bytes`, with the full size beside them.
pub fn read_file_response(found: Lookup, contents: Result<Vec<u8>, String>, max_bytes: u64) -> (r:
    Result<ReadFileResponse, (ErrorCode, String)>)
    ensures
        match found {
            Lookup::Refused(code, message) => r == Err::<ReadFileResponse, (ErrorCode, String)>(
                (code, message),
            ),
            Lookup::Missing | Lookup::NotAFile => r matches Ok(f) && !f.is_file && f.bytes@.len()
                == 0 && f.size == 0,
            Lookup::File => match contents {
                Err(e) => r == Err::<ReadFileResponse, (ErrorCode, String)>((ErrorCode::Io, e)),
                Ok(raw) => {
                    &&& r matches Ok(f)
                    &&& f.is_file
                    &&& f.size == raw@.len()
                    &&& f.bytes@ == (if raw@.len() > max_bytes {
                        raw@.take(max_bytes as int)
                    } else {
                        raw@
                    })
                },
            },
        },
{
    match found {
        Lookup::Refused(code, message) => Err((code, message)),
        Lookup::Missing | Lookup::NotAFile => Ok(
            ReadFileResponse { is_file: false, bytes: Vec::new(), size: 0 },
        ),
        Lookup::File => match contents {
            Err(e) => Err((ErrorCode::Io, e)),
            Ok(raw) => {
                let size: u64 = raw.len() as u64;
                let mut bytes = raw;
                if size > max_bytes {
                    bytes.truncate(max_bytes as usize);
                }
                Ok(ReadFileResponse { is_file: true, bytes, size })
            },
        },
    }
}

/// How the trash tool fared.
#[derive(Debug, Clone, Copy, PartialEq, Eq, Structural)]
pub enum TrashTool {
    Absent,
    Succeeded,
    Failed,
}

/// One permanent delete: the path as shown and the error, if any.
#[derive(Debug)]
pub struct Removal {
    pub path: String,
    pub error: Option<String>,
}

/// The first removal that failed.
pub open spec fn first_failure(v: Seq<Removal>) -> Option<Seq<char>>
    decreases v.len(),
{
    if v.len() == 0 {
        None
    } else {
        match v[0].error {
            Some(e) => Some("delete "@ + v[0].path@ + ": "@ + e@),
            None => first_failure(v.drop_first()),
        }
    }
}

/// Whether files went to the trash or were deleted for good. A bad path ends
/// it before anything is touched; a trash tool that is absent or fails gives
/// way to permanent deletes, whose first failure is the error.
pub fn agent_trash_delete(
    refused: Option<(ErrorCode, String)>,
    tool: TrashTool,
    removals: &Vec<Removal>,
) -> (r: Result<bool, (ErrorCode, String)>)
    ensures
        match refused {
            Some(e) => r == Err::<bool, (ErrorCode, String)>(e),
            None => if tool == TrashTool::Succeeded {
                r == Ok::<bool, (ErrorCode, String)>(true)
            } else {
                match first_failure(removals@) {
                    Some(m) => r matches Err(e) && e.0 == ErrorCode::Io && e.1@ == m,
                    None => r == Ok::<bool, (ErrorCode, String)>(false),
                }
            },
        },
{
    match refused {
        Some(e) => return Err(e),
        None => {},
    }
    if tool == TrashTool::Succeeded {
        return Ok(true);
    }
    let mut i: usize = 0;
    assert(removals@.skip(0) =~= removals@);
    while i < removals.len()
        invariant
            i <= removals@.len(),
            refused is None,
            tool != TrashTool::Succeeded,
            first_failure(removals@.skip(i as int)) == first_failure(removals@),
        decreases removals@.len() - i,
    {
        match &removals[i].error {
            Some(e) => {
                let mut m = "delete ".to_owned();
                m.append(removals[i].path.as_str());
                m.append(": ");
                m.append(e.as_str());
                return Err((ErrorCode::Io, m));
            },
            None => {},
        }
        assert(removals@.skip(i as int).drop_first() =~= removals@.skip(i + 1));
        i = i + 1;
    }
    Ok(false)
}

// ── Databases ────────────────────────────────────────────────────────────

pub open spec fn sqlite_error(e: Seq<char>) -> Seq<char> {
    "sqlite: "@ + e
}

fn sqlite_message(e: &String) -> (r: String)
    ensures
        r@ == sqlite_error(e@),
{
    let mut m = "sqlite: ".to_owned();
    m.append(e.as_str());
    m
}

/// The answer to a database preview: none for what is no SQLite file by its
/// place, its extension or its first bytes.
pub fn load_db_initial_handler(
    found: Lookup,
    has_extension: bool,
    magic: Result<bool, String>,
    read: Result<DatabaseInfo, String>,
) -> (r: Result<Option<DatabaseInfo>, (ErrorCode, String)>)
    ensures
        match found {
            Lookup::Refused(code, message) => r == Err::<
                Option<DatabaseInfo>,
                (ErrorCode, String),
            >((code, message)),
            Lookup::Missing | Lookup::NotAFile => r == Ok::<
                Option<DatabaseInfo>,
                (ErrorCode, String),
            >(None),
            Lookup::File => if !has_extension {
                r == Ok::<Option<DatabaseInfo>, (ErrorCode, String)>(None)
            } else {
                match magic {
                    Err(e) => r == Err::<Option<DatabaseInfo>, (ErrorCode, String)>(
                        (ErrorCode::Io, e),
                    ),
                    Ok(is_sqlite) => if !is_sqlite {
                        r == Ok::<Option<DatabaseInfo>, (ErrorCode, String)>(None)
                    } else {
                        match read {
                            Ok(info) => r == Ok::<Option<DatabaseInfo>, (ErrorCode, String)>(
                                Some(info),
                            ),
                            Err(e) => r matches Err(x) && x.0 == ErrorCode::Other && x.1@
                                == sqlite_error(e@),
                        }
                    },
                }
            },
        },
{
    match found {
        Lookup::Refused(code, message) => return Err((code, message)),
        Lookup::Missing | Lookup::NotAFile => return Ok(None),
        Lookup::File => {},
    }
    if !has_extension {
        return Ok(None);
    }
    match magic {
        Err(e) => return Err((ErrorCode::Io, e)),
        Ok(is_sqlite) => {
            if !is_sqlite {
                return Ok(None);
            }
        },
    }
    match read {
        Ok(info) => Ok(Some(info)),
        Err(e) => Err((ErrorCode::Other, sqlite_message(&e))),
    }
}

/// The answer to a request for one page of a table.
pub fn load_db_page_handler(found: Lookup, read: Result<DbPage, String>) -> (r: Result<
    DbPage,
    (ErrorCode, String),
>)
    ensures
        match found {
            Lookup::Refused(code, message) => r == Err::<DbPage, (ErrorCode, String)>(
                (code, message),
            ),
            Lookup::Missing => r matches Err(x) && x.0 == ErrorCode::NotFound && x.1@
                == "file not found"@,
            Lookup::NotAFile => r matches Err(x) && x.0 == ErrorCode::NotFound && x.1@
                == "not a regular file"@,
            Lookup::File => match read {
                Ok(page) => r == Ok::<DbPage, (ErrorCode, String)>(page),
                Err(e) => r matches Err(x) && x.0 == ErrorCode::Other && x.1@ == sqlite_error(e@),
            },
        },
{
    match found {
        Lookup::Refused(code, message) => Err((code, message)),
        Lookup::Missing => Err((ErrorCode::NotFound, "file not found".to_owned())),
        Lookup::NotAFile => Err((ErrorCode::NotFound, "not a regular file".to_owned())),
        Lookup::File => match read {
            Ok(page) => Ok(page),
            Err(e) => Err((ErrorCode::Other, sqlite_message(&e))),
        },
    }
}

// ── Laws ─────────────────────────────────────────────────────────────────

/// A shutdown request, and no other, makes the agent exit: `reply`, given at
/// once or after an operation that came to `result`, says goodbye exactly for
/// that request.
pub proof fn law_only_shutdown_shuts_down(
    who: AgentIdentity,
    env: Envelope,
    step: AgentStep,
    result: Result<Outcome, (ErrorCode, String)>,
    reply: Response,
)
    requires
        plans(who, env, step),
        match step {
            AgentStep::Respond(r) => reply == r,
            AgentStep::Run { id, op, reply: kind } => answers_as(id, kind, result, reply),
        },
    ensures
        says_goodbye(Some(reply)) <==> env.body is Shutdown,
        reply.spec_id() == env.id,
{
}

/// A success carries the kind of value that its request asks for, whatever the
/// operation came to; and an outcome that fits the operation is not refused.
pub proof fn law_reply_fits_request(
    who: AgentIdentity,
    env: Envelope,
    step: AgentStep,
    result: Result<Outcome, (ErrorCode, String)>,
    reply: Response,
)
    requires
        plans(who, env, step),
        match step {
            AgentStep::Respond(r) => reply == r,
            AgentStep::Run { id, op, reply: kind } => answers_as(id, kind, result, reply),
        },
    ensures
        reply matches Response::Success { result: p, .. } ==> payload_kind(p) == request_kind(
            env.body,
        ),
        (step matches AgentStep::Run { op, .. } && result matches Ok(o) && fits(op, o))
            ==> reply is Success,
{
    match step {
        AgentStep::Run { op, .. } => {
            lemma_ask_of(Ask::Run(op));
        },
        _ => {},
    }
}

} // verus!
