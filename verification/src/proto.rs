//! The length-prefixed protocol between the client and the agent.
//!
//! A frame is a four-byte big-endian length followed by that many bytes of
//! JSON. This module frames and unframes the bodies and defines the messages;
//! the host turns bodies into messages and back.
use crate::text::{decimal, decimal_string};
use vstd::prelude::*;
use vstd::string::*;

verus! {

/// Largest frame body accepted on the wire, 16 MiB.
pub const MAX_FRAME_SIZE: u32 = 16777216;

/// Version of the messages below. A client talks only to an agent that
/// reports the same number.
pub const PROTOCOL_VERSION: u32 = 20;

/// Hits an agent reports for one content search, whatever the client asks.
pub const MAX_SEARCH_HITS: u32 = 10_000;

/// Hits that an agent collects before it sends a chunk.
pub const CHUNK_TARGET_HITS: usize = 64;

/// Paths an agent returns for one walk, whatever the client asks.
pub const MAX_WALK_PATHS: u64 = 100_000;

#[derive(Debug, Clone, Copy, PartialEq, Eq, Structural)]
pub enum FrameErrorKind {
    /// The stream ended before the frame did.
    UnexpectedEof,
    /// The length is over the limit, or the body does not parse.
    InvalidData,
}

#[derive(Debug)]
pub struct FrameError {
    pub kind: FrameErrorKind,
    pub message: String,
}

impl FrameError {
    pub fn kind(&self) -> (r: FrameErrorKind)
        ensures
            r == self.kind,
    {
        self.kind
    }
}

/// The four-byte big-endian form of `n`.
pub open spec fn length_prefix(n: nat) -> Seq<u8> {
    seq![
        (n / 16777216) as u8,
        (n / 65536 % 256) as u8,
        (n / 256 % 256) as u8,
        (n % 256) as u8,
    ]
}

/// The number that four big-endian bytes spell.
pub open spec fn prefix_value(p: Seq<u8>) -> int {
    p[0] * 16777216 + p[1] * 65536 + p[2] * 256 + p[3]
}

/// The bytes of the frame around `body`.
pub open spec fn frame_bytes(body: Seq<u8>) -> Seq<u8> {
    length_prefix(body.len()) + body
}

pub open spec fn fits(body: Seq<u8>) -> bool {
    body.len() <= MAX_FRAME_SIZE
}

pub open spec fn oversized_body_message(n: nat) -> Seq<char> {
    "frame body "@ + decimal(n) + " exceeds MAX_FRAME_SIZE "@ + decimal(MAX_FRAME_SIZE as nat)
}

pub open spec fn oversized_length_message(n: nat) -> Seq<char> {
    "frame length "@ + decimal(n) + " exceeds MAX_FRAME_SIZE "@ + decimal(MAX_FRAME_SIZE as nat)
}

/// Appends the frame around `body` to `writer`. A body over the limit is
/// refused and leaves the writer as it was.
pub fn encode_frame(writer: &mut Vec<u8>, body: &[u8]) -> (r: Result<(), FrameError>)
    ensures
        fits(body@) <==> r is Ok,
        fits(body@) ==> final(writer)@ == old(writer)@ + frame_bytes(body@),
        !fits(body@) ==> final(writer)@ == old(writer)@ && (r->Err_0).kind
            == FrameErrorKind::InvalidData && (r->Err_0).message@ == oversized_body_message(
            body@.len(),
        ),
{
    let n: usize = body.len();
    if n as u64 > MAX_FRAME_SIZE as u64 {
        let mut message = "frame body ".to_owned();
        message.append(decimal_string(n as u64).as_str());
        message.append(" exceeds MAX_FRAME_SIZE ");
        message.append(decimal_string(MAX_FRAME_SIZE as u64).as_str());
        return Err(FrameError { kind: FrameErrorKind::InvalidData, message });
    }
    let ghost start = writer@;
    let len: u32 = n as u32;
    writer.push((len / 16777216) as u8);
    writer.push((len / 65536 % 256) as u8);
    writer.push((len / 256 % 256) as u8);
    writer.push((len % 256) as u8);
    assert(writer@ =~= start + length_prefix(body@.len()));
    writer.extend_from_slice(body);
    assert(writer@ =~= start + frame_bytes(body@));
    Ok(())
}

/// The body length that a frame's first four bytes announce, refused when it
/// is over the limit.
pub fn frame_length(prefix: &[u8]) -> (r: Result<u32, FrameError>)
    requires
        prefix@.len() == 4,
    ensures
        match r {
            Ok(n) => n == prefix_value(prefix@) && n <= MAX_FRAME_SIZE,
            Err(e) => prefix_value(prefix@) > MAX_FRAME_SIZE && e.kind
                == FrameErrorKind::InvalidData && e.message@ == oversized_length_message(
                prefix_value(prefix@) as nat,
            ),
        },
{
    let len: u32 = prefix[0] as u32 * 16777216 + prefix[1] as u32 * 65536 + prefix[2] as u32 * 256
        + prefix[3] as u32;
    if len > MAX_FRAME_SIZE {
        let mut message = "frame length ".to_owned();
        message.append(decimal_string(len as u64).as_str());
        message.append(" exceeds MAX_FRAME_SIZE ");
        message.append(decimal_string(MAX_FRAME_SIZE as u64).as_str());
        return Err(FrameError { kind: FrameErrorKind::InvalidData, message });
    }
    Ok(len)
}

/// A byte stream with the position up to which it has been read.
#[derive(Debug)]
pub struct FrameReader {
    pub bytes: Vec<u8>,
    pub pos: usize,
}

impl FrameReader {
    pub open spec fn wf(&self) -> bool {
        self.pos <= self.bytes@.len()
    }

    /// The bytes still to be read.
    pub open spec fn rest(&self) -> Seq<u8> {
        self.bytes@.skip(self.pos as int)
    }

    pub fn new(bytes: Vec<u8>) -> (r: FrameReader)
        ensures
            r.wf(),
            r.rest() == bytes@,
            r.bytes == bytes,
            r.pos == 0,
    {
        let r = FrameReader { bytes, pos: 0 };
        assert(r.rest() =~= bytes@);
        r
    }

    /// The next `n` bytes, which are then read; all that is left is read
    /// where there are fewer.
    fn read_exact(&mut self, n: usize) -> (r: Option<Vec<u8>>)
        requires
            old(self).wf(),
        ensures
            final(self).wf(),
            final(self).bytes == old(self).bytes,
            match r {
                Some(v) => n <= old(self).rest().len() && v@ == old(self).rest().take(n as int)
                    && final(self).rest() == old(self).rest().skip(n as int),
                None => n > old(self).rest().len() && final(self).rest().len() == 0,
            },
    {
        let len: usize = self.bytes.len();
        if len - self.pos < n {
            self.pos = len;
            return None;
        }
        let mut out: Vec<u8> = Vec::new();
        let start: usize = self.pos;
        let mut i: usize = 0;
        while i < n
            invariant
                i <= n,
                len == self.bytes@.len(),
                start + n <= len,
                out@ == self.bytes@.skip(start as int).take(i as int),
            decreases n - i,
        {
            out.push(self.bytes[start + i]);
            i = i + 1;
            assert(out@ =~= self.bytes@.skip(start as int).take(i as int));
        }
        self.pos = start + n;
        assert(self.rest() =~= old(self).rest().skip(n as int));
        Some(out)
    }
}

/// What reading one frame body from the bytes `s` gives: the body, or why
/// there is none.
pub open spec fn next_body(s: Seq<u8>) -> Result<Seq<u8>, FrameErrorKind> {
    if s.len() < 4 {
        Err(FrameErrorKind::UnexpectedEof)
    } else if prefix_value(s) > MAX_FRAME_SIZE {
        Err(FrameErrorKind::InvalidData)
    } else if s.len() - 4 < prefix_value(s) {
        Err(FrameErrorKind::UnexpectedEof)
    } else {
        Ok(s.subrange(4, 4 + prefix_value(s)))
    }
}

/// Reads one frame body. On success the reader stands right behind the frame.
fn read_body(reader: &mut FrameReader) -> (r: Result<Vec<u8>, FrameError>)
    requires
        old(reader).wf(),
    ensures
        final(reader).wf(),
        final(reader).bytes == old(reader).bytes,
        match (r, next_body(old(reader).rest())) {
            (Ok(v), Ok(b)) => v@ == b && final(reader).rest() == old(reader).rest().skip(
                (4 + b.len()) as int,
            ),
            (Err(e), Err(k)) => e.kind == k,
            _ => false,
        },
{
    let prefix = match reader.read_exact(4) {
        Some(p) => p,
        None => return Err(
            FrameError {
                kind: FrameErrorKind::UnexpectedEof,
                message: "failed to fill whole buffer".to_owned(),
            },
        ),
    };
    assert(prefix_value(prefix@) == prefix_value(old(reader).rest()));
    let len: u32 = match frame_length(prefix.as_slice()) {
        Ok(n) => n,
        Err(e) => return Err(e),
    };
    match reader.read_exact(len as usize) {
        Some(body) => {
            assert(body@ =~= old(reader).rest().subrange(4, 4 + len as int));
            assert(reader.rest() =~= old(reader).rest().skip((4 + body@.len()) as int));
            Ok(body)
        },
        None => Err(
            FrameError {
                kind: FrameErrorKind::UnexpectedEof,
                message: "failed to fill whole buffer".to_owned(),
            },
        ),
    }
}

/// Client side: the body of the next response or notification.
pub fn decode_frame(reader: &mut FrameReader) -> (r: Result<Vec<u8>, FrameError>)
    requires
        old(reader).wf(),
    ensures
        final(reader).wf(),
        final(reader).bytes == old(reader).bytes,
        match (r, next_body(old(reader).rest())) {
            (Ok(v), Ok(b)) => v@ == b && final(reader).rest() == old(reader).rest().skip(
                (4 + b.len()) as int,
            ),
            (Err(e), Err(k)) => e.kind == k,
            _ => false,
        },
{
    read_body(reader)
}

/// Agent side: the body of the next request envelope.
pub fn read_envelope(reader: &mut FrameReader) -> (r: Result<Vec<u8>, FrameError>)
    requires
        old(reader).wf(),
    ensures
        final(reader).wf(),
        final(reader).bytes == old(reader).bytes,
        match (r, next_body(old(reader).rest())) {
            (Ok(v), Ok(b)) => v@ == b && final(reader).rest() == old(reader).rest().skip(
                (4 + b.len()) as int,
            ),
            (Err(e), Err(k)) => e.kind == k,
            _ => false,
        },
{
    read_body(reader)
}

/// A client's frame, given what parsing its body came to.
pub fn parsed_frame(parsed: Result<Frame, String>) -> (r: Result<Frame, FrameError>)
    ensures
        match (parsed, r) {
            (Ok(f), Ok(g)) => f == g,
            (Err(m), Err(e)) => e.kind == FrameErrorKind::InvalidData && e.message@
                == "frame decode: "@ + m@,
            _ => false,
        },
{
    match parsed {
        Ok(f) => Ok(f),
        Err(m) => {
            let mut message = "frame decode: ".to_owned();
            message.append(m.as_str());
            Err(FrameError { kind: FrameErrorKind::InvalidData, message })
        },
    }
}

/// An agent's envelope, given what parsing its body came to.
pub fn parsed_envelope(parsed: Result<Envelope, String>) -> (r: Result<Envelope, FrameError>)
    ensures
        match (parsed, r) {
            (Ok(f), Ok(g)) => f == g,
            (Err(m), Err(e)) => e.kind == FrameErrorKind::InvalidData && e.message@
                == "envelope decode: "@ + m@,
            _ => false,
        },
{
    match parsed {
        Ok(f) => Ok(f),
        Err(m) => {
            let mut message = "envelope decode: ".to_owned();
            message.append(m.as_str());
            Err(FrameError { kind: FrameErrorKind::InvalidData, message })
        },
    }
}

proof fn lemma_prefix(n: nat)
    requires
        n < 4294967296,
    ensures
        prefix_value(length_prefix(n)) == n,
{
    assert(n / 65536 == (n / 16777216) * 256 + n / 65536 % 256);
    assert(n / 256 == (n / 65536) * 256 + n / 256 % 256);
    assert(n == (n / 256) * 256 + n % 256);
}

/// What was framed is read back, whatever bytes follow it on the stream.
pub proof fn law_frame_roundtrip(body: Seq<u8>, after: Seq<u8>)
    requires
        fits(body),
    ensures
        next_body(frame_bytes(body) + after) == Ok::<Seq<u8>, FrameErrorKind>(body),
        (frame_bytes(body) + after).skip((4 + body.len()) as int) == after,
{
    let s = frame_bytes(body) + after;
    lemma_prefix(body.len());
    assert(prefix_value(s) == prefix_value(length_prefix(body.len())));
    assert(s.subrange(4, (4 + body.len()) as int) =~= body);
    assert(s.skip((4 + body.len()) as int) =~= after);
}

/// A frame cut short anywhere reads as an unexpected end.
pub proof fn law_truncated_frame(body: Seq<u8>, cut: int)
    requires
        fits(body),
        0 <= cut < frame_bytes(body).len(),
    ensures
        next_body(frame_bytes(body).take(cut)) == Err::<Seq<u8>, FrameErrorKind>(
            FrameErrorKind::UnexpectedEof,
        ),
{
    lemma_prefix(body.len());
    if cut >= 4 {
        assert(prefix_value(frame_bytes(body).take(cut)) == prefix_value(
            length_prefix(body.len()),
        ));
    }
}

#[derive(Debug)]
pub enum Frame {
    Response(Response),
    Notification(Notification),
}

/// One request with the id that its response will carry.
#[derive(Debug)]
pub struct Envelope {
    pub id: u64,
    pub body: Request,
}

/// What the client asks of the agent. A variant that ends in `For` runs in
/// the named child repository, its plain twin in the workspace itself.
#[allow(inconsistent_fields)]
#[derive(Debug)]
pub enum Request {
    Handshake,
    Shutdown,
    ReadDir {
        path: String,
    },
    ReadFile {
        path: String,
        max_bytes: u64,
    },
    DiscoverRepos {
        opts: RepoDiscoverOptsDto,
    },
    ListContainers,
    ContainerAction {
        id: String,
        action: ContainerActionDto,
    },
    GitStatus,
    GitStatusFor {
        repo_root_rel: String,
    },
    StagedDiff {
        path: String,
        context_lines: u32,
    },
    StagedDiffFor {
        repo_root_rel: String,
        path: String,
        context_lines: u32,
    },
    UnstagedDiff {
        path: String,
        context_lines: u32,
    },
    UnstagedDiffFor {
        repo_root_rel: String,
        path: String,
        context_lines: u32,
    },
    UntrackedDiff {
        path: String,
    },
    UntrackedDiffFor {
        repo_root_rel: String,
        path: String,
    },
    Stage {
        path: String,
    },
    StageFor {
        repo_root_rel: String,
        path: String,
    },
    Unstage {
        path: String,
    },
    UnstageFor {
        repo_root_rel: String,
        path: String,
    },
    Restore {
        path: String,
    },
    RevertPath {
        path: String,
        is_staged: bool,
    },
    RevertPathFor {
        repo_root_rel: String,
        path: String,
        is_staged: bool,
    },
    Push {
        force: bool,
    },
    PushFor {
        repo_root_rel: String,
        force: bool,
    },
    PublishBranch,
    PublishBranchFor {
        repo_root_rel: String,
    },
    Pull,
    PullFor {
        repo_root_rel: String,
    },
    CheckoutBranch {
        branch: String,
    },
    CheckoutBranchFor {
        repo_root_rel: String,
        branch: String,
    },
    CreateBranch {
        branch: String,
        base: Option<String>,
    },
    CreateBranchFor {
        repo_root_rel: String,
        branch: String,
        base: Option<String>,
    },
    MergeBranch {
        branch: String,
    },
    MergeBranchFor {
        repo_root_rel: String,
        branch: String,
    },
    ListStashes,
    ListStashesFor {
        repo_root_rel: String,
    },
    StashDetail {
        stash_ref: String,
    },
    StashDetailFor {
        repo_root_rel: String,
        stash_ref: String,
    },
    StashPush {
        options: StashPushOptionsDto,
    },
    StashPushFor {
        repo_root_rel: String,
        options: StashPushOptionsDto,
    },
    StashApply {
        stash_ref: String,
        reinstate_index: bool,
    },
    StashApplyFor {
        repo_root_rel: String,
        stash_ref: String,
        reinstate_index: bool,
    },
    StashPop {
        stash_ref: String,
        reinstate_index: bool,
    },
    StashPopFor {
        repo_root_rel: String,
        stash_ref: String,
        reinstate_index: bool,
    },
    StashDrop {
        stash_ref: String,
    },
    StashDropFor {
        repo_root_rel: String,
        stash_ref: String,
    },
    StashBranch {
        stash_ref: String,
        branch: String,
    },
    StashBranchFor {
        repo_root_rel: String,
        stash_ref: String,
        branch: String,
    },
    Commit {
        message: String,
    },
    CommitFor {
        repo_root_rel: String,
        message: String,
    },
    ListCommits {
        limit: u64,
    },
    ListCommitsFor {
        repo_root_rel: String,
        limit: u64,
    },
    ListRefs,
    ListRefsFor {
        repo_root_rel: String,
    },
    HeadOid,
    HeadOidFor {
        repo_root_rel: String,
    },
    CommitDetail {
        oid: String,
    },
    CommitDetailFor {
        repo_root_rel: String,
        oid: String,
    },
    CommitFileDiff {
        oid: String,
        path: String,
        context_lines: u32,
    },
    CommitFileDiffFor {
        repo_root_rel: String,
        oid: String,
        path: String,
        context_lines: u32,
    },
    RangeFiles {
        oldest_oid: String,
        newest_oid: String,
    },
    RangeFilesFor {
        repo_root_rel: String,
        oldest_oid: String,
        newest_oid: String,
    },
    RangeFileDiff {
        oldest_oid: String,
        newest_oid: String,
        path: String,
        context_lines: u32,
    },
    RangeFileDiffFor {
        repo_root_rel: String,
        oldest_oid: String,
        newest_oid: String,
        path: String,
        context_lines: u32,
    },
    Subscribe,
    CreateFile {
        rel_path: String,
    },
    CreateDirAll {
        rel_path: String,
    },
    Rename {
        from_rel: String,
        to_rel: String,
    },
    CopyFile {
        from_rel: String,
        to_rel: String,
    },
    CopyDirRecursive {
        from_rel: String,
        to_rel: String,
    },
    RemoveFile {
        rel_path: String,
    },
    RemoveDirAll {
        rel_path: String,
    },
    FileSize {
        rel_path: String,
    },
    WriteFile {
        rel_path: String,
        content: Vec<u8>,
    },
    Trash {
        rel_paths: Vec<String>,
    },
    HardDelete {
        rel_paths: Vec<String>,
    },
    WalkRepoPaths {
        opts: WalkOptsDto,
    },
    SearchContent {
        request: ContentSearchRequestDto,
    },
    LoadDbInitial {
        rel_path: String,
        page_size: u32,
    },
    LoadDbPage {
        rel_path: String,
        table: String,
        offset: u64,
        limit: u32,
    },
}

/// The value that a successful response carries.
#[derive(Debug)]
pub enum Payload {
    /// The operation is done and has no value of its own.
    Done,
    ShuttingDown,
    Subscribed,
    Handshake(HandshakeResponse),
    Dir(Vec<DirEntryDto>),
    File(ReadFileResponse),
    Repos(RepoDiscoverResponseDto),
    Containers(Vec<ContainerInfoDto>),
    Status(StatusSnapshotDto),
    Diff(Option<DiffContentDto>),
    Stashes(Vec<StashEntryDto>),
    StashDetail(StashDetailDto),
    Commits(Vec<CommitInfoDto>),
    Refs(Vec<(String, Vec<RefLabelDto>)>),
    HeadOid(Option<String>),
    CommitDetail(Option<CommitDetailDto>),
    Files(Vec<FileEntryDto>),
    Size(u64),
    Trash(TrashResponseDto),
    Walk(WalkResponseDto),
    SearchCompleted(ContentSearchCompletedDto),
    Database(Option<DatabaseInfoDto>),
    Page(DbPageDto),
}

#[derive(Debug)]
pub enum Response {
    Success {
        id: u64,
        result: Payload,
    },
    Failure {
        id: u64,
        code: ErrorCode,
        message: String,
    },
}

impl Response {
    pub open spec fn spec_id(&self) -> u64 {
        match self {
            Response::Success { id, .. } => *id,
            Response::Failure { id, .. } => *id,
        }
    }

    /// The id of the request that this answers.
    pub fn id(&self) -> (r: u64)
        ensures
            r == self.spec_id(),
    {
        match self {
            Response::Success { id, .. } => *id,
            Response::Failure { id, .. } => *id,
        }
    }
}

#[derive(Debug, Clone, Copy, PartialEq, Eq, Structural)]
pub enum ErrorCode {
    NotFound,
    Io,
    Git,
    Protocol,
    Unimplemented,
    /// The destination of a write exists already.
    PathExists,
    /// The path leaves the working directory.
    PathEscape,
    /// Neither a trash tool nor a permanent delete worked.
    TrashUnavailable,
    Other,
}

#[derive(Debug)]
pub enum Notification {
    FsChanged,
    AgentLog {
        level: String,
        message: String,
    },
    /// Hits of the search with that request id, sent before its response.
    SearchChunk {
        request_id: u64,
        hits: Vec<MatchHitDto>,
    },
}

#[derive(Debug)]
pub struct HandshakeResponse {
    pub workdir: String,
    pub workdir_name: String,
    pub branch_name: String,
    pub agent_version: String,
    pub protocol_version: u32,
}

#[derive(Debug)]
pub struct DirEntryDto {
    pub name: String,
    pub is_dir: bool,
}

#[derive(Debug)]
pub struct ReadFileResponse {
    pub is_file: bool,
    pub bytes: Vec<u8>,
    pub size: u64,
}

#[derive(Debug)]
pub struct StatusSnapshotDto {
    pub staged: Vec<FileEntryDto>,
    pub unstaged: Vec<FileEntryDto>,
    pub branch_name: String,
    pub ahead_behind: Option<(usize, usize)>,
}

#[derive(Debug)]
pub struct FileEntryDto {
    pub path: String,
    pub status: FileStatusDto,
    pub additions: u32,
    pub deletions: u32,
}

#[derive(Debug)]
pub struct StashPushOptionsDto {
    pub message: String,
    pub include_untracked: bool,
    pub keep_index: bool,
    pub staged_only: bool,
    pub paths: Vec<String>,
}

#[derive(Debug)]
pub struct StashEntryDto {
    pub index: usize,
    pub stash_ref: String,
    pub message: String,
    pub created: String,
    pub branch: String,
    pub files_changed: usize,
    pub insertions: u32,
    pub deletions: u32,
    pub includes_untracked: bool,
}

#[derive(Debug)]
pub struct StashDetailDto {
    pub entry: StashEntryDto,
    pub files: Vec<FileEntryDto>,
    pub patch: String,
    pub patch_truncated: bool,
}

#[derive(Debug, Clone, Copy, PartialEq, Eq, Structural)]
pub enum FileStatusDto {
    Modified,
    Added,
    Deleted,
    Renamed,
    Untracked,
}

#[derive(Debug)]
pub struct DiffContentDto {
    pub file_path: String,
    pub hunks: Vec<DiffHunkDto>,
}

#[derive(Debug)]
pub struct DiffHunkDto {
    pub header: String,
    pub lines: Vec<DiffLineDto>,
}

#[derive(Debug)]
pub struct DiffLineDto {
    pub tag: LineTagDto,
    pub content: String,
    pub old_lineno: Option<u32>,
    pub new_lineno: Option<u32>,
}

#[derive(Debug, Clone, Copy, PartialEq, Eq, Structural)]
pub enum LineTagDto {
    Context,
    Added,
    Removed,
}

#[derive(Debug)]
pub struct CommitInfoDto {
    pub oid: String,
    pub short_oid: String,
    pub parents: Vec<String>,
    pub author_name: String,
    pub author_email: String,
    pub time: i64,
    pub subject: String,
}

#[derive(Debug)]
pub struct CommitDetailDto {
    pub info: CommitInfoDto,
    pub message: String,
    pub committer_name: String,
    pub committer_time: i64,
    pub files: Vec<FileEntryDto>,
}

#[derive(Debug)]
pub enum RefLabelDto {
    Head,
    Branch(String),
    RemoteBranch(String),
    Tag(String),
}

#[derive(Debug, Clone, Copy, PartialEq, Eq, Structural)]
pub enum ContainerActionDto {
    Start,
    Stop,
    Restart,
}

#[derive(Debug, Clone, Copy, PartialEq, Eq, Structural)]
pub enum ContainerStateDto {
    Running,
    Exited,
    Paused,
    Restarting,
    Created,
    Dead,
    Other,
}

#[derive(Debug)]
pub struct ContainerInfoDto {
    pub id: String,
    pub image: String,
    pub command: String,
    pub created: String,
    pub status: String,
    pub names: String,
    pub ports: String,
    pub state: ContainerStateDto,
}

/// Outcome of a trash request: whether a trash tool took the files, or they
/// were deleted for good.
#[derive(Debug)]
pub struct TrashResponseDto {
    pub used_trash: bool,
}

#[derive(Debug)]
pub struct RepoDiscoverOptsDto {
    pub max_depth: u64,
    pub include_nested: bool,
    pub max_repos: Option<u64>,
}

#[derive(Debug)]
pub struct WorkspaceRepoMetaDto {
    pub repo_root_rel: String,
    pub display_name: String,
}

#[derive(Debug)]
pub struct RepoDiscoverResponseDto {
    pub repos: Vec<WorkspaceRepoMetaDto>,
    pub truncated: bool,
}

/// How a walk of the working directory treats files.
#[derive(Debug)]
pub struct WalkOptsDto {
    pub include_hidden: bool,
    pub respect_gitignore: bool,
    /// Cap on the paths returned; the agent's own cap holds besides.
    pub max_files: Option<u64>,
}

impl Default for WalkOptsDto {
    fn default() -> (r: Self)
        ensures
            r.include_hidden,
            r.respect_gitignore,
            r.max_files is None,
    {
        WalkOptsDto { include_hidden: true, respect_gitignore: true, max_files: None }
    }
}

#[derive(Debug)]
pub struct WalkResponseDto {
    pub paths: Vec<String>,
    pub truncated: bool,
}

/// One line that a content search found.
#[derive(Debug)]
pub struct MatchHitDto {
    pub path: String,
    pub display: String,
    /// Counted from zero.
    pub line: u64,
    pub line_text: String,
    /// The match in `line_text`, as a half-open range of bytes.
    pub byte_range_start: u32,
    pub byte_range_end: u32,
}

#[derive(Debug)]
pub struct ContentSearchRequestDto {
    pub pattern: String,
    pub fixed_strings: bool,
    /// `None` is smart case.
    pub case_sensitive: Option<bool>,
    pub max_results: u32,
    pub max_line_chars: u32,
}

#[derive(Debug)]
pub struct ContentSearchCompletedDto {
    pub truncated: bool,
}

#[derive(Debug)]
pub struct DatabaseInfoDto {
    pub tables: Vec<TableSummaryDto>,
    pub selected_table: u32,
    pub initial_page: DbPageDto,
    pub bytes_on_disk: u64,
}

#[derive(Debug)]
pub struct TableSummaryDto {
    pub name: String,
    pub columns: Vec<ColumnInfoDto>,
    pub row_count: u64,
}

#[derive(Debug)]
pub struct ColumnInfoDto {
    pub name: String,
    pub decl_type: String,
}

#[derive(Debug)]
pub struct DbPageDto {
    pub rows: Vec<Vec<SqliteValueDto>>,
}

/// One cell. A real number travels as the bits of its double.
#[allow(inconsistent_fields)]
#[derive(Debug)]
pub enum SqliteValueDto {
    Null,
    Integer {
        value: i64,
    },
    Real {
        bits: u64,
    },
    Text {
        value: String,
        truncated: bool,
    },
    Blob {
        len: u64,
    },
}

} // verus!
