//! The client's side of the protocol: the requests in flight, the frames that
//! come back, and what the responses mean.
use crate::agent::{tells, Outcome};
use crate::backend::{
    BackendError, ContentMatchHit, RepoDiscoverResponse, StatusSnapshot, TableSummary,
    WalkResponse, WorkspaceRepoMeta,
};
use crate::convert::{
    commit_detail_from_dto, commit_info_from_dto, container_info_from_dto, database_info_from_dto,
    db_page_from_dto, dir_entry_from_dto, file_entries_from_dto, hit_domain,
    match_hit_dto_to_domain, opt_diff_from_dto, pairwise, ref_row_from_dto, same_entries,
    same_page, same_snapshot, same_table, shown_patch, snapshot_from_dto, stash_detail_from_dto,
    stash_dto, stash_entry_from_dto,
};
use crate::proto::{
    Envelope, ErrorCode, Frame, HandshakeResponse, MatchHitDto, Notification, Payload, ReadFileResponse,
    RepoDiscoverResponseDto, Request, Response, StatusSnapshotDto, TableSummaryDto,
    WorkspaceRepoMetaDto, PROTOCOL_VERSION,
};
use crate::text::{
    decimal, decimal_string, map_vec, replace_char, replaced, trim_end_char, views,
    without_trailing,
};
use std::collections::HashSet;
use vstd::prelude::*;
use vstd::string::*;

verus! {

broadcast use vstd::std_specs::hash::group_hash_axioms;

/// How long the response to a request is waited for, so that an agent that
/// hangs does not stall the interface.
pub const RPC_TIMEOUT_MS: u64 = 30000;

/// Bytes that a preview asks the agent for at most, 2 MiB.
pub const READ_FILE_MAX_BYTES: u64 = 2097152;

#[derive(Debug, Clone, Copy, PartialEq, Eq, Structural)]
pub enum RemoteOs {
    Posix,
    Windows,
}

/// What is needed to start another command over the same connection.
#[derive(Debug)]
pub struct SshLaunchInfo {
    pub ssh_args: Vec<String>,
    pub host: String,
    pub remote_workdir: String,
    pub remote_os: RemoteOs,
}

/// The client's record of its agent.
#[derive(Debug)]
pub struct RemoteBackend {
    pub workdir: String,
    pub workdir_name: String,
    pub branch_name_cache: String,
    pub next_id: u64,
    /// Requests without a response yet.
    pub pending: HashSet<u64>,
    /// Searches whose hits are still wanted.
    pub search_chunks: HashSet<u64>,
    /// Present when the agent runs over ssh.
    pub ssh_launch: Option<SshLaunchInfo>,
}

/// Where a frame from the agent goes.
#[derive(Debug)]
pub enum Routed {
    /// To the request that waits for it.
    Response(Response),
    FsChanged,
    Log { level: String, message: String },
    /// To the search that wants it.
    Chunk { request_id: u64, hits: Vec<MatchHitDto> },
    /// Nobody waits for it any more.
    Dropped,
}

pub open spec fn version_mismatch(agent: u32) -> Seq<char> {
    "agent speaks protocol v"@ + decimal(agent as nat) + ", client speaks v"@ + decimal(
        PROTOCOL_VERSION as nat,
    ) + "; re-run `reef --ssh` to trigger auto-update"@
}

/// The successor of a request id; after the last one they start over.
pub open spec fn id_after(id: u64) -> u64 {
    if id == u64::MAX {
        0
    } else {
        (id + 1) as u64
    }
}

impl RemoteBackend {
    /// A backend that has not spoken to its agent yet.
    pub fn new(ssh_launch: Option<SshLaunchInfo>) -> (r: Self)
        ensures
            r.workdir@.len() == 0,
            r.workdir_name@.len() == 0,
            r.branch_name_cache@.len() == 0,
            r.next_id == 1,
            r.pending@ == Set::<u64>::empty(),
            r.search_chunks@ == Set::<u64>::empty(),
            r.ssh_launch == ssh_launch,
    {
        RemoteBackend {
            workdir: String::new(),
            workdir_name: String::new(),
            branch_name_cache: String::new(),
            next_id: 1,
            pending: HashSet::new(),
            search_chunks: HashSet::new(),
            ssh_launch,
        }
    }

    /// The command line that runs the agent over ssh. The two paths come
    /// escaped for the remote shell.
    pub fn connect_ssh(
        ssh_args: &Vec<String>,
        host: &str,
        escaped_agent: &str,
        escaped_workdir: &str,
    ) -> (r: Vec<String>)
        ensures
            views(r@) == seq!["ssh"@] + views(ssh_args@) + seq![
                host@,
                escaped_agent@ + " --stdio --workdir "@ + escaped_workdir@,
            ],
    {
        let mut cmd = escaped_agent.to_owned();
        cmd.append(" --stdio --workdir ");
        cmd.append(escaped_workdir);
        let mut argv: Vec<String> = Vec::new();
        argv.push("ssh".to_owned());
        assert(views(argv@) =~= seq!["ssh"@]);
        push_all(&mut argv, ssh_args);
        argv.push(host.to_owned());
        argv.push(cmd);
        assert(views(argv@) =~= seq!["ssh"@] + views(ssh_args@) + seq![
            host@,
            escaped_agent@ + " --stdio --workdir "@ + escaped_workdir@,
        ]);
        argv
    }

    /// A command line to spawn needs a program.
    pub fn spawn(argv: &Vec<String>) -> (r: Result<(), String>)
        ensures
            argv@.len() == 0 <==> r is Err,
            r matches Err(e) ==> e@ == "remote backend: empty argv"@,
    {
        if argv.len() == 0 {
            Err("remote backend: empty argv".to_owned())
        } else {
            Ok(())
        }
    }

    /// Takes the agent's introduction, unless it speaks another version.
    pub fn handshake(&mut self, info: HandshakeResponse) -> (r: Result<(), BackendError>)
        ensures
            info.protocol_version == PROTOCOL_VERSION ==> r is Ok && *final(self) == (RemoteBackend {
                workdir: info.workdir,
                workdir_name: info.workdir_name,
                branch_name_cache: info.branch_name,
                ..*old(self)
            }),
            info.protocol_version != PROTOCOL_VERSION ==> {
                &&& *final(self) == *old(self)
                &&& r matches Err(BackendError::Protocol(m))
                &&& m@ == version_mismatch(info.protocol_version)
            },
    {
        if info.protocol_version != PROTOCOL_VERSION {
            let mut m = "agent speaks protocol v".to_owned();
            m.append(decimal_string(info.protocol_version as u64).as_str());
            m.append(", client speaks v");
            m.append(decimal_string(PROTOCOL_VERSION as u64).as_str());
            m.append("; re-run `reef --ssh` to trigger auto-update");
            return Err(BackendError::Protocol(m));
        }
        self.workdir = info.workdir;
        self.workdir_name = info.workdir_name;
        self.branch_name_cache = info.branch_name;
        Ok(())
    }

    fn take_id(&mut self) -> (r: u64)
        ensures
            r == old(self).next_id,
            *final(self) == (RemoteBackend { next_id: id_after(old(self).next_id), ..*old(self) }),
    {
        let id: u64 = self.next_id;
        self.next_id = if id == u64::MAX {
            0
        } else {
            id + 1
        };
        id
    }

    /// The envelope of a request, which waits for its response from now on. A
    /// search is registered for its hits as well, before anything is sent.
    pub fn request(&mut self, body: Request, streams: bool) -> (r: Envelope)
        ensures
            r == (Envelope { id: old(self).next_id, body }),
            final(self).next_id == id_after(old(self).next_id),
            final(self).pending@ == old(self).pending@.insert(r.id),
            final(self).search_chunks@ == (if streams {
                old(self).search_chunks@.insert(r.id)
            } else {
                old(self).search_chunks@
            }),
            *final(self) == (RemoteBackend {
                next_id: final(self).next_id,
                pending: final(self).pending,
                search_chunks: final(self).search_chunks,
                ..*old(self)
            }),
    {
        let id: u64 = self.take_id();
        self.pending.insert(id);
        if streams {
            self.search_chunks.insert(id);
        }
        Envelope { id, body }
    }

    /// Forgets a request, whether it was answered, failed or timed out.
    pub fn release(&mut self, id: u64)
        ensures
            final(self).pending@ == old(self).pending@.remove(id),
            final(self).search_chunks@ == old(self).search_chunks@.remove(id),
            *final(self) == (RemoteBackend {
                pending: final(self).pending,
                search_chunks: final(self).search_chunks,
                ..*old(self)
            }),
    {
        self.pending.remove(&id);
        self.search_chunks.remove(&id);
    }

    /// Where a frame goes, and what that settles.
    pub open spec fn frame_routed(self, new: Self, frame: Frame, r: Routed) -> bool {
        match frame {
            Frame::Response(resp) => {
                &&& r == (if self.pending@.contains(resp.spec_id()) {
                    Routed::Response(resp)
                } else {
                    Routed::Dropped
                })
                &&& new.pending@ == self.pending@.remove(resp.spec_id())
                &&& new == (RemoteBackend {
                    pending: new.pending,
                    ..self
                })
            },
            Frame::Notification(note) => new == self && r == (match note {
                Notification::FsChanged => Routed::FsChanged,
                Notification::AgentLog { level, message } => Routed::Log { level, message },
                Notification::SearchChunk { request_id, hits } => if self.search_chunks@.contains(request_id) {
                    Routed::Chunk { request_id, hits }
                } else {
                    Routed::Dropped
                },
            }),
        }
    }

    /// Routes a frame. A response settles its request; hits and notices
    /// change nothing.
    pub fn read_loop(&mut self, frame: Frame) -> (r: Routed)
        ensures
            old(self).frame_routed(*final(self), frame, r),
    {
        match frame {
            Frame::Response(resp) => {
                let id: u64 = resp.id();
                let waited = self.pending.remove(&id);
                if waited {
                    Routed::Response(resp)
                } else {
                    Routed::Dropped
                }
            },
            Frame::Notification(note) => match note {
                Notification::FsChanged => Routed::FsChanged,
                Notification::AgentLog { level, message } => Routed::Log { level, message },
                Notification::SearchChunk { request_id, hits } => {
                    if self.search_chunks.contains(&request_id) {
                        Routed::Chunk { request_id, hits }
                    } else {
                        Routed::Dropped
                    }
                },
            },
        }
    }

    /// The farewell to the agent, which nobody waits for.
    pub fn shutdown(&mut self) -> (r: Envelope)
        ensures
            r == (Envelope { id: old(self).next_id, body: Request::Shutdown }),
            *final(self) == (RemoteBackend { next_id: id_after(old(self).next_id), ..*old(self) }),
    {
        let id: u64 = self.take_id();
        Envelope { id, body: Request::Shutdown }
    }

    pub fn has_repo(&self) -> (r: bool)
        ensures
            r == (self.branch_name_cache@.len() > 0),
    {
        !self.branch_name_cache.as_str().is_empty()
    }

    /// The status of the workspace's own repository refreshes the branch name
    /// that is shown; that of a child repository does not.
    pub fn git_status(&mut self, snap: StatusSnapshotDto, repo: &Option<String>) -> (r:
        StatusSnapshot)
        ensures
            same_snapshot(r, snap),
            *final(self) == (RemoteBackend {
                branch_name_cache: if repo is None {
                    snap.branch_name
                } else {
                    old(self).branch_name_cache
                },
                ..*old(self)
            }),
    {
        if repo.is_none() {
            self.branch_name_cache = snap.branch_name.clone();
        }
        snapshot_from_dto(snap)
    }

    /// What an answer means on this side. The roots of repositories come
    /// normalised, or with the fault that stopped it; the status of the
    /// workspace's own repository renews its branch.
    pub open spec fn heard(
        self,
        new: Self,
        p: Payload,
        repo: Option<String>,
        roots: Seq<Result<String, BackendError>>,
        r: Result<Outcome, BackendError>,
    ) -> bool {
        match p {
            Payload::Status(s) => {
                &&& new == (RemoteBackend {
                    branch_name_cache: if repo is None {
                        s.branch_name
                    } else {
                        self.branch_name_cache
                    },
                    ..self
                })
                &&& r matches Ok(Outcome::Status(snap)) && same_snapshot(snap, s)
            },
            Payload::Repos(resp) => {
                &&& new == self
                &&& match r {
                    Ok(o) => o matches Outcome::Repos(found) && discovered(resp, roots, Ok(found)),
                    Err(e) => discovered(resp, roots, Err(e)),
                }
            },
            _ => new == self && (r matches Ok(o) && hears(p, o)),
        }
    }

    pub fn outcome(
        &mut self,
        p: Payload,
        repo: &Option<String>,
        roots: Vec<Result<String, BackendError>>,
    ) -> (r: Result<Outcome, BackendError>)
        requires
            p matches Payload::Repos(resp) ==> roots@.len() == resp.repos@.len(),
        ensures
            old(self).heard(*final(self), p, *repo, roots@, r),
    {
        Ok(
            match p {
                Payload::Done | Payload::ShuttingDown | Payload::Subscribed
                | Payload::Handshake(_) => Outcome::Done,
                Payload::Dir(v) => Outcome::Dir(map_vec(v, dir_entry_from_dto)),
                Payload::File(f) => Outcome::File(f),
                Payload::Repos(resp) => {
                    return match discover_repos(resp, roots) {
                        Ok(found) => Ok(Outcome::Repos(found)),
                        Err(e) => Err(e),
                    };
                },
                Payload::Containers(v) => Outcome::Containers(map_vec(v, container_info_from_dto)),
                Payload::Status(s) => Outcome::Status(self.git_status(s, repo)),
                Payload::Diff(d) => Outcome::Diff(opt_diff_from_dto(d)),
                Payload::Stashes(v) => Outcome::Stashes(map_vec(v, stash_entry_from_dto)),
                Payload::StashDetail(d) => Outcome::StashDetail(stash_detail_from_dto(d)),
                Payload::Commits(v) => Outcome::Commits(map_vec(v, commit_info_from_dto)),
                Payload::Refs(v) => Outcome::Refs(map_vec(v, ref_row_from_dto)),
                Payload::HeadOid(o) => Outcome::HeadOid(o),
                Payload::CommitDetail(d) => Outcome::CommitDetail(
                    match d {
                        Some(c) => Some(commit_detail_from_dto(c)),
                        None => None,
                    },
                ),
                Payload::Files(v) => Outcome::Files(file_entries_from_dto(v)),
                Payload::Size(n) => Outcome::Size(n),
                Payload::Trash(x) => Outcome::Trash { used_trash: x.used_trash },
                Payload::Walk(w) => Outcome::Walk(
                    WalkResponse { paths: w.paths, truncated: w.truncated },
                ),
                Payload::SearchCompleted(c) => Outcome::SearchCompleted { truncated: c.truncated },
                Payload::Database(d) => Outcome::Database(
                    match d {
                        Some(i) => Some(database_info_from_dto(i)),
                        None => None,
                    },
                ),
                Payload::Page(d) => Outcome::Page(db_page_from_dto(d)),
            },
        )
    }

    /// The path of a file for the remote shell: separators of the remote
    /// system throughout. An absolute path belongs to another machine and is
    /// refused, as is any path without an ssh connection.
    pub fn editor_path(&self, rel_path: &str, is_absolute: bool) -> (r: Result<String, BackendError>)
        ensures
            match self.ssh_launch {
                None => r matches Err(BackendError::Unimplemented(m)) && m@
                    == "remote editor launch requires an ssh session (use --ssh, not --agent-exec)"@,
                Some(launch) => if is_absolute {
                    r matches Err(BackendError::PathEscape(m)) && m@
                        == "absolute path not allowed for remote editor: "@ + rel_path@
                } else {
                    r matches Ok(p) && p@ == (match launch.remote_os {
                        RemoteOs::Posix => replaced(rel_path@, '\\', '/'),
                        RemoteOs::Windows => replaced(replaced(rel_path@, '\\', '/'), '/', '\\'),
                    })
                },
            },
    {
        match &self.ssh_launch {
            None => Err(
                BackendError::Unimplemented(
                    "remote editor launch requires an ssh session (use --ssh, not --agent-exec)".to_owned(),
                ),
            ),
            Some(launch) => {
                if is_absolute {
                    let mut m = "absolute path not allowed for remote editor: ".to_owned();
                    m.append(rel_path);
                    return Err(BackendError::PathEscape(m));
                }
                let rel = normalize_remote_path(rel_path);
                match launch.remote_os {
                    RemoteOs::Posix => Ok(rel),
                    RemoteOs::Windows => Ok(replace_char(rel.as_str(), '/', '\\')),
                }
            },
        }
    }
}

/// The command that opens a file in the user's editor on the remote side. Both
/// paths come escaped for the remote shell.
pub open spec fn editor_command(os: RemoteOs, workdir: Seq<char>, path: Seq<char>) -> Seq<char> {
    match os {
        RemoteOs::Posix => "cd "@ + workdir + " && ${VISUAL:-${EDITOR:-vi}} "@ + path,
        RemoteOs::Windows =>
            "powershell -NoProfile -NonInteractive -Command \"Set-Location '"@ + workdir
            + "'; $editor = if ($env:VISUAL) { $env:VISUAL } elseif ($env:EDITOR) { $env:EDITOR } else { 'notepad' }; & $editor '"@
            + path + "'\""@,
    }
}

/// The arguments of the `ssh` that opens a file in the remote editor, with a
/// terminal of its own.
pub fn editor_launch_spec(launch: &SshLaunchInfo, escaped_workdir: &str, escaped_path: &str) -> (r:
    Vec<String>)
    ensures
        views(r@) == seq!["-t"@] + views(launch.ssh_args@) + seq![
            launch.host@,
            editor_command(launch.remote_os, escaped_workdir@, escaped_path@),
        ],
{
    let cmd = match launch.remote_os {
        RemoteOs::Posix => {
            let mut s = "cd ".to_owned();
            s.append(escaped_workdir);
            s.append(" && ${VISUAL:-${EDITOR:-vi}} ");
            s.append(escaped_path);
            s
        },
        RemoteOs::Windows => {
            let mut s =
                "powershell -NoProfile -NonInteractive -Command \"Set-Location '".to_owned();
            s.append(escaped_workdir);
            s.append(
                "'; $editor = if ($env:VISUAL) { $env:VISUAL } elseif ($env:EDITOR) { $env:EDITOR } else { 'notepad' }; & $editor '",
            );
            s.append(escaped_path);
            s.append("'\"");
            s
        },
    };
    let mut args: Vec<String> = Vec::new();
    args.push("-t".to_owned());
    assert(views(args@) =~= seq!["-t"@]);
    push_all(&mut args, &launch.ssh_args);
    args.push(launch.host.clone());
    args.push(cmd);
    assert(views(args@) =~= seq!["-t"@] + views(launch.ssh_args@) + seq![
        launch.host@,
        editor_command(launch.remote_os, escaped_workdir@, escaped_path@),
    ]);
    args
}

fn push_all(out: &mut Vec<String>, more: &Vec<String>)
    ensures
        views(final(out)@) == views(old(out)@) + views(more@),
{
    let ghost start = views(out@);
    let mut i: usize = 0;
    assert(views(out@) =~= start + views(more@).take(0));
    while i < more.len()
        invariant
            i <= more@.len(),
            views(out@) == start + views(more@).take(i as int),
        decreases more@.len() - i,
    {
        let ghost before = out@;
        out.push(more[i].clone());
        proof {
            assert(views(out@) =~= views(before).push(more@[i as int]@));
            assert(views(more@)[i as int] == more@[i as int]@);
            assert(views(out@) =~= start + views(more@).take(i + 1));
        }
        i = i + 1;
    }
    assert(views(more@).take(more@.len() as int) =~= views(more@));
}

/// A path on the wire: forward slashes, whatever the client runs on.
pub fn normalize_remote_path(p: &str) -> (r: String)
    ensures
        r@ == replaced(p@, '\\', '/'),
{
    replace_char(p, '\\', '/')
}

/// The absolute remote path of an upload: the working directory without
/// trailing slashes, a slash, and the relative path.
pub open spec fn upload_path(workdir: Seq<char>, rel: Seq<char>) -> Seq<char> {
    without_trailing(workdir, '/') + "/"@ + replaced(rel, '\\', '/')
}

pub fn upload_from_local(launch: &Option<SshLaunchInfo>, remote_dst_rel: &str) -> (r: Result<
    String,
    BackendError,
>)
    ensures
        match launch {
            None => r matches Err(BackendError::Unimplemented(m)) && m@
                == "remote upload requires an ssh session (use --ssh, not --agent-exec)"@,
            Some(l) => r matches Ok(p) && p@ == upload_path(l.remote_workdir@, remote_dst_rel@),
        },
{
    match launch {
        None => Err(
            BackendError::Unimplemented(
                "remote upload requires an ssh session (use --ssh, not --agent-exec)".to_owned(),
            ),
        ),
        Some(l) => {
            let mut p = trim_end_char(l.remote_workdir.as_str(), '/');
            p.append("/");
            p.append(normalize_remote_path(remote_dst_rel).as_str());
            Ok(p)
        },
    }
}

/// The arguments of the `scp` that uploads; the target path comes escaped.
pub fn upload_args(
    launch: &SshLaunchInfo,
    local_src: &str,
    is_dir: bool,
    escaped_target: &str,
) -> (r: Vec<String>)
    ensures
        views(r@) == views(launch.ssh_args@) + (if is_dir {
            seq!["-r"@]
        } else {
            Seq::empty()
        }) + seq![local_src@, launch.host@ + ":"@ + escaped_target@],
{
    let mut args: Vec<String> = Vec::new();
    assert(views(args@) =~= Seq::empty());
    push_all(&mut args, &launch.ssh_args);
    assert(Seq::<Seq<char>>::empty() + views(launch.ssh_args@) =~= views(launch.ssh_args@));
    if is_dir {
        args.push("-r".to_owned());
    }
    let mut target = launch.host.clone();
    target.append(":");
    target.append(escaped_target);
    args.push(local_src.to_owned());
    args.push(target);
    assert(views(args@) =~= views(launch.ssh_args@) + (if is_dir {
        seq!["-r"@]
    } else {
        Seq::empty()
    }) + seq![local_src@, launch.host@ + ":"@ + escaped_target@]);
    args
}

/// What a response means for the caller of the request.
pub fn response_result(resp: Response) -> (r: Result<Payload, BackendError>)
    ensures
        match resp {
            Response::Success { result, .. } => r == Ok::<Payload, BackendError>(result),
            Response::Failure { code, message, .. } => r == Err::<Payload, BackendError>(
                BackendError::Wire(code, message),
            ),
        },
{
    match resp {
        Response::Success { result, .. } => Ok(result),
        Response::Failure { code, message, .. } => Err(BackendError::Wire(code, message)),
    }
}

/// The bytes of a file, or that there is none.
pub fn read_file(resp: ReadFileResponse) -> (r: Result<Vec<u8>, BackendError>)
    ensures
        r == (if resp.is_file {
            Ok::<Vec<u8>, BackendError>(resp.bytes)
        } else {
            Err(BackendError::NotFound)
        }),
{
    if resp.is_file {
        Ok(resp.bytes)
    } else {
        Err(BackendError::NotFound)
    }
}

/// The first fault in a list of discovered repositories.
pub open spec fn discovery_fault(
    repos: Seq<WorkspaceRepoMetaDto>,
    roots: Seq<Result<String, BackendError>>,
    i: int,
) -> Option<int>
    decreases repos.len() - i,
{
    if i < 0 || i >= repos.len() {
        None
    } else if repos[i].repo_root_rel@.len() == 0 || roots[i] is Err {
        Some(i)
    } else {
        discovery_fault(repos, roots, i + 1)
    }
}

/// The outcome is what the payload says.
pub open spec fn hears(p: Payload, o: Outcome) -> bool {
    match (p, o) {
        (Payload::ShuttingDown, Outcome::Done) => true,
        (Payload::Subscribed, Outcome::Done) => true,
        (Payload::Handshake(_), Outcome::Done) => true,
        (Payload::StashDetail(d), Outcome::StashDetail(s)) => {
            &&& stash_dto(s.entry) == d.entry
            &&& same_entries(s.files@, d.files@)
            &&& s.patch@ == shown_patch(d.patch@, d.patch_truncated)
        },
        (Payload::Database(Some(d)), Outcome::Database(Some(i))) => {
            &&& pairwise(i.tables@, d.tables@, |x: TableSummary, y: TableSummaryDto| same_table(x, y))
            &&& i.selected_table == d.selected_table
            &&& same_page(i.initial_page, d.initial_page)
            &&& i.bytes_on_disk == d.bytes_on_disk
        },
        _ => tells(p, o),
    }
}

/// What the agent's answer to a discovery comes to.
pub open spec fn discovered(
    resp: RepoDiscoverResponseDto,
    roots: Seq<Result<String, BackendError>>,
    r: Result<RepoDiscoverResponse, BackendError>,
) -> bool {
    match discovery_fault(resp.repos@, roots, 0) {
        Some(i) => if resp.repos@[i].repo_root_rel@.len() == 0 {
            r matches Err(BackendError::PathEscape(m)) && m@
                == "empty repo_root_rel in discover response"@
        } else {
            r == Err::<RepoDiscoverResponse, BackendError>(roots[i]->Err_0)
        },
        None => {
            &&& r matches Ok(out)
            &&& out.truncated == resp.truncated
            &&& out.repos@.len() == resp.repos@.len()
            &&& forall|i: int|
                0 <= i < out.repos@.len() ==> #[trigger] out.repos@[i] == (WorkspaceRepoMeta {
                    repo_root_rel: roots[i]->Ok_0,
                    display_name: resp.repos@[i].display_name,
                })
        },
    }
}

/// The repositories that the agent found, by their normalised roots. An empty
/// root, or one that cannot be normalised, fails the whole answer.
pub fn discover_repos(resp: RepoDiscoverResponseDto, roots: Vec<Result<String, BackendError>>) -> (r:
    Result<RepoDiscoverResponse, BackendError>)
    requires
        roots@.len() == resp.repos@.len(),
    ensures
        discovered(resp, roots@, r),
{
    let ghost all = resp.repos@;
    let ghost rs = roots@;
    let mut left = roots;
    let mut out: Vec<WorkspaceRepoMeta> = Vec::new();
    let n: usize = resp.repos.len();
    // Roots are taken from the front: reverse them once, then pop.
    let mut rev: Vec<Result<String, BackendError>> = Vec::new();
    while left.len() > 0
        invariant
            left@.len() + rev@.len() == rs.len(),
            left@ == rs.take(left@.len() as int),
            forall|j: int| 0 <= j < rev@.len() ==> #[trigger] rev@[j] == rs[rs.len() - 1 - j],
        decreases left@.len(),
    {
        let ghost before = left@;
        let x = left.pop().unwrap();
        assert(x == rs[before.len() - 1]);
        rev.push(x);
        assert(left@ =~= rs.take(left@.len() as int));
    }
    let mut i: usize = 0;
    while i < n
        invariant
            i <= n == all.len(),
            all == resp.repos@,
            rs == roots@,
            rs.len() == n,
            rev@.len() == n - i,
            forall|j: int| 0 <= j < rev@.len() ==> #[trigger] rev@[j] == rs[rs.len() - 1 - j],
            discovery_fault(all, rs, i as int) == discovery_fault(all, rs, 0),
            out@.len() == i,
            forall|j: int|
                0 <= j < i ==> #[trigger] out@[j] == (WorkspaceRepoMeta {
                    repo_root_rel: rs[j]->Ok_0,
                    display_name: all[j].display_name,
                }),
        decreases n - i,
    {
        let root = rev.pop().unwrap();
        assert(root == rs[i as int]);
        if resp.repos[i].repo_root_rel.as_str().is_empty() {
            return Err(
                BackendError::PathEscape("empty repo_root_rel in discover response".to_owned()),
            );
        }
        match root {
            Err(e) => return Err(e),
            Ok(repo_root_rel) => {
                let m = WorkspaceRepoMeta {
                    repo_root_rel,
                    display_name: resp.repos[i].display_name.clone(),
                };
                out.push(m);
            },
        }
        i = i + 1;
    }
    Ok(RepoDiscoverResponse { repos: out, truncated: resp.truncated })
}

/// A running content search on the client.
#[derive(Debug)]
pub struct SearchPump {
    /// The receiver has had enough; later hits are dropped.
    pub aborted: bool,
}

/// What the search waits for.
#[derive(Debug)]
pub enum PumpEvent {
    Completed { truncated: bool },
    /// The response is there, but its value does not parse.
    Undecodable(String),
    Refused { code: ErrorCode, message: String },
    Timeout,
    Disconnected,
}

#[derive(Debug)]
pub enum PumpStep {
    /// Nothing yet: forward what has arrived and wait on.
    Continue,
    Finished { truncated: bool },
    Failed(BackendError),
}

impl SearchPump {
    pub fn new() -> (r: Self)
        ensures
            !r.aborted,
    {
        SearchPump { aborted: false }
    }

    /// The hits to hand to the receiver, unless it has had enough.
    pub fn chunk(&self, hits: Vec<MatchHitDto>) -> (r: Option<Vec<ContentMatchHit>>)
        ensures
            self.aborted <==> r is None,
            r matches Some(v) ==> pairwise(
                v@,
                hits@,
                |x: ContentMatchHit, y: MatchHitDto| x == hit_domain(y),
            ),
    {
        if self.aborted {
            None
        } else {
            Some(map_vec(hits, match_hit_dto_to_domain))
        }
    }

    /// Notes what the receiver said to a chunk. Once it has stopped, it stays
    /// stopped.
    pub fn receiver_said(&mut self, stop: bool)
        ensures
            final(self).aborted == (old(self).aborted || stop),
    {
        if stop {
            self.aborted = true;
        }
    }

    /// What an event means for the search. It may run as long as it needs: a
    /// timeout only means to look again.
    pub fn search_content(&self, event: PumpEvent) -> (r: PumpStep)
        ensures
            match event {
                PumpEvent::Timeout => r is Continue,
                PumpEvent::Completed { truncated } => r == (PumpStep::Finished { truncated }),
                PumpEvent::Undecodable(e) => r matches PumpStep::Failed(BackendError::Protocol(m))
                    && m@ == "response decode: "@ + e@,
                PumpEvent::Refused { code, message } => r == PumpStep::Failed(
                    BackendError::Wire(code, message),
                ),
                PumpEvent::Disconnected => r matches PumpStep::Failed(BackendError::Rpc(m)) && m@
                    == "agent closed connection"@,
            },
    {
        match event {
            PumpEvent::Timeout => PumpStep::Continue,
            PumpEvent::Completed { truncated } => PumpStep::Finished { truncated },
            PumpEvent::Undecodable(e) => {
                let mut m = "response decode: ".to_owned();
                m.append(e.as_str());
                PumpStep::Failed(BackendError::Protocol(m))
            },
            PumpEvent::Refused { code, message } => PumpStep::Failed(
                BackendError::Wire(code, message),
            ),
            PumpEvent::Disconnected => PumpStep::Failed(
                BackendError::Rpc("agent closed connection".to_owned()),
            ),
        }
    }
}

/// A response is delivered once: routed while its request waits, and a second
/// one with the same id right after it finds nobody.
pub proof fn law_response_delivered_once(
    s: RemoteBackend,
    t: RemoteBackend,
    u: RemoteBackend,
    first: Response,
    second: Response,
    r1: Routed,
    r2: Routed,
)
    requires
        s.pending@.contains(first.spec_id()),
        second.spec_id() == first.spec_id(),
        s.frame_routed(t, Frame::Response(first), r1),
        t.frame_routed(u, Frame::Response(second), r2),
    ensures
        r1 == Routed::Response(first),
        r2 == Routed::Dropped,
{
}

/// The ids that `n` requests in a row get, from `start` on.
pub open spec fn nth_id(start: u64, n: nat) -> u64
    decreases n,
{
    if n == 0 {
        start
    } else {
        id_after(nth_id(start, (n - 1) as nat))
    }
}

proof fn lemma_nth_id(start: u64, n: nat)
    ensures
        nth_id(start, n) as int == (start + n) % 0x1_0000_0000_0000_0000,
    decreases n,
{
    if n > 0 {
        lemma_nth_id(start, (n - 1) as nat);
        let m = 0x1_0000_0000_0000_0000int;
        let prev = (start + (n - 1)) % m;
        vstd::arithmetic::div_mod::lemma_add_mod_noop(start + (n - 1), 1, m);
        assert((start + n) % m == (prev + 1) % m);
    }
}

/// No two of a row of requests share an id, as long as there are no more of
/// them than ids.
pub proof fn law_ids_do_not_repeat(start: u64, i: nat, j: nat)
    requires
        i < j,
        j - i < 0x1_0000_0000_0000_0000,
    ensures
        nth_id(start, i) != nth_id(start, j),
{
    lemma_nth_id(start, i);
    lemma_nth_id(start, j);
    let m = 0x1_0000_0000_0000_0000int;
    if nth_id(start, i) == nth_id(start, j) {
        let a = start + i;
        let b = start + j;
        vstd::arithmetic::div_mod::lemma_fundamental_div_mod(a, m);
        vstd::arithmetic::div_mod::lemma_fundamental_div_mod(b, m);
        let q = b / m - a / m;
        assert(b - a == m * q) by (nonlinear_arith)
            requires
                a == m * (a / m) + a % m,
                b == m * (b / m) + b % m,
                a % m == b % m,
                q == b / m - a / m,
        ;
        assert(q >= 1) by (nonlinear_arith)
            requires
                m * q > 0,
                m > 0,
        ;
        assert(m * q >= m) by (nonlinear_arith)
            requires
                q >= 1,
                m > 0,
        ;
    }
}

} // verus!
