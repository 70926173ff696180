use reef::agent::{
    agent_trash_delete, dispatch, dispatch_search_content, is_shutdown_reply,
    load_db_initial_handler, load_db_page_handler, parse_args, read_file_response, reply_kind,
    respond, respond_as, search_chunk, AgentCommand, AgentIdentity, AgentStep, Lookup, Outcome,
    Removal, ReplyKind, TrashTool,
};
use reef::backend::{
    BackendError, ContentMatchHit, DbPage, RepoDiscoverOpts, SqliteValue, StatusSnapshot,
};
use reef::convert::{
    commit_info_from_dto, commit_info_to_dto, db_page_from_dto, db_page_to_dto,
    file_entries_from_dto, file_entries_to_dto, match_hit_dto_to_domain, match_hit_to_dto,
    opt_diff_from_dto, opt_diff_to_dto, snapshot_from_dto, snapshot_to_dto, stash_detail_to_dto,
    truncate_string_bytes,
};
use reef::git::{
    CommitInfo, DiffContent, DiffHunk, DiffLine, FileEntry, FileStatus, LineTag, StashDetail,
    StashEntry,
};
use reef::ops::{ask_for, client_request, request_for, Ask, BackendOp};
use reef::preview::PreviewBody;
use reef::proto::{
    Envelope, ErrorCode, Frame, HandshakeResponse, MatchHitDto, Notification, Payload,
    ReadFileResponse, RepoDiscoverResponseDto, Request, Response, WorkspaceRepoMetaDto,
    PROTOCOL_VERSION,
};
use reef::remote::{
    discover_repos, editor_launch_spec, normalize_remote_path, read_file, response_result,
    upload_args, upload_from_local, PumpEvent, PumpStep, RemoteBackend, RemoteOs, Routed,
    SearchPump, SshLaunchInfo,
};
use reef::remote_files::{build_file_tree, dirs_to_read, load_preview, PreviewReply, PreviewStep};
use reef::strmap::{StrMap, StrSet};

fn s(t: &str) -> String {
    t.to_string()
}

fn who() -> AgentIdentity {
    AgentIdentity {
        workdir: s("/w"),
        workdir_name: s("w"),
        branch_name: s("main"),
        agent_version: s("1.2"),
    }
}

fn plan(body: Request) -> AgentStep {
    dispatch(who(), Envelope { id: 7, body })
}

#[test]
fn the_agent_reads_its_arguments() {
    let args = |words: &[&str]| parse_args(&words.iter().map(|w| s(w)).collect());
    assert!(matches!(
        args(&["--stdio", "--workdir", "/w"]),
        Ok(AgentCommand::Serve(a)) if a.stdio && a.workdir.as_deref() == Some("/w")
    ));
    assert!(matches!(args(&[]), Ok(AgentCommand::Serve(a)) if !a.stdio && a.workdir.is_none()));
    assert!(matches!(args(&["--version", "junk"]), Ok(AgentCommand::PrintVersion)));
    assert!(matches!(args(&["--protocol-version"]), Ok(AgentCommand::PrintProtocolVersion)));
    assert!(matches!(args(&["-h"]), Ok(AgentCommand::PrintUsage)));
    assert_eq!(args(&["--workdir"]).unwrap_err(), "--workdir needs a path");
    assert_eq!(args(&["--x"]).unwrap_err(), "unknown argument: --x");
}

#[test]
fn the_agent_introduces_itself() {
    match plan(Request::Handshake) {
        AgentStep::Respond(Response::Success { id: 7, result: Payload::Handshake(h) }) => {
            assert_eq!((h.workdir.as_str(), h.branch_name.as_str()), ("/w", "main"));
            assert_eq!(h.protocol_version, PROTOCOL_VERSION);
        }
        other => panic!("{other:?}"),
    }
}

#[test]
fn only_a_shutdown_makes_the_agent_leave() {
    let reply = |body| match plan(body) {
        AgentStep::Respond(r) => r,
        AgentStep::Run { id, reply, .. } => respond_as(id, reply, Ok(Outcome::Done)),
    };
    assert!(is_shutdown_reply(&Some(reply(Request::Shutdown))));
    assert!(!is_shutdown_reply(&Some(reply(Request::Subscribe))));
    assert!(!is_shutdown_reply(&Some(reply(Request::Handshake))));
    assert!(!is_shutdown_reply(&Some(reply(Request::Pull))));
    assert!(!is_shutdown_reply(&Some(reply(Request::GitStatus))));
    assert!(!is_shutdown_reply(&None));
}

#[test]
fn a_search_does_not_go_through_the_plain_dispatch() {
    let request = request_for(BackendOp::SearchContent {
        request: reef::backend::ContentSearchRequest {
            pattern: s("x"),
            fixed_strings: true,
            case_sensitive: None,
            max_results: 1,
            max_line_chars: 1,
        },
    });
    match plan(request) {
        AgentStep::Respond(Response::Failure { id: 7, code: ErrorCode::Protocol, message }) => {
            assert_eq!(message, "SearchContent must be routed through dispatch_search_content")
        }
        other => panic!("{other:?}"),
    }
}

#[test]
fn the_agent_runs_what_the_client_asked() {
    let ops = || {
        vec![
            BackendOp::ReadDir { path: s("a") },
            BackendOp::GitStatus { repo: None },
            BackendOp::GitStatus { repo: Some(s("sub")) },
            BackendOp::Stage { repo: Some(s("sub")), path: s("f") },
            BackendOp::CreateBranch { repo: None, branch: s("b"), base: Some(s("main")) },
            BackendOp::RangeFileDiff {
                repo: Some(s("r")),
                oldest_oid: s("1"),
                newest_oid: s("2"),
                path: s("p"),
                context_lines: 3,
            },
            BackendOp::Trash { rel_paths: vec![s("x"), s("y")] },
            BackendOp::DiscoverRepos {
                opts: RepoDiscoverOpts { max_depth: 2, include_nested: true, max_repos: Some(9) },
            },
        ]
    };
    for (sent, again) in ops().into_iter().zip(ops()) {
        match plan(request_for(sent)) {
            AgentStep::Run { id: 7, op, .. } => assert_eq!(format!("{op:?}"), format!("{again:?}")),
            other => panic!("{other:?}"),
        }
    }
    let seen: Vec<String> = ops().into_iter().map(|o| format!("{:?}", request_for(o))).collect();
    for (i, a) in seen.iter().enumerate() {
        assert!(seen.iter().skip(i + 1).all(|b| a != b));
    }
    assert!(matches!(ask_for(Request::Subscribe), Ask::Subscribe));
}

#[test]
fn outcomes_are_answered_under_the_id_of_the_request() {
    match respond(3, Ok(Outcome::Size(12))) {
        Response::Success { id: 3, result: Payload::Size(12) } => {}
        other => panic!("{other:?}"),
    }
    match respond(4, Err((ErrorCode::Git, s("no head")))) {
        Response::Failure { id: 4, code: ErrorCode::Git, message } => {
            assert_eq!(message, "no head")
        }
        other => panic!("{other:?}"),
    }
    assert!(dispatch_search_content(1, true, Ok(true)).is_none());
    match dispatch_search_content(1, false, Ok(true)) {
        Some(Response::Success { id: 1, result: Payload::SearchCompleted(c) }) => {
            assert!(c.truncated)
        }
        other => panic!("{other:?}"),
    }
}

#[test]
fn a_file_is_read_up_to_the_limit() {
    let read = |max| read_file_response(Lookup::File, Ok(b"abcdef".to_vec()), max).unwrap();
    let f = read(4);
    assert_eq!((f.is_file, f.bytes.as_slice(), f.size), (true, b"abcd".as_slice(), 6));
    assert_eq!(read(6).bytes, b"abcdef");
    assert_eq!(read(0).bytes, b"");
    let gone = read_file_response(Lookup::Missing, Err(s("unused")), 4).unwrap();
    assert_eq!((gone.is_file, gone.size), (false, 0));
    assert!(!read_file_response(Lookup::NotAFile, Ok(vec![1]), 4).unwrap().is_file);
    let refused = Lookup::Refused(ErrorCode::PathEscape, s("out"));
    assert_eq!(
        read_file_response(refused, Ok(Vec::new()), 4).unwrap_err(),
        (ErrorCode::PathEscape, s("out"))
    );
    assert_eq!(
        read_file_response(Lookup::File, Err(s("eio")), 4).unwrap_err(),
        (ErrorCode::Io, s("eio"))
    );
}

#[test]
fn deleting_falls_back_to_deleting_for_good() {
    let removed = |e: Option<&str>| Removal { path: s("/w/a"), error: e.map(s) };
    let good = vec![removed(None)];
    assert_eq!(agent_trash_delete(None, TrashTool::Succeeded, &good), Ok(true));
    assert_eq!(agent_trash_delete(None, TrashTool::Absent, &good), Ok(false));
    let bad = vec![removed(None), removed(Some("busy")), removed(Some("later"))];
    assert_eq!(
        agent_trash_delete(None, TrashTool::Failed, &bad),
        Err((ErrorCode::Io, s("delete /w/a: busy")))
    );
    let refused = Some((ErrorCode::PathEscape, s("out")));
    assert_eq!(
        agent_trash_delete(refused, TrashTool::Succeeded, &good),
        Err((ErrorCode::PathEscape, s("out")))
    );
}

#[test]
fn databases_are_answered_only_for_what_is_one() {
    let load = |found, ext, magic| load_db_initial_handler(found, ext, magic, Err(s("bad page")));
    assert!(matches!(load(Lookup::Missing, true, Ok(true)), Ok(None)));
    assert!(matches!(load(Lookup::File, false, Ok(true)), Ok(None)));
    assert!(matches!(load(Lookup::File, true, Ok(false)), Ok(None)));
    assert_eq!(load(Lookup::File, true, Err(s("eio"))).unwrap_err(), (ErrorCode::Io, s("eio")));
    assert_eq!(
        load(Lookup::File, true, Ok(true)).unwrap_err(),
        (ErrorCode::Other, s("sqlite: bad page"))
    );
    let page = |found| load_db_page_handler(found, Ok(DbPage { rows: Vec::new() }));
    assert!(page(Lookup::File).is_ok());
    assert_eq!(page(Lookup::Missing).unwrap_err(), (ErrorCode::NotFound, s("file not found")));
    assert_eq!(
        page(Lookup::NotAFile).unwrap_err(),
        (ErrorCode::NotFound, s("not a regular file"))
    );
}

fn entry(path: &str) -> FileEntry {
    FileEntry { path: s(path), status: FileStatus::Renamed, additions: 2, deletions: 1 }
}

#[test]
fn what_goes_over_the_wire_comes_back() {
    let files = || vec![entry("a"), entry("b")];
    let back = file_entries_from_dto(file_entries_to_dto(files()));
    assert_eq!(format!("{back:?}"), format!("{:?}", files()));

    let snap = || StatusSnapshot {
        staged: files(),
        unstaged: vec![entry("c")],
        branch_name: s("main"),
        ahead_behind: Some((1, 2)),
    };
    let back = snapshot_from_dto(snapshot_to_dto(snap()));
    assert_eq!(format!("{back:?}"), format!("{:?}", snap()));

    let diff = || {
        Some(DiffContent {
            file_path: s("a"),
            hunks: vec![DiffHunk {
                header: s("@@"),
                lines: vec![DiffLine {
                    tag: LineTag::Removed,
                    content: s("x"),
                    old_lineno: Some(4),
                    new_lineno: None,
                }],
            }],
        })
    };
    let back = opt_diff_from_dto(opt_diff_to_dto(diff()));
    assert_eq!(format!("{back:?}"), format!("{:?}", diff()));
    assert!(opt_diff_from_dto(opt_diff_to_dto(None)).is_none());

    let commit = || CommitInfo {
        oid: s("0123456789"),
        short_oid: s("0123456"),
        parents: vec![s("p")],
        author_name: s("n"),
        author_email: s("e"),
        time: -5,
        subject: s("t"),
    };
    let back = commit_info_from_dto(commit_info_to_dto(commit()));
    assert_eq!(format!("{back:?}"), format!("{:?}", commit()));

    let page = || DbPage {
        rows: vec![vec![
            SqliteValue::Null,
            SqliteValue::Integer(-1),
            SqliteValue::Real(1.5f64.to_bits()),
            SqliteValue::Text { value: s("t"), truncated: true },
            SqliteValue::Blob { len: 9 },
        ]],
    };
    let back = db_page_from_dto(db_page_to_dto(page()));
    assert_eq!(format!("{back:?}"), format!("{:?}", page()));
}

fn hit(start: usize, end: usize) -> ContentMatchHit {
    ContentMatchHit {
        path: s("p"),
        display: s("p"),
        line: 3,
        line_text: s("text"),
        byte_start: start,
        byte_end: end,
    }
}

#[test]
fn hits_come_back_from_the_wire() {
    let back = match_hit_dto_to_domain(match_hit_to_dto(hit(1, 5)));
    assert_eq!(format!("{back:?}"), format!("{:?}", hit(1, 5)));
    match search_chunk(9, vec![hit(0, 2), hit(3, 4)]) {
        Frame::Notification(Notification::SearchChunk { request_id: 9, hits }) => {
            assert_eq!(hits.len(), 2);
            assert_eq!((hits[1].byte_range_start, hits[1].byte_range_end), (3, 4));
        }
        other => panic!("{other:?}"),
    }
}

#[test]
fn texts_are_cut_between_characters() {
    assert_eq!(truncate_string_bytes(s("abc"), 3), (s("abc"), false));
    assert_eq!(truncate_string_bytes(s("abcd"), 3), (s("abc"), true));
    assert_eq!(truncate_string_bytes(s("aé"), 2), (s("a"), true));
    assert_eq!(truncate_string_bytes(s("é"), 1), (s(""), true));
    assert_eq!(truncate_string_bytes(s("a€b"), 4), (s("a€"), true));
    let detail = StashDetail {
        entry: StashEntry {
            index: 0,
            stash_ref: s("stash@{0}"),
            message: s("m"),
            created: s("c"),
            branch: s("b"),
            files_changed: 1,
            insertions: 1,
            deletions: 0,
            includes_untracked: false,
        },
        files: Vec::new(),
        patch: "x".repeat(8 * 1024 * 1024 + 1),
    };
    let sent = stash_detail_to_dto(detail);
    assert_eq!((sent.patch_truncated, sent.patch.len()), (true, 8 * 1024 * 1024));
}

fn answered(id: u64) -> Frame {
    Frame::Response(Response::Success { id, result: Payload::Done })
}

#[test]
fn a_response_is_delivered_once() {
    let mut c = RemoteBackend::new(None);
    let env = c.request(Request::Pull, false);
    assert_eq!(env.id, 1);
    assert!(matches!(c.read_loop(answered(1)), Routed::Response(_)));
    assert!(matches!(c.read_loop(answered(1)), Routed::Dropped));
    assert!(matches!(c.read_loop(answered(99)), Routed::Dropped));
    let env = c.request(Request::Pull, false);
    assert_eq!(env.id, 2);
    c.release(2);
    assert!(matches!(c.read_loop(answered(2)), Routed::Dropped));
}

#[test]
fn hits_go_to_the_search_that_waits() {
    let chunk = |id| {
        Frame::Notification(Notification::SearchChunk { request_id: id, hits: Vec::new() })
    };
    let mut c = RemoteBackend::new(None);
    let env = c.request(Request::Pull, true);
    assert!(matches!(c.read_loop(chunk(env.id)), Routed::Chunk { .. }));
    assert!(matches!(c.read_loop(chunk(env.id + 1)), Routed::Dropped));
    c.release(env.id);
    assert!(matches!(c.read_loop(chunk(env.id)), Routed::Dropped));
    assert!(matches!(c.read_loop(Frame::Notification(Notification::FsChanged)), Routed::FsChanged));
}

#[test]
fn ids_run_on_and_start_over() {
    let mut c = RemoteBackend::new(None);
    c.next_id = u64::MAX;
    assert_eq!(c.request(Request::Pull, false).id, u64::MAX);
    assert_eq!(c.request(Request::Pull, false).id, 0);
    assert!(matches!(c.shutdown(), Envelope { id: 1, body: Request::Shutdown }));
}

fn introduction(protocol_version: u32) -> HandshakeResponse {
    HandshakeResponse {
        workdir: s("/w"),
        workdir_name: s("w"),
        branch_name: s("main"),
        agent_version: s("1"),
        protocol_version,
    }
}

#[test]
fn another_protocol_version_is_refused() {
    let mut c = RemoteBackend::new(None);
    assert!(!c.has_repo());
    let want = format!(
        "agent speaks protocol v{}, client speaks v{}; re-run `reef --ssh` to trigger auto-update",
        PROTOCOL_VERSION + 1,
        PROTOCOL_VERSION
    );
    match c.handshake(introduction(PROTOCOL_VERSION + 1)) {
        Err(BackendError::Protocol(m)) => assert_eq!(m, want),
        other => panic!("{other:?}"),
    }
    assert!(c.handshake(introduction(PROTOCOL_VERSION)).is_ok());
    assert!(c.has_repo());
    assert_eq!(c.workdir, "/w");
}

#[test]
fn the_branch_shown_is_that_of_the_workspace() {
    let mut c = RemoteBackend::new(None);
    let snap = |branch: &str| {
        snapshot_to_dto(StatusSnapshot {
            staged: Vec::new(),
            unstaged: Vec::new(),
            branch_name: s(branch),
            ahead_behind: None,
        })
    };
    c.git_status(snap("main"), &None);
    assert_eq!(c.branch_name_cache, "main");
    let child = c.git_status(snap("other"), &Some(s("sub")));
    assert_eq!(child.branch_name, "other");
    assert_eq!(c.branch_name_cache, "main");
}

fn launch(os: RemoteOs) -> SshLaunchInfo {
    SshLaunchInfo {
        ssh_args: vec![s("-S"), s("sock")],
        host: s("h"),
        remote_workdir: s("/w/"),
        remote_os: os,
    }
}

#[test]
fn remote_commands() {
    assert_eq!(RemoteBackend::spawn(&Vec::new()).unwrap_err(), "remote backend: empty argv");
    assert_eq!(
        RemoteBackend::connect_ssh(&vec![s("-S"), s("sock")], "h", "agent", "'/w'"),
        ["ssh", "-S", "sock", "h", "agent --stdio --workdir '/w'"]
    );
    assert_eq!(
        editor_launch_spec(&launch(RemoteOs::Posix), "'/w'", "'f'"),
        ["-t", "-S", "sock", "h", "cd '/w' && ${VISUAL:-${EDITOR:-vi}} 'f'"]
    );
    assert!(editor_launch_spec(&launch(RemoteOs::Windows), "C:", "f")[4].starts_with("powershell"));
    assert_eq!(normalize_remote_path("a\\b/c"), "a/b/c");
    assert_eq!(upload_from_local(&Some(launch(RemoteOs::Posix)), "a\\b").unwrap(), "/w/a/b");
    assert!(matches!(upload_from_local(&None, "a"), Err(BackendError::Unimplemented(_))));
    assert_eq!(
        upload_args(&launch(RemoteOs::Posix), "/l", true, "'/w/a'"),
        ["-S", "sock", "-r", "/l", "h:'/w/a'"]
    );
}

#[test]
fn a_remote_file_is_edited_by_its_relative_path() {
    let with = |os| RemoteBackend::new(Some(launch(os)));
    assert_eq!(with(RemoteOs::Posix).editor_path("a\\b", false).unwrap(), "a/b");
    assert_eq!(with(RemoteOs::Windows).editor_path("a/b", false).unwrap(), "a\\b");
    assert!(matches!(
        with(RemoteOs::Posix).editor_path("/etc/x", true),
        Err(BackendError::PathEscape(m)) if m.ends_with(": /etc/x")
    ));
    assert!(matches!(
        RemoteBackend::new(None).editor_path("a", false),
        Err(BackendError::Unimplemented(_))
    ));
}

#[test]
fn refusals_of_the_agent_become_errors() {
    assert!(matches!(
        response_result(Response::Success { id: 1, result: Payload::Size(3) }),
        Ok(Payload::Size(3))
    ));
    let refused = response_result(Response::Failure { id: 1, code: ErrorCode::Git, message: s("m") });
    assert!(matches!(refused, Err(BackendError::Wire(ErrorCode::Git, m)) if m == "m"));
    let file = |is_file| ReadFileResponse { is_file, bytes: vec![1, 2], size: 2 };
    assert_eq!(read_file(file(true)).unwrap(), [1, 2]);
    assert!(read_file(file(false)).is_err());
}

#[test]
fn discovered_repositories_stay_inside() {
    let found = |rel: &str| RepoDiscoverResponseDto {
        repos: vec![WorkspaceRepoMetaDto { repo_root_rel: s(rel), display_name: s("n") }],
        truncated: true,
    };
    let r = discover_repos(found("sub"), vec![Ok(s("sub"))]).unwrap();
    assert_eq!((r.repos[0].repo_root_rel.as_str(), r.truncated), ("sub", true));
    assert!(matches!(
        discover_repos(found(""), vec![Ok(s(""))]),
        Err(BackendError::PathEscape(m)) if m == "empty repo_root_rel in discover response"
    ));
    let out = discover_repos(found("../x"), vec![Err(BackendError::PathEscape(s("../x")))]);
    assert!(matches!(out, Err(BackendError::PathEscape(m)) if m == "../x"));
}

#[test]
fn a_search_goes_on_until_its_response() {
    let dto = || {
        vec![MatchHitDto {
            path: s("p"),
            display: s("p"),
            line: 1,
            line_text: s("t"),
            byte_range_start: 0,
            byte_range_end: 1,
        }]
    };
    let mut pump = SearchPump::new();
    assert!(matches!(pump.search_content(PumpEvent::Timeout), PumpStep::Continue));
    assert_eq!(pump.chunk(dto()).unwrap().len(), 1);
    pump.receiver_said(false);
    assert!(pump.chunk(dto()).is_some());
    pump.receiver_said(true);
    pump.receiver_said(false);
    assert!(pump.chunk(dto()).is_none());
    assert!(matches!(
        pump.search_content(PumpEvent::Completed { truncated: true }),
        PumpStep::Finished { truncated: true }
    ));
    assert!(matches!(pump.search_content(PumpEvent::Disconnected), PumpStep::Failed(_)));
    assert!(matches!(
        pump.search_content(PumpEvent::Refused { code: ErrorCode::Other, message: s("m") }),
        PumpStep::Failed(_)
    ));
}

#[test]
fn a_remote_preview_asks_and_is_shown() {
    assert!(matches!(
        load_preview("a.txt", false, PreviewReply::Start),
        PreviewStep::Ask(Request::ReadFile { path, .. }) if path == "a.txt"
    ));
    assert!(matches!(
        load_preview("a.db", true, PreviewReply::Start),
        PreviewStep::Ask(Request::LoadDbInitial { rel_path, .. }) if rel_path == "a.db"
    ));
    assert!(matches!(
        load_preview("a.db", true, PreviewReply::Database(Ok(None))),
        PreviewStep::Ask(Request::ReadFile { .. })
    ));
    assert!(matches!(
        load_preview("a", false, PreviewReply::File(Err(BackendError::NotFound))),
        PreviewStep::Done(None)
    ));
    let file = ReadFileResponse { is_file: true, bytes: b"hi\nyou".to_vec(), size: 6 };
    match load_preview("a", false, PreviewReply::File(Ok(file))) {
        PreviewStep::Done(Some(c)) => {
            assert!(c.is_text() && !c.is_database());
            assert!(matches!(c.body, PreviewBody::Text { lines, .. } if lines == ["hi", "you"]))
        }
        other => panic!("{other:?}"),
    }
}

#[test]
fn open_directories_of_a_remote_tree_are_read() {
    let e = |name: &str, is_dir| reef::proto::DirEntryDto { name: s(name), is_dir };
    let mut open = StrSet::new();
    open.insert(s("src"));
    open.insert(s(".git"));
    open.insert(s("src/a"));
    let listed = vec![e("src", true), e(".git", true), e("file", false), e("doc", true)];
    assert_eq!(dirs_to_read("", &listed, &open), ["src"]);
    assert_eq!(dirs_to_read("src", &vec![e("a", true), e("b", true)], &open), ["src/a"]);
    let failed = build_file_tree(Err(s("gone")), &open, &StrMap::new());
    assert_eq!(failed.unwrap_err(), "gone");
}

#[test]
fn the_own_repository_of_a_workspace_is_not_named() {
    let at = |root: Option<&str>| BackendOp::Push { repo: root.map(s), force: true };
    assert!(matches!(client_request(at(None)), Request::Push { force: true }));
    assert!(matches!(client_request(at(Some("."))), Request::Push { force: true }));
    assert!(matches!(
        client_request(at(Some("sub"))),
        Request::PushFor { repo_root_rel, force: true } if repo_root_rel == "sub"
    ));
    let file = BackendOp::CreateFile { rel_path: s(".") };
    assert!(matches!(client_request(file), Request::CreateFile { rel_path } if rel_path == "."));
}

#[test]
fn an_answer_is_of_the_kind_that_was_asked_for() {
    let size = BackendOp::FileSize { rel_path: s("a") };
    assert_eq!(reply_kind(&size), ReplyKind::Size);
    assert_eq!(reply_kind(&BackendOp::Pull { repo: None }), ReplyKind::Done);
    let reply = match plan(Request::FileSize { rel_path: s("a") }) {
        AgentStep::Run { id: 7, reply, .. } => reply,
        other => panic!("{other:?}"),
    };
    assert!(matches!(
        respond_as(7, reply, Ok(Outcome::Size(3))),
        Response::Success { id: 7, result: Payload::Size(3) }
    ));
    assert!(matches!(
        respond_as(7, reply, Ok(Outcome::Done)),
        Response::Failure { id: 7, code: ErrorCode::Protocol, .. }
    ));
    assert!(matches!(
        respond_as(7, reply, Err((ErrorCode::Io, s("gone")))),
        Response::Failure { id: 7, code: ErrorCode::Io, .. }
    ));
}

#[test]
fn the_client_hears_what_the_agent_tells() {
    let mut client = RemoteBackend::new(None);
    let status = || {
        snapshot_to_dto(StatusSnapshot {
            staged: Vec::new(),
            unstaged: Vec::new(),
            branch_name: s("topic"),
            ahead_behind: None,
        })
    };
    let child = Some(s("sub"));
    assert!(client.outcome(Payload::Status(status()), &child, Vec::new()).is_ok());
    assert_eq!(client.branch_name_cache, "");
    match client.outcome(Payload::Status(status()), &None, Vec::new()) {
        Ok(Outcome::Status(snap)) => assert_eq!(snap.branch_name, "topic"),
        other => panic!("{other:?}"),
    }
    assert_eq!(client.branch_name_cache, "topic");
    let found = || RepoDiscoverResponseDto {
        repos: vec![WorkspaceRepoMetaDto { repo_root_rel: s("a//b"), display_name: s("b") }],
        truncated: true,
    };
    match client.outcome(Payload::Repos(found()), &None, vec![Ok(s("a/b"))]) {
        Ok(Outcome::Repos(r)) => {
            assert!(r.truncated);
            assert_eq!(r.repos[0].repo_root_rel, "a/b");
        }
        other => panic!("{other:?}"),
    }
    let fault = vec![Err(BackendError::PathEscape(s("..")))];
    assert!(matches!(
        client.outcome(Payload::Repos(found()), &None, fault),
        Err(BackendError::PathEscape(_))
    ));
    assert!(matches!(
        client.outcome(Payload::Subscribed, &None, Vec::new()),
        Ok(Outcome::Done)
    ));
}
