use reef::cli::{
    after_frame, agent_ready_line, connecting_line, expand_tilde, launch_plan, opens_hosts_picker,
    parse_args, remote_path_suffix, resolve_local_path, route_key, split_ssh_target, ssh_plan,
    AppArgs, CliCommand, Found, InstallPath, KeyRoute, Launch, Turn,
};

fn argv(words: &[&str]) -> Vec<String> {
    words.iter().map(|w| w.to_string()).collect()
}

fn started(words: &[&str]) -> AppArgs {
    match parse_args(&argv(words)) {
        Ok(CliCommand::Start(a)) => a,
        other => panic!("{other:?}"),
    }
}

fn refused(words: &[&str]) -> String {
    match parse_args(&argv(words)) {
        Err(e) => e,
        other => panic!("{other:?}"),
    }
}

#[test]
fn accepted_arguments_choose_at_most_one_workspace() {
    let bare = started(&[]);
    assert!(bare.agent_exec.is_none() && bare.ssh_target.is_none() && bare.path.is_none());
    assert_eq!(started(&["~/src"]).path.as_deref(), Some("~/src"));
    assert_eq!(started(&["--ssh", "me@host:/x"]).ssh_target.as_deref(), Some("me@host:/x"));
    assert_eq!(started(&["--agent-exec", "a b"]).agent_exec.as_deref(), Some("a b"));
    let both = "--agent-exec, --ssh, and <PATH> are mutually exclusive";
    assert_eq!(refused(&["--ssh", "host", "dir"]), both);
    assert_eq!(refused(&["--ssh", "host", "--agent-exec", "x"]), both);
    assert_eq!(refused(&["dir", "--agent-exec", "x"]), both);
}

#[test]
fn each_fault_of_the_arguments_has_its_message() {
    assert_eq!(refused(&["--ssh"]), "--ssh requires a [user@]host[:path] value");
    assert_eq!(refused(&["--agent-exec"]), "--agent-exec requires a value");
    assert_eq!(refused(&["--frobnicate"]), "unknown argument: --frobnicate");
    assert_eq!(refused(&["a", "b"]), "unexpected extra path argument: b");
    assert!(matches!(parse_args(&argv(&["-h", "--nonsense"])), Ok(CliCommand::ShowUsage)));
    assert!(matches!(parse_args(&argv(&["x", "--help"])), Ok(CliCommand::ShowUsage)));
}

#[test]
fn a_later_value_of_an_option_wins() {
    assert_eq!(started(&["--ssh", "a", "--ssh", "b"]).ssh_target.as_deref(), Some("b"));
}

#[test]
fn the_home_directory_is_put_in_for_a_tilde() {
    let home = Some("/home/me".to_string());
    assert_eq!(expand_tilde("~", &home), Ok("/home/me".to_string()));
    assert_eq!(expand_tilde("~/src/x", &home), Ok("/home/me/src/x".to_string()));
    assert_eq!(expand_tilde("./~", &home), Ok("./~".to_string()));
    assert_eq!(expand_tilde("~other/x", &home), Ok("~other/x".to_string()));
    let e = "cannot expand `~`: $HOME not set".to_string();
    assert_eq!(expand_tilde("~/x", &None), Err(e.clone()));
    assert_eq!(expand_tilde("~", &None), Err(e));
    assert_eq!(expand_tilde("/abs", &None), Ok("/abs".to_string()));
}

#[test]
fn a_workspace_has_to_be_a_directory() {
    let at = |is_dir| Found::At { path: "/p".to_string(), is_dir };
    assert_eq!(resolve_local_path("p", at(true)), Ok("/p".to_string()));
    assert_eq!(resolve_local_path("p", at(false)), Err("`p` is not a directory".to_string()));
    let gone = Found::Unreachable("no such file".to_string());
    assert_eq!(resolve_local_path("p", gone), Err("cannot open `p`: no such file".to_string()));
}

#[test]
fn a_target_is_cut_at_its_first_colon() {
    for (target, host, path) in [
        ("me@host", "me@host", "."),
        ("host:", "host", "."),
        ("host:/a:b", "host", "/a:b"),
        (":/x", "", "/x"),
        ("", "", "."),
    ] {
        let (h, p) = split_ssh_target(target);
        assert_eq!((h.as_str(), p.as_str()), (host, path), "{target}");
        assert!(!h.contains(':'));
    }
    assert_eq!(remote_path_suffix("."), "");
    assert_eq!(remote_path_suffix("/srv"), ":/srv");
}

#[test]
fn the_plan_follows_the_arguments() {
    let plan = launch_plan(&started(&["--agent-exec", " ssh  host reef-agent "]));
    assert!(matches!(plan, Ok(Launch::Agent { argv }) if argv == ["ssh", "host", "reef-agent"]));
    let plan = launch_plan(&started(&["--agent-exec", "  "]));
    assert_eq!(plan.unwrap_err(), "--agent-exec value is empty");
    assert!(matches!(launch_plan(&started(&[])), Ok(Launch::CurrentDirectory)));
    assert!(matches!(launch_plan(&started(&["d"])), Ok(Launch::Directory { raw }) if raw == "d"));
    assert!(matches!(
        ssh_plan("host:/w"),
        Ok(Launch::Ssh { host, workdir }) if host == "host" && workdir == "/w"
    ));
    assert_eq!(ssh_plan(":/w").unwrap_err(), "--ssh value is missing a host");
}

#[test]
fn the_lines_before_a_remote_session() {
    assert_eq!(connecting_line("h", "."), "reef: connecting to h");
    assert_eq!(connecting_line("h", "/w"), "reef: connecting to h:/w");
    assert_eq!(
        agent_ready_line(InstallPath::Downloaded, "h", "/opt/agent"),
        "reef: remote agent ready (downloaded from release) at h:/opt/agent"
    );
}

#[test]
fn the_list_of_hosts_opens_after_a_failure_or_with_nothing_to_show() {
    let bare = started(&[]);
    assert!(opens_hosts_picker(&bare, false, false, 0));
    assert!(!opens_hosts_picker(&bare, false, true, 0));
    assert!(!opens_hosts_picker(&bare, false, false, 2));
    let given = started(&["dir"]);
    assert!(!opens_hosts_picker(&given, false, false, 0));
    assert!(opens_hosts_picker(&given, true, true, 5));
}

#[test]
fn keys_are_routed() {
    assert_eq!(route_key(false, Some('v'), true, false, false), KeyRoute::Drop);
    assert_eq!(route_key(true, Some('V'), true, false, true), KeyRoute::ToggleSelectMode);
    assert_eq!(route_key(true, Some('v'), true, true, false), KeyRoute::Handle);
    assert_eq!(route_key(true, Some('q'), false, false, true), KeyRoute::CloseHelp);
    assert_eq!(route_key(true, None, false, false, false), KeyRoute::Handle);
}

#[test]
fn a_frame_leads_to_the_next_one_or_out() {
    assert_eq!(after_frame(false, false, true), Turn::NextFrame);
    assert_eq!(after_frame(true, true, true), Turn::Leave);
    assert_eq!(after_frame(false, true, true), Turn::Reconnect);
    assert_eq!(after_frame(false, true, false), Turn::Leave);
}
