use reef::editor::{launch_outcome, parse_editor_command, resolve_editor};

fn some(s: &str) -> Option<String> {
    Some(s.to_string())
}

#[test]
fn parse_empty_returns_none() {
    assert!(parse_editor_command("").is_none());
    assert!(parse_editor_command("   ").is_none());
}

#[test]
fn parse_bare_program() {
    let (prog, args) = parse_editor_command("vim").unwrap();
    assert_eq!(prog, "vim");
    assert!(args.is_empty());
}

#[test]
fn parse_program_with_args() {
    let (prog, args) = parse_editor_command("code -w -n").unwrap();
    assert_eq!(prog, "code");
    assert_eq!(args, vec!["-w", "-n"]);
}

#[test]
fn parse_collapses_runs_of_whitespace() {
    let (prog, args) = parse_editor_command("  nvim\t --clean ").unwrap();
    assert_eq!(prog, "nvim");
    assert_eq!(args, vec!["--clean"]);
}

#[test]
fn pref_wins_over_env_vars() {
    let (prog, args) =
        resolve_editor(&some("nvim --clean"), &some("vim"), &some("vi"), true).unwrap();
    assert_eq!(prog, "nvim");
    assert_eq!(args, vec!["--clean"]);
}

#[test]
fn falls_back_to_visual_then_editor_then_vi() {
    let (prog, _) = resolve_editor(&None, &None, &None, true).unwrap();
    assert_eq!(prog, "vi");
    let (prog, _) = resolve_editor(&None, &None, &some("helix"), true).unwrap();
    assert_eq!(prog, "helix");
    let (prog, args) = resolve_editor(&None, &some("code -w"), &some("helix"), true).unwrap();
    assert_eq!(prog, "code");
    assert_eq!(args, vec!["-w"]);
}

#[test]
fn whitespace_pref_is_ignored() {
    let (prog, _) = resolve_editor(&some("   "), &None, &some("ed"), true).unwrap();
    assert_eq!(prog, "ed");
}

#[test]
fn words_split_as_the_standard_library_splits_them() {
    for s in ["a b", "\u{a0}x\u{3000}y z", "one", "", "\n\t", "a\u{2003}b\u{85}c"] {
        let want: Vec<String> = s.split_whitespace().map(|w| w.to_string()).collect();
        let got: Vec<String> = match parse_editor_command(s) {
            Some((prog, args)) => {
                let mut all = vec![prog];
                all.extend(args);
                all
            }
            None => Vec::new(),
        };
        assert_eq!(got, want, "{s:?}");
    }
}

#[test]
fn no_editor_is_found_off_unix_without_settings() {
    assert!(resolve_editor(&None, &None, &None, false).is_none());
}

#[test]
fn a_failed_run_is_reported_before_a_failed_restore() {
    assert_eq!(launch_outcome(some("run"), some("restore")), some("run"));
    assert_eq!(launch_outcome(None, some("restore")), some("restore"));
    assert_eq!(launch_outcome(None, None), None);
}
