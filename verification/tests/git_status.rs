use reef::git::{count_workdir_lines, FileStatus};

#[test]
fn file_status_label_all_variants() {
    assert_eq!(FileStatus::Modified.label(), "M");
    assert_eq!(FileStatus::Added.label(), "A");
    assert_eq!(FileStatus::Deleted.label(), "D");
    assert_eq!(FileStatus::Renamed.label(), "R");
    assert_eq!(FileStatus::Untracked.label(), "U");
}

fn contents(bytes: &[u8]) -> Option<Vec<u8>> {
    Some(bytes.to_vec())
}

#[test]
fn count_workdir_lines_empty_file() {
    assert_eq!(count_workdir_lines(&contents(b"")), 0);
}

#[test]
fn count_workdir_lines_single_line_no_trailing_newline() {
    assert_eq!(count_workdir_lines(&contents(b"hello")), 1);
}

#[test]
fn count_workdir_lines_single_line_with_trailing_newline() {
    assert_eq!(count_workdir_lines(&contents(b"hello\n")), 1);
}

#[test]
fn count_workdir_lines_multi_line() {
    assert_eq!(count_workdir_lines(&contents(b"a\nb\nc\n")), 3);
}

#[test]
fn count_workdir_lines_just_newline() {
    assert_eq!(count_workdir_lines(&contents(b"\n")), 1);
}

#[test]
fn count_workdir_lines_binary_nul_short_circuits() {
    assert_eq!(count_workdir_lines(&contents(b"abc\x00def\n")), 0);
}

#[test]
fn count_workdir_lines_missing_file_is_zero() {
    assert_eq!(count_workdir_lines(&None), 0);
}

#[test]
fn count_workdir_lines_no_workdir_is_zero() {
    assert_eq!(count_workdir_lines(&None), 0);
}
