use reef::search::{
    center_scroll, find_all, find_in_rows, smart_case, MatchLoc, SearchState, SearchTarget,
};

#[test]
fn find_all_basic() {
    let r = find_all("foobar foo baz", "foo", true);
    assert_eq!(r, vec![0..3, 7..10]);
}

#[test]
fn find_all_smart_case_insensitive() {
    let r = find_all("Foo FOO foo", "foo", true);
    assert_eq!(r, vec![0..3, 4..7, 8..11]);
}

#[test]
fn find_all_smart_case_sensitive_when_upper() {
    let r = find_all("Foo FOO foo", "Foo", false);
    assert_eq!(r, vec![0..3]);
}

#[test]
fn find_all_empty_needle() {
    assert!(find_all("abc", "", true).is_empty());
}

#[test]
fn find_all_no_match() {
    assert!(find_all("abc", "xyz", true).is_empty());
}

#[test]
fn find_all_overlapping_advances_by_needle_len() {
    let r = find_all("aaaa", "aa", true);
    assert_eq!(r, vec![0..2, 2..4]);
}

#[test]
fn smart_case_all_lowercase_is_insensitive() {
    assert!(smart_case("foo"));
    assert!(!smart_case("Foo"));
    assert!(!smart_case("FOO"));
}

#[test]
fn center_scroll_centers_when_possible() {
    assert_eq!(center_scroll(10, 4), 8);
    assert_eq!(center_scroll(10, 10), 5);
}

#[test]
fn center_scroll_clamps_at_zero() {
    assert_eq!(center_scroll(2, 20), 0);
    assert_eq!(center_scroll(0, 10), 0);
}

#[test]
fn can_step_requires_committed_matches() {
    let s0 = SearchState::default();
    assert!(!s0.can_step());
    let mut s = SearchState {
        target: Some(SearchTarget::FilePreview),
        matches: vec![MatchLoc { row: 0, byte_range: 0..3 }],
        ..SearchState::default()
    };
    assert!(s.can_step());
    s.active = true;
    assert!(!s.can_step());
}

#[test]
fn ranges_on_row_filters_correctly() {
    let s = SearchState {
        target: Some(SearchTarget::FilePreview),
        matches: vec![
            MatchLoc { row: 1, byte_range: 0..3 },
            MatchLoc { row: 1, byte_range: 5..8 },
            MatchLoc { row: 2, byte_range: 0..3 },
        ],
        current: Some(1),
        ..SearchState::default()
    };
    let (all, cur) = s.ranges_on_row(SearchTarget::FilePreview, 1);
    assert_eq!(all, vec![0..3, 5..8]);
    assert_eq!(cur, Some(5..8));
    let (all, _) = s.ranges_on_row(SearchTarget::FilePreview, 3);
    assert!(all.is_empty());
}

#[test]
fn ranges_on_row_target_mismatch_returns_empty() {
    let s = SearchState {
        target: Some(SearchTarget::FilePreview),
        matches: vec![MatchLoc { row: 0, byte_range: 0..1 }],
        ..SearchState::default()
    };
    let (all, _) = s.ranges_on_row(SearchTarget::Diff, 0);
    assert!(all.is_empty());
}

#[test]
fn smart_case_knows_capitals_beyond_ascii() {
    assert!(!smart_case("äÖü"));
    assert!(smart_case("äöü"));
    assert!(!smart_case("x\u{0394}"));
    assert!(smart_case("日本"));
}

#[test]
fn matches_agree_with_the_standard_library() {
    for (h, n) in [("abcabcab", "ab"), ("ßaßa", "ß"), ("日本日本語", "日本"), ("xxxxx", "xx")] {
        let want: Vec<std::ops::Range<usize>> =
            h.match_indices(n).map(|(i, m)| i..i + m.len()).collect();
        assert_eq!(find_all(h, n, false), want, "{h} {n}");
    }
}

#[test]
fn rows_are_searched_one_by_one() {
    let rows = vec!["one two".to_string(), "".to_string(), "TWO two".to_string()];
    let m = find_in_rows(&rows, "two");
    let got: Vec<(usize, usize, usize)> =
        m.iter().map(|m| (m.row, m.byte_range.start, m.byte_range.end)).collect();
    assert_eq!(got, vec![(0, 4, 7), (2, 0, 3), (2, 4, 7)]);
    let m = find_in_rows(&rows, "TWO");
    assert_eq!(m.len(), 1);
    assert_eq!(m[0].row, 2);
}

#[test]
fn stepping_wraps_and_comes_back() {
    let mut s = SearchState {
        target: Some(SearchTarget::Diff),
        matches: vec![
            MatchLoc { row: 1, byte_range: 0..1 },
            MatchLoc { row: 4, byte_range: 0..1 },
            MatchLoc { row: 9, byte_range: 0..1 },
        ],
        current: Some(2),
        ..SearchState::default()
    };
    assert!(s.step_current(false));
    assert_eq!(s.current, Some(0));
    assert!(s.wrap_msg.is_some());
    assert!(s.step_current(true));
    assert_eq!(s.current, Some(2));
    assert!(s.step_current(true));
    assert_eq!(s.current, Some(1));
    assert!(s.wrap_msg.is_none());
}

#[test]
fn a_search_starts_at_the_nearest_match() {
    let mut s = SearchState {
        target: Some(SearchTarget::Diff),
        matches: vec![
            MatchLoc { row: 1, byte_range: 0..1 },
            MatchLoc { row: 4, byte_range: 0..1 },
            MatchLoc { row: 9, byte_range: 0..1 },
        ],
        ..SearchState::default()
    };
    assert_eq!(s.pick_current(3), Some(1));
    assert_eq!(s.pick_current(10), Some(0));
    s.backwards = true;
    assert_eq!(s.pick_current(3), Some(0));
    assert_eq!(s.pick_current(0), Some(2));
}
