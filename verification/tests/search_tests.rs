use enigmata::search::{SearchFlags, SearchQuery};

fn flags(regex: bool, case_sensitive: bool, whole_word: bool) -> SearchFlags {
    SearchFlags { regex_enabled: regex, case_sensitive, whole_word }
}

#[test]
fn case_insensitive_literal_matches_and_navigation() {
    let mut q = SearchQuery::new();
    q.set_pattern("foo".to_string());
    q.set_flags(flags(false, false, false));
    q.recompute("Foo bar foo");
    assert_eq!(q.matches, vec![(0, 3), (8, 11)]);
    assert_eq!(q.active_index, None);
    q.next();
    assert_eq!(q.active_index, Some(0));
    q.next();
    assert_eq!(q.active_index, Some(1));
    q.next();
    assert_eq!(q.active_index, Some(0));
}

#[test]
fn previous_wraps_backwards() {
    let mut q = SearchQuery::new();
    q.set_pattern("a".to_string());
    q.recompute("a b a");
    q.previous();
    assert_eq!(q.active_index, Some(1));
    q.previous();
    assert_eq!(q.active_index, Some(0));
    q.previous();
    assert_eq!(q.active_index, Some(1));
}

#[test]
fn navigation_is_a_no_op_without_matches() {
    let mut q = SearchQuery::new();
    q.set_pattern("zzz".to_string());
    q.recompute("nothing here");
    q.next();
    assert_eq!(q.active_index, None);
    q.previous();
    assert_eq!(q.active_index, None);
    assert_eq!(q.active_match(), None);
}

#[test]
fn case_sensitive_literal_skips_other_case() {
    let mut q = SearchQuery::new();
    q.set_pattern("foo".to_string());
    q.set_flags(flags(false, true, false));
    q.recompute("Foo bar foo");
    assert_eq!(q.matches, vec![(8, 11)]);
}

#[test]
fn whole_word_literal_rejects_embedded_matches() {
    let mut q = SearchQuery::new();
    q.set_pattern("foo".to_string());
    q.set_flags(flags(false, true, true));
    q.recompute("foo foobar foo");
    assert_eq!(q.matches, vec![(0, 3), (11, 14)]);
}

#[test]
fn underscore_counts_as_word_character() {
    let mut q = SearchQuery::new();
    q.set_pattern("foo".to_string());
    q.set_flags(flags(false, true, true));
    q.recompute("foo_ foo");
    assert_eq!(q.matches, vec![(5, 8)]);
}

#[test]
fn empty_pattern_yields_no_matches() {
    let mut q = SearchQuery::new();
    q.set_pattern(String::new());
    q.recompute("anything at all");
    assert_eq!(q.matches, Vec::<(usize, usize)>::new());
    assert!(!q.pattern_error);
}

#[test]
fn literal_matches_do_not_overlap() {
    let mut q = SearchQuery::new();
    q.set_pattern("aa".to_string());
    q.set_flags(flags(false, true, false));
    q.recompute("aaaa");
    assert_eq!(q.matches, vec![(0, 2), (2, 4)]);
}

#[test]
fn regex_matches_are_enumerated() {
    let mut q = SearchQuery::new();
    q.set_pattern("fo+".to_string());
    q.set_flags(flags(true, true, false));
    q.recompute("foo foooo");
    assert_eq!(q.matches, vec![(0, 3), (4, 9)]);
}

#[test]
fn regex_case_insensitive_compilation() {
    let mut q = SearchQuery::new();
    q.set_pattern("FO+".to_string());
    q.set_flags(flags(true, false, false));
    q.recompute("foo");
    assert_eq!(q.matches, vec![(0, 3)]);
}

#[test]
fn regex_invalid_pattern_sets_error_and_no_matches() {
    let mut q = SearchQuery::new();
    q.set_pattern("(".to_string());
    q.set_flags(flags(true, true, false));
    q.recompute("(anything)");
    assert!(q.pattern_error);
    assert_eq!(q.matches, Vec::<(usize, usize)>::new());
}

#[test]
fn regex_ranges_are_character_indices_not_bytes() {
    let mut q = SearchQuery::new();
    q.set_pattern("a".to_string());
    q.set_flags(flags(true, true, false));
    q.recompute("\u{3b1}\u{3b1}a");
    assert_eq!(q.matches, vec![(2, 3)]);
}

#[test]
fn regex_whole_word_filter() {
    let mut q = SearchQuery::new();
    q.set_pattern("foo".to_string());
    q.set_flags(flags(true, true, true));
    q.recompute("foo foobar");
    assert_eq!(q.matches, vec![(0, 3)]);
}

#[test]
fn active_match_returns_selected_range() {
    let mut q = SearchQuery::new();
    q.set_pattern("b".to_string());
    q.recompute("abcb");
    assert_eq!(q.match_count(), 2);
    q.next();
    assert_eq!(q.active_match(), Some((1, 2)));
    q.next();
    assert_eq!(q.active_match(), Some((3, 4)));
}

#[test]
fn changing_pattern_drops_stale_matches() {
    let mut q = SearchQuery::new();
    q.set_pattern("a".to_string());
    q.recompute("aaa");
    assert_eq!(q.match_count(), 3);
    q.set_pattern("b".to_string());
    assert_eq!(q.match_count(), 0);
    assert_eq!(q.active_index, None);
}
