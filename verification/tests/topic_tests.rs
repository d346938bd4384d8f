use qute::topic::{is_valid_pattern, route_to_filter, split_topic, TopicRouter};

fn views(v: &[String]) -> Vec<&str> {
    v.iter().map(|s| s.as_str()).collect()
}

#[test]
fn splitting_keeps_empty_segments() {
    assert_eq!(views(&split_topic("a/b/c")), vec!["a", "b", "c"]);
    assert_eq!(views(&split_topic("a//b")), vec!["a", "", "b"]);
    assert_eq!(views(&split_topic("")), vec![""]);
    assert_eq!(views(&split_topic("/x")), vec!["", "x"]);
    assert_eq!(views(&split_topic("x/")), vec!["x", ""]);
}

#[test]
fn routing_matches_the_documented_scenario() {
    let mut router = TopicRouter::new();
    let foo = router.add("foo/:bar");
    let foobar = router.add("foobar/*rest");

    assert_eq!(
        router.match_topic("foo/bar/baz"),
        None,
        "foo/:bar matches exactly two segments and foobar/*rest another prefix",
    );
    assert_eq!(router.match_topic("foobar/baz/bax"), Some(foobar));
    assert_eq!(router.match_topic("foo/bar"), Some(foo));
    assert_eq!(router.match_topic("foo"), None);
}

#[test]
fn literal_beats_capture_beats_catch_all() {
    let mut router = TopicRouter::new();
    let literal = router.add("a/b");
    let capture = router.add("a/:x");
    let catch_all = router.add("a/*rest");

    assert_eq!(router.match_topic("a/b"), Some(literal));
    assert_eq!(router.match_topic("a/c"), Some(capture));
    assert_eq!(router.match_topic("a/b/c"), Some(catch_all));
}

#[test]
fn precedence_does_not_depend_on_registration_order() {
    let mut router = TopicRouter::new();
    let catch_all = router.add("a/*rest");
    let capture = router.add("a/:x");
    let literal = router.add("a/b");

    assert_eq!(router.match_topic("a/b"), Some(literal));
    assert_eq!(router.match_topic("a/c"), Some(capture));
    assert_eq!(router.match_topic("a/b/c"), Some(catch_all));
}

#[test]
fn a_catch_all_needs_at_least_one_segment() {
    let mut router = TopicRouter::new();
    let idx = router.add("foobar/*rest");
    assert_eq!(router.match_topic("foobar"), None);
    assert_eq!(router.match_topic("foobar/a"), Some(idx));
    assert_eq!(router.match_topic("foobar/a/b/c"), Some(idx));
}

#[test]
fn registering_a_pattern_twice_keeps_its_index() {
    let mut router = TopicRouter::new();
    let first = router.add("x/:y");
    let second = router.add("x/:y");
    assert_eq!(first, second);
}

#[test]
fn top_level_capture_and_literal_are_distinct() {
    let mut router = TopicRouter::new();
    let literal = router.add("a");
    let capture = router.add(":foo");
    assert_eq!(router.match_topic("a"), Some(literal));
    assert_eq!(router.match_topic("b"), Some(capture));
    assert_eq!(router.match_topic("a/b"), None);
}

#[test]
fn captures_rewrite_to_single_level_wildcards() {
    assert_eq!(route_to_filter("foo/:bar"), "foo/+");
    assert_eq!(route_to_filter(":a/:b/c"), "+/+/c");
}

#[test]
fn final_catch_alls_rewrite_to_multi_level_wildcards() {
    assert_eq!(route_to_filter("foobar/*rest"), "foobar/#");
    assert_eq!(route_to_filter("a/:b/*rest"), "a/+/#");
}

#[test]
fn literals_rewrite_to_themselves() {
    assert_eq!(route_to_filter("plain/topic"), "plain/topic");
    assert_eq!(route_to_filter("a"), "a");
}

#[test]
fn subscribe_filters_cover_every_route() {
    let mut router = TopicRouter::new();
    router.add("test");
    router.add("foo/:bar");
    router.add("foobar/*rest");
    let filters = router.subscribe_filters();
    assert_eq!(views(&filters), vec!["test", "foo/+", "foobar/#"]);
}

#[test]
fn a_topic_accepted_by_the_filter_is_matched_by_the_pattern() {
    // The law is proved in general; this pins one concrete instance: the
    // filter foo/+ accepts foo/x, and the router matches foo/:bar on it.
    let mut router = TopicRouter::new();
    let idx = router.add("foo/:bar");
    assert_eq!(route_to_filter("foo/:bar"), "foo/+");
    assert_eq!(router.match_topic("foo/x"), Some(idx));
}

#[test]
fn pattern_validity_is_checked() {
    assert!(is_valid_pattern("a/b/c"));
    assert!(is_valid_pattern(":x/y"));
    assert!(is_valid_pattern("a/:x/*rest"));
    assert!(!is_valid_pattern("a/*rest/b"), "a catch-all may only end a pattern");
    assert!(!is_valid_pattern(":"), "a capture needs a name");
    assert!(!is_valid_pattern("*"), "a catch-all needs a name");
    assert!(!is_valid_pattern("a/+/b"), "literals may not hold filter wildcards");
    assert!(!is_valid_pattern("a/#"), "literals may not hold filter wildcards");
}

#[test]
fn same_shaped_patterns_under_other_names_are_refused() {
    let mut router = TopicRouter::new();
    router.add("foo/:bar");
    assert!(router.can_add("foo/:bar"), "the same pattern may be re-registered");
    assert!(
        !router.can_add("foo/:other"),
        "a same-shaped pattern under another capture name is ambiguous"
    );
    assert!(router.can_add("foo/baz"));
}
