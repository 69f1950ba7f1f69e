use rugix_isolator::make_identity_map;

#[test]
fn identity_round_trip() {
    let derived = make_identity_map("0 1000 1\n1 100000 65536\n");
    assert_eq!(derived, "0 0 1\n1 1 65536\n");
}

#[test]
fn empty_map_yields_default() {
    assert_eq!(make_identity_map(""), "0 0 1\n");
}

#[test]
fn single_line_map() {
    assert_eq!(make_identity_map("0 1000 1\n"), "0 0 1\n");
}

#[test]
fn idempotent_on_sample() {
    let once = make_identity_map("0 1000 1\n1 100000 65536\n");
    let twice = make_identity_map(&once);
    assert_eq!(twice, once);
}

#[test]
fn idempotent_on_default() {
    let once = make_identity_map("");
    let twice = make_identity_map(&once);
    assert_eq!(twice, once);
}

#[test]
fn short_lines_are_skipped() {
    assert_eq!(make_identity_map("0 1000\n5 6 7\n"), "5 5 7\n");
}

#[test]
fn extra_tokens_are_ignored() {
    assert_eq!(make_identity_map("0 1000 1 extra\n"), "0 0 1\n");
}

#[test]
fn only_unusable_lines_yield_default() {
    assert_eq!(make_identity_map("a b\n\n"), "0 0 1\n");
}

#[test]
fn tabs_and_runs_of_spaces_separate_tokens() {
    assert_eq!(make_identity_map("0\t1000\t 1\n"), "0 0 1\n");
}

#[test]
fn carriage_returns_are_stripped() {
    assert_eq!(make_identity_map("0 1000 1\r\n"), "0 0 1\n");
}

#[test]
fn missing_final_newline_is_accepted() {
    assert_eq!(make_identity_map("2 7 9"), "2 2 9\n");
}
