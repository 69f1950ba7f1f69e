use rugix_isolator::{parse_subid_file, SubIdRange};

#[test]
fn lookup_finds_alice() {
    let content = "alice:100000:65536\nbob:200000:65536\n";
    assert_eq!(
        parse_subid_file(content, "alice"),
        Some(SubIdRange { start: 100000, count: 65536 })
    );
}

#[test]
fn lookup_finds_bob() {
    let content = "alice:100000:65536\nbob:200000:65536\n";
    assert_eq!(
        parse_subid_file(content, "bob"),
        Some(SubIdRange { start: 200000, count: 65536 })
    );
}

#[test]
fn lookup_misses_carol() {
    let content = "alice:100000:65536\nbob:200000:65536\n";
    assert_eq!(parse_subid_file(content, "carol"), None);
}

#[test]
fn malformed_line_is_skipped() {
    let content = "alice:bad:1\nalice:100000:65536\n";
    assert_eq!(
        parse_subid_file(content, "alice"),
        Some(SubIdRange { start: 100000, count: 65536 })
    );
}

#[test]
fn first_matching_line_wins() {
    let content = "alice:1:2\nalice:3:4\n";
    assert_eq!(parse_subid_file(content, "alice"), Some(SubIdRange { start: 1, count: 2 }));
}

#[test]
fn fields_are_trimmed() {
    let content = " alice : 5 : 6 \n";
    assert_eq!(parse_subid_file(content, "alice"), Some(SubIdRange { start: 5, count: 6 }));
}

#[test]
fn missing_count_is_skipped() {
    let content = "alice:7\nalice:8:9\n";
    assert_eq!(parse_subid_file(content, "alice"), Some(SubIdRange { start: 8, count: 9 }));
}

#[test]
fn overflowing_start_is_skipped() {
    let content = "alice:4294967296:1\nalice:10:1\n";
    assert_eq!(parse_subid_file(content, "alice"), Some(SubIdRange { start: 10, count: 1 }));
}

#[test]
fn empty_file_yields_nothing() {
    assert_eq!(parse_subid_file("", "alice"), None);
}
