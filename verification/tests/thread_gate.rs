use rugix_isolator::is_single_threaded;

#[test]
fn one_thread_is_single_threaded() {
    let status = "Name:\tfoo\nThreads:\t1\nPid:\t3\n";
    assert_eq!(is_single_threaded(status), Some(true));
}

#[test]
fn two_threads_are_not_single_threaded() {
    let status = "Name:\tfoo\nThreads:\t2\nPid:\t3\n";
    assert_eq!(is_single_threaded(status), Some(false));
}

#[test]
fn missing_threads_line_is_unknown() {
    let status = "Name:\tfoo\nPid:\t3\n";
    assert_eq!(is_single_threaded(status), None);
}

#[test]
fn unparsable_count_is_unknown() {
    let status = "Threads:\tmany\n";
    assert_eq!(is_single_threaded(status), None);
}

#[test]
fn first_threads_line_decides() {
    let status = "Threads:\tx\nThreads:\t1\n";
    assert_eq!(is_single_threaded(status), None);
}

#[test]
fn empty_status_is_unknown() {
    assert_eq!(is_single_threaded(""), None);
}
