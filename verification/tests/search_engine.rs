use content_search::aggregate::Aggregator;
use content_search::aggregate::GrepResult;
use content_search::cancel::cancel;
use content_search::cancel::CancelToken;
use content_search::enumerate::enumerate;
use content_search::enumerate::is_match_all;
use content_search::enumerate::DirEntry;
use content_search::enumerate::FileAttributes;
use content_search::enumerate::NameFilter;
use content_search::enumerate::MAX_FILTER_LEN;
use content_search::error::SearchError;
use content_search::pattern::LineMatcher;
use content_search::scanner::scan;
use content_search::search::run_grep;
use content_search::search::run_grep_with_readings;
use content_search::search::GrepProgress;
use content_search::search::GrepRequest;
use content_search::search::Phase;
use content_search::search::SearchPlan;
use content_search::search::Step;
use content_search::store::find_stored;
use content_search::store::StoredFile;

fn regular_file(dir: &str, name: &str) -> DirEntry {
    DirEntry {
        full_path: format!("{}/{}", dir, name),
        name: name.to_string(),
        attributes: FileAttributes { is_symbolic_link: false, is_directory: false, is_device: false, is_system: false },
    }
}

fn stored(dir: &str, name: &str, content: &[u8]) -> StoredFile {
    StoredFile { full_path: format!("{}/{}", dir, name), content: content.to_vec() }
}

fn request(condition: &str, file_type: &str) -> GrepRequest {
    GrepRequest {
        condition: condition.to_string(),
        start_directory: "/work".to_string(),
        file_type: file_type.to_string(),
        match_by_word: false,
        case_sensitive: true,
        regexp: false,
        recursive: false,
    }
}

fn search_one(request: &GrepRequest, content: &[u8]) -> Vec<GrepResult> {
    let entries = vec![regular_file("/work", "a.txt")];
    let store = vec![stored("/work", "a.txt", content)];
    let token = CancelToken::new();
    let mut progress: Vec<GrepProgress> = Vec::new();
    run_grep(request, &entries, &store, &token, &mut progress).unwrap()
}

fn summary(results: &Vec<GrepResult>) -> Vec<(String, u64, String, Vec<(usize, usize)>)> {
    results
        .iter()
        .map(|r| (r.full_path().to_string(), r.line_number(), r.line().to_string(), r.ranges().clone()))
        .collect()
}

#[test]
fn two_occurrences_on_one_line_make_one_record_with_two_ranges() {
    let results = search_one(&request("foo", "*.*"), b"foo bar foo\n");
    assert_eq!(
        summary(&results),
        vec![("/work/a.txt".to_string(), 1, "foo bar foo\n".to_string(), vec![(0, 3), (8, 11)])]
    );
}

#[test]
fn case_insensitive_literal_matches_both_cases() {
    let mut req = request("Foo", "*.*");
    req.case_sensitive = false;
    let results = search_one(&req, b"foo bar FOO");
    assert_eq!(results.len(), 1);
    assert_eq!(results[0].line(), "foo bar FOO");
    assert_eq!(results[0].ranges(), &vec![(0, 3), (8, 11)]);
}

#[test]
fn case_sensitive_literal_matches_only_its_own_case() {
    let results = search_one(&request("Foo", "*.*"), b"foo bar FOO Foo");
    assert_eq!(results.len(), 1);
    assert_eq!(results[0].ranges(), &vec![(12, 15)]);
}

#[test]
fn whole_word_skips_matches_inside_words() {
    let mut req = request("cat", "*.*");
    req.match_by_word = true;
    let results = search_one(&req, b"concatenate cat");
    assert_eq!(results.len(), 1);
    assert_eq!(results[0].ranges(), &vec![(12, 15)]);
}

#[test]
fn without_whole_word_matches_inside_words_count() {
    let results = search_one(&request("cat", "*.*"), b"concatenate cat");
    assert_eq!(results.len(), 1);
    assert_eq!(results[0].ranges(), &vec![(3, 6), (12, 15)]);
}

#[test]
fn invalid_regex_fails_with_pattern_error_and_no_progress() {
    let mut req = request("(unclosed", "*.*");
    req.regexp = true;
    let entries = vec![regular_file("/work", "a.txt")];
    let store = vec![stored("/work", "a.txt", b"(unclosed\n")];
    let token = CancelToken::new();
    let mut progress: Vec<GrepProgress> = Vec::new();
    let outcome = run_grep(&req, &entries, &store, &token, &mut progress);
    match outcome {
        Err(SearchError::Pattern(reason)) => assert!(!reason.is_empty()),
        other => panic!("expected a pattern error, got {:?}", other.map(|r| r.len())),
    }
    assert!(progress.is_empty());
}

#[test]
fn invalid_regex_fails_even_without_files() {
    let mut req = request("(unclosed", "*.*");
    req.regexp = true;
    let token = CancelToken::new();
    let mut progress: Vec<GrepProgress> = Vec::new();
    let outcome = run_grep(&req, &Vec::new(), &Vec::new(), &token, &mut progress);
    assert!(matches!(outcome, Err(SearchError::Pattern(_))));
    assert!(progress.is_empty());
}

#[test]
fn text_that_is_no_regex_is_found_literally() {
    let results = search_one(&request("(unclosed", "*.*"), b"an (unclosed bracket\n");
    assert_eq!(results.len(), 1);
    assert_eq!(results[0].ranges(), &vec![(3, 12)]);
}

#[test]
fn regex_mode_reads_the_condition_as_expression() {
    let mut req = request("b[aeiou]t", "*.*");
    req.regexp = true;
    let results = search_one(&req, b"bat bit b.t\nnone\nbut\n");
    assert_eq!(
        summary(&results),
        vec![
            ("/work/a.txt".to_string(), 1, "bat bit b.t\n".to_string(), vec![(0, 3), (4, 7)]),
            ("/work/a.txt".to_string(), 3, "but\n".to_string(), vec![(0, 3)]),
        ]
    );
}

#[test]
fn literal_mode_does_not_read_metacharacters() {
    let results = search_one(&request("b.t", "*.*"), b"bat bit b.t\n");
    assert_eq!(results.len(), 1);
    assert_eq!(results[0].ranges(), &vec![(8, 11)]);
}

#[test]
fn invalid_glob_fails_with_glob_error() {
    let req = request("foo", "[");
    let entries = vec![regular_file("/work", "a.txt")];
    let store = vec![stored("/work", "a.txt", b"foo\n")];
    let token = CancelToken::new();
    let mut progress: Vec<GrepProgress> = Vec::new();
    let outcome = run_grep(&req, &entries, &store, &token, &mut progress);
    assert!(matches!(outcome, Err(SearchError::Glob(_))));
    assert!(progress.is_empty());
    assert!(matches!(enumerate(&entries, "["), Err(SearchError::Glob(_))));
}

#[test]
fn invalid_glob_is_reported_before_invalid_pattern() {
    let mut req = request("(unclosed", "[");
    req.regexp = true;
    let token = CancelToken::new();
    assert!(matches!(SearchPlan::prepare(&req, &token), Err(SearchError::Glob(_))));
}

#[test]
fn match_all_keeps_every_regular_file_and_nothing_else() {
    let mut link = regular_file("/work", "link.txt");
    link.attributes.is_symbolic_link = true;
    let mut dir = regular_file("/work", "sub");
    dir.attributes.is_directory = true;
    let mut device = regular_file("/work", "tty");
    device.attributes.is_device = true;
    let mut system = regular_file("/work", "pagefile.sys");
    system.attributes.is_system = true;
    let entries = vec![
        regular_file("/work", "a.txt"),
        link,
        regular_file("/work", "noextension"),
        dir,
        device,
        regular_file("/work", "b.rs"),
        system,
    ];
    let files = enumerate(&entries, "*.*").unwrap();
    let names: Vec<&str> = files.iter().map(|f| f.name.as_str()).collect();
    assert_eq!(names, vec!["a.txt", "noextension", "b.rs"]);
    let paths: Vec<&str> = files.iter().map(|f| f.full_path.as_str()).collect();
    assert_eq!(paths, vec!["/work/a.txt", "/work/noextension", "/work/b.rs"]);
}

#[test]
fn glob_filter_keeps_matching_names_only() {
    let mut dir = regular_file("/work", "dir.txt");
    dir.attributes.is_directory = true;
    let entries = vec![
        regular_file("/work", "a.txt"),
        regular_file("/work", "noextension"),
        dir,
        regular_file("/work", "b.rs"),
        regular_file("/work", "c.txt"),
    ];
    let files = enumerate(&entries, "*.txt").unwrap();
    let names: Vec<&str> = files.iter().map(|f| f.name.as_str()).collect();
    assert_eq!(names, vec!["a.txt", "c.txt"]);
}

#[test]
fn a_glob_differs_from_the_match_all_filter() {
    // As a glob, `*.*` asks for a dot in the name; as the filter it asks for nothing.
    let all = NameFilter::compile("*.*").unwrap();
    assert!(all.passes("noextension"));
    let dotted = NameFilter::compile("*.?*").unwrap();
    assert!(!dotted.passes("noextension"));
    assert!(dotted.passes("a.txt"));
    assert!(is_match_all("*.*"));
    assert!(!is_match_all("*.txt"));
    assert!(!is_match_all("*"));
}

#[test]
fn no_candidates_is_an_empty_result_not_an_error() {
    let entries = vec![regular_file("/work", "a.rs")];
    assert!(enumerate(&entries, "*.txt").unwrap().is_empty());
    let token = CancelToken::new();
    let mut progress: Vec<GrepProgress> = Vec::new();
    let results = run_grep(&request("foo", "*.txt"), &entries, &Vec::new(), &token, &mut progress).unwrap();
    assert!(results.is_empty());
    assert!(progress.is_empty());
}

fn three_files() -> (Vec<DirEntry>, Vec<StoredFile>) {
    let entries = vec![
        regular_file("/work", "one.txt"),
        regular_file("/work", "two.txt"),
        regular_file("/work", "three.txt"),
    ];
    let store = vec![
        stored("/work", "three.txt", b"x\ny\nneedle needle\n"),
        stored("/work", "one.txt", b"needle\nnothing\nneedle again\n"),
        stored("/work", "two.txt", b"nothing here\n"),
    ];
    (entries, store)
}

#[test]
fn progress_counts_every_file_once_in_order() {
    let (entries, store) = three_files();
    let token = CancelToken::new();
    let mut progress: Vec<GrepProgress> = Vec::new();
    run_grep(&request("needle", "*.*"), &entries, &store, &token, &mut progress).unwrap();
    let seen: Vec<(&str, usize, usize)> =
        progress.iter().map(|p| (p.processing.as_str(), p.current, p.total)).collect();
    assert_eq!(seen, vec![("/work/one.txt", 1, 3), ("/work/two.txt", 2, 3), ("/work/three.txt", 3, 3)]);
}

#[test]
fn progress_is_added_behind_what_the_sink_holds() {
    let (entries, store) = three_files();
    let token = CancelToken::new();
    let mut progress = vec![GrepProgress { processing: "earlier".to_string(), current: 7, total: 9 }];
    run_grep(&request("needle", "*.*"), &entries, &store, &token, &mut progress).unwrap();
    assert_eq!(progress.len(), 4);
    assert_eq!(progress[0].processing, "earlier");
    assert_eq!(progress[1].current, 1);
}

#[test]
fn results_come_in_file_order_then_line_order() {
    let (entries, store) = three_files();
    let token = CancelToken::new();
    let mut progress: Vec<GrepProgress> = Vec::new();
    let results = run_grep(&request("needle", "*.*"), &entries, &store, &token, &mut progress).unwrap();
    assert_eq!(
        summary(&results),
        vec![
            ("/work/one.txt".to_string(), 1, "needle\n".to_string(), vec![(0, 6)]),
            ("/work/one.txt".to_string(), 3, "needle again\n".to_string(), vec![(0, 6)]),
            ("/work/three.txt".to_string(), 3, "needle needle\n".to_string(), vec![(0, 6), (7, 13)]),
        ]
    );
}

#[test]
fn running_twice_gives_the_same_records() {
    let (entries, store) = three_files();
    let token = CancelToken::new();
    let mut first_progress: Vec<GrepProgress> = Vec::new();
    let mut second_progress: Vec<GrepProgress> = Vec::new();
    let req = request("needle", "*.*");
    let first = run_grep(&req, &entries, &store, &token, &mut first_progress).unwrap();
    let second = run_grep(&req, &entries, &store, &token, &mut second_progress).unwrap();
    assert_eq!(summary(&first), summary(&second));
    assert_eq!(first_progress.len(), second_progress.len());
}

#[test]
fn a_cancellation_before_the_start_is_forgotten() {
    let (entries, store) = three_files();
    let token = CancelToken::new();
    cancel(&token);
    assert!(token.is_cancelled());
    let mut progress: Vec<GrepProgress> = Vec::new();
    let results = run_grep(&request("needle", "*.*"), &entries, &store, &token, &mut progress).unwrap();
    assert!(!token.is_cancelled());
    assert_eq!(results.len(), 3);
    assert_eq!(progress.len(), 3);
}

#[test]
fn a_cancellation_after_the_start_stops_before_the_first_file() {
    let (entries, _) = three_files();
    let token = CancelToken::new();
    let plan = SearchPlan::prepare(&request("needle", "*.*"), &token).unwrap();
    let mut search = plan.start(&entries);
    assert_eq!(search.phase(), Phase::Running);
    assert_eq!(search.total(), 3);
    let other_handle = token.clone();
    cancel(&other_handle);
    assert!(matches!(search.next(&token), Step::Done));
    assert_eq!(search.phase(), Phase::Cancelled);
    assert_eq!(search.scanned(), 0);
    assert!(search.finish().is_empty());
}

#[test]
fn cancel_without_a_search_is_harmless() {
    let token = CancelToken::new();
    assert!(!token.is_cancelled());
    cancel(&token);
    cancel(&token);
    assert!(token.is_cancelled());
    token.reset();
    assert!(!token.is_cancelled());
}

#[test]
fn a_cancelled_search_gives_a_prefix_of_the_full_result() {
    let (entries, store) = three_files();
    let token = CancelToken::new();
    let req = request("needle", "*.*");
    let mut progress: Vec<GrepProgress> = Vec::new();
    let full = run_grep(&req, &entries, &store, &token, &mut progress).unwrap();

    for stop_before in 0..=3usize {
        let plan = SearchPlan::prepare(&req, &token).unwrap();
        let mut search = plan.start(&entries);
        let mut sent = 0;
        loop {
            let cancelled = search.scanned() == stop_before;
            match search.advance(cancelled) {
                Step::Scan(notice) => {
                    sent += 1;
                    assert_eq!(notice.current, sent);
                    let at = find_stored(&store, &notice.processing).unwrap();
                    search.feed(&store[at].content).unwrap();
                }
                Step::Done => break,
            }
        }
        assert_eq!(sent, stop_before);
        let expected_phase = if stop_before == 3 { Phase::Completed } else { Phase::Cancelled };
        assert_eq!(search.phase(), expected_phase);
        let partial = summary(&search.finish());
        assert!(partial.len() <= full.len());
        assert_eq!(partial, summary(&full)[..partial.len()].to_vec());
        if stop_before == 0 {
            assert!(partial.is_empty());
        }
    }
}

#[test]
fn a_finished_search_stays_finished() {
    let entries = vec![regular_file("/work", "a.txt")];
    let token = CancelToken::new();
    let plan = SearchPlan::prepare(&request("x", "*.*"), &token).unwrap();
    let mut search = plan.start(&entries);
    assert!(matches!(search.advance(false), Step::Scan(_)));
    // Asking again before the file is fed announces the same file.
    match search.advance(false) {
        Step::Scan(notice) => assert_eq!((notice.processing.as_str(), notice.current, notice.total), ("/work/a.txt", 1, 1)),
        Step::Done => panic!("the file is still awaited"),
    }
    search.feed(b"x\n").unwrap();
    // After the last file the search completes, whatever the flag says.
    assert!(matches!(search.advance(true), Step::Done));
    assert_eq!(search.phase(), Phase::Completed);
    assert!(matches!(search.advance(false), Step::Done));
    assert_eq!(search.phase(), Phase::Completed);
    // Bytes that are not awaited change nothing.
    search.feed(b"x x x\n").unwrap();
    let results = search.finish();
    assert_eq!(results.len(), 1);
    assert_eq!(results[0].ranges(), &vec![(0, 1)]);
}

#[test]
fn a_file_missing_from_the_store_fails_the_search() {
    let (entries, mut store) = three_files();
    store.remove(2);
    let token = CancelToken::new();
    let mut progress: Vec<GrepProgress> = Vec::new();
    let outcome = run_grep(&request("needle", "*.*"), &entries, &store, &token, &mut progress);
    assert!(matches!(outcome, Err(SearchError::Io(_))));
    // The notice for the failing file was sent before it was read.
    assert_eq!(progress.len(), 2);
}

#[test]
fn abort_fails_the_search_and_keeps_no_record() {
    let (entries, store) = three_files();
    let token = CancelToken::new();
    let plan = SearchPlan::prepare(&request("needle", "*.*"), &token).unwrap();
    let mut search = plan.start(&entries);
    assert!(matches!(search.advance(false), Step::Scan(_)));
    search.feed(&store[1].content).unwrap();
    assert!(matches!(search.advance(false), Step::Scan(_)));
    let fault = search.abort("permission denied");
    assert!(matches!(&fault, SearchError::Io(reason) if reason == "permission denied"));
    assert_eq!(fault.message(), "permission denied");
    assert_eq!(search.phase(), Phase::Failed);
    assert!(matches!(search.advance(false), Step::Done));
    assert!(search.finish().is_empty());
}

#[test]
fn the_same_path_twice_adds_ranges_to_one_record() {
    // A listing that names one file twice: the second scan adds its ranges
    // to the records of the first, so stopping between the two does not give
    // a prefix of the full result.
    let entries = vec![regular_file("/work", "a.txt"), regular_file("/work", "a.txt")];
    let store = vec![stored("/work", "a.txt", b"needle\n")];
    let token = CancelToken::new();
    let mut progress: Vec<GrepProgress> = Vec::new();
    let results = run_grep(&request("needle", "*.*"), &entries, &store, &token, &mut progress).unwrap();
    assert_eq!(
        summary(&results),
        vec![("/work/a.txt".to_string(), 1, "needle\n".to_string(), vec![(0, 6), (0, 6)])]
    );
    assert_eq!(progress.len(), 2);
}

#[test]
fn aggregate_appends_to_a_known_line_and_adds_a_new_one_last() {
    let mut records = Aggregator::new();
    assert_eq!(records.len(), 0);
    records.aggregate("/a", 12, "first text", vec![(1, 2)]);
    records.aggregate("/a1", 2, "other file", vec![(3, 4)]);
    records.aggregate("/a", 12, "ignored text", vec![(5, 6), (7, 8)]);
    assert_eq!(records.len(), 2);
    assert_eq!(records.position("/a", 12), 0);
    assert_eq!(records.position("/a1", 2), 1);
    // "/a" with line 12 and "/a1" with line 2 would share a key if path and
    // number were written one behind the other.
    assert_eq!(records.position("/a", 2), 2);
    assert_eq!(
        summary(&records.into_results()),
        vec![
            ("/a".to_string(), 12, "first text".to_string(), vec![(1, 2), (5, 6), (7, 8)]),
            ("/a1".to_string(), 2, "other file".to_string(), vec![(3, 4)]),
        ]
    );
}

#[test]
fn result_records_can_be_built_and_read() {
    let result = GrepResult::new("/p".to_string(), 4, "text".to_string(), vec![(0, 1)]);
    assert_eq!(result.full_path(), "/p");
    assert_eq!(result.line_number(), 4);
    assert_eq!(result.line(), "text");
    assert_eq!(result.ranges(), &vec![(0, 1)]);
    let empty = GrepResult::default();
    assert_eq!(empty.full_path(), "");
    assert_eq!(empty.line_number(), 0);
    assert_eq!(empty.line(), "");
    assert!(empty.ranges().is_empty());
}

#[test]
fn scan_numbers_lines_from_one_and_skips_lines_without_match() {
    let matcher = LineMatcher::compile("ab", true, false, false).unwrap();
    let hits = scan(&matcher, b"zz\nab ab\n\nxaby\nlast ab").unwrap();
    let seen: Vec<(u64, &str, Vec<(usize, usize)>)> =
        hits.iter().map(|h| (h.line_number, h.line.as_str(), h.ranges.clone())).collect();
    assert_eq!(
        seen,
        vec![(2, "ab ab\n", vec![(0, 2), (3, 5)]), (4, "xaby\n", vec![(1, 3)]), (5, "last ab", vec![(5, 7)])]
    );
}

#[test]
fn scan_of_an_empty_file_finds_nothing() {
    let matcher = LineMatcher::compile("ab", true, false, false).unwrap();
    assert!(scan(&matcher, b"").unwrap().is_empty());
}

#[test]
fn bytes_that_are_not_utf8_are_replaced_in_the_line() {
    let matcher = LineMatcher::compile("ab", true, false, false).unwrap();
    let hits = scan(&matcher, b"\xff ab\n").unwrap();
    assert_eq!(hits.len(), 1);
    assert_eq!(hits[0].line, "\u{fffd} ab\n");
    // The replacement character takes three bytes, and the ranges are those
    // of the text shown.
    assert_eq!(hits[0].ranges, vec![(4, 6)]);
}

#[test]
fn find_all_gives_ranges_in_order_without_overlap() {
    let matcher = LineMatcher::compile("aa", true, false, false).unwrap();
    assert_eq!(matcher.find_all(b"aaaaa aa"), vec![(0, 2), (2, 4), (6, 8)]);
    assert!(matcher.find_all(b"bbb").is_empty());
    assert!(matcher.find_all(b"").is_empty());
}

#[test]
fn compile_rejects_a_broken_expression_only_in_regex_mode() {
    assert!(matches!(LineMatcher::compile("a(", true, false, true), Err(SearchError::Pattern(_))));
    assert!(LineMatcher::compile("a(", true, false, false).is_ok());
}

fn in_order(ranges: &[(usize, usize)], len: usize) -> bool {
    ranges.iter().all(|r| r.0 <= r.1 && r.1 <= len) && ranges.windows(2).all(|w| w[0].1 <= w[1].0)
}

#[test]
fn ranges_lie_inside_the_haystack_in_order_even_when_empty() {
    let cases: [(&str, &[u8]); 6] = [
        ("a*", b"baaa"),
        ("x*", b"ab"),
        ("", b"abc"),
        ("\\b", b"one two"),
        ("[a-z]+|\\s*", b"ab  cd"),
        (".", "grüße".as_bytes()),
    ];
    for (pattern, haystack) in cases {
        let matcher = LineMatcher::compile(pattern, true, false, true).unwrap();
        let ranges = matcher.find_all(haystack);
        assert!(!ranges.is_empty(), "{:?} on {:?}", pattern, haystack);
        assert!(in_order(&ranges, haystack.len()), "{:?} on {:?}: {:?}", pattern, haystack, ranges);
    }
    let star = LineMatcher::compile("a*", true, false, true).unwrap();
    assert_eq!(star.find_all(b"baaa"), vec![(0, 0), (1, 4)]);
}

#[test]
fn line_numbers_grow_along_the_file() {
    let matcher = LineMatcher::compile("e", true, false, false).unwrap();
    let lines = matcher.find_lines(b"one\r\ntwo\r\nthree\r\n\r\nfive\nsix\nseven").unwrap();
    let numbers: Vec<u64> = lines.iter().map(|l| l.line_number).collect();
    assert_eq!(numbers, vec![1, 3, 5, 7]);
    let texts: Vec<&str> = lines.iter().map(|l| l.line.as_str()).collect();
    assert_eq!(texts, vec!["one\r\n", "three\r\n", "five\n", "seven"]);
    assert!(numbers[0] >= 1 && numbers.windows(2).all(|w| w[0] < w[1]));
}

#[test]
fn a_byte_order_mark_makes_the_searcher_decode_the_file() {
    let mut bytes: Vec<u8> = vec![0xff, 0xfe];
    for unit in "a needle\nnone\n".encode_utf16() {
        bytes.extend_from_slice(&unit.to_le_bytes());
    }
    let matcher = LineMatcher::compile("needle", true, false, false).unwrap();
    let hits = scan(&matcher, &bytes).unwrap();
    assert_eq!(hits.len(), 1);
    assert_eq!(hits[0].line_number, 1);
    assert_eq!(hits[0].line, "a needle\n");
    assert_eq!(hits[0].ranges, vec![(2, 8)]);
}

#[test]
fn a_match_is_looked_for_within_one_line() {
    let mut req = request("one\\s+two", "*.*");
    req.regexp = true;
    let results = search_one(&req, b"one\ntwo\none  two\n");
    assert_eq!(summary(&results), vec![("/work/a.txt".to_string(), 3, "one  two\n".to_string(), vec![(0, 8)])]);
}

#[test]
fn many_lines_keep_one_record_each() {
    let mut content = Vec::new();
    for i in 0..2000 {
        content.extend_from_slice(format!("line {} needle\n", i).as_bytes());
    }
    let results = search_one(&request("needle", "*.*"), &content);
    assert_eq!(results.len(), 2000);
    for (i, result) in results.iter().enumerate() {
        assert_eq!(result.line_number(), i as u64 + 1);
        assert_eq!(result.ranges().len(), 1);
    }
}

fn nested_braces(depth: usize) -> String {
    format!("{}a{}", "{".repeat(depth), "}".repeat(depth))
}

#[test]
fn a_glob_that_nests_too_deep_is_an_error_not_a_crash() {
    let shallow = NameFilter::compile(&nested_braces(20)).unwrap();
    assert!(shallow.passes("a"));
    assert!(!shallow.passes("b"));
    let deep = nested_braces(400);
    assert!(deep.len() <= MAX_FILTER_LEN);
    assert!(matches!(NameFilter::compile(&deep), Err(SearchError::Glob(_))));
    let entries = vec![regular_file("/work", "a")];
    assert!(matches!(enumerate(&entries, &deep), Err(SearchError::Glob(_))));
}

#[test]
fn a_filter_that_is_too_long_is_refused() {
    let longest = format!("*.{}", "x".repeat(MAX_FILTER_LEN - 2));
    assert_eq!(longest.len(), MAX_FILTER_LEN);
    let filter = NameFilter::compile(&longest).unwrap();
    assert!(filter.passes(&format!("name.{}", "x".repeat(MAX_FILTER_LEN - 2))));
    assert!(!filter.passes("name.x"));
    let too_long = format!("*.{}", "x".repeat(MAX_FILTER_LEN - 1));
    match NameFilter::compile(&too_long) {
        Err(SearchError::Glob(reason)) => assert_eq!(reason, "the name filter is too long"),
        _ => panic!("expected a glob error"),
    }
    // The length counts bytes, not characters.
    let wide = "é".repeat(MAX_FILTER_LEN / 2 + 1);
    assert!(matches!(NameFilter::compile(&wide), Err(SearchError::Glob(_))));
    let token = CancelToken::new();
    let req = request("foo", &too_long);
    assert!(matches!(SearchPlan::prepare(&req, &token), Err(SearchError::Glob(_))));
}

#[test]
fn globs_match_as_a_glob_matcher_does() {
    let cases: [(&str, &str, bool); 12] = [
        ("*.txt", "a.txt", true),
        ("*.txt", "a.b.txt", true),
        ("*.txt", "a.txt.bak", false),
        ("*.txt", ".txt", true),
        ("*.{rs,toml}", "Cargo.toml", true),
        ("*.{rs,toml}", "Cargo.lock", false),
        ("read*", "readme.md", true),
        ("read*", "unread", false),
        ("readme.md", "readme.md", true),
        ("readme.md", "README.md", false),
        ("?.c", "a.c", true),
        ("[a-c]*.h", "d.h", false),
    ];
    for (glob, name, expected) in cases {
        let filter = NameFilter::compile(glob).unwrap();
        assert_eq!(filter.passes(name), expected, "{:?} on {:?}", glob, name);
        let single = globset::Glob::new(glob).unwrap().compile_matcher();
        assert_eq!(filter.passes(name), single.is_match(name), "{:?} on {:?}", glob, name);
    }
}

#[test]
fn readings_fix_where_a_run_stops() {
    let (entries, store) = three_files();
    let req = request("needle", "*.*");
    let mut all_progress: Vec<GrepProgress> = Vec::new();
    let full = run_grep_with_readings(&req, &entries, &store, &Vec::new(), &mut all_progress).unwrap();
    assert_eq!(full.len(), 3);
    assert_eq!(all_progress.len(), 3);

    let expected: [(Vec<bool>, usize, usize); 6] = [
        (vec![true], 0, 0),
        (vec![false, true], 1, 2),
        (vec![false, false, true], 2, 2),
        (vec![false, false, false], 3, 3),
        // After the last file nothing is read any more.
        (vec![false, false, false, true], 3, 3),
        (vec![true, false, false], 0, 0),
    ];
    for (readings, sent, records) in expected {
        let mut progress: Vec<GrepProgress> = Vec::new();
        let results = run_grep_with_readings(&req, &entries, &store, &readings, &mut progress).unwrap();
        assert_eq!(progress.len(), sent, "{:?}", readings);
        assert_eq!(results.len(), records, "{:?}", readings);
        assert_eq!(summary(&results), summary(&full)[..records].to_vec());
        let currents: Vec<usize> = progress.iter().map(|p| p.current).collect();
        assert_eq!(currents, (1..=sent).collect::<Vec<usize>>());
        assert!(progress.iter().all(|p| p.total == 3));
    }
}

#[test]
fn a_run_with_readings_fails_as_a_run_with_a_flag_does() {
    let (entries, mut store) = three_files();
    store.remove(2);
    let req = request("needle", "*.*");
    let mut progress: Vec<GrepProgress> = Vec::new();
    let outcome = run_grep_with_readings(&req, &entries, &store, &Vec::new(), &mut progress);
    assert!(matches!(outcome, Err(SearchError::Io(_))));
    assert_eq!(progress.len(), 2);
    // A raised reading before the file that would fail stops the run first.
    let mut progress: Vec<GrepProgress> = Vec::new();
    let outcome = run_grep_with_readings(&req, &entries, &store, &vec![false, true], &mut progress);
    assert_eq!(outcome.unwrap().len(), 2);
    assert_eq!(progress.len(), 1);

    let mut bad = request("(unclosed", "*.*");
    bad.regexp = true;
    let mut progress: Vec<GrepProgress> = Vec::new();
    assert!(matches!(
        run_grep_with_readings(&bad, &entries, &store, &Vec::new(), &mut progress),
        Err(SearchError::Pattern(_))
    ));
    assert!(matches!(
        run_grep_with_readings(&request("x", "["), &entries, &store, &Vec::new(), &mut progress),
        Err(SearchError::Glob(_))
    ));
    assert!(progress.is_empty());
}

#[test]
fn compile_leaves_the_flag_alone_and_prepare_lowers_it() {
    let token = CancelToken::new();
    cancel(&token);
    let plan = SearchPlan::compile(&request("x", "*.*")).unwrap();
    assert!(token.is_cancelled());
    let mut search = plan.start(&vec![regular_file("/work", "a.txt")]);
    assert!(matches!(search.next(&token), Step::Done));
    assert_eq!(search.phase(), Phase::Cancelled);
    SearchPlan::prepare(&request("x", "*.*"), &token).unwrap();
    assert!(!token.is_cancelled());
}

#[test]
fn feed_from_reads_the_awaited_file_from_the_store() {
    let (entries, store) = three_files();
    let plan = SearchPlan::compile(&request("needle", "*.*")).unwrap();
    let mut search = plan.start(&entries);
    // The first file is awaited from the start.
    search.feed_from(&store).unwrap();
    assert_eq!(search.scanned(), 1);
    search.feed_from(&store).unwrap();
    search.feed_from(&store).unwrap();
    assert_eq!(search.scanned(), 3);
    // No file is left: nothing changes.
    search.feed_from(&store).unwrap();
    assert_eq!(search.scanned(), 3);
    assert_eq!(search.phase(), Phase::Running);
    assert_eq!(search.finish().len(), 3);

    let plan = SearchPlan::compile(&request("needle", "*.*")).unwrap();
    let mut search = plan.start(&entries);
    assert!(matches!(search.feed_from(&Vec::new()), Err(SearchError::Io(_))));
    assert_eq!(search.phase(), Phase::Failed);
}
