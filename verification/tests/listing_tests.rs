use hal::grep::{find_ranges, grep_file, grep_lines, regex_problem, tool_grep};
use hal::listing::{
    directory_allows, file_name, file_pattern, hidden_entry, matches_pattern, pattern_verdict,
    tool_list_dir, tool_search_files, DirEntry,
};
use hal::sorting::sort_strings;

fn entry(name: &str, is_dir: bool) -> DirEntry {
    DirEntry { name: name.to_string(), is_dir }
}

#[test]
fn listing_is_sorted_and_marks_directories() {
    let listing = Ok(vec![entry("src", true), entry("b.txt", false), entry("Cargo.toml", false)]);
    assert_eq!(tool_list_dir(&listing), "Cargo.toml\nb.txt\nsrc/");
    assert_eq!(tool_list_dir(&Ok(vec![])), "");
    assert_eq!(
        tool_list_dir(&Err("not a directory".to_string())),
        "Error listing directory: not a directory"
    );
}

#[test]
fn sorting_is_by_characters() {
    let mut v: Vec<String> = ["b", "a", "B", "ab", "", "é", "a/"].iter().map(|s| s.to_string()).collect();
    sort_strings(&mut v);
    assert_eq!(v, vec!["", "B", "a", "a/", "ab", "b", "é"]);
}

#[test]
fn file_names_are_what_std_says() {
    for p in ["", "/", "a", "a/b.rs", "a/b/", "a/.", "a/..", "..", ".", "./x.txt", "/x/y/z", ".hid"] {
        let expected = std::path::Path::new(p)
            .file_name()
            .and_then(|n| n.to_str())
            .unwrap_or("")
            .to_string();
        assert_eq!(file_name(p), expected, "{:?}", p);
    }
}

#[test]
fn hidden_entries_begin_with_a_dot() {
    assert!(hidden_entry(".git"));
    assert!(hidden_entry("."));
    assert!(!hidden_entry("src"));
    assert!(!hidden_entry(""));
}

#[test]
fn patterns_are_parted_at_the_last_slash() {
    assert_eq!(file_pattern("*.rs"), "*.rs");
    assert_eq!(file_pattern("src/*.rs"), "*.rs");
    assert_eq!(file_pattern("**/*.json"), "*.json");
    assert_eq!(file_pattern("a/b/"), "");
    assert!(directory_allows("./src/main.rs", "*.rs"));
    assert!(directory_allows("./src/main.rs", "**/*.rs"));
    assert!(directory_allows("./src/main.rs", "src/**/*.rs"));
    assert!(directory_allows("./src/main.rs", "/main.rs"));
    assert!(directory_allows("./src/main.rs", "src/*.rs"));
    assert!(!directory_allows("./lib/main.rs", "src/*.rs"));
    assert!(pattern_verdict("./src/a.rs", "src/*.rs", true));
    assert!(!pattern_verdict("./src/a.rs", "src/*.rs", false));
    assert!(!pattern_verdict("./lib/a.rs", "src/*.rs", true));
}

#[test]
fn names_are_matched_by_glob() {
    assert!(matches_pattern("./src/main.rs", "*.rs"));
    assert!(!matches_pattern("./src/main.rs", "*.toml"));
    assert!(matches_pattern("./src/main.rs", "src/*.rs"));
    assert!(!matches_pattern("./lib/main.rs", "src/*.rs"));
    assert!(matches_pattern("./a/b/c.json", "**/*.json"));
    assert!(matches_pattern("./src/main.rs", "ma?n.rs"));
    assert!(matches_pattern("./src/main.rs", "[m]ain.rs"));
    // A pattern that is no glob matches nothing.
    assert!(!matches_pattern("./src/main.rs", "[main.rs"));
    // A name is not a pattern: the two do not swap places.
    assert!(!matches_pattern("./src/*.rs", "main.rs"));
}

#[test]
fn search_results_are_listed() {
    assert_eq!(tool_search_files(&vec![]), "No files found");
    assert_eq!(tool_search_files(&vec!["./a".to_string(), "./b".to_string()]), "./a\n./b");
}

fn lines(s: &[&str]) -> Vec<Vec<char>> {
    s.iter().map(|l| l.chars().collect()).collect()
}

#[test]
fn ranges_around_matches_are_joined() {
    let hits = vec![false, false, true, false, false, false, false, false, true, true, false];
    assert_eq!(find_ranges(&hits, 0), vec![(2, 3), (8, 10)]);
    assert_eq!(find_ranges(&hits, 1), vec![(1, 4), (7, 11)]);
    assert_eq!(find_ranges(&hits, 2), vec![(0, 5), (6, 11)]);
    assert_eq!(find_ranges(&hits, 3), vec![(0, 11)]);
    assert_eq!(find_ranges(&hits, u64::MAX), vec![(0, 11)]);
    assert_eq!(find_ranges(&vec![false, false], 2), vec![]);
    assert_eq!(find_ranges(&vec![], 2), vec![]);
    // Ranges that touch are joined too.
    assert_eq!(find_ranges(&vec![true, false, false, true], 1), vec![(0, 4)]);
}

#[test]
fn shown_lines_are_tagged() {
    let mut results = vec!["before".to_string()];
    grep_lines(
        &mut results,
        "f.rs",
        &lines(&["a", "b", "fn x", "c", "d", "e"]),
        &vec![false, false, true, false, false, false],
        1,
    );
    assert_eq!(results, vec!["before", "f.rs:2-  b", "f.rs:3:  fn x", "f.rs:4-  c", "--"]);
    let mut results = vec![];
    grep_lines(&mut results, "f", &lines(&["x", "y"]), &vec![true, true], 0);
    assert_eq!(results, vec!["f:1:  x", "f:2:  y"]);
}

#[test]
fn files_are_searched_with_a_regular_expression() {
    let mut results = vec![];
    let content = "use a;\nfn one() {}\nlet x = 1;\nfn two() {}\n";
    assert_eq!(grep_file("m.rs", content, "^fn \\w+", 0, &mut results), Ok(()));
    assert_eq!(results, vec!["m.rs:2:  fn one() {}", "m.rs:4:  fn two() {}"]);
    let mut results = vec![];
    assert_eq!(grep_file("m.rs", content, "one", 2, &mut results), Ok(()));
    assert_eq!(
        results,
        vec!["m.rs:1-  use a;", "m.rs:2:  fn one() {}", "m.rs:3-  let x = 1;", "m.rs:4-  fn two() {}", "--"]
    );
    let mut results = vec![];
    // The pattern is a regular expression, not a text to find.
    assert_eq!(grep_file("m.rs", "a.c\nabc\n", "a.c", 0, &mut results), Ok(()));
    assert_eq!(results, vec!["m.rs:1:  a.c", "m.rs:2:  abc"]);
    let mut results = vec!["kept".to_string()];
    assert!(grep_file("m.rs", content, "(", 0, &mut results).is_err());
    assert_eq!(results, vec!["kept"]);
}

#[test]
fn a_bad_pattern_is_reported() {
    assert_eq!(regex_problem("a+"), None);
    let problem = regex_problem("(");
    assert!(problem.is_some());
    assert_eq!(
        tool_grep("(", &problem, &vec![]),
        format!("Error: invalid regex: {}", problem.clone().unwrap())
    );
}

#[test]
fn search_results_get_a_header() {
    assert_eq!(tool_grep("fn", &None, &vec![]), "grep 'fn': no matches");
    assert_eq!(
        tool_grep("fn", &None, &vec!["a:1:  fn".to_string(), "--".to_string()]),
        "grep 'fn':\na:1:  fn\n--"
    );
}
