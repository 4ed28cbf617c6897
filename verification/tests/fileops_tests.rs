use hal::diff::{format_changes, format_diff, format_diff_with_context, format_hunks, ChangeTag, DiffLine};
use hal::fileops::{
    apply_edit, apply_write, edit_update, preview_edit_file, preview_write_file, select_lines,
    tool_edit_file, tool_read_file, tool_write_file, WriteOutcome,
};

fn ok(s: &str) -> Result<String, String> {
    Ok(s.to_string())
}

#[test]
fn whole_file_is_given_back_without_bounds() {
    assert_eq!(tool_read_file(&ok("a\nb\n"), None, None), "a\nb\n");
    assert_eq!(tool_read_file(&ok(""), None, None), "");
}

#[test]
fn a_range_is_numbered_from_one() {
    let content = "one\ntwo\nthree\nfour\n";
    assert_eq!(tool_read_file(&ok(content), Some(2), Some(3)), "2: two\n3: three");
    assert_eq!(tool_read_file(&ok(content), Some(3), None), "3: three\n4: four");
    assert_eq!(tool_read_file(&ok(content), None, Some(2)), "1: one\n2: two");
    assert_eq!(tool_read_file(&ok(content), Some(0), Some(1)), "1: one");
    assert_eq!(tool_read_file(&ok(content), Some(4), Some(100)), "4: four");
    assert_eq!(tool_read_file(&ok(content), None, Some(0)), "");
}

#[test]
fn a_start_beyond_the_end_is_an_error() {
    let content = "one\ntwo\n";
    assert_eq!(
        tool_read_file(&ok(content), Some(3), None),
        "Error: start_line 3 exceeds file length (2)"
    );
    assert_eq!(
        tool_read_file(&ok(content), Some(9), Some(10)),
        "Error: start_line 9 exceeds file length (2)"
    );
    assert_eq!(tool_read_file(&ok(""), Some(1), None), "Error: start_line 1 exceeds file length (0)");
    assert_eq!(
        select_lines(content, Some(u64::MAX), None),
        format!("Error: start_line {} exceeds file length (2)", u64::MAX)
    );
}

#[test]
fn a_range_that_ends_before_it_starts_selects_nothing() {
    assert_eq!(tool_read_file(&ok("a\nb\nc\n"), Some(3), Some(1)), "");
}

#[test]
fn a_file_that_cannot_be_read_is_an_error() {
    assert_eq!(
        tool_read_file(&Err("No such file".to_string()), Some(1), None),
        "Error reading file: No such file"
    );
}

#[test]
fn edit_replaces_the_one_occurrence() {
    assert_eq!(apply_edit("f.rs", "let a = 1;", "1", "2"), Ok("let a = 2;".to_string()));
    assert_eq!(apply_edit("f.rs", "abc", "abc", ""), Ok("".to_string()));
}

#[test]
fn edit_fails_when_the_text_is_not_found() {
    assert_eq!(
        apply_edit("f.rs", "let a = 1;", "b", "c"),
        Err("Error: text not found in f.rs".to_string())
    );
    assert_eq!(apply_edit("f.rs", "", "b", "c"), Err("Error: text not found in f.rs".to_string()));
}

#[test]
fn edit_fails_when_the_text_appears_twice() {
    assert_eq!(
        apply_edit("src/main.rs", "old and old", "old", "new"),
        Err("Error: text appears 2 times in src/main.rs - be more specific".to_string())
    );
    assert_eq!(
        apply_edit("f", "xxxxxxxxxxxx", "x", "y"),
        Err("Error: text appears 12 times in f - be more specific".to_string())
    );
}

#[test]
fn edit_succeeds_only_for_exactly_one_occurrence() {
    let contents = ["", "a", "aa", "aaa", "aba", "ababab", "b"];
    let olds = ["a", "ab", "aa", "b"];
    for c in contents.iter() {
        for o in olds.iter() {
            let count = c.matches(o).count();
            let result = apply_edit("p", c, o, "Z");
            assert_eq!(result.is_ok(), count == 1, "{:?} in {:?}", o, c);
            if count == 1 {
                assert_eq!(result.unwrap(), c.replacen(o, "Z", 1));
            }
        }
    }
}

#[test]
fn edit_of_an_unreadable_file_is_an_error() {
    assert_eq!(
        edit_update("p", "a", "b", &Err("denied".to_string())),
        Err("Error reading file: denied".to_string())
    );
    assert_eq!(edit_update("p", "a", "b", &ok("xax")), Ok("xbx".to_string()));
}

#[test]
fn edit_reports_the_lines_dropped_and_added() {
    assert_eq!(
        tool_edit_file("f.rs", "a\nb", "c", &Ok(())),
        "Edited f.rs\n-a\n-b\n+c\n"
    );
    assert_eq!(tool_edit_file("f.rs", "a", "", &Ok(())), "Edited f.rs\n-a\n");
    assert_eq!(
        tool_edit_file("f.rs", "a", "b", &Err("disk full".to_string())),
        "Error writing file: disk full"
    );
}

#[test]
fn write_of_a_new_file_shows_its_lines() {
    assert_eq!(
        tool_write_file("n.txt", "a\nb\n", "", false, &WriteOutcome::Written),
        "Created n.txt\n+a\n+b\n"
    );
    assert_eq!(tool_write_file("n.txt", "", "", false, &WriteOutcome::Written), "Created n.txt\n");
}

#[test]
fn write_over_a_file_shows_the_change() {
    assert_eq!(
        tool_write_file("n.txt", "a\nB\nc\n", "a\nb\nc\n", true, &WriteOutcome::Written),
        "Wrote n.txt\n-b\n+B\n"
    );
    assert_eq!(
        tool_write_file("n.txt", "same\n", "same\n", true, &WriteOutcome::Written),
        "No changes to n.txt"
    );
    // An empty file that exists is no new file.
    assert_eq!(
        tool_write_file("n.txt", "a\n", "", true, &WriteOutcome::Written),
        "Wrote n.txt\n+a\n"
    );
}

#[test]
fn write_failures_are_reported() {
    assert_eq!(
        tool_write_file("n", "a", "", false, &WriteOutcome::DirFailed("no".to_string())),
        "Error creating directories: no"
    );
    assert_eq!(
        tool_write_file("n", "a", "", false, &WriteOutcome::WriteFailed("no".to_string())),
        "Error writing file: no"
    );
    assert_eq!(apply_write("n", &WriteOutcome::Written), "Wrote n");
    assert_eq!(
        apply_write("n", &WriteOutcome::DirFailed("x".to_string())),
        "Error creating directories: x"
    );
    assert_eq!(
        apply_write("n", &WriteOutcome::WriteFailed("y".to_string())),
        "Error writing file: y"
    );
}

#[test]
fn a_line_without_line_feed_gets_one_in_the_diff() {
    assert_eq!(format_diff("f", "a", "b"), "Wrote f\n-a\n+b\n");
    assert_eq!(format_diff("f", "a\n", "a\nb"), "Wrote f\n+b\n");
}

#[test]
fn diff_with_context_numbers_the_lines() {
    let old = "1\n2\n3\n4\n5\n6\n7\n8\n9\n10\n";
    let new = "1\n2\n3\n4\nfive\n6\n7\n8\n9\n10\n";
    assert_eq!(
        format_diff_with_context("f.txt", "Edited", old, new),
        "Edited f.txt\n    2│2\n    3│3\n    4│4\n-   5│5\n+   5│five\n    6│6\n    7│7\n    8│8\n"
    );
}

#[test]
fn hunks_are_parted_by_dots() {
    let old: String = (1..=30).map(|i| format!("{}\n", i)).collect();
    let new = old.replace("\n2\n", "\ntwo\n").replace("\n29\n", "\ntwenty-nine\n");
    let out = format_diff_with_context("f", "Wrote", &old, &new);
    assert!(out.starts_with("Wrote f\n"));
    assert_eq!(out.matches("···\n").count(), 1);
    assert!(out.contains("-   2│2\n+   2│two\n"));
    assert!(out.contains("-  29│29\n+  29│twenty-nine\n"));
    assert!(out.contains("    5│5\n···\n   26│26\n"));
}

#[test]
fn given_hunks_are_shown_as_they_are() {
    let line = |tag, old, new, value: &str, missing| DiffLine {
        tag,
        old_index: old,
        new_index: new,
        value: value.to_string(),
        missing_newline: missing,
    };
    let hunks = vec![
        vec![
            line(ChangeTag::Equal, Some(0), Some(0), "a\n", false),
            line(ChangeTag::Delete, Some(1), None, "b\n", false),
            line(ChangeTag::Insert, None, Some(1), "c", true),
        ],
        vec![line(ChangeTag::Insert, None, Some(12344), "z\n", false)],
    ];
    assert_eq!(
        format_hunks("p", "Edited", &hunks),
        "Edited p\n    1│a\n-   2│b\n+   2│c\n···\n+12345│z\n"
    );
    assert_eq!(format_hunks("p", "Wrote", &vec![]), "Wrote p\n");
    let changes = vec![
        line(ChangeTag::Equal, Some(0), Some(0), "a\n", false),
        line(ChangeTag::Delete, Some(1), None, "b", true),
    ];
    assert_eq!(format_changes("p", "x", "y", &changes), "Wrote p\n-b\n");
    assert_eq!(format_changes("p", "x", "x", &changes), "No changes to p");
}

#[test]
fn previews_do_not_write() {
    assert_eq!(
        preview_edit_file("", "a", "b", &ok("a")),
        Err("Error: path is required".to_string())
    );
    assert_eq!(
        preview_edit_file("p", "", "b", &ok("a")),
        Err("Error: old text is required".to_string())
    );
    assert_eq!(
        preview_edit_file("p", "a", "b", &Err("gone".to_string())),
        Err("Error reading file: gone".to_string())
    );
    assert_eq!(
        preview_edit_file("p", "a", "b", &ok("a a")),
        Err("Error: text appears 2 times in p - be more specific".to_string())
    );
    assert_eq!(
        preview_edit_file("p", "two", "2", &ok("one\ntwo\n")),
        Ok(("Edited p\n    1│one\n-   2│two\n+   2│2\n".to_string(), "one\n2\n".to_string()))
    );
    assert_eq!(
        preview_write_file("", "x", "", false),
        Err("Error: path is required".to_string())
    );
    assert_eq!(
        preview_write_file("p", "a\nb\n", "", false),
        Ok(("Created p\n+   1│a\n+   2│b\n".to_string(), "a\nb\n".to_string()))
    );
    assert_eq!(
        preview_write_file("p", "a\n", "a\n", true),
        Ok(("No changes to p".to_string(), "a\n".to_string()))
    );
    assert_eq!(
        preview_write_file("p", "b\n", "a\n", true),
        Ok(("Wrote p\n-   1│a\n+   1│b\n".to_string(), "b\n".to_string()))
    );
}
