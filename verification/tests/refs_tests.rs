use hal::refs::{expand_file_refs, file_ref_paths, FileProbe};

fn probe(path: &str, content: Option<&str>) -> FileProbe {
    FileProbe { path: path.to_string(), content: content.map(|c| c.to_string()) }
}

const CARGO: &str = "[package]\nname = \"x\"\nversion = \"0.1.0\"\nedition = \"2021\"\n\n[dependencies]\na = \"1\"\nb = \"1\"\nc = \"1\"\nd = \"1\"\ne = \"1\"\nf = \"1\"\n";

#[test]
fn a_reference_to_a_file_is_expanded() {
    assert_eq!(CARGO.lines().count(), 12);
    let out = expand_file_refs("@Cargo.toml what does this do?", &vec![probe("Cargo.toml", Some(CARGO))]);
    assert_eq!(
        out.text,
        format!(
            "`Cargo.toml` what does this do?\n\n<file path=\"Cargo.toml\">\n{}\n</file>",
            CARGO.trim()
        )
    );
    assert_eq!(out.files_read.len(), 1);
    assert_eq!(out.files_read[0].path, "Cargo.toml");
    assert_eq!(out.files_read[0].lines, 12);
    assert_eq!(out.text.matches("<file path=\"Cargo.toml\">").count(), 1);
}

#[test]
fn a_file_that_is_not_there_is_left_as_it_is() {
    let out = expand_file_refs("see @missing.txt and @", &vec![probe("missing.txt", None)]);
    assert_eq!(out.text, "see @missing.txt and @");
    assert_eq!(out.files_read.len(), 0);
    let out = expand_file_refs("see @unprobed.txt", &vec![]);
    assert_eq!(out.text, "see @unprobed.txt");
}

#[test]
fn every_file_is_attached_once() {
    let probes = vec![probe("a.txt", Some("A\n")), probe("b.txt", Some("B1\nB2\n"))];
    let out = expand_file_refs("@a.txt  and\t@b.txt then @a.txt again", &probes);
    assert_eq!(
        out.text,
        "`a.txt`  and\t`b.txt` then `a.txt` again\n\n<file path=\"a.txt\">\nA\n</file>\n\n<file path=\"b.txt\">\nB1\nB2\n</file>"
    );
    assert_eq!(out.files_read.len(), 2);
    assert_eq!((out.files_read[0].path.as_str(), out.files_read[0].lines), ("a.txt", 1));
    assert_eq!((out.files_read[1].path.as_str(), out.files_read[1].lines), ("b.txt", 2));
    assert_eq!(out.text.matches("<file path=\"a.txt\">").count(), 1);
    assert_eq!(out.text.matches("<file path=\"b.txt\">").count(), 1);
}

#[test]
fn only_whole_words_are_references() {
    let probes = vec![probe("a", Some("A"))];
    let out = expand_file_refs("mail@a @ab x@a", &probes);
    assert_eq!(out.text, "mail@a @ab x@a");
    assert_eq!(out.files_read.len(), 0);
}

#[test]
fn the_first_probe_of_a_path_counts() {
    let probes = vec![probe("a", None), probe("a", Some("late"))];
    let out = expand_file_refs("@a", &probes);
    assert_eq!(out.text, "@a");
}

#[test]
fn content_is_trimmed_in_the_block() {
    let out = expand_file_refs("@f", &vec![probe("f", Some("\n  x\n\n"))]);
    assert_eq!(out.text, "`f`\n\n<file path=\"f\">\nx\n</file>");
    assert_eq!(out.files_read[0].lines, 3);
}

#[test]
fn paths_to_probe_are_the_words_after_an_at_sign() {
    assert_eq!(file_ref_paths("@a b @c/d @ @@e mail@x"), vec!["a", "c/d", "@e"]);
    assert_eq!(file_ref_paths("nothing here"), Vec::<String>::new());
}
