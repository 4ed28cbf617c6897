use hal::paths::{joined, path_components, starts_with_path};

fn cs(s: &str) -> Vec<char> {
    s.chars().collect()
}

fn strings(v: Vec<Vec<char>>) -> Vec<String> {
    v.into_iter().map(|l| l.into_iter().collect()).collect()
}

const SAMPLES: [&str; 22] = [
    "", "/", "//", ".", "..", "./", "a", "a/", "a/b", "/a/b", "./a", "a/./b", "a//b", "a/b/",
    "/a/../b", "./.", "././a", "/.", "a/..", "~/x", "/home/u/.cargo", ".hidden",
];

#[test]
fn joining_is_what_std_says() {
    for base in SAMPLES.iter() {
        for rel in SAMPLES.iter() {
            let expected = std::path::Path::new(base).join(rel);
            let got: String = joined(&cs(base), &cs(rel)).into_iter().collect();
            assert_eq!(got, expected.to_string_lossy(), "{:?} join {:?}", base, rel);
        }
    }
}

#[test]
fn components_are_what_std_says() {
    for p in SAMPLES.iter() {
        let expected: Vec<String> = std::path::Path::new(p)
            .components()
            .map(|c| c.as_os_str().to_string_lossy().to_string())
            .collect();
        assert_eq!(strings(path_components(&cs(p))), expected, "{:?}", p);
    }
}

#[test]
fn prefixes_are_what_std_says() {
    for p in SAMPLES.iter() {
        for base in SAMPLES.iter() {
            let expected = std::path::Path::new(p).starts_with(std::path::Path::new(base));
            assert_eq!(starts_with_path(&cs(p), &cs(base)), expected, "{:?} / {:?}", p, base);
        }
    }
}
