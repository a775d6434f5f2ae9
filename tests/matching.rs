use code_digest::pattern::pattern_matches_path;
use code_digest::{parse_ignore_text, should_ignore, PatternSet};

fn one(pattern: &str) -> PatternSet {
    let mut s = PatternSet::new();
    s.insert(pattern);
    s
}

fn excluded(path: &str, pattern: &str) -> bool {
    should_ignore(path, &one(pattern))
}

#[test]
fn test_should_ignore_patterns() {
    let test_cases = vec![
        ("src/test/file.rs", "**/test/**", true),
        ("src/main.rs", "**/test/**", false),
        ("README.md", "README.md", true),
        ("docs/README.md", "README.md", true),
        ("src/lib/README.md", "README.md", true),
        ("src/readme.txt", "README.md", false),
        ("test/file.rs", "test/", true),
        ("src/test/file.rs", "test/", true),
        ("testing/file.rs", "test/", false),
        ("src/file.test.rs", "*.test.*", true),
        ("src/file.rs", "*.test.*", false),
    ];

    for (path_str, pattern_str, expected) in test_cases {
        assert_eq!(
            excluded(path_str, pattern_str),
            expected,
            "Failed for path '{}' with pattern '{}'",
            path_str,
            pattern_str
        );
    }
}

#[test]
fn git_segments_always_excluded() {
    let s = PatternSet::new();
    assert!(should_ignore(".git", &s));
    assert!(should_ignore(".git/config", &s));
    assert!(should_ignore("src/.git/HEAD", &s));
    assert!(should_ignore("vendor/lib/.git", &s));
    assert!(!should_ignore(".github/workflows/ci.yml", &s));
    assert!(!should_ignore("src/main.rs", &s));
    assert!(should_ignore(".git/objects/ab", &one("*.js")));
}

#[test]
fn backslashes_are_separators() {
    assert!(excluded("src\\test\\file.rs", "test/"));
    assert!(should_ignore("src\\.git\\HEAD", &PatternSet::new()));
}

#[test]
fn negated_pattern_is_inert() {
    let mut s = PatternSet::new();
    s.insert("!foo");
    assert!(!should_ignore("foo", &s));
    assert!(!should_ignore("src/foo", &s));
    assert!(!pattern_matches_path("!foo", "foo"));
}

#[test]
fn directory_pattern_keeps_segment_boundary() {
    assert!(excluded("test/file.rs", "test/"));
    assert!(excluded("src/test/file.rs", "test/"));
    assert!(!excluded("testing/file.rs", "test/"));
    assert!(excluded("test", "test/"));
}

#[test]
fn extension_glob() {
    assert!(excluded("file.js", "*.js"));
    assert!(excluded("src/app.js", "*.js"));
    assert!(!excluded("file.jsx", "*.js"));
}

#[test]
fn any_depth_suffix() {
    assert!(excluded("build/file.js", "build/**"));
    assert!(excluded("build/output/bundle.js", "build/**"));
    assert!(!excluded("builds/file.js", "build/**"));
    assert!(!excluded("src/build.js", "build/**"));
    assert!(excluded("src/build/x.js", "build/**"));
}

#[test]
fn anchored_markdown() {
    assert!(excluded("README.md", "**/*.md"));
    assert!(excluded("docs/README.md", "**/*.md"));
    assert!(excluded("src/lib/README.md", "**/*.md"));
    assert!(!excluded("readme.txt", "**/*.md"));
    assert!(!excluded("notes.mdx", "**/*.md"));
}

#[test]
fn union_of_two_sources() {
    let a = parse_ignore_text("build/\n");
    let b = parse_ignore_text("docs/\n");
    let u = a.union(&b);
    assert!(should_ignore("build/x.js", &u));
    assert!(should_ignore("docs/readme.md", &u));
    assert!(!should_ignore("src/main.rs", &u));
    assert!(!should_ignore("docs/readme.md", &a));
    assert!(!should_ignore("build/x.js", &b));
}

#[test]
fn order_of_insertion_does_not_matter() {
    let mut a = PatternSet::new();
    a.insert("*.js");
    a.insert("docs/");
    let mut b = PatternSet::new();
    b.insert("docs/");
    b.insert("*.js");
    for p in ["a.js", "docs/x", "src/main.rs", "x/docs/y.rs"] {
        assert_eq!(should_ignore(p, &a), should_ignore(p, &b));
    }
}

#[test]
fn more_patterns_exclude_more() {
    let mut s = one("*.log");
    assert!(should_ignore("out.log", &s));
    assert!(!should_ignore("src/a.rs", &s));
    s.insert("src/");
    assert!(should_ignore("out.log", &s));
    assert!(should_ignore("src/a.rs", &s));
}

#[test]
fn shortcut_test_dir_any_depth() {
    assert!(excluded("test/x.rs", "**/test/**"));
    assert!(excluded("a/test/b/c.rs", "**/test/**"));
    assert!(!excluded("src/test", "**/test/**"));
    assert!(!excluded("src/testing/x.rs", "**/test/**"));
}

#[test]
fn shortcut_test_prefix_dir_any_depth() {
    assert!(excluded("src/tests/a.rs", "**/test*/**"));
    assert!(excluded("testing/x", "**/test*/**"));
    assert!(excluded("tests/", "**/test*/**"));
    assert!(!excluded("src/test_file.js", "**/test*/**"));
    assert!(!excluded("src/contest/a.rs", "**/test*/**"));
}

#[test]
fn shortcut_node_modules_and_build() {
    assert!(excluded("node_modules/a.js", "node_modules/"));
    assert!(excluded("src/node_modules/x/y.js", "node_modules/"));
    assert!(excluded("node_modules", "node_modules/"));
    assert!(excluded("build/output.js", "build/"));
    assert!(excluded("build", "build/"));
    assert!(!excluded("rebuild/x.js", "build/"));
}

#[test]
fn any_depth_prefix_directory_form() {
    assert!(excluded("docs", "**/docs/"));
    assert!(excluded("src/docs/x.md", "**/docs/"));
    assert!(!excluded("src/doc.txt", "**/docs/"));
    assert!(excluded("a/b/c.rs", "**/c.rs"));
    assert!(excluded("c.rs", "**/c.rs"));
    assert!(!excluded("abc.rs", "**/c.rs"));
}

#[test]
fn middle_any_depth() {
    assert!(excluded("src/a/test", "src/**/test"));
    assert!(excluded("src/a/test/b.rs", "src/**/test"));
    assert!(!excluded("lib/a/test", "src/**/test"));
    assert!(!excluded("src/a/b.rs", "src/**/test"));
}

#[test]
fn directory_with_wildcard() {
    assert!(excluded("a/testing/b.rs", "test*/"));
    assert!(excluded("tests/b.rs", "test*/"));
    assert!(!excluded("a/b.rs", "test*/"));
    assert!(!excluded("contest/b.rs", "test*/"));
    assert!(excluded("src/tmp_cache/x", "tmp*cache/"));
    assert!(!excluded("src/tmp/x", "tmp*cache/"));
}

#[test]
fn star_suffix_whole_name_or_extension() {
    assert!(excluded("a/Makefile", "*Makefile"));
    assert!(!excluded("a/GNUMakefile", "*Makefile"));
    assert!(excluded("anything/at/all", "*"));
}

#[test]
fn prefix_star_aligns_to_segment() {
    assert!(excluded("temp", "temp*"));
    assert!(excluded("temp/x", "temp*"));
    assert!(excluded("src/temp/x", "temp*"));
    assert!(!excluded("temporary/x", "temp*"));
}

#[test]
fn prefix_star_suffix() {
    assert!(excluded("docs/foo.txt", "foo*.txt"));
    assert!(!excluded("docs/foo1.txt", "foo*.txt"));
    assert!(!excluded("foo.txt/readme", "foo*.txt"));
    assert!(excluded("x/ab/y", "a*b"));
    assert!(!excluded("x/a/b", "a*b"));
}

#[test]
fn literal_pattern() {
    assert!(excluded("target", "target"));
    assert!(excluded("src/target", "target"));
    assert!(excluded("src/target/x", "target"));
    assert!(!excluded("target/debug/x", "target"));
    assert!(!excluded("src/mytarget", "target"));
}

#[test]
fn surrounding_space_is_trimmed() {
    assert!(excluded("src/target", "  target\t"));
    assert!(!excluded("a", "   "));
}

#[test]
fn comments_and_unsupported_shapes_match_nothing() {
    assert!(!excluded("# note", "# note"));
    assert!(!excluded("a*b*c", "a*b*c"));
    assert!(!excluded("x/a*b*/y", "a*b*/"));
}
