use code_digest::{load_ignore_source, parse_ignore_text, should_ignore, IgnoreSourceError, PatternSet};

#[test]
fn loader_skips_comments_and_blank_lines() {
    let s = parse_ignore_text("# comment\n\nnode_modules/\n*.log");
    assert_eq!(s.len(), 3);
    assert!(s.contains(".git"));
    assert!(s.contains("node_modules/"));
    assert!(s.contains("*.log"));
    assert!(!s.contains("# comment"));
    assert!(!s.contains(""));
}

#[test]
fn loader_trims_and_dedups() {
    let s = parse_ignore_text("  build/  \r\nbuild/\n\t*.tmp\n   # indented comment\n");
    assert_eq!(s.len(), 3);
    assert!(s.contains("build/"));
    assert!(s.contains("*.tmp"));
    assert!(s.contains(".git"));
}

#[test]
fn loader_of_empty_text_has_sentinel() {
    let s = parse_ignore_text("");
    assert_eq!(s.len(), 1);
    assert!(s.contains(".git"));
}

#[test]
fn set_operations() {
    let mut s = PatternSet::new();
    s.insert("a");
    s.insert("a");
    assert_eq!(s.len(), 2);
    s.remove("a");
    assert!(!s.contains("a"));
    s.remove(".git");
    assert!(s.contains(".git"));
    let mut t = PatternSet::new();
    t.insert("b");
    s.extend(&t);
    assert!(s.contains("b"));
    assert_eq!(s.len(), 2);
    let c = s.clone_set();
    assert!(c.contains("b"));
}

#[test]
fn missing_source_is_reported() {
    assert_eq!(
        load_ignore_source(None).err(),
        Some(IgnoreSourceError::SourceNotFound)
    );
    let s = load_ignore_source(Some("dist/\n")).ok().unwrap();
    assert!(s.contains("dist/"));
    assert!(s.contains(".git"));
    assert_eq!(s.len(), 2);
}

#[test]
fn compiled_matcher_agrees_with_set() {
    let s = parse_ignore_text("build/\n*.log\n**/test*/**\nsrc/**/gen\n");
    let m = s.compile();
    for p in [
        "build/a.js",
        "x.log",
        "src/tests/a.rs",
        "src/test_a.rs",
        "src/a/gen",
        "lib/a.rs",
        ".git/HEAD",
    ] {
        assert_eq!(m.is_excluded(p), should_ignore(p, &s), "{}", p);
    }
    assert!(m.is_excluded("build/a.js"));
    assert!(!m.is_excluded("lib/a.rs"));
}
