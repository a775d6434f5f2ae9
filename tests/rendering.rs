use code_digest::digest::sort_by_lines;
use code_digest::{format_markdown, Digest, FileInfo};

#[test]
fn markdown_of_a_small_digest() {
    let d = Digest {
        project_name: "demo".to_string(),
        main_language: Some("Rust".to_string()),
        language_breakdown: vec![("TOML".to_string(), 7), ("Rust".to_string(), 120)],
        files: vec![
            FileInfo {
                path: "src/main.rs".to_string(),
                language: Some("Rust".to_string()),
                content: "fn main() {}".to_string(),
            },
            FileInfo {
                path: "notes".to_string(),
                language: None,
                content: "hi".to_string(),
            },
        ],
    };
    let expected = "# Project Digest: demo\n\n## Language Breakdown\n\nMain language: **Rust**\n\n| Language | Lines |\n|----------|-------|\n| Rust | 120 |\n| TOML | 7 |\n\n## Files\n\n### src/main.rs\n\n```rust\nfn main() {}\n```\n\n### notes\n\n```\nhi\n```\n\n";
    assert_eq!(format_markdown(&d), expected);
}

#[test]
fn markdown_without_main_language() {
    let d = Digest {
        project_name: "p".to_string(),
        main_language: None,
        language_breakdown: vec![("Go".to_string(), 0)],
        files: vec![],
    };
    let expected = "# Project Digest: p\n\n## Language Breakdown\n\n| Language | Lines |\n|----------|-------|\n| Go | 0 |\n\n## Files\n\n";
    assert_eq!(format_markdown(&d), expected);
}

#[test]
fn sort_is_stable_and_descending() {
    let v = vec![
        ("a".to_string(), 1),
        ("b".to_string(), 5),
        ("c".to_string(), 1),
        ("d".to_string(), 5),
        ("e".to_string(), 9),
    ];
    let r: Vec<String> = sort_by_lines(&v).into_iter().map(|e| e.0).collect();
    assert_eq!(r, vec!["e", "b", "d", "a", "c"]);
}
