use code_digest::{
    build_ignore_patterns, enough_lua_files, get_main_language, godot_marker_entries,
    is_common_code_file, is_godot_source_extension, is_included_extension, is_lua_extension,
    language_for_extension, lua_marker_files, markdown_language_tag,
};

#[test]
fn test_lua_file_extension_recognition() {
    assert!(
        is_common_code_file("lua"),
        ".lua files should be recognized as code files"
    );
    assert!(
        is_common_code_file("rs"),
        "Other code files like .rs should still be recognized"
    );
    assert!(
        !is_common_code_file("luac"),
        ".luac (compiled Lua) should not be treated as code files"
    );
}

#[test]
fn test_lua_language_detection() {
    let lua_language = Some(language_for_extension("lua", false));
    assert_eq!(
        lua_language,
        Some("Lua".to_string()),
        "Should detect .lua files as Lua language"
    );
    let rs_language = Some(language_for_extension("rs", false));
    assert_eq!(
        rs_language,
        Some("Rust".to_string()),
        "Should correctly detect other languages too"
    );
}

#[test]
fn test_lua_ignore_patterns() {
    let main_language = Some("Lua".to_string());
    let patterns = build_ignore_patterns(&main_language, false);
    assert!(
        patterns.contains("*.luac"),
        "Should ignore compiled Lua files (*.luac)"
    );
    assert!(
        patterns.contains("luarocks"),
        "Should ignore luarocks directory"
    );
    assert!(
        patterns.contains(".git"),
        "Should include common patterns like .git"
    );
    assert!(
        !patterns.contains("*.pyc"),
        "Should not include Python-specific patterns"
    );
}

#[test]
fn test_lua_markdown_formatting() {
    let markdown_tag = markdown_language_tag("Lua");
    assert_eq!(
        markdown_tag, "lua",
        "Should format Lua as 'lua' in markdown code blocks"
    );
    let rust_tag = markdown_language_tag("Rust");
    assert_eq!(rust_tag, "rust", "Should format Rust correctly in markdown");
}

#[test]
fn languages_of_extensions() {
    assert_eq!(language_for_extension("cs", false), "C#");
    assert_eq!(language_for_extension("cs", true), "GDScript C#");
    assert_eq!(language_for_extension("hpp", false), "C/C++");
    assert_eq!(language_for_extension("tres", true), "Godot Scene");
    assert_eq!(language_for_extension("xyz", false), "Unknown");
}

#[test]
fn markdown_tags() {
    assert_eq!(markdown_language_tag("GDScript C#"), "csharp");
    assert_eq!(markdown_language_tag("Godot Shader"), "glsl");
    assert_eq!(markdown_language_tag("Unknown"), "");
}

#[test]
fn included_extensions() {
    assert!(is_included_extension("rs", false));
    assert!(!is_included_extension("godot", false));
    assert!(is_included_extension("godot", true));
    assert!(is_included_extension("import", true));
    assert!(!is_included_extension("txt", true));
}

#[test]
fn default_patterns_per_language() {
    let none = build_ignore_patterns(&None, false);
    assert_eq!(none.len(), 17);
    assert!(none.contains("node_modules"));
    let rust = build_ignore_patterns(&Some("Rust".to_string()), false);
    assert_eq!(rust.len(), 18);
    assert!(rust.contains("Cargo.lock"));
    let cs = build_ignore_patterns(&Some("C#".to_string()), false);
    assert!(cs.contains("*.dll"));
    let cs_godot = build_ignore_patterns(&Some("C#".to_string()), true);
    assert!(!cs_godot.contains("*.dll"));
    assert_eq!(cs_godot.len(), 17);
    let js = build_ignore_patterns(&Some("TypeScript".to_string()), false);
    assert_eq!(js.len(), 19);
}

#[test]
fn main_language_is_largest() {
    assert_eq!(get_main_language(&vec![]), None);
    let v = vec![
        ("Rust".to_string(), 10),
        ("Go".to_string(), 30),
        ("C".to_string(), 5),
    ];
    assert_eq!(get_main_language(&v), Some("Go".to_string()));
    let tie = vec![("A".to_string(), 7), ("B".to_string(), 7)];
    assert_eq!(get_main_language(&tie), Some("B".to_string()));
}

#[test]
fn project_markers() {
    assert_eq!(lua_marker_files(), vec!["init.lua", "main.lua", "conf.lua", "config.lua"]);
    assert_eq!(godot_marker_entries(), vec!["project.godot", "godot", ".godot"]);
    assert!(!enough_lua_files(4));
    assert!(enough_lua_files(5));
    assert!(is_godot_source_extension("tscn"));
    assert!(is_godot_source_extension("gd"));
    assert!(!is_godot_source_extension("tres"));
    assert!(is_lua_extension("lua"));
    assert!(!is_lua_extension("luac"));
}
