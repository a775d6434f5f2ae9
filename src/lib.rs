//! Gitignore-style exclusion of paths during a codebase walk, and the small
//! tables (languages, code extensions, default patterns) that go with it.

pub mod pattern;
pub mod pattern_set;
pub mod profile;
pub mod digest;
pub mod laws;
pub mod text;

pub use digest::{format_markdown, Digest, FileInfo};
pub use pattern_set::{
    load_ignore_source, parse_ignore_text, should_ignore, IgnoreSourceError, Matcher, PatternSet,
};
pub use profile::{
    build_ignore_patterns, enough_lua_files, get_main_language, godot_marker_entries,
    is_common_code_file, is_godot_source_extension, is_included_extension, is_lua_extension,
    language_for_extension, lua_marker_files, markdown_language_tag,
};
