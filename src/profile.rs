//! What a project's files are: which extensions count as code, the language
//! that an extension names, the tag of a language in a markdown code block,
//! and the ignore patterns used when a project has no ignore file.
use vstd::prelude::*;
use crate::pattern_set::{sentinel, PatternSet};
use crate::text::{chars_of, same_chars};

verus! {

/// The extensions of the files that are taken into a digest.
pub open spec fn is_code_extension(e: Seq<char>) -> bool {
    e == "rs"@ || e == "js"@ || e == "ts"@ || e == "py"@ || e == "java"@ || e == "go"@ || e
        == "c"@ || e == "cpp"@ || e == "h"@ || e == "hpp"@ || e == "rb"@ || e == "php"@ || e
        == "cs"@ || e == "html"@ || e == "css"@ || e == "json"@ || e == "md"@ || e == "yml"@
        || e == "yaml"@ || e == "toml"@ || e == "lua"@ || e == "gd"@ || e == "tscn"@ || e
        == "tres"@ || e == "shader"@
}

/// The extensions that a Godot project adds to the code extensions.
pub open spec fn is_godot_extension(e: Seq<char>) -> bool {
    e == "gd"@ || e == "tscn"@ || e == "cs"@ || e == "godot"@ || e == "tres"@ || e
        == "import"@ || e == "shader"@
}

/// Whether a file with extension `e` is taken into the digest.
pub open spec fn is_included_extension_spec(e: Seq<char>, godot: bool) -> bool {
    is_code_extension(e) || (godot && is_godot_extension(e))
}

/// The language that the extension `e` names.
pub open spec fn language_name(e: Seq<char>, godot: bool) -> Seq<char> {
    if e == "rs"@ {
        "Rust"@
    } else if e == "js"@ {
        "JavaScript"@
    } else if e == "ts"@ {
        "TypeScript"@
    } else if e == "py"@ {
        "Python"@
    } else if e == "java"@ {
        "Java"@
    } else if e == "go"@ {
        "Go"@
    } else if e == "c"@ || e == "cpp"@ || e == "h"@ || e == "hpp"@ {
        "C/C++"@
    } else if e == "rb"@ {
        "Ruby"@
    } else if e == "php"@ {
        "PHP"@
    } else if e == "lua"@ {
        "Lua"@
    } else if e == "cs"@ {
        if godot {
            "GDScript C#"@
        } else {
            "C#"@
        }
    } else if e == "html"@ {
        "HTML"@
    } else if e == "css"@ {
        "CSS"@
    } else if e == "json"@ {
        "JSON"@
    } else if e == "md"@ {
        "Markdown"@
    } else if e == "yml"@ || e == "yaml"@ {
        "YAML"@
    } else if e == "toml"@ {
        "TOML"@
    } else if e == "gd"@ {
        "GDScript"@
    } else if e == "tscn"@ || e == "tres"@ {
        "Godot Scene"@
    } else if e == "shader"@ {
        "Godot Shader"@
    } else {
        "Unknown"@
    }
}

/// The tag that opens a markdown code block for `language`; empty when none.
pub open spec fn markdown_tag(language: Seq<char>) -> Seq<char> {
    if language == "JavaScript"@ {
        "js"@
    } else if language == "TypeScript"@ {
        "ts"@
    } else if language == "Python"@ {
        "python"@
    } else if language == "Rust"@ {
        "rust"@
    } else if language == "Java"@ {
        "java"@
    } else if language == "Go"@ {
        "go"@
    } else if language == "C/C++"@ {
        "cpp"@
    } else if language == "Ruby"@ {
        "ruby"@
    } else if language == "PHP"@ {
        "php"@
    } else if language == "Lua"@ {
        "lua"@
    } else if language == "C#"@ || language == "GDScript C#"@ {
        "csharp"@
    } else if language == "HTML"@ {
        "html"@
    } else if language == "CSS"@ {
        "css"@
    } else if language == "JSON"@ {
        "json"@
    } else if language == "Markdown"@ {
        "md"@
    } else if language == "YAML"@ {
        "yaml"@
    } else if language == "TOML"@ {
        "toml"@
    } else if language == "GDScript"@ || language == "Godot Scene"@ {
        "gdscript"@
    } else if language == "Godot Shader"@ {
        "glsl"@
    } else {
        ""@
    }
}

/// The patterns ignored in every project that has no ignore file.
pub open spec fn common_patterns() -> Set<Seq<char>> {
    set![
        ".git"@,
        ".github"@,
        ".vscode"@,
        ".idea"@,
        "node_modules"@,
        "target"@,
        "build"@,
        "dist"@,
        "venv"@,
        ".venv"@,
        "env"@,
        ".env"@,
        ".DS_Store"@,
        "*.log"@,
        "*.lock"@,
        "yarn.lock"@,
        "package-lock.json"@,
    ]
}

/// The patterns that a project's main language adds.
pub open spec fn language_patterns(language: Seq<char>, godot: bool) -> Set<Seq<char>> {
    if language == "JavaScript"@ || language == "TypeScript"@ {
        set!["node_modules"@, "*.min.js"@, "*.bundle.js"@]
    } else if language == "Python"@ {
        set!["__pycache__"@, "*.pyc"@, ".pytest_cache"@]
    } else if language == "Rust"@ {
        set!["target"@, "Cargo.lock"@]
    } else if language == "Java"@ {
        set!["*.class"@, "bin"@, "out"@]
    } else if language == "Go"@ {
        set!["vendor"@, "*.pb.go"@]
    } else if language == "Lua"@ {
        set!["*.luac"@, "luarocks"@]
    } else if language == "C#"@ && !godot {
        set!["bin"@, "obj"@, "*.dll"@]
    } else {
        Set::empty()
    }
}

/// The patterns used for a project without an ignore file, from its main
/// language (if known) and whether it is a Godot project; a Godot project
/// keeps its `.import` and `addons` directories.
pub open spec fn default_patterns(language: Option<Seq<char>>, godot: bool) -> Set<Seq<char>> {
    let base = match language {
        Some(l) => common_patterns().union(language_patterns(l, godot)),
        None => common_patterns(),
    };
    if godot {
        base.remove(".import"@).remove("addons"@)
    } else {
        base
    }
}

/// The index of the entry with the largest count, the last of them on a tie.
pub open spec fn is_last_max(counts: Seq<(String, usize)>, k: int) -> bool {
    0 <= k < counts.len() && (forall|j: int| 0 <= j < counts.len() ==> counts[j].1 <= counts[k].1)
        && (forall|j: int| k < j < counts.len() ==> counts[j].1 < counts[k].1)
}

/// Whether `e` holds exactly the characters of `lit`.
fn is(e: &Vec<char>, lit: &str) -> (r: bool)
    ensures
        r == (e@ == lit@),
{
    same_chars(e, &chars_of(lit))
}

/// Whether files with extension `ext` count as code.
pub fn is_common_code_file(ext: &str) -> (r: bool)
    ensures
        r == is_code_extension(ext@),
{
    let e = chars_of(ext);
    is(&e, "rs") || is(&e, "js") || is(&e, "ts") || is(&e, "py") || is(&e, "java") || is(
        &e,
        "go",
    ) || is(&e, "c") || is(&e, "cpp") || is(&e, "h") || is(&e, "hpp") || is(&e, "rb") || is(
        &e,
        "php",
    ) || is(&e, "cs") || is(&e, "html") || is(&e, "css") || is(&e, "json") || is(&e, "md")
        || is(&e, "yml") || is(&e, "yaml") || is(&e, "toml") || is(&e, "lua") || is(&e, "gd")
        || is(&e, "tscn") || is(&e, "tres") || is(&e, "shader")
}

/// Whether a file with extension `ext` is taken into the digest of a
/// project, a Godot project when `is_godot_project` holds.
pub fn is_included_extension(ext: &str, is_godot_project: bool) -> (r: bool)
    ensures
        r == is_included_extension_spec(ext@, is_godot_project),
{
    if is_common_code_file(ext) {
        return true;
    }
    if !is_godot_project {
        return false;
    }
    let e = chars_of(ext);
    is(&e, "gd") || is(&e, "tscn") || is(&e, "cs") || is(&e, "godot") || is(&e, "tres") || is(
        &e,
        "import",
    ) || is(&e, "shader")
}

/// The language of a file with extension `ext`.
pub fn language_for_extension(ext: &str, is_godot_project: bool) -> (r: String)
    ensures
        r@ == language_name(ext@, is_godot_project),
{
    let e = chars_of(ext);
    let name = if is(&e, "rs") {
        "Rust"
    } else if is(&e, "js") {
        "JavaScript"
    } else if is(&e, "ts") {
        "TypeScript"
    } else if is(&e, "py") {
        "Python"
    } else if is(&e, "java") {
        "Java"
    } else if is(&e, "go") {
        "Go"
    } else if is(&e, "c") || is(&e, "cpp") || is(&e, "h") || is(&e, "hpp") {
        "C/C++"
    } else if is(&e, "rb") {
        "Ruby"
    } else if is(&e, "php") {
        "PHP"
    } else if is(&e, "lua") {
        "Lua"
    } else if is(&e, "cs") {
        if is_godot_project {
            "GDScript C#"
        } else {
            "C#"
        }
    } else if is(&e, "html") {
        "HTML"
    } else if is(&e, "css") {
        "CSS"
    } else if is(&e, "json") {
        "JSON"
    } else if is(&e, "md") {
        "Markdown"
    } else if is(&e, "yml") || is(&e, "yaml") {
        "YAML"
    } else if is(&e, "toml") {
        "TOML"
    } else if is(&e, "gd") {
        "GDScript"
    } else if is(&e, "tscn") || is(&e, "tres") {
        "Godot Scene"
    } else if is(&e, "shader") {
        "Godot Shader"
    } else {
        "Unknown"
    };
    name.to_owned()
}

/// The tag that opens a markdown code block for `language`.
pub fn markdown_language_tag(language: &str) -> (r: &'static str)
    ensures
        r@ == markdown_tag(language@),
{
    let l = chars_of(language);
    if is(&l, "JavaScript") {
        "js"
    } else if is(&l, "TypeScript") {
        "ts"
    } else if is(&l, "Python") {
        "python"
    } else if is(&l, "Rust") {
        "rust"
    } else if is(&l, "Java") {
        "java"
    } else if is(&l, "Go") {
        "go"
    } else if is(&l, "C/C++") {
        "cpp"
    } else if is(&l, "Ruby") {
        "ruby"
    } else if is(&l, "PHP") {
        "php"
    } else if is(&l, "Lua") {
        "lua"
    } else if is(&l, "C#") || is(&l, "GDScript C#") {
        "csharp"
    } else if is(&l, "HTML") {
        "html"
    } else if is(&l, "CSS") {
        "css"
    } else if is(&l, "JSON") {
        "json"
    } else if is(&l, "Markdown") {
        "md"
    } else if is(&l, "YAML") {
        "yaml"
    } else if is(&l, "TOML") {
        "toml"
    } else if is(&l, "GDScript") || is(&l, "Godot Scene") {
        "gdscript"
    } else if is(&l, "Godot Shader") {
        "glsl"
    } else {
        ""
    }
}

/// The ignore patterns for a project without an ignore file.
pub fn build_ignore_patterns(main_language: &Option<String>, is_godot_project: bool) -> (r:
    PatternSet)
    ensures
        r.wf(),
        r@ == default_patterns(
            match main_language {
                Some(l) => Some(l@),
                None => None,
            },
            is_godot_project,
        ),
{
    let mut p = PatternSet::new();
    p.insert(".git");
    p.insert(".github");
    p.insert(".vscode");
    p.insert(".idea");
    p.insert("node_modules");
    p.insert("target");
    p.insert("build");
    p.insert("dist");
    p.insert("venv");
    p.insert(".venv");
    p.insert("env");
    p.insert(".env");
    p.insert(".DS_Store");
    p.insert("*.log");
    p.insert("*.lock");
    p.insert("yarn.lock");
    p.insert("package-lock.json");
    assert(p@ =~= common_patterns()) by {
        reveal_strlit(".git");
    }
    let ghost common = p@;
    match main_language {
        Some(lang) => {
            let l = chars_of(lang.as_str());
            if is(&l, "JavaScript") || is(&l, "TypeScript") {
                p.insert("node_modules");
                p.insert("*.min.js");
                p.insert("*.bundle.js");
            } else if is(&l, "Python") {
                p.insert("__pycache__");
                p.insert("*.pyc");
                p.insert(".pytest_cache");
            } else if is(&l, "Rust") {
                p.insert("target");
                p.insert("Cargo.lock");
            } else if is(&l, "Java") {
                p.insert("*.class");
                p.insert("bin");
                p.insert("out");
            } else if is(&l, "Go") {
                p.insert("vendor");
                p.insert("*.pb.go");
            } else if is(&l, "Lua") {
                p.insert("*.luac");
                p.insert("luarocks");
            } else if is(&l, "C#") {
                if !is_godot_project {
                    p.insert("bin");
                    p.insert("obj");
                    p.insert("*.dll");
                }
            }
            assert(p@ =~= common.union(language_patterns(lang@, is_godot_project)));
        },
        None => {},
    }
    let ghost base = p@;
    assert(base == match main_language {
        Some(l) => common_patterns().union(language_patterns(l@, is_godot_project)),
        None => common_patterns(),
    });
    if is_godot_project {
        proof {
            reveal_strlit(".import");
            reveal_strlit("addons");
            reveal_strlit(".git");
        }
        assert(".import"@.len() != sentinel().len() && "addons"@.len() != sentinel().len());
        p.remove(".import");
        p.remove("addons");
        assert(p@ == base.remove(".import"@).remove("addons"@));
    }
    p
}

/// The language with the most lines, from `(language, lines)` entries; on a
/// tie the last such entry wins. `None` when there is no entry.
pub fn get_main_language(language_breakdown: &Vec<(String, usize)>) -> (r: Option<String>)
    ensures
        language_breakdown.len() == 0 <==> r is None,
        r is Some ==> exists|k: int|
            is_last_max(language_breakdown@, k) && r->0@ == language_breakdown@[k].0@,
{
    let n = language_breakdown.len();
    if n == 0 {
        return None;
    }
    let mut best: usize = 0;
    let mut i: usize = 1;
    while i < n
        invariant
            n == language_breakdown.len(),
            1 <= i <= n,
            best < i,
            forall|j: int| 0 <= j < i ==> language_breakdown@[j].1 <= language_breakdown@[best as int].1,
            forall|j: int| best < j < i ==> language_breakdown@[j].1 < language_breakdown@[best as int].1,
        decreases n - i,
    {
        if language_breakdown[i].1 >= language_breakdown[best].1 {
            best = i;
        }
        i = i + 1;
    }
    let name = language_breakdown[best].0.clone();
    assert(is_last_max(language_breakdown@, best as int));
    Some(name)
}

/// The names of the files whose presence at a project's root marks a Lua project.
pub fn lua_marker_files() -> (r: Vec<&'static str>)
    ensures
        r@.map_values(|s: &str| s@) == seq!["init.lua"@, "main.lua"@, "conf.lua"@, "config.lua"@],
{
    let r = vec!["init.lua", "main.lua", "conf.lua", "config.lua"];
    assert(r@.map_values(|s: &str| s@) =~= seq!["init.lua"@, "main.lua"@, "conf.lua"@, "config.lua"@]);
    r
}

/// How many `.lua` files near the root make a project a Lua project.
pub const LUA_FILE_THRESHOLD: usize = 5;

/// Whether a walk that found `lua_files` Lua files has found a Lua project.
pub fn enough_lua_files(lua_files: usize) -> (r: bool)
    ensures
        r == (lua_files >= 5),
{
    lua_files >= LUA_FILE_THRESHOLD
}

/// The entries whose presence at a project's root marks a Godot project.
pub fn godot_marker_entries() -> (r: Vec<&'static str>)
    ensures
        r@.map_values(|s: &str| s@) == seq!["project.godot"@, "godot"@, ".godot"@],
{
    let r = vec!["project.godot", "godot", ".godot"];
    assert(r@.map_values(|s: &str| s@) =~= seq!["project.godot"@, "godot"@, ".godot"@]);
    r
}

/// Whether a file with extension `ext` marks a Godot project: a scene or a
/// GDScript file.
pub fn is_godot_source_extension(ext: &str) -> (r: bool)
    ensures
        r == (ext@ == "tscn"@ || ext@ == "gd"@),
{
    let e = chars_of(ext);
    is(&e, "tscn") || is(&e, "gd")
}

/// Whether a file with extension `ext` is a Lua source file.
pub fn is_lua_extension(ext: &str) -> (r: bool)
    ensures
        r == (ext@ == "lua"@),
{
    is(&chars_of(ext), "lua")
}

} // verus!
