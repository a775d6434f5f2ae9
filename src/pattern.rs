//! The pattern grammar: how one ignore pattern is classified into a shape,
//! and when a path matches it.
use vstd::prelude::*;
use crate::text::{
    char_index, chars_of, concat, contains, ends_with, find, find_from, has_char, has_infix, has_prefix,
    has_suffix, index_of_char, last_segment, last_segment_exec, same_chars, segment_at,
    segment_end, segment_end_exec, segment_starts_at, slice, starts_with, trim, trimmed,
};

verus! {

/// The shape of one pattern after trimming: what kind of rule it is and the
/// pieces of its text that the rule compares with a path.
pub enum Shape {
    /// Empty, a comment or a negation: matches nothing.
    Inert,
    /// `**/suffix`
    AnyDepthPrefix { suffix: Seq<char> },
    /// `prefix/**`
    AnyDepthSuffix { prefix: Seq<char> },
    /// `head/**/tail`
    MiddleAnyDepth { head: Seq<char>, tail: Seq<char> },
    /// `dir/` without a wildcard.
    Directory { dir: Seq<char> },
    /// `head*tail/`: a directory name with one wildcard.
    DirectoryWildcard { head: Seq<char>, tail: Seq<char> },
    /// `*suffix`
    StarSuffix { suffix: Seq<char> },
    /// `prefix*`
    PrefixStar { prefix: Seq<char> },
    /// `head*tail`, both non-empty.
    PrefixStarSuffix { head: Seq<char>, tail: Seq<char> },
    /// `*infix*`, as in `*.test.*`.
    StarInfixStar { infix: Seq<char> },
    /// Text without a wildcard or a trailing `/`.
    Literal { text: Seq<char> },
}

/// The path separator, as a sequence.
pub open spec fn slash() -> Seq<char> {
    seq!['/']
}

/// `**/`, which opens an any-depth pattern.
pub open spec fn any_depth_lead() -> Seq<char> {
    seq!['*', '*', '/']
}

/// `/**`, which closes an any-depth pattern.
pub open spec fn any_depth_trail() -> Seq<char> {
    seq!['/', '*', '*']
}

/// `/**/`, any number of directories in the middle of a pattern.
pub open spec fn any_depth_middle() -> Seq<char> {
    seq!['/', '*', '*', '/']
}

/// The directory name that every path is kept away from.
pub open spec fn git_dir() -> Seq<char> {
    ".git"@
}

/// The position of the single `*` of `t`, when `t` holds exactly one.
pub open spec fn single_star(t: Seq<char>) -> Option<int> {
    let k = char_index(t, '*');
    if k < t.len() && !has_char(t.subrange(k + 1, t.len() as int), '*') {
        Some(k)
    } else {
        None
    }
}

/// `t` is `*infix*` with a non-empty infix that holds no `*`.
pub open spec fn is_star_infix_star(t: Seq<char>) -> bool {
    t.len() >= 3 && t[0] == '*' && t.last() == '*' && !has_char(
        t.subrange(1, t.len() - 1),
        '*',
    )
}

/// The shape of a pattern whose text is already trimmed. The first rule
/// that fits decides.
pub open spec fn shape_of_trimmed(t: Seq<char>) -> Shape {
    let n = t.len() as int;
    if n == 0 || t[0] == '#' || t[0] == '!' {
        Shape::Inert
    } else if starts_with(t, any_depth_lead()) {
        Shape::AnyDepthPrefix { suffix: t.subrange(3, n) }
    } else if ends_with(t, any_depth_trail()) {
        Shape::AnyDepthSuffix { prefix: t.subrange(0, n - 3) }
    } else if contains(t, any_depth_middle()) {
        let k = find_from(t, any_depth_middle(), 0);
        Shape::MiddleAnyDepth { head: t.subrange(0, k), tail: t.subrange(k + 4, n) }
    } else if t.last() == '/' {
        let dir = t.drop_last();
        if !has_char(dir, '*') {
            Shape::Directory { dir }
        } else if single_star(dir) is Some {
            let k = single_star(dir)->0;
            Shape::DirectoryWildcard { head: dir.subrange(0, k), tail: dir.subrange(k + 1, n - 1) }
        } else {
            Shape::Inert
        }
    } else if !has_char(t, '*') {
        Shape::Literal { text: t }
    } else if single_star(t) is Some {
        let k = single_star(t)->0;
        if k == 0 {
            Shape::StarSuffix { suffix: t.subrange(1, n) }
        } else if k == n - 1 {
            Shape::PrefixStar { prefix: t.subrange(0, k) }
        } else {
            Shape::PrefixStarSuffix { head: t.subrange(0, k), tail: t.subrange(k + 1, n) }
        }
    } else if is_star_infix_star(t) {
        Shape::StarInfixStar { infix: t.subrange(1, n - 1) }
    } else {
        Shape::Inert
    }
}

/// The shape of a pattern as written in an ignore source.
pub open spec fn shape_of(p: Seq<char>) -> Shape {
    shape_of_trimmed(trim(p))
}

/// `path` has a segment, non-empty, that starts with `head` and ends with `tail`.
pub open spec fn has_wild_segment(path: Seq<char>, head: Seq<char>, tail: Seq<char>) -> bool {
    exists|i: int|
        #![trigger segment_at(path, i)]
        segment_starts_at(path, i) && segment_at(path, i).len() > 0 && starts_with(
            segment_at(path, i),
            head,
        ) && ends_with(segment_at(path, i), tail)
}

/// When `path` matches a pattern of shape `s`.
pub open spec fn shape_matches(s: Shape, path: Seq<char>) -> bool {
    match s {
        Shape::Inert => false,
        Shape::AnyDepthPrefix { suffix } => path == suffix || ends_with(path, slash() + suffix) || (
        suffix.len() > 0 && suffix.last() == '/' && (ends_with(path, suffix.drop_last())
            || contains(path, suffix))),
        Shape::AnyDepthSuffix { prefix } => starts_with(path, prefix + slash()) || contains(
            path,
            slash() + prefix + slash(),
        ),
        Shape::MiddleAnyDepth { head, tail } => (head.len() == 0 || starts_with(path, head)
            || contains(path, slash() + head)) && (tail.len() == 0 || ends_with(path, tail)
            || contains(path, tail + slash())),
        Shape::Directory { dir } => path == dir || starts_with(path, dir + slash()) || contains(
            path,
            slash() + dir + slash(),
        ),
        Shape::DirectoryWildcard { head, tail } => has_wild_segment(path, head, tail),
        Shape::StarSuffix { suffix } => ends_with(last_segment(path), suffix) && (suffix.len()
            == 0 || suffix[0] == '.' || last_segment(path) == suffix),
        Shape::PrefixStar { prefix } => path == prefix || starts_with(path, prefix + slash())
            || contains(path, slash() + prefix + slash()),
        Shape::PrefixStarSuffix { head, tail } => if tail.len() > 0 && tail[0] == '.' {
            contains(last_segment(path), head + tail)
        } else {
            contains(path, head + tail)
        },
        Shape::StarInfixStar { infix } => contains(path, infix),
        Shape::Literal { text } => path == text || ends_with(path, slash() + text) || contains(
            path,
            slash() + text + slash(),
        ),
    }
}

/// `path` has a segment that starts with `test` and is followed by a `/`:
/// a directory whose name begins with `test`.
pub open spec fn has_test_dir_segment(path: Seq<char>) -> bool {
    exists|i: int|
        #![trigger segment_at(path, i)]
        segment_starts_at(path, i) && starts_with(segment_at(path, i), "test"@) && segment_end(
            path,
            i,
        ) < path.len()
}

/// The five patterns that are recognised by their exact text and matched by a
/// dedicated rule, on top of the rule that their shape gives (a path matches
/// when either does). Their shapes alone would match too little:
/// `**/test/**` and `**/test*/**` would need the literal text `test/**` or
/// `test*/**` at the end of the path, and `**/*.md` the name `*.md`. So
/// `**/test/**` matches a `test` directory at any depth; `**/test*/**` a
/// directory whose name starts with `test`, never the last segment of a
/// path unless the path ends with `/`; `**/*.md` any path ending in `.md`;
/// `node_modules/` and `build/` a directory of that name at any depth.
pub open spec fn shortcut_matches(p: Seq<char>, path: Seq<char>) -> bool {
    if p == "**/test/**"@ {
        contains(path, "/test/"@) || starts_with(path, "test/"@)
    } else if p == "**/test*/**"@ {
        has_test_dir_segment(path)
    } else if p == "**/*.md"@ {
        ends_with(path, ".md"@)
    } else if p == "node_modules/"@ {
        starts_with(path, "node_modules/"@) || contains(path, "/node_modules/"@)
    } else if p == "build/"@ {
        starts_with(path, "build/"@) || contains(path, "/build/"@)
    } else {
        false
    }
}

/// When `path` matches the pattern `p`.
pub open spec fn pattern_matches(p: Seq<char>, path: Seq<char>) -> bool {
    shortcut_matches(p, path) || shape_matches(shape_of(p), path)
}

/// `path` lies in, or is, a `.git` directory: one of its segments is `.git`.
pub open spec fn in_git_dir(path: Seq<char>) -> bool {
    exists|i: int|
        #![trigger segment_at(path, i)]
        segment_starts_at(path, i) && segment_at(path, i) == git_dir()
}

/// A pattern compiled once into its shape, holding the pieces of its text
/// that matching compares with a path; one variant per variant of `Shape`.
pub enum Rule {
    Inert,
    AnyDepthPrefix { suffix: Vec<char> },
    AnyDepthSuffix { prefix: Vec<char> },
    MiddleAnyDepth { head: Vec<char>, tail: Vec<char> },
    Directory { dir: Vec<char> },
    DirectoryWildcard { head: Vec<char>, tail: Vec<char> },
    StarSuffix { suffix: Vec<char> },
    PrefixStar { prefix: Vec<char> },
    PrefixStarSuffix { head: Vec<char>, tail: Vec<char> },
    StarInfixStar { infix: Vec<char> },
    Literal { text: Vec<char> },
}

impl View for Rule {
    type V = Shape;

    open spec fn view(&self) -> Shape {
        match self {
            Rule::Inert => Shape::Inert,
            Rule::AnyDepthPrefix { suffix } => Shape::AnyDepthPrefix { suffix: suffix@ },
            Rule::AnyDepthSuffix { prefix } => Shape::AnyDepthSuffix { prefix: prefix@ },
            Rule::MiddleAnyDepth { head, tail } => Shape::MiddleAnyDepth {
                head: head@,
                tail: tail@,
            },
            Rule::Directory { dir } => Shape::Directory { dir: dir@ },
            Rule::DirectoryWildcard { head, tail } => Shape::DirectoryWildcard {
                head: head@,
                tail: tail@,
            },
            Rule::StarSuffix { suffix } => Shape::StarSuffix { suffix: suffix@ },
            Rule::PrefixStar { prefix } => Shape::PrefixStar { prefix: prefix@ },
            Rule::PrefixStarSuffix { head, tail } => Shape::PrefixStarSuffix {
                head: head@,
                tail: tail@,
            },
            Rule::StarInfixStar { infix } => Shape::StarInfixStar { infix: infix@ },
            Rule::Literal { text } => Shape::Literal { text: text@ },
        }
    }
}

/// The separator `/` alone.
fn slash_vec() -> (r: Vec<char>)
    ensures
        r@ == slash(),
{
    let mut r: Vec<char> = Vec::new();
    r.push('/');
    assert(r@ =~= slash());
    r
}

/// The three characters `a`, `b`, `c`.
fn chars3(a: char, b: char, c: char) -> (r: Vec<char>)
    ensures
        r@ == seq![a, b, c],
{
    let mut r: Vec<char> = Vec::new();
    r.push(a);
    r.push(b);
    r.push(c);
    assert(r@ =~= seq![a, b, c]);
    r
}

/// Whether `path` is `text`, ends with `/text`, or holds `/text/`.
fn segment_aligned(path: &Vec<char>, text: &Vec<char>) -> (r: bool)
    ensures
        r == (path@ == text@ || ends_with(path@, slash() + text@) || contains(
            path@,
            slash() + text@ + slash(),
        )),
{
    let sl = slash_vec();
    let lead = concat(&sl, text);
    let wrapped = concat(&lead, &sl);
    same_chars(path, text) || has_suffix(path, &lead) || has_infix(path, &wrapped)
}

/// Whether `path` is `dir`, starts with `dir/`, or holds `/dir/`.
fn directory_aligned(path: &Vec<char>, dir: &Vec<char>) -> (r: bool)
    ensures
        r == (path@ == dir@ || starts_with(path@, dir@ + slash()) || contains(
            path@,
            slash() + dir@ + slash(),
        )),
{
    let sl = slash_vec();
    let trail = concat(dir, &sl);
    let lead = concat(&sl, dir);
    let wrapped = concat(&lead, &sl);
    same_chars(path, dir) || has_prefix(path, &trail) || has_infix(path, &wrapped)
}

/// Whether some non-empty segment of `path` starts with `head` and ends with `tail`.
fn wild_segment(path: &Vec<char>, head: &Vec<char>, tail: &Vec<char>) -> (r: bool)
    ensures
        r == has_wild_segment(path@, head@, tail@),
{
    let n = path.len();
    let mut i: usize = 0;
    while i <= n
        invariant
            n == path.len(),
            forall|j: int|
                #![trigger segment_at(path@, j)]
                0 <= j < i && segment_starts_at(path@, j) ==> !(segment_at(path@, j).len() > 0
                    && starts_with(segment_at(path@, j), head@) && ends_with(
                    segment_at(path@, j),
                    tail@,
                )),
        decreases n + 1 - i,
    {
        if i == 0 || path[i - 1] == '/' {
            let end = segment_end_exec(path, i);
            let seg = slice(path, i, end);
            if seg.len() > 0 && has_prefix(&seg, head) && has_suffix(&seg, tail) {
                assert(segment_starts_at(path@, i as int) && segment_at(path@, i as int)
                    == seg@);
                return true;
            }
        }
        if i == n {
            return false;
        }
        i = i + 1;
    }
    false
}

impl Rule {
    /// Whether `path` matches this rule.
    pub fn matches(&self, path: &Vec<char>) -> (r: bool)
        ensures
            r == shape_matches(self@, path@),
    {
        match self {
            Rule::Inert => false,
            Rule::AnyDepthPrefix { suffix } => {
                let sl = slash_vec();
                let lead = concat(&sl, suffix);
                if same_chars(path, suffix) || has_suffix(path, &lead) {
                    return true;
                }
                if suffix.len() > 0 && suffix[suffix.len() - 1] == '/' {
                    let bare = slice(suffix, 0, suffix.len() - 1);
                    assert(bare@ == suffix@.drop_last());
                    has_suffix(path, &bare) || has_infix(path, suffix)
                } else {
                    false
                }
            },
            Rule::AnyDepthSuffix { prefix } => {
                let sl = slash_vec();
                let trail = concat(prefix, &sl);
                let lead = concat(&sl, prefix);
                let wrapped = concat(&lead, &sl);
                has_prefix(path, &trail) || has_infix(path, &wrapped)
            },
            Rule::MiddleAnyDepth { head, tail } => {
                let sl = slash_vec();
                let lead = concat(&sl, head);
                let trail = concat(tail, &sl);
                let head_ok = head.len() == 0 || has_prefix(path, head) || has_infix(path, &lead);
                let tail_ok = tail.len() == 0 || has_suffix(path, tail) || has_infix(path, &trail);
                head_ok && tail_ok
            },
            Rule::Directory { dir } => directory_aligned(path, dir),
            Rule::DirectoryWildcard { head, tail } => wild_segment(path, head, tail),
            Rule::StarSuffix { suffix } => {
                let last = last_segment_exec(path);
                has_suffix(&last, suffix) && (suffix.len() == 0 || suffix[0] == '.' || same_chars(
                    &last,
                    suffix,
                ))
            },
            Rule::PrefixStar { prefix } => directory_aligned(path, prefix),
            Rule::PrefixStarSuffix { head, tail } => {
                let joined = concat(head, tail);
                if tail.len() > 0 && tail[0] == '.' {
                    let last = last_segment_exec(path);
                    has_infix(&last, &joined)
                } else {
                    has_infix(path, &joined)
                }
            },
            Rule::StarInfixStar { infix } => has_infix(path, infix),
            Rule::Literal { text } => segment_aligned(path, text),
        }
    }
}

/// Classifies a pattern into the rule that decides its matches.
pub fn compile(p: &Vec<char>) -> (r: Rule)
    ensures
        r@ == shape_of(p@),
{
    let t = trimmed(p);
    let n = t.len();
    if n == 0 || t[0] == '#' || t[0] == '!' {
        return Rule::Inert;
    }
    if has_prefix(&t, &chars3('*', '*', '/')) {
        return Rule::AnyDepthPrefix { suffix: slice(&t, 3, n) };
    }
    if has_suffix(&t, &chars3('/', '*', '*')) {
        return Rule::AnyDepthSuffix { prefix: slice(&t, 0, n - 3) };
    }
    let mut middle = chars3('/', '*', '*');
    middle.push('/');
    assert(middle@ =~= any_depth_middle());
    match find(&t, &middle) {
        Some(k) => {
            return Rule::MiddleAnyDepth { head: slice(&t, 0, k), tail: slice(&t, k + 4, n) };
        },
        None => {},
    }
    if t[n - 1] == '/' {
        let dir = slice(&t, 0, n - 1);
        assert(dir@ == t@.drop_last());
        let k = index_of_char(&dir, '*');
        if k == dir.len() {
            return Rule::Directory { dir };
        }
        let rest = slice(&dir, k + 1, dir.len());
        if index_of_char(&rest, '*') == rest.len() {
            return Rule::DirectoryWildcard { head: slice(&dir, 0, k), tail: rest };
        }
        return Rule::Inert;
    }
    let k = index_of_char(&t, '*');
    if k == n {
        return Rule::Literal { text: t };
    }
    let rest = slice(&t, k + 1, n);
    if index_of_char(&rest, '*') == rest.len() {
        if k == 0 {
            return Rule::StarSuffix { suffix: rest };
        } else if k == n - 1 {
            return Rule::PrefixStar { prefix: slice(&t, 0, k) };
        } else {
            return Rule::PrefixStarSuffix { head: slice(&t, 0, k), tail: rest };
        }
    }
    if n >= 3 && t[0] == '*' && t[n - 1] == '*' {
        let infix = slice(&t, 1, n - 1);
        if index_of_char(&infix, '*') == infix.len() {
            return Rule::StarInfixStar { infix };
        }
    }
    Rule::Inert
}

/// Whether some segment of `path` that starts with `test` is followed by a `/`.
fn test_dir_segment(path: &Vec<char>) -> (r: bool)
    ensures
        r == has_test_dir_segment(path@),
{
    let test = chars_of("test");
    let n = path.len();
    let mut i: usize = 0;
    while i <= n
        invariant
            n == path.len(),
            test@ == "test"@,
            forall|j: int|
                #![trigger segment_at(path@, j)]
                0 <= j < i && segment_starts_at(path@, j) ==> !(starts_with(
                    segment_at(path@, j),
                    "test"@,
                ) && segment_end(path@, j) < n),
        decreases n + 1 - i,
    {
        if i == 0 || path[i - 1] == '/' {
            let end = segment_end_exec(path, i);
            let seg = slice(path, i, end);
            if has_prefix(&seg, &test) && end < n {
                assert(segment_starts_at(path@, i as int) && segment_at(path@, i as int)
                    == seg@);
                return true;
            }
        }
        if i == n {
            return false;
        }
        i = i + 1;
    }
    false
}

/// Whether `path` matches one of the five recognised patterns by its dedicated rule.
pub fn shortcut(p: &Vec<char>, path: &Vec<char>) -> (r: bool)
    ensures
        r == shortcut_matches(p@, path@),
{
    if same_chars(p, &chars_of("**/test/**")) {
        has_infix(path, &chars_of("/test/")) || has_prefix(path, &chars_of("test/"))
    } else if same_chars(p, &chars_of("**/test*/**")) {
        test_dir_segment(path)
    } else if same_chars(p, &chars_of("**/*.md")) {
        has_suffix(path, &chars_of(".md"))
    } else if same_chars(p, &chars_of("node_modules/")) {
        has_prefix(path, &chars_of("node_modules/")) || has_infix(
            path,
            &chars_of("/node_modules/"),
        )
    } else if same_chars(p, &chars_of("build/")) {
        has_prefix(path, &chars_of("build/")) || has_infix(path, &chars_of("/build/"))
    } else {
        false
    }
}

/// Whether one segment of `path` is `.git`.
pub fn git_path(path: &Vec<char>) -> (r: bool)
    ensures
        r == in_git_dir(path@),
{
    let git = chars_of(".git");
    let n = path.len();
    let mut i: usize = 0;
    while i <= n
        invariant
            n == path.len(),
            git@ == git_dir(),
            forall|j: int|
                #![trigger segment_at(path@, j)]
                0 <= j < i && segment_starts_at(path@, j) ==> segment_at(path@, j) != git_dir(),
        decreases n + 1 - i,
    {
        if i == 0 || path[i - 1] == '/' {
            let end = segment_end_exec(path, i);
            let seg = slice(path, i, end);
            if same_chars(&seg, &git) {
                assert(segment_starts_at(path@, i as int) && segment_at(path@, i as int)
                    == seg@);
                return true;
            }
        }
        if i == n {
            return false;
        }
        i = i + 1;
    }
    false
}

/// Whether `path` matches the pattern `p`, both given as characters.
pub fn matches_chars(p: &Vec<char>, path: &Vec<char>) -> (r: bool)
    ensures
        r == pattern_matches(p@, path@),
{
    shortcut(p, path) || compile(p).matches(path)
}

/// Whether `path` matches the pattern `pattern`.
pub fn pattern_matches_path(pattern: &str, path: &str) -> (r: bool)
    ensures
        r == pattern_matches(pattern@, path@),
{
    matches_chars(&chars_of(pattern), &chars_of(path))
}

} // verus!
