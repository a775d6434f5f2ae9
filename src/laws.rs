//! Properties of the exclusion verdict that hold across calls and inputs.
use vstd::prelude::*;
use crate::pattern::{git_dir, in_git_dir, pattern_matches, shape_of, shortcut_matches, Shape};
use crate::pattern_set::{is_excluded, is_pattern_line, loaded_patterns, sentinel};
use crate::text::{
    is_space, line_at, line_starts_at, segment_at, segment_end, segment_starts_at, trim, trim_end,
    trim_start,
};

verus! {

/// A path that has a `.git` segment is excluded whatever the patterns are.
pub proof fn lemma_git_always_excluded(path: Seq<char>, s: Set<Seq<char>>)
    requires
        exists|i: int|
            #![trigger segment_at(path, i)]
            segment_starts_at(path, i) && segment_at(path, i) == git_dir(),
    ensures
        is_excluded(path, s),
{
}

/// The path `.git` itself is excluded whatever the patterns are.
pub proof fn lemma_git_dir_excluded(s: Set<Seq<char>>)
    ensures
        is_excluded(git_dir(), s),
{
    reveal_strlit(".git");
    let g = git_dir();
    assert(g.len() == 4 && g[0] != '/' && g[1] != '/' && g[2] != '/' && g[3] != '/');
    assert(segment_end(g, 4) == 4);
    assert(segment_end(g, 3) == 4);
    assert(segment_end(g, 2) == 4);
    assert(segment_end(g, 1) == 4);
    assert(segment_end(g, 0) == 4);
    assert(g.subrange(0, 4) =~= g);
    assert(segment_starts_at(g, 0) && segment_at(g, 0) == g);
}

/// The verdict does not depend on the order in which the patterns come:
/// two lists that hold the same patterns, as many times each, exclude the
/// same paths.
pub proof fn lemma_order_independent(path: Seq<char>, a: Seq<Seq<char>>, b: Seq<Seq<char>>)
    requires
        a.to_multiset() == b.to_multiset(),
    ensures
        is_excluded(path, a.to_set()) == is_excluded(path, b.to_set()),
{
    a.to_multiset_ensures();
    b.to_multiset_ensures();
    assert forall|x: Seq<char>| a.to_set().contains(x) == b.to_set().contains(x) by {
        assert(a.to_multiset().count(x) == b.to_multiset().count(x));
        assert(a.contains(x) <==> a.to_multiset().count(x) > 0);
        assert(b.contains(x) <==> b.to_multiset().count(x) > 0);
    }
    assert(a.to_set() =~= b.to_set());
}

/// Adding patterns never takes an exclusion away.
pub proof fn lemma_monotone(path: Seq<char>, s: Set<Seq<char>>, t: Set<Seq<char>>)
    requires
        s.subset_of(t),
        is_excluded(path, s),
    ensures
        is_excluded(path, t),
{
    if !in_git_dir(path) {
        let q = choose|q: Seq<char>| #[trigger] s.contains(q) && pattern_matches(q, path);
        assert(t.contains(q));
    }
}

/// A path is excluded by the union of two sources exactly when one of them
/// excludes it.
pub proof fn lemma_union_excludes(path: Seq<char>, s: Set<Seq<char>>, t: Set<Seq<char>>)
    ensures
        is_excluded(path, s.union(t)) == (is_excluded(path, s) || is_excluded(path, t)),
{
    if is_excluded(path, s.union(t)) && !in_git_dir(path) {
        let q = choose|q: Seq<char>| #[trigger] s.union(t).contains(q) && pattern_matches(q, path);
        if s.contains(q) {
        } else {
            assert(t.contains(q));
        }
    }
    if is_excluded(path, s) {
        lemma_monotone(path, s, s.union(t));
    }
    if is_excluded(path, t) {
        lemma_monotone(path, t, s.union(t));
    }
}

proof fn lemma_trim_end_keeps_head(s: Seq<char>)
    requires
        s.len() > 0,
        !is_space(s[0]),
    ensures
        trim_end(s).len() > 0,
        trim_end(s)[0] == s[0],
    decreases s.len(),
{
    if is_space(s.last()) {
        assert(s.len() > 1);
        lemma_trim_end_keeps_head(s.drop_last());
    }
}

/// A negated pattern (one that starts with `!`) matches no path: it neither
/// excludes nor brings back anything.
pub proof fn lemma_negation_inert(q: Seq<char>, path: Seq<char>)
    requires
        q.len() > 0,
        q[0] == '!',
    ensures
        !pattern_matches(q, path),
{
    reveal_strlit("**/test/**");
    reveal_strlit("**/test*/**");
    reveal_strlit("**/*.md");
    reveal_strlit("node_modules/");
    reveal_strlit("build/");
    assert(q != "**/test/**"@ && q != "**/test*/**"@ && q != "**/*.md"@);
    assert(q != "node_modules/"@ && q != "build/"@);
    assert(!shortcut_matches(q, path));
    assert(trim_start(q) == q);
    lemma_trim_end_keeps_head(q);
    assert(trim(q)[0] == '!');
    assert(shape_of(q) == Shape::Inert);
}

/// Loading an ignore source always yields the sentinel, and every other
/// pattern it yields is a trimmed line that is neither empty nor a comment.
pub proof fn lemma_loaded_patterns(text: Seq<char>, q: Seq<char>)
    ensures
        loaded_patterns(text).contains(sentinel()),
        loaded_patterns(text).contains(q) ==> q == sentinel() || (is_pattern_line(q) && q
            == trim(q)),
{
    if loaded_patterns(text).contains(q) && q != sentinel() {
        let i = choose|i: int|
            #![trigger line_at(text, i)]
            0 <= i < text.len() + 1 && line_starts_at(text, i) && q == trim(line_at(text, i))
                && is_pattern_line(q);
        lemma_trim_idempotent(line_at(text, i));
    }
}

proof fn lemma_trim_start_idempotent(s: Seq<char>)
    ensures
        trim_start(trim_start(s)) == trim_start(s),
        trim_start(s).len() == 0 || !is_space(trim_start(s)[0]),
    decreases s.len(),
{
    if s.len() > 0 && is_space(s[0]) {
        lemma_trim_start_idempotent(s.drop_first());
    }
}

proof fn lemma_trim_end_idempotent(s: Seq<char>)
    ensures
        trim_end(trim_end(s)) == trim_end(s),
        trim_end(s).len() == 0 || !is_space(trim_end(s).last()),
    decreases s.len(),
{
    if s.len() > 0 && is_space(s.last()) {
        lemma_trim_end_idempotent(s.drop_last());
    }
}

proof fn lemma_trim_end_prefix(s: Seq<char>)
    ensures
        trim_end(s) == s.subrange(0, trim_end(s).len() as int),
        trim_end(s).len() <= s.len(),
    decreases s.len(),
{
    if s.len() > 0 && is_space(s.last()) {
        lemma_trim_end_prefix(s.drop_last());
        assert(s.drop_last().subrange(0, trim_end(s).len() as int) =~= s.subrange(
            0,
            trim_end(s).len() as int,
        ));
    } else {
        assert(s.subrange(0, s.len() as int) =~= s);
    }
}

/// Trimming twice is trimming once.
proof fn lemma_trim_idempotent(s: Seq<char>)
    ensures
        trim(trim(s)) == trim(s),
{
    let a = trim_start(s);
    let b = trim_end(a);
    lemma_trim_start_idempotent(s);
    lemma_trim_end_idempotent(a);
    lemma_trim_end_prefix(a);
    if b.len() > 0 {
        assert(b[0] == a[0]);
        assert(trim_start(b) == b);
    } else {
        assert(trim_start(b) == b);
    }
}

} // verus!
