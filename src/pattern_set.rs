//! Sets of ignore patterns: loading them from the text of an ignore source,
//! combining two sources, and deciding whether a path is excluded.
use vstd::prelude::*;
use crate::pattern::{
    compile, git_dir, git_path, in_git_dir, matches_chars, pattern_matches, shape_of, shortcut, Rule,
};
use crate::text::{
    chars_of, line_at, line_end_exec, line_starts_at, same_chars, slice, trim, trimmed,
};

verus! {

/// The pattern that every set holds: it keeps version-control metadata out.
pub open spec fn sentinel() -> Seq<char> {
    git_dir()
}

/// A path with every `\` turned into `/`.
pub open spec fn normalized(path: Seq<char>) -> Seq<char> {
    Seq::new(path.len(), |i: int| if path[i] == '\\' { '/' } else { path[i] })
}

/// The verdict on `path` under the patterns `s`: it lies in a `.git`
/// directory, or some pattern of `s` matches it.
pub open spec fn is_excluded(path: Seq<char>, s: Set<Seq<char>>) -> bool {
    in_git_dir(path) || exists|q: Seq<char>| #[trigger] s.contains(q) && pattern_matches(q, path)
}

/// A trimmed line that carries a pattern: not empty and not a comment.
pub open spec fn is_pattern_line(t: Seq<char>) -> bool {
    t.len() > 0 && t[0] != '#'
}

/// The patterns that the lines of `text` starting before position `k` carry.
pub open spec fn line_patterns_before(text: Seq<char>, k: int) -> Set<Seq<char>> {
    Set::new(
        |q: Seq<char>|
            exists|i: int|
                #![trigger line_at(text, i)]
                0 <= i < k && line_starts_at(text, i) && q == trim(line_at(text, i))
                    && is_pattern_line(q),
    )
}

/// The set that an ignore source with the text `text` yields: the trimmed
/// lines that are neither empty nor comments, and the sentinel.
pub open spec fn loaded_patterns(text: Seq<char>) -> Set<Seq<char>> {
    line_patterns_before(text, text.len() + 1int).insert(sentinel())
}

/// A set of unique ignore patterns; it always holds the sentinel.
pub struct PatternSet {
    items: Vec<Vec<char>>,
}

impl PatternSet {
    pub closed spec fn texts(&self) -> Seq<Seq<char>> {
        self.items@.map_values(|v: Vec<char>| v@)
    }

    /// The items are unique and hold the sentinel.
    pub closed spec fn wf(&self) -> bool {
        self.texts().no_duplicates() && self.texts().contains(sentinel())
    }
}

impl View for PatternSet {
    type V = Set<Seq<char>>;

    closed spec fn view(&self) -> Set<Seq<char>> {
        self.texts().to_set()
    }
}

impl PatternSet {
    /// The set that holds the sentinel alone.
    pub fn new() -> (r: PatternSet)
        ensures
            r@ == set![sentinel()],
            r.wf(),
    {
        let mut items: Vec<Vec<char>> = Vec::new();
        items.push(chars_of(".git"));
        assert(items@.map_values(|v: Vec<char>| v@) =~= seq![sentinel()]);
        assert(seq![sentinel()][0] == sentinel());
        let r = PatternSet { items };
        assert(r@ =~= set![sentinel()]);
        assert(r.texts()[0] == sentinel());
        r
    }

    /// Where `p` stands among the items, if it is there.
    fn position(&self, p: &Vec<char>) -> (r: Option<usize>)
        ensures
            match r {
                Some(k) => k < self.texts().len() && self.texts()[k as int] == p@,
                None => !self.texts().contains(p@),
            },
    {
        let n = self.items.len();
        let mut i: usize = 0;
        while i < n
            invariant
                n == self.items.len() == self.texts().len(),
                forall|j: int| 0 <= j < i ==> self.texts()[j] != p@,
            decreases n - i,
        {
            assert(self.texts()[i as int] == self.items@[i as int]@);
            if same_chars(&self.items[i], p) {
                return Some(i);
            }
            i = i + 1;
        }
        None
    }

    /// Whether the set holds `pattern`.
    pub fn contains(&self, pattern: &str) -> (r: bool)
        ensures
            r == self@.contains(pattern@),
    {
        let p = chars_of(pattern);
        self.position(&p).is_some()
    }

    /// The number of patterns in the set.
    pub fn len(&self) -> (r: usize)
        requires
            self.wf(),
        ensures
            r == self@.len(),
    {
        proof {
            self.texts().unique_seq_to_set();
        }
        self.items.len()
    }

    fn insert_chars(&mut self, p: Vec<char>)
        requires
            old(self).wf(),
        ensures
            final(self)@ == old(self)@.insert(p@),
            final(self).wf(),
    {
        match self.position(&p) {
            Some(_) => {
                assert(self@ =~= self@.insert(p@));
            },
            None => {
                let ghost old_texts = self.texts();
                self.items.push(p);
                assert(self.texts() =~= old_texts.push(p@));
                assert(self.texts().no_duplicates()) by {
                    assert forall|a: int, b: int|
                        0 <= a < self.texts().len() && 0 <= b < self.texts().len() && a != b
                        implies self.texts()[a] != self.texts()[b] by {
                        if a == old_texts.len() {
                            assert(old_texts[b] == self.texts()[b]);
                            assert(self.texts()[a] == p@);
                        } else if b == old_texts.len() {
                            assert(old_texts[a] == self.texts()[a]);
                        }
                    }
                }
                assert(self.texts().contains(sentinel())) by {
                    let j = choose|j: int| 0 <= j < old_texts.len() && old_texts[j] == sentinel();
                    assert(self.texts()[j] == sentinel());
                }
                assert(self@ =~= old(self)@.insert(p@)) by {
                    assert(old_texts.push(p@).last() == p@);
                    assert forall|q: Seq<char>| old_texts.contains(q) implies #[trigger] self.texts().contains(q) by {
                        let j = choose|j: int| 0 <= j < old_texts.len() && old_texts[j] == q;
                        assert(self.texts()[j] == q);
                    }
                }
            },
        }
    }

    /// Adds `pattern` to the set.
    pub fn insert(&mut self, pattern: &str)
        requires
            old(self).wf(),
        ensures
            final(self)@ == old(self)@.insert(pattern@),
            final(self).wf(),
    {
        self.insert_chars(chars_of(pattern));
    }

    /// Takes `pattern` out of the set; the sentinel stays.
    pub fn remove(&mut self, pattern: &str)
        requires
            old(self).wf(),
        ensures
            final(self).wf(),
            final(self)@ == if pattern@ == sentinel() {
                old(self)@
            } else {
                old(self)@.remove(pattern@)
            },
    {
        let p = chars_of(pattern);
        if same_chars(&p, &chars_of(".git")) {
            return;
        }
        match self.position(&p) {
            None => {
                assert(self@ =~= self@.remove(p@));
            },
            Some(k) => {
                let ghost old_texts = self.texts();
                self.items.remove(k);
                let ghost new_texts = self.texts();
                assert(new_texts =~= old_texts.remove(k as int));
                assert forall|a: int, b: int|
                    0 <= a < new_texts.len() && 0 <= b < new_texts.len() && a != b
                    implies new_texts[a] != new_texts[b] by {
                    let a0 = if a < k { a } else { a + 1 };
                    let b0 = if b < k { b } else { b + 1 };
                    assert(new_texts[a] == old_texts[a0]);
                    assert(new_texts[b] == old_texts[b0]);
                }
                assert(new_texts.contains(sentinel())) by {
                    let j = choose|j: int| 0 <= j < old_texts.len() && old_texts[j] == sentinel();
                    if j < k {
                        assert(new_texts[j] == sentinel());
                    } else {
                        assert(new_texts[j - 1] == sentinel());
                    }
                }
                assert forall|q: Seq<char>| #[trigger] self@.contains(q) <==> old(self)@.remove(p@).contains(q) by {
                    if new_texts.contains(q) {
                        let a = choose|a: int| 0 <= a < new_texts.len() && new_texts[a] == q;
                        let a0 = if a < k { a } else { a + 1 };
                        assert(old_texts[a0] == q);
                        assert(old_texts[k as int] == p@);
                    }
                    if old_texts.contains(q) && q != p@ {
                        let j = choose|j: int| 0 <= j < old_texts.len() && old_texts[j] == q;
                        if j < k {
                            assert(new_texts[j] == q);
                        } else {
                            assert(new_texts[j - 1] == q);
                        }
                    }
                }
                assert(self@ =~= old(self)@.remove(p@));
            },
        }
    }

    /// Adds every pattern of `other` to the set.
    pub fn extend(&mut self, other: &PatternSet)
        requires
            old(self).wf(),
        ensures
            final(self)@ == old(self)@.union(other@),
            final(self).wf(),
    {
        let n = other.items.len();
        let mut i: usize = 0;
        while i < n
            invariant
                n == other.items.len() == other.texts().len(),
                i <= n,
                self@ == old(self)@.union(other.texts().subrange(0, i as int).to_set()),
                self.wf(),
            decreases n - i,
        {
            assert(other.texts()[i as int] == other.items@[i as int]@);
            self.insert_chars(other.items[i].clone());
            assert(other.texts().subrange(0, i + 1) =~= other.texts().subrange(0, i as int).push(
                other.texts()[i as int],
            ));
            assert(other.texts().subrange(0, i + 1).to_set() =~= other.texts().subrange(
                0,
                i as int,
            ).to_set().insert(other.texts()[i as int])) by {
                let s0 = other.texts().subrange(0, i as int);
                let s1 = other.texts().subrange(0, i + 1);
                assert forall|q: Seq<char>| s0.contains(q) implies #[trigger] s1.contains(q) by {
                    let j = choose|j: int| 0 <= j < s0.len() && s0[j] == q;
                    assert(s1[j] == q);
                }
                assert(s1[i as int] == other.texts()[i as int]);
            }
            assert(self@ =~= old(self)@.union(other.texts().subrange(0, i + 1).to_set()));
            i = i + 1;
        }
        assert(other.texts().subrange(0, n as int) =~= other.texts());
        assert(self@ == old(self)@.union(other@));
    }

    /// The union of two sets.
    pub fn union(&self, other: &PatternSet) -> (r: PatternSet)
        requires
            self.wf(),
        ensures
            r@ == self@.union(other@),
            r.wf(),
    {
        let mut r = self.clone_set();
        r.extend(other);
        r
    }

    /// A copy of the set.
    pub fn clone_set(&self) -> (r: PatternSet)
        requires
            self.wf(),
        ensures
            r@ == self@,
            r.wf(),
    {
        let n = self.items.len();
        let mut items: Vec<Vec<char>> = Vec::new();
        let mut i: usize = 0;
        while i < n
            invariant
                n == self.items.len() == self.texts().len(),
                i <= n,
                items.len() == i,
                forall|j: int| 0 <= j < i ==> (#[trigger] items@[j])@ == self.texts()[j],
            decreases n - i,
        {
            let item = self.items[i].clone();
            assert(item@ == self.texts()[i as int]);
            items.push(item);
            i = i + 1;
        }
        let r = PatternSet { items };
        assert(r.texts() =~= self.texts());
        r
    }

    /// Whether `path`, already normalised to `/` separators, is excluded.
    pub fn excludes_chars(&self, path: &Vec<char>) -> (r: bool)
        ensures
            r == is_excluded(path@, self@),
    {
        if git_path(path) {
            return true;
        }
        let n = self.items.len();
        let mut i: usize = 0;
        while i < n
            invariant
                n == self.items.len() == self.texts().len(),
                forall|j: int| 0 <= j < i ==> !pattern_matches(#[trigger] self.texts()[j], path@),
            decreases n - i,
        {
            assert(self.texts()[i as int] == self.items@[i as int]@);
            if matches_chars(&self.items[i], path) {
                assert(self@.contains(self.texts()[i as int]));
                return true;
            }
            i = i + 1;
        }
        assert forall|q: Seq<char>| #[trigger] self@.contains(q) implies !pattern_matches(q, path@) by {
            let j = choose|j: int| 0 <= j < self.texts().len() && self.texts()[j] == q;
        }
        false
    }
}

/// Adds to `r` the pattern that the line of `text` at `i` carries, if any.
fn take_line(r: &mut PatternSet, text: &Vec<char>, i: usize)
    requires
        old(r).wf(),
        i <= text.len(),
        old(r)@ == line_patterns_before(text@, i as int).insert(sentinel()),
    ensures
        final(r).wf(),
        final(r)@ == line_patterns_before(text@, i + 1).insert(sentinel()),
{
    let ghost before = line_patterns_before(text@, i as int);
    let ghost after = line_patterns_before(text@, i + 1);
    if i == 0 || text[i - 1] == '\n' {
        let end = line_end_exec(text, i);
        let line = slice(text, i, end);
        assert(line@ == line_at(text@, i as int));
        let t = trimmed(&line);
        if t.len() > 0 && t[0] != '#' {
            let ghost tv = t@;
            r.insert_chars(t);
            assert(after =~= before.insert(tv)) by {
                assert(line_starts_at(text@, i as int) && tv == trim(line_at(text@, i as int)));
            }
            assert(final(r)@ =~= after.insert(sentinel()));
        } else {
            assert(after =~= before);
        }
    } else {
        assert(after =~= before);
    }
}

/// The patterns of an ignore source whose text is `text`: each line is
/// trimmed, empty lines and `#` comments are dropped, and the sentinel is added.
pub fn parse_ignore_text(text: &str) -> (r: PatternSet)
    ensures
        r.wf(),
        r@ == loaded_patterns(text@),
{
    let c = chars_of(text);
    let n = c.len();
    let mut r = PatternSet::new();
    assert(line_patterns_before(c@, 0) =~= Set::empty());
    assert(r@ =~= line_patterns_before(c@, 0).insert(sentinel()));
    let mut i: usize = 0;
    while i < n
        invariant
            n == c.len(),
            i <= n,
            r.wf(),
            r@ == line_patterns_before(c@, i as int).insert(sentinel()),
        decreases n - i,
    {
        take_line(&mut r, &c, i);
        i = i + 1;
    }
    take_line(&mut r, &c, n);
    r
}

/// The patterns of a set, each compiled once into its rule, ready to be
/// asked about many paths.
pub struct Matcher {
    patterns: Vec<Vec<char>>,
    rules: Vec<Rule>,
}

impl View for Matcher {
    type V = Set<Seq<char>>;

    closed spec fn view(&self) -> Set<Seq<char>> {
        self.patterns@.map_values(|v: Vec<char>| v@).to_set()
    }
}

impl Matcher {
    /// Each rule is the one its pattern compiles to.
    pub closed spec fn wf(&self) -> bool {
        self.patterns.len() == self.rules.len() && forall|i: int|
            0 <= i < self.rules.len() ==> (#[trigger] self.rules@[i])@ == shape_of(
                self.patterns@[i]@,
            )
    }

    /// Whether `path` must be left out of the walk.
    pub fn is_excluded(&self, path: &str) -> (r: bool)
        requires
            self.wf(),
        ensures
            r == is_excluded(normalized(path@), self@),
    {
        let p = normalize(&chars_of(path));
        if git_path(&p) {
            return true;
        }
        let ghost texts = self.patterns@.map_values(|v: Vec<char>| v@);
        let n = self.rules.len();
        let mut i: usize = 0;
        while i < n
            invariant
                self.wf(),
                n == self.rules.len() == texts.len(),
                texts == self.patterns@.map_values(|v: Vec<char>| v@),
                p@ == normalized(path@),
                forall|j: int| 0 <= j < i ==> !pattern_matches(#[trigger] texts[j], p@),
            decreases n - i,
        {
            assert(texts[i as int] == self.patterns@[i as int]@);
            assert(self.rules@[i as int]@ == shape_of(self.patterns@[i as int]@));
            if shortcut(&self.patterns[i], &p) || self.rules[i].matches(&p) {
                assert(self@.contains(texts[i as int]));
                return true;
            }
            i = i + 1;
        }
        assert forall|q: Seq<char>| #[trigger] self@.contains(q) implies !pattern_matches(q, p@) by {
            let j = choose|j: int| 0 <= j < texts.len() && texts[j] == q;
        }
        false
    }
}

impl PatternSet {
    /// Compiles every pattern of the set.
    pub fn compile(&self) -> (r: Matcher)
        ensures
            r.wf(),
            r@ == self@,
    {
        let n = self.items.len();
        let mut patterns: Vec<Vec<char>> = Vec::new();
        let mut rules: Vec<Rule> = Vec::new();
        let mut i: usize = 0;
        while i < n
            invariant
                n == self.items.len(),
                i <= n,
                patterns.len() == i,
                rules.len() == i,
                forall|j: int| 0 <= j < i ==> (#[trigger] patterns@[j])@ == self.items@[j]@,
                forall|j: int|
                    0 <= j < i ==> (#[trigger] rules@[j])@ == shape_of(patterns@[j]@),
            decreases n - i,
        {
            let p = self.items[i].clone();
            rules.push(compile(&p));
            patterns.push(p);
            i = i + 1;
        }
        let r = Matcher { patterns, rules };
        assert(r.patterns@.map_values(|v: Vec<char>| v@) =~= self.texts());
        r
    }
}

/// Why an ignore source contributed no patterns.
#[derive(Debug, PartialEq, Eq, Structural)]
pub enum IgnoreSourceError {
    /// The ignore file does not exist.
    SourceNotFound,
}

/// The patterns of an ignore source, given its text, or `None` when the
/// source does not exist.
pub fn load_ignore_source(text: Option<&str>) -> (r: Result<PatternSet, IgnoreSourceError>)
    ensures
        text is None <==> r is Err,
        r is Err ==> r->Err_0 == IgnoreSourceError::SourceNotFound,
        r is Ok ==> r->Ok_0.wf() && r->Ok_0@ == loaded_patterns(text->0@),
{
    match text {
        Some(t) => Ok(parse_ignore_text(t)),
        None => Err(IgnoreSourceError::SourceNotFound),
    }
}

/// `path` with every `\` turned into `/`.
pub fn normalize(path: &Vec<char>) -> (r: Vec<char>)
    ensures
        r@ == normalized(path@),
{
    let mut r: Vec<char> = Vec::new();
    let mut i: usize = 0;
    while i < path.len()
        invariant
            i <= path.len(),
            r@ == normalized(path@).subrange(0, i as int),
        decreases path.len() - i,
    {
        let c = if path[i] == '\\' {
            '/'
        } else {
            path[i]
        };
        r.push(c);
        assert(r@ =~= normalized(path@).subrange(0, i + 1));
        i = i + 1;
    }
    assert(normalized(path@).subrange(0, i as int) =~= normalized(path@));
    r
}

/// Whether `path` must be left out of the walk under `ignore_patterns`.
pub fn should_ignore(path: &str, ignore_patterns: &PatternSet) -> (r: bool)
    ensures
        r == is_excluded(normalized(path@), ignore_patterns@),
{
    let p = normalize(&chars_of(path));
    ignore_patterns.excludes_chars(&p)
}

} // verus!
