//! The digest of a project and its markdown rendering.
use vstd::prelude::*;
use vstd::string::StringExecFns;
use crate::profile::{markdown_language_tag, markdown_tag};

verus! {

/// One file taken into a digest.
pub struct FileInfo {
    pub path: String,
    pub language: Option<String>,
    pub content: String,
}

/// What is known of a project: its name, main language, lines per language
/// and the files taken in.
pub struct Digest {
    pub project_name: String,
    pub main_language: Option<String>,
    pub language_breakdown: Vec<(String, usize)>,
    pub files: Vec<FileInfo>,
}

/// The decimal digits of `n`.
pub open spec fn decimal(n: nat) -> Seq<char>
    decreases n,
{
    if n < 10 {
        seq![digit(n)]
    } else {
        decimal(n / 10).push(digit(n % 10))
    }
}

/// The character of the decimal digit `d`.
pub open spec fn digit(d: nat) -> char {
    if d == 0 {
        '0'
    } else if d == 1 {
        '1'
    } else if d == 2 {
        '2'
    } else if d == 3 {
        '3'
    } else if d == 4 {
        '4'
    } else if d == 5 {
        '5'
    } else if d == 6 {
        '6'
    } else if d == 7 {
        '7'
    } else if d == 8 {
        '8'
    } else {
        '9'
    }
}

/// Where `e` goes in `s`, kept in decreasing order of counts: after every
/// entry whose count is at least its own.
pub open spec fn insertion_point(s: Seq<(String, usize)>, e: (String, usize), i: int) -> int
    decreases s.len() - i,
{
    if i < 0 || i >= s.len() {
        s.len() as int
    } else if s[i].1 < e.1 {
        i
    } else {
        insertion_point(s, e, i + 1)
    }
}

/// The entries of `s` in decreasing order of counts; entries with equal
/// counts keep their order.
pub open spec fn sorted_by_count(s: Seq<(String, usize)>) -> Seq<(String, usize)>
    decreases s.len(),
{
    if s.len() == 0 {
        s
    } else {
        let r = sorted_by_count(s.drop_last());
        r.insert(insertion_point(r, s.last(), 0), s.last())
    }
}

/// One row of the language table.
pub open spec fn table_row(e: (String, usize)) -> Seq<char> {
    "| "@ + e.0@ + " | "@ + decimal(e.1 as nat) + " |\n"@
}

/// The rows of the language table, one per entry, in order.
pub open spec fn table_rows(s: Seq<(String, usize)>) -> Seq<char>
    decreases s.len(),
{
    if s.len() == 0 {
        Seq::empty()
    } else {
        table_rows(s.drop_last()) + table_row(s.last())
    }
}

/// The tag that opens the code block of a file.
pub open spec fn file_tag(language: Option<String>) -> Seq<char> {
    match language {
        Some(l) => markdown_tag(l@),
        None => Seq::empty(),
    }
}

/// The section of one file.
pub open spec fn file_section(f: FileInfo) -> Seq<char> {
    "### "@ + f.path@ + "\n\n"@ + "```"@ + file_tag(f.language) + "\n"@ + f.content@
        + "\n```\n\n"@
}

/// The sections of the files, in order.
pub open spec fn file_sections(s: Seq<FileInfo>) -> Seq<char>
    decreases s.len(),
{
    if s.len() == 0 {
        Seq::empty()
    } else {
        file_sections(s.drop_last()) + file_section(s.last())
    }
}

/// The markdown text of a digest.
pub open spec fn markdown(d: Digest) -> Seq<char> {
    "# Project Digest: "@ + d.project_name@ + "\n\n"@ + "## Language Breakdown\n\n"@ + match d.main_language {
        Some(m) => "Main language: **"@ + m@ + "**\n\n"@,
        None => Seq::empty(),
    } + "| Language | Lines |\n"@ + "|----------|-------|\n"@ + table_rows(
        sorted_by_count(d.language_breakdown@),
    ) + "\n"@ + "## Files\n\n"@ + file_sections(d.files@)
}

/// Appends the decimal digits of `n`.
fn push_decimal(out: &mut String, n: usize)
    ensures
        final(out)@ == old(out)@ + decimal(n as nat),
    decreases n,
{
    if n >= 10 {
        push_decimal(out, n / 10);
    }
    let d = n % 10;
    let c = if d == 0 {
        "0"
    } else if d == 1 {
        "1"
    } else if d == 2 {
        "2"
    } else if d == 3 {
        "3"
    } else if d == 4 {
        "4"
    } else if d == 5 {
        "5"
    } else if d == 6 {
        "6"
    } else if d == 7 {
        "7"
    } else if d == 8 {
        "8"
    } else {
        "9"
    };
    proof {
        reveal_strlit("0");
        reveal_strlit("1");
        reveal_strlit("2");
        reveal_strlit("3");
        reveal_strlit("4");
        reveal_strlit("5");
        reveal_strlit("6");
        reveal_strlit("7");
        reveal_strlit("8");
        reveal_strlit("9");
        assert(c@ =~= seq![digit(d as nat)]);
    }
    out.append(c);
    assert(final(out)@ =~= old(out)@ + decimal(n as nat));
}

/// The `(language, lines)` entries in decreasing order of lines; entries
/// with equal lines keep their order.
pub fn sort_by_lines(entries: &Vec<(String, usize)>) -> (r: Vec<(String, usize)>)
    ensures
        r@ == sorted_by_count(entries@),
{
    let mut r: Vec<(String, usize)> = Vec::new();
    let mut i: usize = 0;
    while i < entries.len()
        invariant
            i <= entries.len(),
            r@ == sorted_by_count(entries@.subrange(0, i as int)),
        decreases entries.len() - i,
    {
        let e = (entries[i].0.clone(), entries[i].1);
        assert(e == entries@[i as int]);
        let mut k: usize = 0;
        while k < r.len() && r[k].1 >= e.1
            invariant
                k <= r.len(),
                insertion_point(r@, e, 0) == insertion_point(r@, e, k as int),
            decreases r.len() - k,
        {
            k = k + 1;
        }
        let ghost before = r@;
        r.insert(k, e);
        assert(entries@.subrange(0, i + 1).drop_last() =~= entries@.subrange(0, i as int));
        assert(entries@.subrange(0, i + 1).last() == e);
        assert(r@ == before.insert(insertion_point(before, e, 0), e));
        i = i + 1;
    }
    assert(entries@.subrange(0, i as int) =~= entries@);
    r
}

/// Renders a digest as markdown: a title, the language table (most lines
/// first) and one fenced code block per file.
pub fn format_markdown(digest: &Digest) -> (r: String)
    ensures
        r@ == markdown(*digest),
{
    let mut out = String::new();
    out.append("# Project Digest: ");
    out.append(digest.project_name.as_str());
    out.append("\n\n");
    out.append("## Language Breakdown\n\n");
    match &digest.main_language {
        Some(m) => {
            out.append("Main language: **");
            out.append(m.as_str());
            out.append("**\n\n");
        },
        None => {},
    }
    out.append("| Language | Lines |\n");
    out.append("|----------|-------|\n");
    let ghost head = out@;
    let languages = sort_by_lines(&digest.language_breakdown);
    let mut i: usize = 0;
    while i < languages.len()
        invariant
            i <= languages.len(),
            out@ == head + table_rows(languages@.subrange(0, i as int)),
        decreases languages.len() - i,
    {
        let ghost before = out@;
        out.append("| ");
        out.append(languages[i].0.as_str());
        out.append(" | ");
        push_decimal(&mut out, languages[i].1);
        out.append(" |\n");
        assert(languages@.subrange(0, i + 1).drop_last() =~= languages@.subrange(0, i as int));
        assert(out@ =~= before + table_row(languages@[i as int]));
        i = i + 1;
    }
    assert(languages@.subrange(0, i as int) =~= languages@);
    out.append("\n");
    out.append("## Files\n\n");
    let ghost mid = out@;
    let mut j: usize = 0;
    while j < digest.files.len()
        invariant
            j <= digest.files.len(),
            out@ == mid + file_sections(digest.files@.subrange(0, j as int)),
        decreases digest.files.len() - j,
    {
        let ghost before = out@;
        let f = &digest.files[j];
        out.append("### ");
        out.append(f.path.as_str());
        out.append("\n\n");
        out.append("```");
        match &f.language {
            Some(l) => {
                let tag = markdown_language_tag(l.as_str());
                out.append(tag);
            },
            None => {},
        }
        out.append("\n");
        out.append(f.content.as_str());
        out.append("\n```\n\n");
        assert(digest.files@.subrange(0, j + 1).drop_last() =~= digest.files@.subrange(0, j as int));
        assert(out@ =~= before + file_section(digest.files@[j as int]));
        j = j + 1;
    }
    assert(digest.files@.subrange(0, j as int) =~= digest.files@);
    out
}

} // verus!
