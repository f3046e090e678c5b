//! What the compiler step decides: the main class a source file declares,
//! which files are Java sources, and how classpaths are joined.
use vstd::prelude::*;
use crate::text::{
    chars_of, contains, contains_chars, ends_with, ends_with_chars, find_chars,
    first_occurrence, occurs_at, push_chars, push_str, split_char, split_chars, starts_with,
    starts_with_chars, string_of, trim, trim_chars,
};

verus! {

/// What `char::is_alphanumeric` says of a character (Unicode alphabetic or
/// numeric).
pub uninterp spec fn alphanumeric(c: char) -> bool;

/// `char::is_alphanumeric`. For ASCII the result is stated (letters and
/// digits); beyond ASCII it is named by `alphanumeric` and the Unicode
/// tables are not restated.
#[verifier::external_body]
pub fn is_alphanumeric(c: char) -> (b: bool)
    ensures
        b == alphanumeric(c),
        (c as u32) < 128 ==> b == (('a' <= c && c <= 'z') || ('A' <= c && c <= 'Z') || ('0' <= c
            && c <= '9')),
{
    c.is_alphanumeric()
}

pub open spec fn ident_char(c: char) -> bool {
    alphanumeric(c) || c == '_'
}

/// The leading run of identifier characters.
pub open spec fn ident_prefix_len(s: Seq<char>) -> nat
    decreases s.len(),
{
    if s.len() > 0 && ident_char(s[0]) {
        1 + ident_prefix_len(s.drop_first())
    } else {
        0
    }
}

pub open spec fn ident_prefix(s: Seq<char>) -> Seq<char> {
    s.take(ident_prefix_len(s) as int)
}

/// The package a trimmed source line declares (`package a.b;`).
pub open spec fn line_package(t: Seq<char>) -> Option<Seq<char>> {
    if starts_with(t, "package "@) && ends_with(t, ";"@) {
        Some(trim(t.subrange(8, t.len() - 1)))
    } else {
        None
    }
}

/// The class a trimmed source line declares: the identifier after the
/// first `class `, unless the line starts a comment.
pub open spec fn line_class(t: Seq<char>) -> Option<Seq<char>> {
    match first_occurrence(t, "class "@) {
        Some(pos) => if !starts_with(t, "//"@) && !starts_with(t, "/*"@) && !starts_with(t, "*"@) {
            let name = ident_prefix(trim(t.skip(pos + 6)));
            if name.len() > 0 {
                Some(name)
            } else {
                None
            }
        } else {
            None
        },
        None => None,
    }
}

/// Reading the lines in order: the last package declaration wins, the
/// first class declaration wins.
pub open spec fn scan_lines(lines: Seq<Seq<char>>) -> (Option<Seq<char>>, Option<Seq<char>>)
    decreases lines.len(),
{
    if lines.len() == 0 {
        (None, None)
    } else {
        let (pkg, cls) = scan_lines(lines.drop_last());
        let t = trim(lines.last());
        (
            match line_package(t) {
                Some(p) => Some(p),
                None => pkg,
            },
            match cls {
                Some(c) => Some(c),
                None => line_class(t),
            },
        )
    }
}

/// The fully qualified main class of a source file, if it has a `static
/// void main`: the declared class (else the file stem) qualified by the
/// declared package. Lines are read as `str::lines` gives them, trimmed;
/// the carriage returns `lines` drops are whitespace that trimming removes.
pub open spec fn main_class_of(content: Seq<char>, file_stem: Option<Seq<char>>) -> Option<Seq<char>> {
    if !contains(content, "static void main"@) {
        None
    } else {
        let (pkg, cls) = scan_lines(split_char(content, '\n'));
        let resolved = match cls {
            Some(c) => Some(c),
            None => file_stem,
        };
        match resolved {
            Some(c) => match pkg {
                Some(p) => Some(p + "."@ + c),
                None => Some(c),
            },
            None => None,
        }
    }
}

proof fn lemma_scan_first_class(ls: Seq<Seq<char>>, i: int, c: Seq<char>, k: int)
    requires
        0 <= i < ls.len(),
        line_class(trim(ls[i])) == Some(c),
        forall|j: int| 0 <= j < i ==> line_class(#[trigger] trim(ls[j])) is None,
        forall|j: int| 0 <= j < ls.len() ==> line_package(#[trigger] trim(ls[j])) is None,
        0 <= k <= ls.len(),
    ensures
        scan_lines(ls.take(k)).0 is None,
        scan_lines(ls.take(k)).1 == (if k > i {
            Some(c)
        } else {
            None
        }),
    decreases k,
{
    if k > 0 {
        lemma_scan_first_class(ls, i, c, k - 1);
        assert(ls.take(k).drop_last() =~= ls.take(k - 1));
        assert(ls.take(k).last() == ls[k - 1]);
        assert(line_package(trim(ls[k - 1])) is None);
        if k - 1 < i {
            assert(line_class(trim(ls[k - 1])) is None);
        }
    }
}

/// A source with a `static void main` and no package declaration line
/// has, as its main class, the class its first class declaration names,
/// whatever the file is called.
pub proof fn lemma_main_class_is_declared_class(
    content: Seq<char>,
    file_stem: Option<Seq<char>>,
    i: int,
    c: Seq<char>,
)
    requires
        contains(content, "static void main"@),
        0 <= i < split_char(content, '\n').len(),
        line_class(trim(split_char(content, '\n')[i])) == Some(c),
        forall|j: int| 0 <= j < i ==> line_class(#[trigger] trim(split_char(content, '\n')[j])) is None,
        forall|j: int|
            0 <= j < split_char(content, '\n').len() ==> line_package(
                #[trigger] trim(split_char(content, '\n')[j]),
            ) is None,
    ensures
        main_class_of(content, file_stem) == Some(c),
{
    let ls = split_char(content, '\n');
    lemma_scan_first_class(ls, i, c, ls.len() as int);
    assert(ls.take(ls.len() as int) =~= ls);
}

proof fn lemma_scan_last_package(ls: Seq<Seq<char>>, k: int, p: Seq<char>, m: int)
    requires
        0 <= k < ls.len(),
        line_package(trim(ls[k])) == Some(p),
        forall|j: int| k < j < ls.len() ==> line_package(#[trigger] trim(ls[j])) is None,
        k < m <= ls.len(),
    ensures
        scan_lines(ls.take(m)).0 == Some(p),
    decreases m,
{
    assert(ls.take(m).drop_last() =~= ls.take(m - 1));
    assert(ls.take(m).last() == ls[m - 1]);
    if m - 1 > k {
        lemma_scan_last_package(ls, k, p, m - 1);
        assert(line_package(trim(ls[m - 1])) is None);
    }
}

/// With package declarations, the main class is the class its first class
/// declaration names, qualified by the last package declared.
pub proof fn lemma_main_class_is_qualified(
    content: Seq<char>,
    file_stem: Option<Seq<char>>,
    i: int,
    c: Seq<char>,
    k: int,
    p: Seq<char>,
)
    requires
        contains(content, "static void main"@),
        0 <= i < split_char(content, '\n').len(),
        line_class(trim(split_char(content, '\n')[i])) == Some(c),
        forall|j: int| 0 <= j < i ==> line_class(#[trigger] trim(split_char(content, '\n')[j])) is None,
        0 <= k < split_char(content, '\n').len(),
        line_package(trim(split_char(content, '\n')[k])) == Some(p),
        forall|j: int|
            k < j < split_char(content, '\n').len() ==> line_package(
                #[trigger] trim(split_char(content, '\n')[j]),
            ) is None,
    ensures
        main_class_of(content, file_stem) == Some(p + "."@ + c),
{
    let ls = split_char(content, '\n');
    lemma_scan_last_package(ls, k, p, ls.len() as int);
    lemma_scan_class_only(ls, i, c, ls.len() as int);
    assert(ls.take(ls.len() as int) =~= ls);
}

proof fn lemma_scan_class_only(ls: Seq<Seq<char>>, i: int, c: Seq<char>, m: int)
    requires
        0 <= i < ls.len(),
        line_class(trim(ls[i])) == Some(c),
        forall|j: int| 0 <= j < i ==> line_class(#[trigger] trim(ls[j])) is None,
        0 <= m <= ls.len(),
    ensures
        scan_lines(ls.take(m)).1 == (if m > i {
            Some(c)
        } else {
            None
        }),
    decreases m,
{
    if m > 0 {
        lemma_scan_class_only(ls, i, c, m - 1);
        assert(ls.take(m).drop_last() =~= ls.take(m - 1));
        assert(ls.take(m).last() == ls[m - 1]);
        if m - 1 < i {
            assert(line_class(trim(ls[m - 1])) is None);
        }
    }
}

fn ident_prefix_exec(s: &[char]) -> (r: Vec<char>)
    ensures
        r@ == ident_prefix(s@),
{
    let mut i: usize = 0;
    let mut r: Vec<char> = Vec::new();
    assert(s@.skip(0) =~= s@);
    while i < s.len() && (is_alphanumeric(s[i]) || s[i] == '_')
        invariant
            i <= s.len(),
            r@ == s@.take(i as int),
            ident_prefix_len(s@) == i + ident_prefix_len(s@.skip(i as int)),
        decreases s.len() - i,
    {
        r.push(s[i]);
        assert(s@.take(i as int).push(s@[i as int]) =~= s@.take(i + 1));
        assert(s@.skip(i as int).drop_first() =~= s@.skip(i + 1));
        i += 1;
    }
    r
}

fn slice_of(s: &[char], from: usize, to: usize) -> (r: Vec<char>)
    requires
        from <= to <= s.len(),
    ensures
        r@ == s@.subrange(from as int, to as int),
{
    let mut r: Vec<char> = Vec::new();
    let mut i: usize = from;
    while i < to
        invariant
            from <= i <= to <= s.len(),
            r@ == s@.subrange(from as int, i as int),
        decreases to - i,
    {
        r.push(s[i]);
        assert(s@.subrange(from as int, i as int).push(s@[i as int]) =~= s@.subrange(
            from as int,
            i + 1,
        ));
        i += 1;
    }
    r
}

fn line_package_exec(t: &[char]) -> (r: Option<Vec<char>>)
    ensures
        match r {
            Some(v) => line_package(t@) == Some(v@),
            None => line_package(t@) is None,
        },
{
    let pk = chars_of("package ");
    let semi = chars_of(";");
    if starts_with_chars(t, pk.as_slice()) && ends_with_chars(t, semi.as_slice()) {
        proof {
            reveal_strlit("package ");
            reveal_strlit(";");
            assert(t@.take(8)[7] == ' ');
            assert(t@.skip(t@.len() - 1)[0] == ';');
            assert(t@[t@.len() - 1] == ';');
            assert(t@[7] == ' ');
        }
        let inner = slice_of(t, 8, t.len() - 1);
        Some(trim_chars(inner.as_slice()))
    } else {
        None
    }
}

fn line_class_exec(t: &[char]) -> (r: Option<Vec<char>>)
    ensures
        match r {
            Some(v) => line_class(t@) == Some(v@),
            None => line_class(t@) is None,
        },
{
    let cl = chars_of("class ");
    proof {
        reveal_strlit("class ");
    }
    match find_chars(t, cl.as_slice()) {
        Some(pos) => {
            assert(cl@ == "class "@);
            assert(cl@.len() == 6);
            assert(occurs_at(t@, cl@, pos as int));
            let tl = t.len();
            assert(pos + 6 <= tl);
            let c1 = chars_of("//");
            let c2 = chars_of("/*");
            let c3 = chars_of("*");
            if !starts_with_chars(t, c1.as_slice()) && !starts_with_chars(t, c2.as_slice())
                && !starts_with_chars(t, c3.as_slice()) {
                proof {
                    reveal_strlit("class ");
                }
                let after = slice_of(t, pos + 6, t.len());
                assert(after@ =~= t@.skip(pos + 6));
                let trimmed = trim_chars(after.as_slice());
                let name = ident_prefix_exec(trimmed.as_slice());
                if name.len() > 0 {
                    Some(name)
                } else {
                    None
                }
            } else {
                None
            }
        },
        None => None,
    }
}

/// Detects the main class that a Java source file declares (see
/// `main_class_of`).
pub fn main_class_from_source(content: &str, file_stem: Option<&str>) -> (r: Option<String>)
    ensures
        match r {
            Some(c) => main_class_of(
                content@,
                match file_stem {
                    Some(s) => Some(s@),
                    None => None,
                },
            ) == Some(c@),
            None => main_class_of(
                content@,
                match file_stem {
                    Some(s) => Some(s@),
                    None => None,
                },
            ) is None,
        },
{
    let text = chars_of(content);
    let needle = chars_of("static void main");
    if !contains_chars(text.as_slice(), needle.as_slice()) {
        return None;
    }
    let lines = split_chars(text.as_slice(), '\n');
    let ghost all = split_char(content@, '\n');
    let mut pkg: Option<Vec<char>> = None;
    let mut cls: Option<Vec<char>> = None;
    let mut i: usize = 0;
    while i < lines.len()
        invariant
            i <= lines@.len(),
            all == split_char(content@, '\n'),
            lines@.len() == all.len(),
            forall|k: int| 0 <= k < lines@.len() ==> #[trigger] lines@[k]@ == all[k],
            scan_lines(all.take(i as int)) == (
                match pkg {
                    Some(p) => Some(p@),
                    None => None::<Seq<char>>,
                },
                match cls {
                    Some(c) => Some(c@),
                    None => None::<Seq<char>>,
                },
            ),
        decreases lines.len() - i,
    {
        assert(all.take(i + 1).drop_last() =~= all.take(i as int));
        assert(all.take(i + 1).last() == lines@[i as int]@);
        let t = trim_chars(lines[i].as_slice());
        match line_package_exec(t.as_slice()) {
            Some(p) => {
                pkg = Some(p);
            },
            None => {},
        }
        if cls.is_none() {
            cls = line_class_exec(t.as_slice());
        }
        i += 1;
    }
    assert(all.take(lines@.len() as int) =~= all);
    let resolved: Option<Vec<char>> = match cls {
        Some(c) => Some(c),
        None => match file_stem {
            Some(s) => Some(chars_of(s)),
            None => None,
        },
    };
    match resolved {
        Some(c) => match pkg {
            Some(p) => {
                let mut out = string_of(p.as_slice());
                push_str(&mut out, ".");
                push_chars(&mut out, c.as_slice());
                Some(out)
            },
            None => Some(string_of(c.as_slice())),
        },
        None => None,
    }
}

/// `Path::extension` of a file name equals `ext`: the name ends in `.ext`
/// with something before the dot.
pub open spec fn has_extension(file_name: Seq<char>, ext: Seq<char>) -> bool {
    ends_with(file_name, seq!['.'] + ext) && file_name.len() > ext.len() + 1
}

pub fn has_extension_exec(file_name: &str, ext: &str) -> (b: bool)
    ensures
        b == has_extension(file_name@, ext@),
{
    let f = chars_of(file_name);
    let mut dot_ext = ".".to_owned();
    push_str(&mut dot_ext, ext);
    let d = chars_of(dot_ext.as_str());
    proof {
        reveal_strlit(".");
        assert(d@ =~= seq!['.'] + ext@);
    }
    ends_with_chars(f.as_slice(), d.as_slice()) && f.len() > d.len()
}

/// Parts joined with a separator, as `[String]::join` does.
pub open spec fn join_with(parts: Seq<Seq<char>>, sep: Seq<char>) -> Seq<char>
    decreases parts.len(),
{
    if parts.len() == 0 {
        Seq::empty()
    } else if parts.len() == 1 {
        parts[0]
    } else {
        join_with(parts.drop_last(), sep) + sep + parts.last()
    }
}

pub open spec fn views(parts: Seq<String>) -> Seq<Seq<char>> {
    parts.map_values(|s: String| s@)
}

/// Joins classpath entries with the platform's separator.
pub fn join_classpath(parts: &Vec<String>, separator: &str) -> (r: String)
    ensures
        r@ == join_with(views(parts@), separator@),
{
    let mut r = String::new();
    let mut i: usize = 0;
    while i < parts.len()
        invariant
            i <= parts@.len(),
            r@ == join_with(views(parts@.take(i as int)), separator@),
        decreases parts.len() - i,
    {
        assert(views(parts@.take(i + 1)).drop_last() =~= views(parts@.take(i as int)));
        assert(views(parts@.take(i + 1)).last() == parts@[i as int]@);
        if i > 0 {
            push_str(&mut r, separator);
        } else {
            assert(views(parts@.take(1)) =~= seq![parts@[0]@]);
        }
        push_str(&mut r, parts[i].as_str());
        i += 1;
    }
    assert(parts@.take(parts@.len() as int) =~= parts@);
    r
}

/// The classpath tests compile against: the base classpath followed by the
/// JUnit launcher, or the launcher alone.
pub open spec fn test_compile_classpath(base: Seq<char>, sep: Seq<char>, junit: Seq<char>) -> Seq<char> {
    if base.len() == 0 {
        junit
    } else {
        base + sep + junit
    }
}

pub fn test_compile_classpath_exec(base: &str, separator: &str, junit_jar: &str) -> (r: String)
    ensures
        r@ == test_compile_classpath(base@, separator@, junit_jar@),
{
    if base.unicode_len() == 0 {
        junit_jar.to_owned()
    } else {
        let mut r = base.to_owned();
        push_str(&mut r, separator);
        push_str(&mut r, junit_jar);
        r
    }
}

/// The classpath the JUnit launcher scans: test classes, main classes, then
/// the dependencies.
pub open spec fn test_scan_classpath(test_classes: Seq<char>, classes: Seq<char>, sep: Seq<char>, base: Seq<
    char,
>) -> Seq<char> {
    let scan = test_classes + sep + classes;
    if base.len() == 0 {
        scan
    } else {
        scan + sep + base
    }
}

pub fn test_scan_classpath_exec(test_classes: &str, classes: &str, separator: &str, base: &str) -> (r:
    String)
    ensures
        r@ == test_scan_classpath(test_classes@, classes@, separator@, base@),
{
    let mut r = test_classes.to_owned();
    push_str(&mut r, separator);
    push_str(&mut r, classes);
    if base.unicode_len() > 0 {
        push_str(&mut r, separator);
        push_str(&mut r, base);
    }
    r
}

} // verus!
