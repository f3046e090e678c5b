//! File-system paths held as `'/'`-separated strings.
use vstd::prelude::*;
use crate::text::push_str;

verus! {

/// `PathBuf::join` on Unix: an absolute `b` replaces `a`; otherwise a single
/// separator is put between them unless `a` is empty or already ends in one.
/// Paths are joined with `/` on every platform: a Windows drive path such as
/// `C:\x` counts as relative here and is appended, not substituted.
pub open spec fn join_spec(a: Seq<char>, b: Seq<char>) -> Seq<char> {
    if b.len() > 0 && b[0] == '/' {
        b
    } else if a.len() == 0 {
        b
    } else if a.last() == '/' {
        a + b
    } else {
        a + seq!['/'] + b
    }
}

pub fn path_join(a: &str, b: &str) -> (r: String)
    ensures
        r@ == join_spec(a@, b@),
{
    let a_len = a.unicode_len();
    let b_len = b.unicode_len();
    if b_len > 0 && b.get_char(0) == '/' {
        return b.to_owned();
    }
    if a_len == 0 {
        return b.to_owned();
    }
    let mut r = a.to_owned();
    if a.get_char(a_len - 1) != '/' {
        r.push('/');
    }
    push_str(&mut r, b);
    r
}

/// Joins several components in turn.
pub open spec fn join_all(base: Seq<char>, parts: Seq<Seq<char>>) -> Seq<char>
    decreases parts.len(),
{
    if parts.len() == 0 {
        base
    } else {
        join_all(join_spec(base, parts[0]), parts.drop_first())
    }
}

/// The characters after the last `/` of a path (all of it when it has
/// none).
pub open spec fn last_segment(p: Seq<char>) -> Seq<char>
    decreases p.len(),
{
    if p.len() == 0 {
        p
    } else if p.last() == '/' {
        Seq::empty()
    } else {
        last_segment(p.drop_last()).push(p.last())
    }
}

/// A segment that the path rules of Unix and of Windows both read as one
/// ordinary component: not empty, without `/`, `\\` or a drive's `:`, and
/// neither `.` nor `..`.
pub open spec fn plain_segment(w: Seq<char>) -> bool {
    &&& w.len() > 0
    &&& !w.contains('/')
    &&& !w.contains('\\')
    &&& !w.contains(':')
    &&& w != seq!['.']
    &&& w != seq!['.', '.']
}

/// `std::path::Path::file_name`, read back as a `String`. Where components
/// split depends on the platform the crate is built for; what holds on
/// Unix and on Windows alike is stated. The name is a non-empty run of
/// consecutive characters of the path. For a path without `\\` (so without
/// a Windows verbatim or network prefix), `/` separates components on
/// both, so the name holds no `/`, and a last segment that both read as an
/// ordinary component is the name.
#[verifier::external_body]
pub fn path_file_name(p: &str) -> (r: Option<String>)
    ensures
        r matches Some(s) ==> s@.len() > 0 && exists|i: int|
            0 <= i && i + s@.len() <= p@.len() && #[trigger] p@.subrange(i, i + s@.len()) == s@,
        r matches Some(s) ==> (!p@.contains('\u{5c}') ==> !s@.contains('/')),
        match r {
            Some(s) => !p@.contains('\u{5c}') && plain_segment(last_segment(p@)) ==> s@ == last_segment(p@),
            None => p@.contains('\u{5c}') || !plain_segment(last_segment(p@)),
        },
{
    std::path::Path::new(p).file_name().and_then(|f| f.to_str()).map(|s| s.to_string())
}

/// `std::path::Path::parent`, read back as a `String`. Where the last
/// component ends depends on the path rules of the platform the crate is
/// built for, so only what holds on every platform is stated: the parent is
/// a beginning of the path.
#[verifier::external_body]
pub fn path_parent(p: &str) -> (r: Option<String>)
    ensures
        r matches Some(q) ==> q@.len() <= p@.len() && q@ == p@.take(q@.len() as int),
{
    std::path::Path::new(p).parent().map(|q| q.to_string_lossy().to_string())
}

/// Windows verbatim paths (`\\?\C:\...`) lose their `\\?\` prefix.
pub open spec fn clean_path_spec(p: Seq<char>) -> Seq<char> {
    if p.len() >= 4 && p.take(4) == seq!['\\', '\\', '?', '\\'] {
        p.skip(4)
    } else {
        p
    }
}

pub fn clean_path(p: &str) -> (r: String)
    ensures
        r@ == clean_path_spec(p@),
{
    let v = crate::text::chars_of(p);
    if v.len() >= 4 && v[0] == '\\' && v[1] == '\\' && v[2] == '?' && v[3] == '\\' {
        let mut rest: Vec<char> = Vec::new();
        let mut i: usize = 4;
        while i < v.len()
            invariant
                4 <= i <= v.len(),
                rest@ == v@.subrange(4, i as int),
            decreases v.len() - i,
        {
            rest.push(v[i]);
            assert(v@.subrange(4, i as int).push(v@[i as int]) =~= v@.subrange(4, i + 1));
            i += 1;
        }
        assert(v@.take(4) =~= seq!['\\', '\\', '?', '\\']);
        assert(rest@ =~= v@.skip(4));
        crate::text::string_of(rest.as_slice())
    } else {
        proof {
            if v@.len() >= 4 && v@.take(4) == seq!['\\', '\\', '?', '\\'] {
                assert(v@.take(4)[0] == v@[0]);
                assert(v@.take(4)[1] == v@[1]);
                assert(v@.take(4)[2] == v@[2]);
                assert(v@.take(4)[3] == v@[3]);
            }
        }
        p.to_owned()
    }
}

} // verus!
