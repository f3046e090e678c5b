//! Character-level text utilities shared by the whole crate: trimming,
//! splitting, searching and decimal conversion, each with its meaning
//! stated over `Seq<char>`.
use vstd::prelude::*;

verus! {

pub assume_specification[ String::push ](string: &mut String, ch: char)
    ensures
        final(string)@ == old(string)@.push(ch),
;

// ---------------------------------------------------------------------------
// Character classes
// ---------------------------------------------------------------------------

/// Unicode `White_Space`, the class that `char::is_whitespace`, `str::trim`
/// and `str::split_whitespace` use.
pub open spec fn is_ws(c: char) -> bool {
    ||| ('\u{9}' <= c && c <= '\u{D}')
    ||| c == ' '
    ||| c == '\u{85}'
    ||| c == '\u{A0}'
    ||| c == '\u{1680}'
    ||| ('\u{2000}' <= c && c <= '\u{200A}')
    ||| c == '\u{2028}'
    ||| c == '\u{2029}'
    ||| c == '\u{202F}'
    ||| c == '\u{205F}'
    ||| c == '\u{3000}'
}

pub fn is_ws_exec(c: char) -> (b: bool)
    ensures
        b == is_ws(c),
{
    ('\u{9}' <= c && c <= '\u{D}') || c == ' ' || c == '\u{85}' || c == '\u{A0}' || c
        == '\u{1680}' || ('\u{2000}' <= c && c <= '\u{200A}') || c == '\u{2028}' || c
        == '\u{2029}' || c == '\u{202F}' || c == '\u{205F}' || c == '\u{3000}'
}

pub open spec fn is_digit(c: char) -> bool {
    '0' <= c && c <= '9'
}

/// `char::is_ascii_graphic`: from `!` to `~`.
pub open spec fn is_graphic(c: char) -> bool {
    '!' <= c && c <= '~'
}

/// `char::is_ascii_lowercase` / uppercase letters folded by `to_ascii_lowercase`.
pub open spec fn ascii_lower(c: char) -> char {
    if 'A' <= c && c <= 'Z' {
        ((c as u32) + 32) as char
    } else {
        c
    }
}

pub open spec fn ascii_lower_seq(s: Seq<char>) -> Seq<char> {
    s.map_values(|c: char| ascii_lower(c))
}

/// `str::eq_ignore_ascii_case`.
pub open spec fn eq_ignore_ascii_case(a: Seq<char>, b: Seq<char>) -> bool {
    ascii_lower_seq(a) == ascii_lower_seq(b)
}

// ---------------------------------------------------------------------------
// Trimming
// ---------------------------------------------------------------------------

pub open spec fn trim_start(s: Seq<char>) -> Seq<char>
    decreases s.len(),
{
    if s.len() > 0 && is_ws(s[0]) {
        trim_start(s.drop_first())
    } else {
        s
    }
}

pub open spec fn trim_end(s: Seq<char>) -> Seq<char>
    decreases s.len(),
{
    if s.len() > 0 && is_ws(s.last()) {
        trim_end(s.drop_last())
    } else {
        s
    }
}

/// `str::trim`.
pub open spec fn trim(s: Seq<char>) -> Seq<char> {
    trim_end(trim_start(s))
}

pub fn trim_chars(s: &[char]) -> (r: Vec<char>)
    ensures
        r@ == trim(s@),
{
    let n = s.len();
    let mut i: usize = 0;
    assert(s@.subrange(0, n as int) =~= s@);
    while i < n && is_ws_exec(s[i])
        invariant
            i <= n,
            n == s@.len(),
            trim_start(s@) == trim_start(s@.subrange(i as int, n as int)),
        decreases n - i,
    {
        assert(s@.subrange(i as int, n as int).drop_first() =~= s@.subrange(i + 1, n as int));
        i += 1;
    }
    assert(trim_start(s@) == s@.subrange(i as int, n as int));
    let mut j: usize = n;
    while j > i && is_ws_exec(s[j - 1])
        invariant
            i <= j <= n,
            n == s@.len(),
            trim(s@) == trim_end(s@.subrange(i as int, j as int)),
        decreases j - i,
    {
        assert(s@.subrange(i as int, j as int).drop_last() =~= s@.subrange(i as int, j - 1));
        j -= 1;
    }
    let mut r: Vec<char> = Vec::new();
    let mut k: usize = i;
    while k < j
        invariant
            i <= k <= j <= n,
            n == s@.len(),
            r@ == s@.subrange(i as int, k as int),
        decreases j - k,
    {
        r.push(s[k]);
        assert(s@.subrange(i as int, k as int).push(s@[k as int]) =~= s@.subrange(i as int, k + 1));
        k += 1;
    }
    r
}

// ---------------------------------------------------------------------------
// Splitting
// ---------------------------------------------------------------------------

pub open spec fn split_acc(s: Seq<char>, sep: char, cur: Seq<char>) -> Seq<Seq<char>>
    decreases s.len(),
{
    if s.len() == 0 {
        seq![cur]
    } else if s[0] == sep {
        seq![cur] + split_acc(s.drop_first(), sep, Seq::empty())
    } else {
        split_acc(s.drop_first(), sep, cur.push(s[0]))
    }
}

/// `str::split` on one character: the pieces between the separators, at
/// least one.
pub open spec fn split_char(s: Seq<char>, sep: char) -> Seq<Seq<char>> {
    split_acc(s, sep, Seq::empty())
}

pub proof fn lemma_split_acc_nonempty(s: Seq<char>, sep: char, cur: Seq<char>)
    ensures
        split_acc(s, sep, cur).len() >= 1,
    decreases s.len(),
{
    if s.len() > 0 {
        if s[0] == sep {
            lemma_split_acc_nonempty(s.drop_first(), sep, Seq::empty());
        } else {
            lemma_split_acc_nonempty(s.drop_first(), sep, cur.push(s[0]));
        }
    }
}

pub fn split_chars(s: &[char], sep: char) -> (r: Vec<Vec<char>>)
    ensures
        r@.len() == split_char(s@, sep).len(),
        r@.len() >= 1,
        forall|k: int| 0 <= k < r@.len() ==> #[trigger] r@[k]@ == split_char(s@, sep)[k],
{
    let ghost whole = split_char(s@, sep);
    let mut done: Vec<Vec<char>> = Vec::new();
    let mut cur: Vec<char> = Vec::new();
    let mut i: usize = 0;
    let n = s.len();
    assert(s@.subrange(0, n as int) =~= s@);
    while i < n
        invariant
            i <= n,
            n == s@.len(),
            whole == split_char(s@, sep),
            done@.map_values(|v: Vec<char>| v@) + split_acc(s@.subrange(i as int, n as int), sep, cur@)
                == whole,
        decreases n - i,
    {
        let ghost rest = s@.subrange(i as int, n as int);
        assert(rest.drop_first() =~= s@.subrange(i + 1, n as int));
        if s[i] == sep {
            let ghost before = done@.map_values(|v: Vec<char>| v@);
            let piece = cur;
            done.push(piece);
            cur = Vec::new();
            assert(done@.map_values(|v: Vec<char>| v@) =~= before.push(piece@));
            assert(before + (seq![piece@] + split_acc(rest.drop_first(), sep, Seq::empty()))
                =~= before.push(piece@) + split_acc(rest.drop_first(), sep, Seq::empty()));
        } else {
            cur.push(s[i]);
        }
        i += 1;
    }
    let ghost before = done@.map_values(|v: Vec<char>| v@);
    let last = cur;
    done.push(last);
    assert(done@.map_values(|v: Vec<char>| v@) =~= before.push(last@));
    assert(before + split_acc(s@.subrange(n as int, n as int), sep, last@) =~= before.push(last@));
    assert forall|k: int| 0 <= k < done@.len() implies #[trigger] done@[k]@ == whole[k] by {
        assert(done@.map_values(|v: Vec<char>| v@)[k] == done@[k]@);
    }
    done
}

pub open spec fn flush(cur: Seq<char>) -> Seq<Seq<char>> {
    if cur.len() > 0 {
        seq![cur]
    } else {
        Seq::empty()
    }
}

pub open spec fn words_acc(s: Seq<char>, cur: Seq<char>) -> Seq<Seq<char>>
    decreases s.len(),
{
    if s.len() == 0 {
        flush(cur)
    } else if is_ws(s[0]) {
        flush(cur) + words_acc(s.drop_first(), Seq::empty())
    } else {
        words_acc(s.drop_first(), cur.push(s[0]))
    }
}

/// `str::split_whitespace`: the maximal runs of non-whitespace characters.
pub open spec fn words(s: Seq<char>) -> Seq<Seq<char>> {
    words_acc(s, Seq::empty())
}

pub fn words_of(s: &[char]) -> (r: Vec<Vec<char>>)
    ensures
        r@.len() == words(s@).len(),
        forall|k: int| 0 <= k < r@.len() ==> #[trigger] r@[k]@ == words(s@)[k],
{
    let ghost whole = words(s@);
    let mut done: Vec<Vec<char>> = Vec::new();
    let mut cur: Vec<char> = Vec::new();
    let mut i: usize = 0;
    let n = s.len();
    assert(s@.subrange(0, n as int) =~= s@);
    while i < n
        invariant
            i <= n,
            n == s@.len(),
            whole == words(s@),
            done@.map_values(|v: Vec<char>| v@) + words_acc(s@.subrange(i as int, n as int), cur@)
                == whole,
        decreases n - i,
    {
        let ghost rest = s@.subrange(i as int, n as int);
        assert(rest.drop_first() =~= s@.subrange(i + 1, n as int));
        if is_ws_exec(s[i]) {
            let ghost before = done@.map_values(|v: Vec<char>| v@);
            if cur.len() > 0 {
                let piece = cur;
                done.push(piece);
                assert(done@.map_values(|v: Vec<char>| v@) =~= before.push(piece@));
                assert(before + (flush(piece@) + words_acc(rest.drop_first(), Seq::empty()))
                    =~= before.push(piece@) + words_acc(rest.drop_first(), Seq::empty()));
            } else {
                assert(before + (flush(cur@) + words_acc(rest.drop_first(), Seq::empty()))
                    =~= before + words_acc(rest.drop_first(), Seq::empty()));
            }
            cur = Vec::new();
        } else {
            cur.push(s[i]);
        }
        i += 1;
    }
    let ghost before = done@.map_values(|v: Vec<char>| v@);
    if cur.len() > 0 {
        let last = cur;
        done.push(last);
        assert(done@.map_values(|v: Vec<char>| v@) =~= before.push(last@));
        assert(before + words_acc(s@.subrange(n as int, n as int), last@) =~= before.push(last@));
    } else {
        assert(before + words_acc(s@.subrange(n as int, n as int), cur@) =~= before);
    }
    assert forall|k: int| 0 <= k < done@.len() implies #[trigger] done@[k]@ == whole[k] by {
        assert(done@.map_values(|v: Vec<char>| v@)[k] == done@[k]@);
    }
    done
}

// ---------------------------------------------------------------------------
// Searching
// ---------------------------------------------------------------------------

pub open spec fn occurs_at(h: Seq<char>, n: Seq<char>, i: int) -> bool {
    0 <= i && i + n.len() <= h.len() && h.subrange(i, i + n.len()) == n
}

/// `str::contains` with a string pattern.
pub open spec fn contains(h: Seq<char>, n: Seq<char>) -> bool {
    exists|i: int| occurs_at(h, n, i)
}

pub open spec fn starts_with(s: Seq<char>, p: Seq<char>) -> bool {
    p.len() <= s.len() && s.take(p.len() as int) == p
}

pub open spec fn ends_with(s: Seq<char>, p: Seq<char>) -> bool {
    p.len() <= s.len() && s.skip(s.len() - p.len()) == p
}

pub fn occurs_at_exec(h: &[char], n: &[char], i: usize) -> (b: bool)
    ensures
        b == occurs_at(h@, n@, i as int),
{
    if i > h.len() || n.len() > h.len() - i {
        return false;
    }
    let mut k: usize = 0;
    while k < n.len()
        invariant
            k <= n.len(),
            i + n.len() <= h.len(),
            forall|j: int| 0 <= j < k ==> h@[i + j] == n@[j],
        decreases n.len() - k,
    {
        if h[i + k] != n[k] {
            assert(h@.subrange(i as int, i + n.len())[k as int] != n@[k as int]);
            return false;
        }
        k += 1;
    }
    assert(h@.subrange(i as int, i + n.len()) =~= n@);
    true
}

/// The first position at or after `i` where `n` occurs in `h`.
pub open spec fn find_from(h: Seq<char>, n: Seq<char>, i: int) -> Option<int>
    decreases h.len() + 1 - i,
{
    if i < 0 || i > h.len() {
        None
    } else if occurs_at(h, n, i) {
        Some(i)
    } else {
        find_from(h, n, i + 1)
    }
}

/// The first position where `n` occurs in `h`, as `str::find` gives it.
pub open spec fn first_occurrence(h: Seq<char>, n: Seq<char>) -> Option<int> {
    find_from(h, n, 0)
}

pub proof fn lemma_find_from(h: Seq<char>, n: Seq<char>, i: int)
    requires
        0 <= i,
    ensures
        find_from(h, n, i) matches Some(k) ==> i <= k && occurs_at(h, n, k) && forall|j: int|
            i <= j < k ==> !occurs_at(h, n, j),
        find_from(h, n, i) is None ==> forall|j: int| i <= j ==> !occurs_at(h, n, j),
    decreases h.len() + 1 - i,
{
    if i <= h.len() && !occurs_at(h, n, i) {
        lemma_find_from(h, n, i + 1);
    }
}

pub proof fn lemma_first_occurrence(h: Seq<char>, n: Seq<char>)
    ensures
        first_occurrence(h, n) is Some <==> contains(h, n),
        first_occurrence(h, n) matches Some(k) ==> occurs_at(h, n, k) && forall|j: int|
            0 <= j < k ==> !occurs_at(h, n, j),
{
    lemma_find_from(h, n, 0);
    if contains(h, n) {
        let k = choose|k: int| occurs_at(h, n, k);
        assert(0 <= k);
    }
}

pub fn find_chars(h: &[char], n: &[char]) -> (r: Option<usize>)
    ensures
        r matches Some(i) ==> first_occurrence(h@, n@) == Some(i as int),
        r is None ==> first_occurrence(h@, n@) is None,
        r matches Some(i) ==> occurs_at(h@, n@, i as int) && forall|j: int|
            0 <= j < i ==> !occurs_at(h@, n@, j),
        r is None <==> !contains(h@, n@),
{
    proof {
        lemma_first_occurrence(h@, n@);
    }
    let mut i: usize = 0;
    while i <= h.len()
        invariant
            i <= h.len() + 1,
            find_from(h@, n@, 0) == find_from(h@, n@, i as int),
            first_occurrence(h@, n@) is Some <==> contains(h@, n@),
            first_occurrence(h@, n@) matches Some(k) ==> occurs_at(h@, n@, k) && forall|j: int|
                0 <= j < k ==> !occurs_at(h@, n@, j),
        decreases h.len() + 1 - i,
    {
        if occurs_at_exec(h, n, i) {
            return Some(i);
        }
        if i == h.len() {
            assert(find_from(h@, n@, i + 1) is None);
            return None;
        }
        i += 1;
    }
    None
}

pub fn contains_chars(h: &[char], n: &[char]) -> (b: bool)
    ensures
        b == contains(h@, n@),
{
    find_chars(h, n).is_some()
}

pub fn starts_with_chars(s: &[char], p: &[char]) -> (b: bool)
    ensures
        b == starts_with(s@, p@),
{
    let r = occurs_at_exec(s, p, 0);
    proof {
        if p@.len() <= s@.len() {
            assert(s@.subrange(0, p@.len() as int) =~= s@.take(p@.len() as int));
        }
    }
    r
}

pub fn ends_with_chars(s: &[char], p: &[char]) -> (b: bool)
    ensures
        b == ends_with(s@, p@),
{
    if p.len() > s.len() {
        return false;
    }
    let r = occurs_at_exec(s, p, s.len() - p.len());
    proof {
        assert(s@.subrange(s@.len() - p@.len(), s@.len() as int) =~= s@.skip(
            s@.len() - p@.len(),
        ));
    }
    r
}

pub fn chars_eq(a: &[char], b: &[char]) -> (r: bool)
    ensures
        r == (a@ == b@),
{
    if a.len() != b.len() {
        return false;
    }
    let mut i: usize = 0;
    while i < a.len()
        invariant
            i <= a.len(),
            a.len() == b.len(),
            forall|j: int| 0 <= j < i ==> a@[j] == b@[j],
        decreases a.len() - i,
    {
        if a[i] != b[i] {
            return false;
        }
        i += 1;
    }
    assert(a@ =~= b@);
    true
}

// ---------------------------------------------------------------------------
// Conversions between `str`, `String` and characters
// ---------------------------------------------------------------------------

/// The characters of `s`, in order.
pub fn chars_of(s: &str) -> (v: Vec<char>)
    ensures
        v@ == s@,
{
    let mut v: Vec<char> = Vec::new();
    for c in it: s.chars()
        invariant
            v@ == it.seq().take(it.index() as int),
            it.seq() == s@,
    {
        v.push(c);
    }
    v
}

/// A string holding exactly the given characters.
pub fn string_of(v: &[char]) -> (s: String)
    ensures
        s@ == v@,
{
    let mut s = String::new();
    push_chars(&mut s, v);
    s
}

pub fn push_chars(s: &mut String, v: &[char])
    ensures
        final(s)@ == old(s)@ + v@,
{
    let mut i: usize = 0;
    while i < v.len()
        invariant
            i <= v.len(),
            s@ == old(s)@ + v@.take(i as int),
        decreases v.len() - i,
    {
        s.push(v[i]);
        assert(old(s)@ + v@.take(i as int).push(v@[i as int]) =~= old(s)@ + v@.take(i + 1));
        i += 1;
    }
    assert(v@.take(v.len() as int) =~= v@);
}

pub fn push_str(s: &mut String, t: &str)
    ensures
        final(s)@ == old(s)@ + t@,
{
    s.append(t);
}

/// A fresh copy of a string.
pub fn copy_string(s: &str) -> (r: String)
    ensures
        r@ == s@,
{
    s.to_owned()
}

/// `to_ascii_lowercase` on characters.
pub fn ascii_lower_chars(s: &[char]) -> (r: Vec<char>)
    ensures
        r@ == ascii_lower_seq(s@),
{
    let mut r: Vec<char> = Vec::new();
    let mut i: usize = 0;
    while i < s.len()
        invariant
            i <= s.len(),
            r@ == ascii_lower_seq(s@.take(i as int)),
        decreases s.len() - i,
    {
        let c = s[i];
        let l = if 'A' <= c && c <= 'Z' {
            let u = (c as u32) + 32;
            assert(0x61 <= u <= 0x7a);
            char_from_ascii(u)
        } else {
            c
        };
        r.push(l);
        assert(ascii_lower_seq(s@.take(i as int)).push(ascii_lower(s@[i as int])) =~= ascii_lower_seq(
            s@.take(i + 1),
        ));
        i += 1;
    }
    assert(s@.take(s.len() as int) =~= s@);
    r
}

fn char_from_ascii(u: u32) -> (c: char)
    requires
        u < 0x80,
    ensures
        c == u as char,
{
    let b = u as u8;
    b as char
}

pub fn eq_ignore_ascii_case_exec(a: &[char], b: &[char]) -> (r: bool)
    ensures
        r == eq_ignore_ascii_case(a@, b@),
{
    let la = ascii_lower_chars(a);
    let lb = ascii_lower_chars(b);
    chars_eq(la.as_slice(), lb.as_slice())
}

// ---------------------------------------------------------------------------
// Decimal numbers
// ---------------------------------------------------------------------------

pub open spec fn digit_char(d: nat) -> char
    recommends
        d < 10,
{
    ('0' as u32 + d) as char
}

pub open spec fn digit_val(c: char) -> nat {
    (c as u32 - '0' as u32) as nat
}

/// The decimal numeral of `n`, without leading zeros.
pub open spec fn decimal(n: nat) -> Seq<char>
    decreases n,
{
    if n < 10 {
        seq![digit_char(n)]
    } else {
        decimal(n / 10).push(digit_char(n % 10))
    }
}

/// The value of a string of decimal digits.
pub open spec fn digits_value(s: Seq<char>) -> nat
    decreases s.len(),
{
    if s.len() == 0 {
        0
    } else {
        digits_value(s.drop_last()) * 10 + digit_val(s.last())
    }
}

pub open spec fn all_digits(s: Seq<char>) -> bool {
    forall|i: int| 0 <= i < s.len() ==> is_digit(#[trigger] s[i])
}

fn digit_exec(d: u64) -> (c: char)
    requires
        d < 10,
    ensures
        c == digit_char(d as nat),
{
    let b = (d as u8) + 48u8;
    b as char
}

pub fn push_decimal(s: &mut String, n: u64)
    ensures
        final(s)@ == old(s)@ + decimal(n as nat),
    decreases n,
{
    if n < 10 {
        s.push(digit_exec(n));
        assert(old(s)@.push(digit_char(n as nat)) =~= old(s)@ + decimal(n as nat));
    } else {
        push_decimal(s, n / 10);
        s.push(digit_exec(n % 10));
        assert(old(s)@ + decimal((n / 10) as nat) + seq![digit_char((n % 10) as nat)] =~= old(s)@
            + decimal(n as nat));
    }
}

/// `str::parse::<u32>` on a string of ASCII digits: `None` when empty or too
/// large.
pub open spec fn parse_digits_u32(s: Seq<char>) -> Option<u32> {
    if s.len() > 0 && digits_value(s) <= u32::MAX {
        Some(digits_value(s) as u32)
    } else {
        None
    }
}

pub fn parse_digits_u32_exec(s: &[char]) -> (r: Option<u32>)
    requires
        all_digits(s@),
    ensures
        r == parse_digits_u32(s@),
{
    if s.len() == 0 {
        return None;
    }
    let mut acc: u64 = 0;
    let mut i: usize = 0;
    while i < s.len()
        invariant
            i <= s.len(),
            all_digits(s@),
            acc == digits_value(s@.take(i as int)),
            acc <= u32::MAX,
        decreases s.len() - i,
    {
        assert(s@.take(i + 1).drop_last() =~= s@.take(i as int));
        assert(is_digit(s@[i as int]));
        let d = (s[i] as u32 - '0' as u32) as u64;
        acc = acc * 10 + d;
        if acc > 0xffff_ffff {
            proof {
                lemma_digits_value_prefix_mono(s@, i + 1);
            }
            return None;
        }
        i += 1;
    }
    assert(s@.take(s.len() as int) =~= s@);
    Some(acc as u32)
}

pub proof fn lemma_digits_value_prefix_mono(s: Seq<char>, k: int)
    requires
        0 <= k <= s.len(),
        all_digits(s),
    ensures
        digits_value(s.take(k)) <= digits_value(s),
    decreases s.len() - k,
{
    if k < s.len() {
        lemma_digits_value_prefix_mono(s, k + 1);
        assert(s.take(k + 1).drop_last() =~= s.take(k));
        if k + 1 == s.len() {
            assert(s.take(k + 1) =~= s);
        }
        assert(digits_value(s.take(k)) <= digits_value(s.take(k + 1))) by (nonlinear_arith)
            requires
                digits_value(s.take(k + 1)) == digits_value(s.take(k)) * 10 + digit_val(
                    s.take(k + 1).last(),
                ),
        ;
    } else {
        assert(s.take(k) =~= s);
    }
}

/// The longest prefix made of ASCII digits.
pub open spec fn digit_prefix_len(s: Seq<char>) -> nat
    decreases s.len(),
{
    if s.len() > 0 && is_digit(s[0]) {
        1 + digit_prefix_len(s.drop_first())
    } else {
        0
    }
}

pub open spec fn digit_prefix(s: Seq<char>) -> Seq<char> {
    s.take(digit_prefix_len(s) as int)
}

pub proof fn lemma_digit_prefix(s: Seq<char>)
    ensures
        digit_prefix_len(s) <= s.len(),
        all_digits(digit_prefix(s)),
        digit_prefix_len(s) < s.len() ==> !is_digit(s[digit_prefix_len(s) as int]),
    decreases s.len(),
{
    if s.len() > 0 && is_digit(s[0]) {
        lemma_digit_prefix(s.drop_first());
        assert forall|i: int| 0 <= i < digit_prefix(s).len() implies is_digit(
            #[trigger] digit_prefix(s)[i],
        ) by {
            if i > 0 {
                assert(digit_prefix(s)[i] == digit_prefix(s.drop_first())[i - 1]);
            }
        }
    }
}

pub fn digit_prefix_chars(s: &[char]) -> (r: Vec<char>)
    ensures
        r@ == digit_prefix(s@),
        all_digits(r@),
{
    let mut i: usize = 0;
    let mut r: Vec<char> = Vec::new();
    proof {
        lemma_digit_prefix(s@);
        assert(s@.skip(0) =~= s@);
    }
    while i < s.len() && '0' <= s[i] && s[i] <= '9'
        invariant
            i <= s.len(),
            r@ == s@.take(i as int),
            digit_prefix_len(s@) == i + digit_prefix_len(s@.skip(i as int)),
        decreases s.len() - i,
    {
        r.push(s[i]);
        assert(s@.take(i as int).push(s@[i as int]) =~= s@.take(i + 1));
        assert(s@.skip(i as int).drop_first() =~= s@.skip(i + 1));
        i += 1;
    }
    proof {
        lemma_digit_prefix(s@);
    }
    r
}

/// The numeral of `n` is a non-empty run of digits whose value is `n`;
/// from 2 on it is not the numeral `1`.
pub proof fn lemma_decimal(n: nat)
    ensures
        decimal(n).len() >= 1,
        all_digits(decimal(n)),
        digits_value(decimal(n)) == n,
        n >= 2 ==> decimal(n) != seq!['1'],
        n >= 10 ==> decimal(n).len() >= 2,
    decreases n,
{
    if n < 10 {
        let c = digit_char(n);
        assert(decimal(n) =~= seq![c]);
        assert(decimal(n).drop_last() =~= Seq::<char>::empty());
        assert(digit_val(c) == n);
        assert(digits_value(decimal(n)) == digits_value(decimal(n).drop_last()) * 10 + digit_val(c));
        if n >= 2 {
            assert(decimal(n)[0] != '1');
        }
    } else {
        lemma_decimal(n / 10);
        let d = decimal(n / 10);
        let c = digit_char(n % 10);
        assert(decimal(n) =~= d.push(c));
        assert(decimal(n).drop_last() =~= d);
        assert(digit_val(c) == n % 10);
        assert(digits_value(decimal(n)) == digits_value(d) * 10 + digit_val(c));
        assert(forall|i: int| 0 <= i < d.push(c).len() ==> is_digit(#[trigger] d.push(c)[i]));
        assert((n / 10) * 10 + n % 10 == n) by (nonlinear_arith);
    }
}

/// A run of digits is its own digit prefix.
pub proof fn lemma_digit_prefix_all(s: Seq<char>)
    requires
        all_digits(s),
    ensures
        digit_prefix_len(s) == s.len(),
        digit_prefix(s) == s,
    decreases s.len(),
{
    if s.len() > 0 {
        assert(is_digit(s[0]));
        assert forall|i: int| 0 <= i < s.drop_first().len() implies is_digit(#[trigger] s.drop_first()[i]) by {
            assert(s.drop_first()[i] == s[i + 1]);
        }
        lemma_digit_prefix_all(s.drop_first());
    }
    assert(s.take(s.len() as int) =~= s);
}

/// Splitting carries a piece without the separator over into the current
/// piece.
pub proof fn lemma_split_acc_append(a: Seq<char>, b: Seq<char>, sep: char, cur: Seq<char>)
    requires
        !a.contains(sep),
    ensures
        split_acc(a + b, sep, cur) == split_acc(b, sep, cur + a),
    decreases a.len(),
{
    if a.len() == 0 {
        assert(a + b =~= b);
        assert(cur + a =~= cur);
    } else {
        assert((a + b)[0] == a[0]);
        assert((a + b).drop_first() =~= a.drop_first() + b);
        assert(!a.drop_first().contains(sep)) by {
            if a.drop_first().contains(sep) {
                let i = choose|i: int| 0 <= i < a.drop_first().len() && a.drop_first()[i] == sep;
                assert(a[i + 1] == sep);
            }
        }
        assert(a[0] != sep) by {
            assert(a.contains(a[0]) || a[0] != sep);
        }
        lemma_split_acc_append(a.drop_first(), b, sep, cur.push(a[0]));
        assert(cur.push(a[0]) + a.drop_first() =~= cur + a);
    }
}

/// Taking words carries a run without whitespace over into the current
/// word.
pub proof fn lemma_words_acc_append(a: Seq<char>, b: Seq<char>, cur: Seq<char>)
    requires
        forall|i: int| 0 <= i < a.len() ==> !is_ws(#[trigger] a[i]),
    ensures
        words_acc(a + b, cur) == words_acc(b, cur + a),
    decreases a.len(),
{
    if a.len() == 0 {
        assert(a + b =~= b);
        assert(cur + a =~= cur);
    } else {
        assert((a + b)[0] == a[0]);
        assert((a + b).drop_first() =~= a.drop_first() + b);
        assert(forall|i: int| 0 <= i < a.drop_first().len() ==> !is_ws(#[trigger] a.drop_first()[i])) by {
            assert forall|i: int| 0 <= i < a.drop_first().len() implies !is_ws(#[trigger] a.drop_first()[i]) by {
                assert(a.drop_first()[i] == a[i + 1]);
            }
        }
        lemma_words_acc_append(a.drop_first(), b, cur.push(a[0]));
        assert(cur.push(a[0]) + a.drop_first() =~= cur + a);
    }
}

} // verus!
