//! Reading Java versions and vendors out of `java -version` / `javac
//! -version` output, and choosing among the JDKs found on the machine.
use vstd::prelude::*;
use crate::text::{
    all_digits, chars_eq, chars_of, contains, contains_chars, decimal, digit_prefix,
    digit_prefix_chars, flush, is_digit, is_graphic, is_ws, lemma_decimal, lemma_digit_prefix_all,
    lemma_split_acc_append, lemma_words_acc_append, parse_digits_u32, parse_digits_u32_exec,
    split_acc, split_char, split_chars, words, words_of,
};
use crate::toolchain::{InstalledJdk, Toolchain, toolchain_of};

verus! {

// ---------------------------------------------------------------------------
// Major version
// ---------------------------------------------------------------------------

/// Characters stripped from both ends of a word before looking for digits.
pub open spec fn stripped(c: char) -> bool {
    c == '"' || c == '\'' || c == ',' || !is_graphic(c)
}

pub open spec fn strip_start(s: Seq<char>) -> Seq<char>
    decreases s.len(),
{
    if s.len() > 0 && stripped(s[0]) {
        strip_start(s.drop_first())
    } else {
        s
    }
}

pub open spec fn strip_end(s: Seq<char>) -> Seq<char>
    decreases s.len(),
{
    if s.len() > 0 && stripped(s.last()) {
        strip_end(s.drop_last())
    } else {
        s
    }
}

pub open spec fn skip_non_digits(s: Seq<char>) -> Seq<char>
    decreases s.len(),
{
    if s.len() > 0 && !is_digit(s[0]) {
        skip_non_digits(s.drop_first())
    } else {
        s
    }
}

/// The major version a single word announces, if any: `"1.8.0_351"` gives
/// 8 (the legacy `1.x` scheme), `"21.0.2"` gives 21, a leading major of 0
/// gives nothing.
pub open spec fn word_major(w: Seq<char>) -> Option<u32> {
    let num = skip_non_digits(strip_end(strip_start(w)));
    if num.len() == 0 {
        None
    } else {
        let parts = split_char(num, '.');
        if parts[0] == seq!['1'] {
            if parts.len() >= 2 {
                parse_digits_u32(digit_prefix(parts[1]))
            } else {
                None
            }
        } else {
            match parse_digits_u32(digit_prefix(parts[0])) {
                Some(v) => if v >= 1 {
                    Some(v)
                } else {
                    None
                },
                None => None,
            }
        }
    }
}

pub open spec fn first_major(ws: Seq<Seq<char>>) -> Option<u32>
    decreases ws.len(),
{
    if ws.len() == 0 {
        None
    } else {
        match word_major(ws[0]) {
            Some(v) => Some(v),
            None => first_major(ws.drop_first()),
        }
    }
}

/// The first major version announced by a word of the output. Words never
/// span lines, so taking the words line by line and taking them from the
/// whole text give the same sequence.
pub open spec fn java_major_version(s: Seq<char>) -> Option<u32> {
    first_major(words(s))
}

proof fn lemma_no_digit_skipped(s: Seq<char>)
    requires
        forall|i: int| 0 <= i < s.len() ==> !is_digit(#[trigger] s[i]),
    ensures
        skip_non_digits(s).len() == 0,
    decreases s.len(),
{
    if s.len() > 0 {
        assert(!is_digit(s[0]));
        assert forall|i: int| 0 <= i < s.drop_first().len() implies !is_digit(#[trigger] s.drop_first()[i]) by {
            assert(s.drop_first()[i] == s[i + 1]);
        }
        lemma_no_digit_skipped(s.drop_first());
    }
}

/// A word with no digit announces no version.
proof fn lemma_word_without_digits(w: Seq<char>)
    requires
        w.len() > 0,
        !stripped(w[0]),
        !stripped(w.last()),
        forall|i: int| 0 <= i < w.len() ==> !is_digit(#[trigger] w[i]),
    ensures
        word_major(w) is None,
{
    assert(strip_start(w) == w);
    assert(strip_end(w) == w);
    lemma_no_digit_skipped(w);
}

/// The words of a word, a space and more text.
proof fn lemma_words_split(w: Seq<char>, rest: Seq<char>)
    requires
        w.len() > 0,
        forall|i: int| 0 <= i < w.len() ==> !is_ws(#[trigger] w[i]),
    ensures
        words(w + seq![' '] + rest) == seq![w] + words(rest),
{
    lemma_words_acc_append(w, seq![' '] + rest, Seq::empty());
    assert(w + seq![' '] + rest =~= w + (seq![' '] + rest));
    assert(Seq::<char>::empty() + w =~= w);
    assert((seq![' '] + rest).drop_first() =~= rest);
    assert((seq![' '] + rest)[0] == ' ');
    assert(flush(w) =~= seq![w]);
}

/// A word without whitespace is the only word of itself.
proof fn lemma_single_word(w: Seq<char>)
    requires
        w.len() > 0,
        forall|i: int| 0 <= i < w.len() ==> !is_ws(#[trigger] w[i]),
    ensures
        words(w) == seq![w],
{
    lemma_words_acc_append(w, Seq::empty(), Seq::empty());
    assert(w + Seq::<char>::empty() =~= w);
    assert(Seq::<char>::empty() + w =~= w);
    assert(flush(w) =~= seq![w]);
}

/// `N` followed by more text that starts with `.` announces `N`, from 2 on.
proof fn lemma_numeral_word(n: nat, tail: Seq<char>)
    requires
        2 <= n <= u32::MAX,
        tail.len() == 0 || tail[0] == '.',
        tail.len() == 0 || !stripped(tail.last()),
    ensures
        word_major(decimal(n) + tail) == Some(n as u32),
{
    lemma_decimal(n);
    let d = decimal(n);
    let w = d + tail;
    assert(w[0] == d[0]);
    assert(is_digit(d[0]));
    assert(strip_start(w) == w);
    assert(w.last() == (if tail.len() == 0 { d.last() } else { tail.last() }));
    assert(is_digit(d.last()));
    assert(strip_end(w) == w);
    assert(skip_non_digits(w) == w);
    assert(!d.contains('.')) by {
        if d.contains('.') {
            let i = choose|i: int| 0 <= i < d.len() && d[i] == '.';
            assert(is_digit(d[i]));
        }
    }
    lemma_split_acc_append(d, tail, '.', Seq::empty());
    assert(Seq::<char>::empty() + d =~= d);
    let parts = split_char(w, '.');
    if tail.len() == 0 {
        assert(parts == seq![d]);
    } else {
        assert(tail.drop_first() =~= tail.subrange(1, tail.len() as int));
        assert(parts == seq![d] + split_acc(tail.drop_first(), '.', Seq::empty()));
    }
    assert(parts[0] == d);
    lemma_digit_prefix_all(d);
}

/// `"1.N.0_1"` announces `N` in the legacy scheme.
proof fn lemma_legacy_word(n: nat)
    requires
        n <= u32::MAX,
    ensures
        word_major(seq!['"', '1', '.'] + decimal(n) + seq!['.', '0', '_', '1', '"']) == Some(n as u32),
{
    lemma_decimal(n);
    let d = decimal(n);
    let w = seq!['"', '1', '.'] + d + seq!['.', '0', '_', '1', '"'];
    let x = seq!['1', '.'] + d + seq!['.', '0', '_', '1', '"'];
    let y = seq!['1', '.'] + d + seq!['.', '0', '_', '1'];
    assert(w.drop_first() =~= x);
    assert(strip_start(x) == x);
    assert(strip_start(w) == x);
    assert(x.drop_last() =~= y);
    assert(strip_end(y) == y);
    assert(strip_end(x) == y);
    assert(skip_non_digits(y) == y);
    assert(!d.contains('.')) by {
        if d.contains('.') {
            let i = choose|i: int| 0 <= i < d.len() && d[i] == '.';
            assert(is_digit(d[i]));
        }
    }
    let tail = seq!['.', '0', '_', '1'];
    assert(!seq!['1'].contains('.')) by {
        if seq!['1'].contains('.') {
            let i = choose|i: int| 0 <= i < 1 && seq!['1'][i] == '.';
        }
    }
    lemma_split_acc_append(seq!['1'], seq!['.'] + d + tail, '.', Seq::empty());
    assert(y =~= seq!['1'] + (seq!['.'] + d + tail));
    assert(Seq::<char>::empty() + seq!['1'] =~= seq!['1']);
    assert((seq!['.'] + d + tail).drop_first() =~= d + tail);
    lemma_split_acc_append(d, tail, '.', Seq::empty());
    assert(Seq::<char>::empty() + d =~= d);
    assert(tail.drop_first() =~= seq!['0', '_', '1']);
    let parts = split_char(y, '.');
    assert(parts == seq![seq!['1']] + split_acc(d + tail, '.', Seq::empty()));
    assert(split_acc(d + tail, '.', Seq::empty()) == seq![d] + split_acc(tail.drop_first(), '.', Seq::empty()));
    assert(parts[0] == seq!['1']);
    assert(parts[1] == d);
    lemma_digit_prefix_all(d);
}

/// `javac N.0.1` announces `N`, and so does `openjdk N`, for every `N` from
/// 2 on; `java version "1.N.0_1"` announces `N` in the legacy scheme.
pub proof fn lemma_major_version_of_numeral(n: u32)
    requires
        n >= 2,
    ensures
        java_major_version("javac "@ + decimal(n as nat) + ".0.1"@) == Some(n),
        java_major_version("openjdk "@ + decimal(n as nat)) == Some(n),
        java_major_version("java version \"1."@ + decimal(n as nat) + ".0_1\""@) == Some(n),
{
    reveal_strlit("javac ");
    reveal_strlit(".0.1");
    reveal_strlit("openjdk ");
    lemma_decimal(n as nat);
    let d = decimal(n as nat);
    assert(forall|i: int| 0 <= i < d.len() ==> !is_ws(#[trigger] d[i]) && !is_digit(d[i]) == false);
    let javac = seq!['j', 'a', 'v', 'a', 'c'];
    let tail = seq!['.', '0', '.', '1'];
    assert("javac "@ + d + ".0.1"@ =~= javac + seq![' '] + (d + tail));
    assert(forall|i: int| 0 <= i < (d + tail).len() ==> !is_ws(#[trigger] (d + tail)[i])) by {
        assert forall|i: int| 0 <= i < (d + tail).len() implies !is_ws(#[trigger] (d + tail)[i]) by {
            if i < d.len() {
                assert((d + tail)[i] == d[i]);
            } else {
                assert((d + tail)[i] == tail[i - d.len()]);
            }
        }
    }
    lemma_words_split(javac, d + tail);
    lemma_single_word(d + tail);
    lemma_word_without_digits(javac);
    lemma_numeral_word(n as nat, tail);
    assert(words("javac "@ + d + ".0.1"@) == seq![javac, d + tail]);
    assert(seq![javac, d + tail].drop_first() =~= seq![d + tail]);
    assert(seq![d + tail].drop_first() =~= Seq::<Seq<char>>::empty());
    assert(first_major(seq![d + tail]) == Some(n));
    assert(first_major(seq![javac, d + tail]) == Some(n));
    let openjdk = seq!['o', 'p', 'e', 'n', 'j', 'd', 'k'];
    assert("openjdk "@ + d =~= openjdk + seq![' '] + d);
    lemma_words_split(openjdk, d);
    lemma_single_word(d);
    lemma_word_without_digits(openjdk);
    lemma_numeral_word(n as nat, Seq::empty());
    assert(d + Seq::<char>::empty() =~= d);
    assert(word_major(d) == Some(n));
    assert(seq![openjdk] + seq![d] =~= seq![openjdk, d]);
    assert(words("openjdk "@ + d) == seq![openjdk, d]);
    assert(seq![openjdk, d].drop_first() =~= seq![d]);
    assert(seq![d].drop_first() =~= Seq::<Seq<char>>::empty());
    assert(first_major(seq![d]) == Some(n));
    assert(first_major(seq![openjdk, d]) == Some(n));
    reveal_strlit("java version \"1.");
    reveal_strlit(".0_1\"");
    let java = seq!['j', 'a', 'v', 'a'];
    let version = seq!['v', 'e', 'r', 's', 'i', 'o', 'n'];
    let w3 = seq!['"', '1', '.'] + d + seq!['.', '0', '_', '1', '"'];
    assert("java version \"1."@ + d + ".0_1\""@ =~= java + seq![' '] + (version + seq![' '] + w3));
    assert(forall|i: int| 0 <= i < w3.len() ==> !is_ws(#[trigger] w3[i])) by {
        assert forall|i: int| 0 <= i < w3.len() implies !is_ws(#[trigger] w3[i]) by {
            if 3 <= i < 3 + d.len() {
                assert(w3[i] == d[i - 3]);
            }
        }
    }
    lemma_words_split(java, version + seq![' '] + w3);
    lemma_words_split(version, w3);
    lemma_single_word(w3);
    lemma_word_without_digits(java);
    lemma_word_without_digits(version);
    lemma_legacy_word(n as nat);
    let ws = seq![java, version, w3];
    assert(seq![java] + (seq![version] + seq![w3]) =~= ws);
    assert(words("java version \"1."@ + d + ".0_1\""@) == ws);
    assert(ws.drop_first() =~= seq![version, w3]);
    assert(seq![version, w3].drop_first() =~= seq![w3]);
    assert(seq![w3].drop_first() =~= Seq::<Seq<char>>::empty());
    assert(first_major(seq![w3]) == Some(n));
    assert(first_major(seq![version, w3]) == Some(n));
    assert(first_major(ws) == Some(n));
}

fn strip_word(w: &[char]) -> (r: Vec<char>)
    ensures
        r@ == skip_non_digits(strip_end(strip_start(w@))),
{
    let n = w.len();
    let mut i: usize = 0;
    assert(w@.subrange(0, n as int) =~= w@);
    while i < n && (w[i] == '"' || w[i] == '\'' || w[i] == ',' || !('!' <= w[i] && w[i] <= '~'))
        invariant
            i <= n,
            n == w@.len(),
            strip_start(w@) == strip_start(w@.subrange(i as int, n as int)),
        decreases n - i,
    {
        assert(w@.subrange(i as int, n as int).drop_first() =~= w@.subrange(i + 1, n as int));
        i += 1;
    }
    let mut j: usize = n;
    while j > i && (w[j - 1] == '"' || w[j - 1] == '\'' || w[j - 1] == ',' || !('!' <= w[j - 1]
        && w[j - 1] <= '~'))
        invariant
            i <= j <= n,
            n == w@.len(),
            strip_end(strip_start(w@)) == strip_end(w@.subrange(i as int, j as int)),
        decreases j - i,
    {
        assert(w@.subrange(i as int, j as int).drop_last() =~= w@.subrange(i as int, j - 1));
        j -= 1;
    }
    let mut k: usize = i;
    while k < j && !('0' <= w[k] && w[k] <= '9')
        invariant
            i <= k <= j <= n,
            n == w@.len(),
            skip_non_digits(strip_end(strip_start(w@))) == skip_non_digits(
                w@.subrange(k as int, j as int),
            ),
        decreases j - k,
    {
        assert(w@.subrange(k as int, j as int).drop_first() =~= w@.subrange(k + 1, j as int));
        k += 1;
    }
    let mut r: Vec<char> = Vec::new();
    let mut m: usize = k;
    while m < j
        invariant
            k <= m <= j <= n,
            n == w@.len(),
            r@ == w@.subrange(k as int, m as int),
        decreases j - m,
    {
        r.push(w[m]);
        assert(w@.subrange(k as int, m as int).push(w@[m as int]) =~= w@.subrange(k as int, m + 1));
        m += 1;
    }
    r
}

fn word_major_exec(w: &[char]) -> (r: Option<u32>)
    ensures
        r == word_major(w@),
{
    let num = strip_word(w);
    if num.len() == 0 {
        return None;
    }
    let parts = split_chars(num.as_slice(), '.');
    let one = ['1'];
    if chars_eq(parts[0].as_slice(), one.as_slice()) {
        assert(one@ =~= seq!['1']);
        if parts.len() >= 2 {
            let d = digit_prefix_chars(parts[1].as_slice());
            parse_digits_u32_exec(d.as_slice())
        } else {
            None
        }
    } else {
        assert(one@ =~= seq!['1']);
        let d = digit_prefix_chars(parts[0].as_slice());
        match parse_digits_u32_exec(d.as_slice()) {
            Some(v) => if v >= 1 {
                Some(v)
            } else {
                None
            },
            None => None,
        }
    }
}

/// Extracts the major Java version from `java -version` / `javac -version`
/// output (25 from `"javac 25.0.4"`, 8 from `"1.8.0_351"`).
pub fn parse_java_major_version(version_output: &str) -> (r: Option<u32>)
    ensures
        r == java_major_version(version_output@),
{
    let s = chars_of(version_output);
    let ws = words_of(s.as_slice());
    let mut i: usize = 0;
    assert(words(s@).skip(0) =~= words(s@));
    while i < ws.len()
        invariant
            i <= ws@.len(),
            ws@.len() == words(s@).len(),
            forall|k: int| 0 <= k < ws@.len() ==> #[trigger] ws@[k]@ == words(s@)[k],
            s@ == version_output@,
            first_major(words(s@)) == first_major(words(s@).skip(i as int)),
        decreases ws.len() - i,
    {
        let ghost rest = words(s@).skip(i as int);
        assert(rest[0] == ws@[i as int]@);
        assert(rest.drop_first() =~= words(s@).skip(i + 1));
        let m = word_major_exec(ws[i].as_slice());
        if m.is_some() {
            return m;
        }
        i += 1;
    }
    assert(words(s@).skip(i as int).len() == 0);
    None
}

// ---------------------------------------------------------------------------
// Vendor
// ---------------------------------------------------------------------------

/// What `str::to_lowercase` gives (Unicode lowercase mapping).
pub uninterp spec fn lowercase_of(s: Seq<char>) -> Seq<char>;

pub open spec fn all_ascii(s: Seq<char>) -> bool {
    forall|i: int| 0 <= i < s.len() ==> (#[trigger] s[i] as u32) < 128
}

/// `str::to_lowercase`. Its result is named by `lowercase_of`; the one fact
/// stated of it is the documented one that ASCII text is lowered letter by
/// letter. Beyond ASCII the Unicode case tables are not restated.
#[verifier::external_body]
pub fn to_lowercase(s: &str) -> (r: String)
    ensures
        r@ == lowercase_of(s@),
        all_ascii(s@) ==> r@ == crate::text::ascii_lower_seq(s@),
{
    s.to_lowercase()
}

/// The distribution name that lowercase version text points to; the first
/// rule that matches wins.
pub open spec fn vendor_for(lower: Seq<char>) -> Seq<char> {
    if contains(lower, "graalvm"@) {
        "Oracle GraalVM"@
    } else if contains(lower, "temurin"@) || contains(lower, "adoptium"@) {
        "Eclipse Temurin"@
    } else if contains(lower, "corretto"@) {
        "Amazon Corretto"@
    } else if contains(lower, "zulu"@) || contains(lower, "azul"@) {
        "Azul Zulu"@
    } else if contains(lower, "liberica"@) || contains(lower, "bellsoft"@) {
        "BellSoft Liberica"@
    } else if contains(lower, "microsoft"@) {
        "Microsoft OpenJDK"@
    } else if contains(lower, "oracle"@) {
        "Oracle JDK"@
    } else if contains(lower, "openjdk"@) {
        "OpenJDK"@
    } else {
        "Java HotSpot"@
    }
}

/// The vendor rules are tried in order: each distribution named in the
/// text gives its vendor unless a distribution earlier in the list
/// (GraalVM, Temurin/Adoptium, Corretto, Zulu/Azul, Liberica/BellSoft,
/// Microsoft, Oracle, OpenJDK) is named too; text naming none of them is
/// HotSpot.
pub proof fn lemma_vendor_rule_order(lower: Seq<char>)
    ensures
        contains(lower, "graalvm"@) ==> vendor_for(lower) == "Oracle GraalVM"@,
        !contains(lower, "graalvm"@) && (contains(lower, "temurin"@) || contains(lower, "adoptium"@))
            ==> vendor_for(lower) == "Eclipse Temurin"@,
        !contains(lower, "graalvm"@) && !contains(lower, "temurin"@) && !contains(lower, "adoptium"@)
            && contains(lower, "corretto"@) ==> vendor_for(lower) == "Amazon Corretto"@,
        !contains(lower, "graalvm"@) && !contains(lower, "temurin"@) && !contains(lower, "adoptium"@)
            && !contains(lower, "corretto"@) && (contains(lower, "zulu"@) || contains(lower, "azul"@))
            ==> vendor_for(lower) == "Azul Zulu"@,
        !contains(lower, "graalvm"@) && !contains(lower, "temurin"@) && !contains(lower, "adoptium"@)
            && !contains(lower, "corretto"@) && !contains(lower, "zulu"@) && !contains(lower, "azul"@)
            && (contains(lower, "liberica"@) || contains(lower, "bellsoft"@)) ==> vendor_for(lower)
            == "BellSoft Liberica"@,
        !contains(lower, "graalvm"@) && !contains(lower, "temurin"@) && !contains(lower, "adoptium"@)
            && !contains(lower, "corretto"@) && !contains(lower, "zulu"@) && !contains(lower, "azul"@)
            && !contains(lower, "liberica"@) && !contains(lower, "bellsoft"@) && contains(
            lower,
            "microsoft"@,
        ) ==> vendor_for(lower) == "Microsoft OpenJDK"@,
        !contains(lower, "graalvm"@) && !contains(lower, "temurin"@) && !contains(lower, "adoptium"@)
            && !contains(lower, "corretto"@) && !contains(lower, "zulu"@) && !contains(lower, "azul"@)
            && !contains(lower, "liberica"@) && !contains(lower, "bellsoft"@) && !contains(
            lower,
            "microsoft"@,
        ) && contains(lower, "oracle"@) ==> vendor_for(lower) == "Oracle JDK"@,
        !contains(lower, "graalvm"@) && !contains(lower, "temurin"@) && !contains(lower, "adoptium"@)
            && !contains(lower, "corretto"@) && !contains(lower, "zulu"@) && !contains(lower, "azul"@)
            && !contains(lower, "liberica"@) && !contains(lower, "bellsoft"@) && !contains(
            lower,
            "microsoft"@,
        ) && !contains(lower, "oracle"@) && contains(lower, "openjdk"@) ==> vendor_for(lower)
            == "OpenJDK"@,
        !contains(lower, "graalvm"@) && !contains(lower, "temurin"@) && !contains(lower, "adoptium"@)
            && !contains(lower, "corretto"@) && !contains(lower, "zulu"@) && !contains(lower, "azul"@)
            && !contains(lower, "liberica"@) && !contains(lower, "bellsoft"@) && !contains(
            lower,
            "microsoft"@,
        ) && !contains(lower, "oracle"@) && !contains(lower, "openjdk"@) ==> vendor_for(lower)
            == "Java HotSpot"@,
{
}

fn has(h: &[char], needle: &str) -> (b: bool)
    ensures
        b == contains(h@, needle@),
{
    let n = chars_of(needle);
    contains_chars(h, n.as_slice())
}

/// The vendor for text that is already lowercase.
pub fn vendor_for_lowercase(lower: &str) -> (r: String)
    ensures
        r@ == vendor_for(lower@),
{
    let h = chars_of(lower);
    let h = h.as_slice();
    let name = if has(h, "graalvm") {
        "Oracle GraalVM"
    } else if has(h, "temurin") || has(h, "adoptium") {
        "Eclipse Temurin"
    } else if has(h, "corretto") {
        "Amazon Corretto"
    } else if has(h, "zulu") || has(h, "azul") {
        "Azul Zulu"
    } else if has(h, "liberica") || has(h, "bellsoft") {
        "BellSoft Liberica"
    } else if has(h, "microsoft") {
        "Microsoft OpenJDK"
    } else if has(h, "oracle") {
        "Oracle JDK"
    } else if has(h, "openjdk") {
        "OpenJDK"
    } else {
        "Java HotSpot"
    };
    name.to_owned()
}

/// Identifies the JDK distribution from version output, case-insensitively.
pub fn detect_java_vendor(output: &str) -> (r: String)
    ensures
        r@ == vendor_for(lowercase_of(output@)),
{
    let lower = to_lowercase(output);
    vendor_for_lowercase(lower.as_str())
}

// ---------------------------------------------------------------------------
// Choosing a system JDK
// ---------------------------------------------------------------------------

/// `str::parse::<u32>`: an optional `+`, then at least one decimal digit,
/// with a value that fits.
pub open spec fn parse_u32(s: Seq<char>) -> Option<u32> {
    let digits = if s.len() > 0 && s[0] == '+' {
        s.drop_first()
    } else {
        s
    };
    if all_digits(digits) {
        parse_digits_u32(digits)
    } else {
        None
    }
}

pub fn parse_u32_exec(s: &[char]) -> (r: Option<u32>)
    ensures
        r == parse_u32(s@),
{
    let mut digits: Vec<char> = Vec::new();
    let start: usize = if s.len() > 0 && s[0] == '+' {
        1
    } else {
        0
    };
    let mut i: usize = start;
    while i < s.len()
        invariant
            start <= i <= s.len(),
            digits@ == s@.subrange(start as int, i as int),
        decreases s.len() - i,
    {
        digits.push(s[i]);
        assert(s@.subrange(start as int, i as int).push(s@[i as int]) =~= s@.subrange(
            start as int,
            i + 1,
        ));
        i += 1;
    }
    assert(start == 1 ==> digits@ =~= s@.drop_first());
    assert(start == 0 ==> digits@ =~= s@);
    let ghost expect = if s@.len() > 0 && s@[0] == '+' {
        s@.drop_first()
    } else {
        s@
    };
    assert(digits@ == expect);
    let mut k: usize = 0;
    while k < digits.len()
        invariant
            digits@ == expect,
            expect == (if s@.len() > 0 && s@[0] == '+' {
                s@.drop_first()
            } else {
                s@
            }),
            k <= digits@.len(),
            forall|j: int| 0 <= j < k ==> is_digit(#[trigger] digits@[j]),
        decreases digits.len() - k,
    {
        if !('0' <= digits[k] && digits[k] <= '9') {
            assert(!is_digit(expect[k as int]));
            assert(!all_digits(expect));
            assert(parse_u32(s@) is None);
            return None;
        }
        k += 1;
    }
    parse_digits_u32_exec(digits.as_slice())
}

/// The major version a project asks for: the number itself, else the first
/// version announced in the text, else 21.
pub open spec fn requested_major(s: Seq<char>) -> u32 {
    match parse_u32(s) {
        Some(v) => v,
        None => match java_major_version(s) {
            Some(v) => v,
            None => 21,
        },
    }
}

pub fn requested_major_exec(requested_version: &str) -> (r: u32)
    ensures
        r == requested_major(requested_version@),
{
    let s = chars_of(requested_version);
    match parse_u32_exec(s.as_slice()) {
        Some(v) => v,
        None => match parse_java_major_version(requested_version) {
            Some(v) => v,
            None => 21,
        },
    }
}

/// GraalVM distributions, or any JDK that ships `native-image`.
pub open spec fn is_graal(j: InstalledJdk) -> bool {
    contains(j.vendor@, "GraalVM"@) || j.native_image_bin is Some
}

/// The sort key under which compatible JDKs are ranked: exact version
/// first, then GraalVM, then the smallest distance above the request.
pub open spec fn rank(j: InstalledJdk, target: u32) -> (int, int, int) {
    (
        if j.major_version == target {
            0
        } else {
            1
        },
        if is_graal(j) {
            0
        } else {
            1
        },
        j.major_version - target,
    )
}

pub open spec fn rank_lt(a: (int, int, int), b: (int, int, int)) -> bool {
    a.0 < b.0 || (a.0 == b.0 && a.1 < b.1) || (a.0 == b.0 && a.1 == b.1 && a.2 < b.2)
}

/// `jdks[i]` is the one a stable sort by `rank` puts first among the
/// compatible ones: better than every compatible JDK before it, and no
/// compatible JDK after it is better.
pub open spec fn is_best_jdk(jdks: Seq<InstalledJdk>, target: u32, i: int) -> bool {
    &&& 0 <= i < jdks.len()
    &&& jdks[i].major_version >= target
    &&& forall|j: int|
        0 <= j < i && jdks[j].major_version >= target ==> rank_lt(
            rank(jdks[i], target),
            rank(#[trigger] jdks[j], target),
        )
    &&& forall|j: int|
        i < j < jdks.len() && jdks[j].major_version >= target ==> !rank_lt(
            rank(#[trigger] jdks[j], target),
            rank(jdks[i], target),
        )
}

fn is_graal_exec(j: &InstalledJdk) -> (b: bool)
    ensures
        b == is_graal(*j),
{
    let v = chars_of(j.vendor.as_str());
    let g = chars_of("GraalVM");
    contains_chars(v.as_slice(), g.as_slice()) || j.native_image_bin.is_some()
}

fn ranks_before(a: &InstalledJdk, b: &InstalledJdk, target: u32) -> (r: bool)
    requires
        a.major_version >= target,
        b.major_version >= target,
    ensures
        r == rank_lt(rank(*a, target), rank(*b, target)),
{
    let ae: u8 = if a.major_version == target {
        0
    } else {
        1
    };
    let be: u8 = if b.major_version == target {
        0
    } else {
        1
    };
    let ag: u8 = if is_graal_exec(a) {
        0
    } else {
        1
    };
    let bg: u8 = if is_graal_exec(b) {
        0
    } else {
        1
    };
    ae < be || (ae == be && ag < bg) || (ae == be && ag == bg && a.major_version - target
        < b.major_version - target)
}

/// Picks the system JDK for a requested version among those discovered: a
/// JDK qualifies when its major version is at least the requested one, and
/// the best-ranked one (see `is_best_jdk`) is returned as a toolchain.
pub fn find_system_jdk(requested_version: &str, system_jdks: Vec<InstalledJdk>) -> (r: Option<
    Toolchain,
>)
    ensures
        ({
            let target = requested_major(requested_version@);
            match r {
                None => forall|j: int|
                    0 <= j < system_jdks@.len() ==> (#[trigger] system_jdks@[j]).major_version
                        < target,
                Some(t) => exists|i: int|
                    is_best_jdk(system_jdks@, target, i) && t == toolchain_of(
                        #[trigger] system_jdks@[i],
                    ),
            }
        }),
{
    let target = requested_major_exec(requested_version);
    let mut best: Option<usize> = None;
    let mut i: usize = 0;
    while i < system_jdks.len()
        invariant
            i <= system_jdks@.len(),
            target == requested_major(requested_version@),
            match best {
                None => forall|j: int|
                    0 <= j < i ==> (#[trigger] system_jdks@[j]).major_version < target,
                Some(b) => b < i && is_best_jdk(system_jdks@.take(i as int), target, b as int),
            },
        decreases system_jdks.len() - i,
    {
        let ghost prefix = system_jdks@.take(i as int);
        let ghost next = system_jdks@.take(i + 1);
        assert(forall|k: int| 0 <= k < i ==> next[k] == prefix[k]);
        assert(next[i as int] == system_jdks@[i as int]);
        if system_jdks[i].major_version >= target {
            match best {
                None => {
                    best = Some(i);
                    assert(is_best_jdk(next, target, i as int));
                },
                Some(b) => {
                    if ranks_before(&system_jdks[i], &system_jdks[b], target) {
                        assert(is_best_jdk(next, target, i as int)) by {
                            assert forall|j: int|
                                0 <= j < i && next[j].major_version >= target implies rank_lt(
                                rank(next[i as int], target),
                                rank(#[trigger] next[j], target),
                            ) by {
                                if j < b {
                                    assert(rank_lt(rank(prefix[b as int], target), rank(prefix[j], target)));
                                } else if j > b {
                                    assert(!rank_lt(rank(prefix[j], target), rank(prefix[b as int], target)));
                                }
                            }
                        }
                        best = Some(i);
                    } else {
                        assert(is_best_jdk(next, target, b as int));
                    }
                },
            }
        } else {
            match best {
                None => {},
                Some(b) => {
                    assert(is_best_jdk(next, target, b as int));
                },
            }
        }
        i += 1;
    }
    assert(system_jdks@.take(i as int) =~= system_jdks@);
    match best {
        None => None,
        Some(b) => {
            let t = toolchain_of_exec(&system_jdks[b]);
            Some(t)
        },
    }
}

fn toolchain_of_exec(j: &InstalledJdk) -> (t: Toolchain)
    ensures
        t == toolchain_of(*j),
{
    Toolchain {
        version: j.version_raw.clone(),
        major_version: j.major_version,
        vendor: j.vendor.clone(),
        java_bin: j.java_bin.clone(),
        javac_bin: j.javac_bin.clone(),
        jar_bin: j.jar_bin.clone(),
        jpackage_bin: j.jpackage_bin.clone(),
        native_image_bin: match &j.native_image_bin {
            Some(p) => Some(p.clone()),
            None => None,
        },
    }
}

} // verus!
