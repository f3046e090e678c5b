//! Environment and project diagnostics: the human-readable byte sizes and
//! the per-dependency status lines of `jolt check`.
use vstd::prelude::*;
use crate::text::{chars_of, copy_string, decimal, digit_char, push_decimal, push_str, split_char, split_chars, string_of, trim, trim_chars};

verus! {

pub struct SystemChecker;

/// `2^53`: below it every `u64` converts to `f64` exactly.
pub open spec fn exact_f64_limit() -> nat {
    9007199254740992
}

/// The spacing between consecutive `f64` values around `b`: one below
/// `2^53`, doubling at each binade above.
pub open spec fn f64_unit(b: nat) -> nat
    decreases b,
{
    if b < exact_f64_limit() {
        1
    } else {
        2 * f64_unit(b / 2)
    }
}

/// `a / d` rounded to the nearest integer, ties to even.
pub open spec fn div_round_even(a: nat, d: nat) -> nat
    recommends
        d > 0,
{
    let q = a / d;
    let r = a % d;
    if 2 * r > d || (2 * r == d && q % 2 == 1) {
        q + 1
    } else {
        q
    }
}

/// The value of `b as f64` (round to nearest, ties to even).
pub open spec fn f64_of(b: nat) -> nat {
    div_round_even(b, f64_unit(b)) * f64_unit(b)
}

/// `(b as f64) / 2^shift` printed with two decimals (`{:.2}`), counted in
/// hundredths: the exact binary value rounded half to even.
pub open spec fn hundredths(b: nat, unit: nat) -> nat {
    div_round_even(f64_of(b) * 100, unit)
}

pub open spec fn two_decimals(h: nat) -> Seq<char> {
    decimal(h / 100) + seq!['.', digit_char((h / 10) % 10), digit_char(h % 10)]
}

pub open spec fn kib() -> nat {
    1024
}

pub open spec fn mib() -> nat {
    1048576
}

pub open spec fn gib() -> nat {
    1073741824
}

/// What `SystemChecker::format_bytes` prints for `b` bytes.
pub open spec fn format_bytes_spec(b: nat) -> Seq<char> {
    if b >= gib() {
        two_decimals(hundredths(b, gib())) + " GB"@
    } else if b >= mib() {
        two_decimals(hundredths(b, mib())) + " MB"@
    } else if b >= kib() {
        two_decimals(hundredths(b, kib())) + " KB"@
    } else {
        decimal(b) + " B"@
    }
}

fn div_round_even_exec(a: u128, d: u128) -> (r: u128)
    requires
        d > 0,
    ensures
        r == div_round_even(a as nat, d as nat),
{
    let q = a / d;
    let rem = a % d;
    assert(rem < d);
    assert(q <= a) by {
        vstd::arithmetic::div_mod::lemma_div_is_ordered_by_denominator(a as int, 1, d as int);
    }
    if rem > d - rem || (rem == d - rem && q % 2 == 1) {
        assert(q < u128::MAX) by {
            if q == u128::MAX {
                assert(d >= 2);
                assert(q * d <= a) by {
                    vstd::arithmetic::div_mod::lemma_fundamental_div_mod(a as int, d as int);
                }
                assert(q * d >= q * 2) by (nonlinear_arith)
                    requires
                        d >= 2,
                ;
            }
        }
        q + 1
    } else {
        q
    }
}

pub open spec fn small_pow2(u: nat) -> bool {
    u == 1 || u == 2 || u == 4 || u == 8 || u == 16 || u == 32 || u == 64 || u == 128 || u == 256
        || u == 512 || u == 1024 || u == 2048
}

/// The nearest `f64` to `b`, as an integer.
fn f64_of_exec(b: u64) -> (n: u128)
    ensures
        n == f64_of(b as nat),
        n <= 0x1_0000_0000_0000_0000,
{
    let mut t: u64 = b;
    let mut unit: u128 = 1;
    while t >= 9007199254740992
        invariant
            small_pow2(unit as nat),
            t as nat == (b as nat) / (unit as nat),
            f64_unit(b as nat) == unit * f64_unit(t as nat),
            t * unit <= b,
        decreases t,
    {
        let ghost old_t = t;
        let ghost old_unit = unit;
        assert(f64_unit(t as nat) == 2 * f64_unit((t / 2) as nat));
        assert((b as nat) / ((unit * 2) as nat) == ((b as nat) / (unit as nat)) / 2) by {
            vstd::arithmetic::div_mod::lemma_div_denominator(b as int, unit as int, 2);
        }
        assert(unit * (2 * f64_unit((t / 2) as nat)) == (unit * 2) * f64_unit((t / 2) as nat))
            by (nonlinear_arith);
        assert(unit < 2048) by (nonlinear_arith)
            requires
                t * unit <= b,
                t >= 9007199254740992,
                b <= u64::MAX,
        ;
        assert((t / 2) * (unit * 2) <= b) by (nonlinear_arith)
            requires
                t * unit <= b,
        ;
        t = t / 2;
        unit = unit * 2;
    }
    assert(f64_unit(t as nat) == 1);
    let q = div_round_even_exec(b as u128, unit);
    assert(q <= (b as nat) / (unit as nat) + 1);
    assert(q * unit <= 0x1_0000_0000_0000_0000) by (nonlinear_arith)
        requires
            q <= t + 1,
            unit <= 2048,
            t < 9007199254740992,
    ;
    q * unit
}

fn push_decimal_u128(s: &mut String, n: u128)
    ensures
        final(s)@ == old(s)@ + decimal(n as nat),
    decreases n,
{
    if n < 10 {
        let d = n as u64;
        push_decimal(s, d);
    } else {
        push_decimal_u128(s, n / 10);
        let d = (n % 10) as u64;
        push_decimal(s, d);
        assert(old(s)@ + decimal((n / 10) as nat) + decimal((n % 10) as nat) =~= old(s)@ + decimal(
            n as nat,
        ));
    }
}

fn push_two_decimals(s: &mut String, h: u128)
    ensures
        final(s)@ == old(s)@ + two_decimals(h as nat),
{
    push_decimal_u128(s, h / 100);
    s.push('.');
    let tens = ((h / 10) % 10) as u64;
    let ones = (h % 10) as u64;
    push_decimal(s, tens);
    push_decimal(s, ones);
    assert(old(s)@ + decimal((h / 100) as nat) + seq!['.'] + decimal(tens as nat) + decimal(
        ones as nat,
    ) =~= old(s)@ + two_decimals(h as nat));
}

impl SystemChecker {
    /// Formats a byte count with the largest unit among KB, MB and GB that it
    /// reaches (two decimals), or in plain bytes below one KB.
    pub fn format_bytes(bytes: u64) -> (s: String)
        ensures
            s@ == format_bytes_spec(bytes as nat),
    {
        let mut s = String::new();
        if bytes < 1024 {
            push_decimal(&mut s, bytes);
            push_str(&mut s, " B");
            return s;
        }
        let n = f64_of_exec(bytes);
        let (unit, suffix): (u128, &str) = if bytes >= 1073741824 {
            (1073741824, " GB")
        } else if bytes >= 1048576 {
            (1048576, " MB")
        } else {
            (1024, " KB")
        };
        assert(n * 100 <= 0x64_0000_0000_0000_0000) by (nonlinear_arith)
            requires
                n <= 0x1_0000_0000_0000_0000,
        ;
        let h = div_round_even_exec(n * 100, unit);
        push_two_decimals(&mut s, h);
        push_str(&mut s, suffix);
        s
    }
}


/// The version line a tool reports: standard output if it printed anything
/// (after trimming), else standard error; its first line, trimmed; nothing
/// when both are blank.
pub open spec fn version_line_spec(stdout: Seq<char>, stderr: Seq<char>) -> Option<Seq<char>> {
    let raw = if trim(stdout).len() > 0 {
        trim(stdout)
    } else {
        trim(stderr)
    };
    if raw.len() == 0 {
        None
    } else {
        Some(trim(split_char(raw, '\n')[0]))
    }
}

impl SystemChecker {
    /// The version line of a tool from what `<tool> <flag>` printed.
    pub fn version_line(stdout: &str, stderr: &str) -> (r: Option<String>)
        ensures
            match r {
                Some(l) => version_line_spec(stdout@, stderr@) == Some(l@),
                None => version_line_spec(stdout@, stderr@) is None,
            },
    {
        let o = chars_of(stdout);
        let to = trim_chars(o.as_slice());
        let raw = if to.len() > 0 {
            to
        } else {
            let e = chars_of(stderr);
            trim_chars(e.as_slice())
        };
        if raw.len() == 0 {
            return None;
        }
        let lines = split_chars(raw.as_slice(), '\n');
        let first = trim_chars(lines[0].as_slice());
        Some(string_of(first.as_slice()))
    }
}

/// The file count and total size of a directory tree, built one file at a
/// time.
pub struct DirStats {
    pub count: usize,
    pub total_bytes: u64,
}

impl DirStats {
    pub fn new() -> (d: Self)
        ensures
            d.count == 0 && d.total_bytes == 0,
    {
        DirStats { count: 0, total_bytes: 0 }
    }

    /// Counts one file; its size is added when it could be read.
    pub fn add_file(&mut self, size: Option<u64>)
        requires
            old(self).count < usize::MAX,
            old(self).total_bytes + match size {
                Some(n) => n as int,
                None => 0int,
            } <= u64::MAX,
        ensures
            final(self).count == old(self).count + 1,
            final(self).total_bytes == old(self).total_bytes + match size {
                Some(n) => n as int,
                None => 0int,
            },
    {
        self.count = self.count + 1;
        match size {
            Some(n) => {
                self.total_bytes = self.total_bytes + n;
            },
            None => {},
        }
    }
}

/// The JAR `jolt check` expects in `.jolt/modules` for a dependency:
/// `artifact-version.jar`, or `artifact-version-classifier.jar` when the
/// version names a classifier; nothing for a name that is not
/// `group:artifact`.
pub open spec fn expected_module_jar_spec(name: Seq<char>, version_spec: Seq<char>) -> Option<Seq<char>> {
    let parts = split_char(name, ':');
    if parts.len() == 2 {
        let vp = split_char(version_spec, ':');
        if vp.len() > 1 {
            Some(parts[1] + "-"@ + vp[0] + "-"@ + vp[1] + ".jar"@)
        } else {
            Some(parts[1] + "-"@ + vp[0] + ".jar"@)
        }
    } else {
        None
    }
}

pub fn expected_module_jar(name: &str, version_spec: &str) -> (r: Option<String>)
    ensures
        match r {
            Some(f) => expected_module_jar_spec(name@, version_spec@) == Some(f@),
            None => expected_module_jar_spec(name@, version_spec@) is None,
        },
{
    let n = chars_of(name);
    let parts = split_chars(n.as_slice(), ':');
    if parts.len() != 2 {
        return None;
    }
    let v = chars_of(version_spec);
    let vp = split_chars(v.as_slice(), ':');
    let mut f = string_of(parts[1].as_slice());
    push_str(&mut f, "-");
    let ver = string_of(vp[0].as_slice());
    push_str(&mut f, ver.as_str());
    if vp.len() > 1 {
        push_str(&mut f, "-");
        let c = string_of(vp[1].as_slice());
        push_str(&mut f, c.as_str());
    }
    push_str(&mut f, ".jar");
    Some(f)
}

/// The dependency tally of `jolt check`: how many are linked, and the
/// `name = "version"` entries of those that are not.
pub struct DependencyCheck {
    pub ok: usize,
    pub missing: Vec<String>,
}

/// A dependency entry as `jolt check` lists it.
pub open spec fn dependency_entry(name: Seq<char>, version_spec: Seq<char>) -> Seq<char> {
    name + " = \""@ + version_spec + "\""@
}

impl DependencyCheck {
    pub fn new() -> (c: Self)
        ensures
            c.ok == 0,
            c.missing@.len() == 0,
    {
        DependencyCheck { ok: 0, missing: Vec::new() }
    }

    /// Counts one dependency, linked or not.
    pub fn record(&mut self, name: &str, version_spec: &str, linked: bool)
        requires
            old(self).ok < usize::MAX,
        ensures
            final(self).ok == old(self).ok + (if linked {
                1int
            } else {
                0int
            }),
            crate::install::views(final(self).missing@) == (if linked {
                crate::install::views(old(self).missing@)
            } else {
                crate::install::views(old(self).missing@).push(dependency_entry(name@, version_spec@))
            }),
    {
        if linked {
            self.ok = self.ok + 1;
        } else {
            let ghost before = crate::install::views(self.missing@);
            let mut e = copy_string(name);
            push_str(&mut e, " = \"");
            push_str(&mut e, version_spec);
            push_str(&mut e, "\"");
            self.missing.push(e);
            assert(crate::install::views(self.missing@) =~= before.push(
                dependency_entry(name@, version_spec@),
            ));
        }
    }
}

} // verus!
