//! Run configuration: stress-testing mode and validated argument values.

use vstd::prelude::*;

verus! {

/// Stress-testing mode: one core actively stressed at a time, or all
/// requested cores stressed at once.
#[derive(Debug, Clone, Copy, PartialEq, Eq, Structural)]
pub enum Mode {
    Sequential,
    Parallel,
}

impl Mode {
    /// Human-readable name of the mode.
    pub fn label(&self) -> (r: &'static str)
        ensures
            *self is Sequential ==> r@ == "sequential"@,
            *self is Parallel ==> r@ == "parallel"@,
    {
        match self {
            Mode::Sequential => "sequential",
            Mode::Parallel => "parallel",
        }
    }
}

/// Validated run configuration: the physical cores to stress, the log file
/// path, the mode, and the directory whose subdirectories hold the candidate
/// projects.  Paths are carried as plain strings.
pub struct Args {
    pub cores: Vec<usize>,
    pub log_path: String,
    pub mode: Mode,
    pub workdir: String,
}

/// `c` is a decimal digit.
pub open spec fn spec_is_digit(c: char) -> bool {
    48 <= c as u32 <= 57
}

/// The numeric value of the decimal digit `c`.
pub open spec fn spec_digit_val(c: char) -> int {
    c as u32 - 48
}

/// The value of `s` read as decimal digits, most significant first.
pub open spec fn spec_dec_value(s: Seq<char>) -> int
    decreases s.len(),
{
    if s.len() == 0 {
        0
    } else {
        spec_dec_value(s.drop_last()) * 10 + spec_digit_val(s.last())
    }
}

/// Every character of `s` is a decimal digit.
pub open spec fn spec_all_digits(s: Seq<char>) -> bool {
    forall|i: int| 0 <= i < s.len() ==> spec_is_digit(s[i])
}

/// `s` without its optional leading plus sign.
pub open spec fn spec_digits_part(s: Seq<char>) -> Seq<char> {
    if s.len() > 0 && s[0] == '+' {
        s.skip(1)
    } else {
        s
    }
}

/// `s` is a well-formed decimal number that fits in `usize`: an optional
/// leading plus sign, then at least one digit, with a value at most
/// `usize::MAX`.
pub open spec fn spec_parse_ok(s: Seq<char>) -> bool {
    let d = spec_digits_part(s);
    d.len() > 0 && spec_all_digits(d) && spec_dec_value(d) <= usize::MAX
}

proof fn lemma_dec_value_nonneg(s: Seq<char>)
    requires
        spec_all_digits(s),
    ensures
        spec_dec_value(s) >= 0,
    decreases s.len(),
{
    if s.len() > 0 {
        lemma_dec_value_nonneg(s.drop_last());
    }
}

proof fn lemma_dec_value_prefix_le(s: Seq<char>, k: int)
    requires
        spec_all_digits(s),
        0 <= k <= s.len(),
    ensures
        spec_dec_value(s.take(k)) <= spec_dec_value(s),
    decreases s.len(),
{
    if k == s.len() {
        assert(s.take(k) =~= s);
    } else {
        assert(s.drop_last().take(k) =~= s.take(k));
        assert(spec_all_digits(s.drop_last()));
        lemma_dec_value_prefix_le(s.drop_last(), k);
        lemma_dec_value_nonneg(s.drop_last());
    }
}

/// Reads `s` as a decimal `usize`: an optional leading plus sign, then at
/// least one digit.  `None` exactly when `s` is not of that form or its value
/// does not fit.
pub fn parse_usize(s: &str) -> (r: Option<usize>)
    ensures
        r is Some <==> spec_parse_ok(s@),
        r matches Some(v) ==> v == spec_dec_value(spec_digits_part(s@)),
{
    let len = s.unicode_len();
    let mut i: usize = 0;
    if len > 0 && s.get_char(0) == '+' {
        i = 1;
    }
    let start = i;
    let ghost d = spec_digits_part(s@);
    proof {
        assert(d =~= s@.skip(start as int));
    }
    if i == len {
        return None;
    }
    let mut v: usize = 0;
    while i < len
        invariant
            len == s@.len(),
            start <= i <= len,
            d == spec_digits_part(s@),
            d == s@.skip(start as int),
            d.len() == len - start,
            spec_all_digits(d.take(i - start)),
            v == spec_dec_value(d.take(i - start)),
        decreases len - i,
    {
        let c = s.get_char(i);
        let cu = c as u32;
        if cu < 48 || cu > 57 {
            proof {
                assert(d[i - start] == s@[i as int]);
                assert(!spec_is_digit(d[i - start]));
                assert(!spec_all_digits(d));
            }
            return None;
        }
        let dv = (cu - 48) as usize;
        let ghost prefix = d.take(i + 1 - start);
        proof {
            assert(prefix.drop_last() =~= d.take(i - start));
            assert(prefix.last() == d[i - start]);
            assert(spec_dec_value(prefix) == v * 10 + dv);
        }
        let shifted = match v.checked_mul(10) {
            Some(x) => x,
            None => {
                proof {
                    if spec_all_digits(d) {
                        lemma_dec_value_prefix_le(d, i + 1 - start);
                    }
                }
                return None;
            },
        };
        v = match shifted.checked_add(dv) {
            Some(x) => x,
            None => {
                proof {
                    if spec_all_digits(d) {
                        lemma_dec_value_prefix_le(d, i + 1 - start);
                    }
                }
                return None;
            },
        };
        i = i + 1;
    }
    proof {
        assert(d.take(i - start) =~= d);
    }
    Some(v)
}

/// Reads and validates a zero-based physical core index against the host's
/// physical core count.  The index is accepted exactly when it is a
/// well-formed decimal number below `n_physical`; otherwise the descriptive
/// error says whether the token did not parse or the index is out of range.
pub fn parse_core(s: &str, n_physical: usize) -> (r: Result<usize, String>)
    ensures
        r matches Ok(c) <==> spec_parse_ok(s@) && spec_dec_value(spec_digits_part(s@))
            < n_physical,
        r matches Ok(c) ==> c == spec_dec_value(spec_digits_part(s@)),
        r matches Err(m) ==> m@ == (if spec_parse_ok(s@) {
            "zero-based core index "@ + s@ + " is greater than physical core count"@
        } else {
            "failed to parse core index"@
        }),
{
    match parse_usize(s) {
        Some(n) => {
            if n < n_physical {
                Ok(n)
            } else {
                let mut m = String::from_str("zero-based core index ");
                m.append(s);
                m.append(" is greater than physical core count");
                Err(m)
            }
        },
        None => Err(String::from_str("failed to parse core index")),
    }
}

/// The case-folded value of `c`: an ASCII capital letter becomes its small
/// counterpart, anything else is itself.
pub open spec fn spec_fold_char(c: char) -> int {
    if 65 <= c as u32 <= 90 {
        c as u32 + 32
    } else {
        c as u32 as int
    }
}

/// The two strings are equal up to ASCII case.
pub open spec fn spec_eq_ignore_case(s: Seq<char>, t: Seq<char>) -> bool {
    s.len() == t.len() && forall|i: int|
        0 <= i < s.len() ==> spec_fold_char(s[i]) == spec_fold_char(t[i])
}

/// Compares two strings up to ASCII case.
pub fn eq_ignore_case(s: &str, t: &str) -> (r: bool)
    ensures
        r == spec_eq_ignore_case(s@, t@),
{
    let n = s.unicode_len();
    if n != t.unicode_len() {
        return false;
    }
    let mut i: usize = 0;
    while i < n
        invariant
            n == s@.len() == t@.len(),
            i <= n,
            forall|k: int| 0 <= k < i ==> spec_fold_char(s@[k]) == spec_fold_char(t@[k]),
        decreases n - i,
    {
        let a = s.get_char(i) as u32;
        let b = t.get_char(i) as u32;
        let fa = if a >= 65 && a <= 90 {
            a + 32
        } else {
            a
        };
        let fb = if b >= 65 && b <= 90 {
            b + 32
        } else {
            b
        };
        if fa != fb {
            return false;
        }
        i = i + 1;
    }
    true
}

proof fn lemma_mode_keywords_distinct(s: Seq<char>)
    ensures
        !(spec_eq_ignore_case(s, "seq"@) && spec_eq_ignore_case(s, "par"@)),
        !(spec_eq_ignore_case(s, "seq"@) && spec_eq_ignore_case(s, "parallel"@)),
        !(spec_eq_ignore_case(s, "sequential"@) && spec_eq_ignore_case(s, "par"@)),
        !(spec_eq_ignore_case(s, "sequential"@) && spec_eq_ignore_case(s, "parallel"@)),
{
    reveal_strlit("seq");
    reveal_strlit("par");
    reveal_strlit("sequential");
    reveal_strlit("parallel");
    if spec_eq_ignore_case(s, "seq"@) && spec_eq_ignore_case(s, "par"@) {
        assert(spec_fold_char(s[0]) == spec_fold_char("seq"@[0]));
        assert(spec_fold_char(s[0]) == spec_fold_char("par"@[0]));
        assert(false);
    }
    if spec_eq_ignore_case(s, "sequential"@) && spec_eq_ignore_case(s, "parallel"@) {
        assert(spec_fold_char(s[0]) == spec_fold_char("sequential"@[0]));
        assert(spec_fold_char(s[0]) == spec_fold_char("parallel"@[0]));
        assert(false);
    }
}

/// Reads the stress-testing mode selector, case-insensitively: `seq` or
/// `sequential`, `par` or `parallel`.  Anything else is rejected with a
/// descriptive error.
pub fn mode(s: &str) -> (r: Result<Mode, String>)
    ensures
        r == Result::<Mode, String>::Ok(Mode::Sequential) <==> spec_eq_ignore_case(s@, "seq"@)
            || spec_eq_ignore_case(s@, "sequential"@),
        r == Result::<Mode, String>::Ok(Mode::Parallel) <==> spec_eq_ignore_case(s@, "par"@)
            || spec_eq_ignore_case(s@, "parallel"@),
        r matches Err(m) ==> m@ == "failed to parse mode: \""@ + s@ + "\""@,
{
    proof {
        lemma_mode_keywords_distinct(s@);
    }
    if eq_ignore_case(s, "seq") || eq_ignore_case(s, "sequential") {
        Ok(Mode::Sequential)
    } else if eq_ignore_case(s, "par") || eq_ignore_case(s, "parallel") {
        Ok(Mode::Parallel)
    } else {
        let mut m = String::from_str("failed to parse mode: \"");
        m.append(s);
        m.append("\"");
        Err(m)
    }
}

/// Relies on `num_cpus::get_physical`: the host's physical core count, which
/// its documentation promises to be at least 1.
#[verifier::external_body]
fn physical_core_count() -> (n: usize)
    ensures
        1 <= n,
{
    num_cpus::get_physical()
}

/// The core list `0, 1, …, n - 1`: every physical core of a host with `n` of
/// them.
pub fn all_cores_below(n: usize) -> (r: Vec<usize>)
    ensures
        r@.len() == n,
        forall|i: int| 0 <= i < n ==> r@[i] == i,
{
    let mut r: Vec<usize> = Vec::new();
    let mut i: usize = 0;
    while i < n
        invariant
            i <= n,
            r@.len() == i,
            forall|k: int| 0 <= k < i ==> r@[k] == k,
        decreases n - i,
    {
        r.push(i);
        i = i + 1;
    }
    r
}

/// The default core list when none is supplied: all physical cores of the
/// host, with the host's physical core count.
pub fn host_default_cores() -> (r: (usize, Vec<usize>))
    ensures
        1 <= r.0,
        r.1@.len() == r.0,
        forall|i: int| 0 <= i < r.1@.len() ==> r.1@[i] == i,
{
    let n = physical_core_count();
    let cores = all_cores_below(n);
    (n, cores)
}

/// Reads and validates a core index against the host itself, as the
/// command-line surface does.  Whatever core count the host reports, an
/// accepted index is the token's decimal value, a token that is no
/// well-formed number is rejected, and index 0 is accepted on every host:
/// the host has at least one physical core, so only indices of 1 and above
/// can ever be out of range.
pub fn parse_core_arg(s: &str) -> (r: Result<usize, String>)
    ensures
        r matches Ok(c) ==> spec_parse_ok(s@) && c == spec_dec_value(spec_digits_part(s@)),
        !spec_parse_ok(s@) ==> r is Err,
        spec_parse_ok(s@) && spec_dec_value(spec_digits_part(s@)) == 0 ==> r is Ok,
        r is Err && spec_parse_ok(s@) ==> spec_dec_value(spec_digits_part(s@)) >= 1,
        r matches Err(m) ==> m@ == (if spec_parse_ok(s@) {
            "zero-based core index "@ + s@ + " is greater than physical core count"@
        } else {
            "failed to parse core index"@
        }),
{
    let n = physical_core_count();
    parse_core(s, n)
}

} // verus!
