//! Small helpers around the run: digit counting, substring matching over
//! file names, and the date-stamped log-file name.

use vstd::arithmetic::div_mod::lemma_div_decreases;
use vstd::arithmetic::div_mod::lemma_multiply_divide_lt;
use vstd::arithmetic::power::lemma_pow_positive;
use vstd::arithmetic::power::pow;
use vstd::arithmetic::power2::lemma2_to64;
use vstd::arithmetic::power2::lemma_pow2;
use vstd::prelude::*;
use vstd::string::StrSliceExecFns;
use vstd::string::StringExecFns;

use crate::text::spec_digits;
use crate::text::u128_to_string;

verus! {

/// How many digits `n` has in base `base` (1 for `n == 0`); degenerate bases
/// below 2 are treated as one digit.
pub open spec fn spec_num_digits(n: nat, base: nat) -> nat
    decreases n,
    via spec_num_digits_decreases
{
    if base <= 1 {
        1
    } else if n < base {
        1
    } else {
        spec_num_digits(n / base, base) + 1
    }
}

#[via_fn]
proof fn spec_num_digits_decreases(n: nat, base: nat) {
    if base > 1 && n >= base {
        lemma_div_decreases(n as int, base as int);
    }
}

proof fn lemma_pow_base_mono(b: nat, k: nat)
    requires
        2 <= b,
    ensures
        pow(2, k) <= pow(b as int, k),
    decreases k,
{
    reveal(pow);
    if k > 0 {
        lemma_pow_base_mono(b, (k - 1) as nat);
        lemma_pow_positive(2, (k - 1) as nat);
        lemma_pow_positive(b as int, (k - 1) as nat);
        assert(2 * pow(2, (k - 1) as nat) <= b * pow(b as int, (k - 1) as nat))
            by (nonlinear_arith)
            requires
                0 < pow(2, (k - 1) as nat),
                pow(2, (k - 1) as nat) <= pow(b as int, (k - 1) as nat),
                2 <= b,
        ;
    }
}

proof fn lemma_num_digits_bound(n: nat, b: nat, k: nat)
    requires
        2 <= b,
        1 <= k,
        n < pow(b as int, k),
    ensures
        spec_num_digits(n, b) <= k,
    decreases n,
{
    reveal(pow);
    if n >= b {
        assert(pow(b as int, k) == b * pow(b as int, (k - 1) as nat));
        lemma_pow_positive(b as int, (k - 1) as nat);
        if k == 1 {
            vstd::arithmetic::power::lemma_pow1(b as int);
            assert(false);
        }
        lemma_multiply_divide_lt(n as int, b as int, pow(b as int, (k - 1) as nat));
        lemma_div_decreases(n as int, b as int);
        lemma_num_digits_bound(n / b, b, (k - 1) as nat);
    }
}

/// The digit count of a `u64` never exceeds 64, whatever the base.
proof fn lemma_num_digits_u64(n: u64, b: u64)
    requires
        2 <= b,
    ensures
        spec_num_digits(n as nat, b as nat) <= 64,
{
    lemma_pow2(64);
    lemma2_to64();
    lemma_pow_base_mono(b as nat, 64);
    lemma_num_digits_bound(n as nat, b as nat, 64);
}

/// Counts the digits of `number` written in base `base`.
pub fn get_num_digits(number: u64, base: u64) -> (r: u8)
    requires
        base >= 2,
    ensures
        r == spec_num_digits(number as nat, base as nat),
{
    proof {
        lemma_num_digits_u64(number, base);
    }
    let mut rest: u64 = number;
    let mut count: u8 = 1;
    while rest >= base
        invariant
            base >= 2,
            1 <= count,
            spec_num_digits(number as nat, base as nat) == spec_num_digits(
                rest as nat,
                base as nat,
            ) + count - 1,
            spec_num_digits(number as nat, base as nat) <= 64,
        decreases rest,
    {
        proof {
            lemma_div_decreases(rest as int, base as int);
        }
        rest = rest / base;
        count = count + 1;
    }
    count
}

/// Whether `p` occurs in `s` starting at position `i`.
pub open spec fn spec_contains_at(s: Seq<char>, p: Seq<char>, i: int) -> bool {
    0 <= i && i + p.len() <= s.len() && s.subrange(i, i + p.len()) == p
}

/// Whether `p` occurs anywhere in `s`.
pub open spec fn spec_contains(s: Seq<char>, p: Seq<char>) -> bool {
    exists|i: int| spec_contains_at(s, p, i)
}

/// Whether `pattern` occurs in `s` as a contiguous run of characters.
pub fn contains_substring(s: &str, pattern: &str) -> (r: bool)
    ensures
        r == spec_contains(s@, pattern@),
{
    let sn: usize = s.unicode_len();
    let pn: usize = pattern.unicode_len();
    if pn > sn {
        return false;
    }
    if pn == 0 {
        proof {
            assert(s@.subrange(0, 0) =~= pattern@);
            assert(spec_contains_at(s@, pattern@, 0));
        }
        return true;
    }
    let limit: usize = sn - pn;
    let mut i: usize = 0;
    while i <= limit
        invariant
            1 <= pn <= sn,
            sn == s@.len(),
            pn == pattern@.len(),
            limit == sn - pn,
            i <= limit + 1,
            forall|m: int| 0 <= m < i ==> !spec_contains_at(s@, pattern@, m),
        decreases limit + 1 - i,
    {
        let mut j: usize = 0;
        let mut mismatch = false;
        while j < pn
            invariant
                j <= pn,
                i + pn <= sn,
                sn == s@.len(),
                pn == pattern@.len(),
                !mismatch ==> forall|t: int| 0 <= t < j ==> s@[i + t] == pattern@[t],
                mismatch ==> !spec_contains_at(s@, pattern@, i as int),
            ensures
                !mismatch ==> forall|t: int| 0 <= t < pn ==> s@[i + t] == pattern@[t],
                mismatch ==> !spec_contains_at(s@, pattern@, i as int),
            decreases pn - j,
        {
            let a = s.get_char(i + j);
            let b = pattern.get_char(j);
            if a != b {
                proof {
                    assert(s@.subrange(i as int, i + pn as int)[j as int] == s@[i + j]);
                }
                mismatch = true;
                break ;
            }
            j = j + 1;
        }
        if !mismatch {
            proof {
                assert forall|t: int| 0 <= t < pn implies s@.subrange(i as int, i + pn as int)[t]
                    == pattern@[t] by {
                    assert(s@[i + t] == pattern@[t]);
                    assert(s@.subrange(i as int, i + pn as int)[t] == s@[i + t]);
                }
                assert(s@.subrange(i as int, i + pn as int) =~= pattern@);
                assert(spec_contains_at(s@, pattern@, i as int));
            }
            return true;
        }
        i = i + 1;
    }
    proof {
        assert(forall|m: int| !spec_contains_at(s@, pattern@, m) || (0 <= m && m + pn <= sn));
    }
    false
}

/// How many of `names` contain `p`.
pub open spec fn spec_match_count(names: Seq<Seq<char>>, p: Seq<char>) -> nat
    decreases names.len(),
{
    if names.len() == 0 {
        0
    } else {
        spec_match_count(names.drop_last(), p) + (if spec_contains(names.last(), p) {
            1nat
        } else {
            0nat
        })
    }
}

/// Counts how many of `names` contain `pattern`; the caller uses it to
/// number the log file among the files already in the log directory.
pub fn count_matching(names: &Vec<String>, pattern: &String) -> (r: usize)
    ensures
        r == spec_match_count(names.deep_view(), pattern@),
{
    let ghost dv = names.deep_view();
    let mut count: usize = 0;
    let mut i: usize = 0;
    while i < names.len()
        invariant
            i <= names.len(),
            dv == names.deep_view(),
            dv.len() == names.len(),
            count <= i,
            count == spec_match_count(dv.take(i as int), pattern@),
        decreases names.len() - i,
    {
        if contains_substring(names[i].as_str(), pattern.as_str()) {
            count = count + 1;
        }
        i = i + 1;
        proof {
            assert(dv[i - 1] == names@[i - 1]@);
            assert(dv.take(i as int).drop_last() =~= dv.take(i - 1));
            assert(dv.take(i as int).last() == dv[i - 1]);
        }
    }
    proof {
        assert(dv.take(dv.len() as int) =~= dv);
    }
    count
}

/// Renders `n` as at least two digits, zero-padded.
pub open spec fn spec_pad2(n: nat) -> Seq<char> {
    if n <= 9 {
        "0"@ + spec_digits(n)
    } else {
        spec_digits(n)
    }
}

/// The date-stamped prefix shared by every log file of one calendar day:
/// `rrt-` then the two-digit year, month and day, joined with dashes.
pub open spec fn spec_logfile_prefix(year: nat, month: nat, day: nat) -> Seq<char> {
    "rrt-"@ + spec_digits((year - 2000) as nat) + "-"@ + spec_pad2(month) + "-"@ + spec_pad2(day)
        + "-"@
}

/// The name of the run's log file: the day's prefix, the two-digit iteration
/// number, and the `.log` suffix.
pub open spec fn spec_logfile_name(year: nat, month: nat, day: nat, iteration: nat) -> Seq<char> {
    spec_logfile_prefix(year, month, day) + spec_pad2(iteration) + ".log"@
}

/// Builds the day's log-file prefix, against which existing log files are
/// counted.
pub fn logfile_prefix(year: u64, month: u64, day: u64) -> (r: String)
    requires
        2000 <= year,
    ensures
        r@ == spec_logfile_prefix(year as nat, month as nat, day as nat),
{
    let mut s = String::from_str("rrt-");
    let y = u128_to_string((year - 2000) as u128);
    s.append(y.as_str());
    s.append("-");
    let m = pad2(month);
    s.append(m.as_str());
    s.append("-");
    let d = pad2(day);
    s.append(d.as_str());
    s.append("-");
    s
}

fn pad2(n: u64) -> (r: String)
    ensures
        r@ == spec_pad2(n as nat),
{
    if n <= 9 {
        let mut s = String::from_str("0");
        let d = u128_to_string(n as u128);
        s.append(d.as_str());
        s
    } else {
        u128_to_string(n as u128)
    }
}

/// Builds the log-file name for the given calendar day and iteration count.
pub fn logfile_name(year: u64, month: u64, day: u64, iteration: u64) -> (r: String)
    requires
        2000 <= year,
    ensures
        r@ == spec_logfile_name(year as nat, month as nat, day as nat, iteration as nat),
{
    let mut s = logfile_prefix(year, month, day);
    let it = pad2(iteration);
    s.append(it.as_str());
    s.append(".log");
    s
}

} // verus!
