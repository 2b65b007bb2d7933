//! Character and string helpers shared by the rest of the library:
//! ASCII case-insensitive matching and decimal rendering of numbers.

use vstd::prelude::*;
use vstd::string::StrSliceExecFns;
use vstd::string::StringExecFns;

verus! {

/// An ASCII uppercase letter.
pub open spec fn is_ascii_upper(c: char) -> bool {
    'A' as int <= c as int && c as int <= 'Z' as int
}

/// Case-insensitive character equality, folding ASCII letters only.
pub open spec fn char_ieq(a: char, b: char) -> bool {
    a == b
    || (is_ascii_upper(a) && a as int + 32 == b as int)
    || (is_ascii_upper(b) && b as int + 32 == a as int)
}

/// The pattern `pat` occurs in `s` at position `i`, compared case-insensitively.
pub open spec fn matches_ci_at(s: Seq<char>, pat: Seq<char>, i: int) -> bool {
    &&& 0 <= i
    &&& i + pat.len() <= s.len()
    &&& forall|j: int| 0 <= j < pat.len() ==> char_ieq(s[i + j], pat[j])
}

/// The pattern `pat` occurs somewhere in `s`, compared case-insensitively.
pub open spec fn contains_ci(s: Seq<char>, pat: Seq<char>) -> bool {
    exists|i: int| matches_ci_at(s, pat, i)
}

/// `s` ends with `pat`, compared case-insensitively.
pub open spec fn ends_with_ci(s: Seq<char>, pat: Seq<char>) -> bool {
    s.len() >= pat.len() && matches_ci_at(s, pat, s.len() - pat.len())
}

fn char_ieq_exec(a: char, b: char) -> (r: bool)
    ensures
        r == char_ieq(a, b),
{
    let au = a as u32;
    let bu = b as u32;
    if au == bu {
        true
    } else if 65 <= au && au <= 90 && au + 32 == bu {
        true
    } else if 65 <= bu && bu <= 90 && bu + 32 == au {
        true
    } else {
        false
    }
}

/// Whether `pat` occurs at position `from` of `s`, folding ASCII case.
fn matches_ci_at_exec(s: &str, pat: &str, from: usize) -> (r: bool)
    requires
        from + pat@.len() <= s@.len(),
        s@.len() <= usize::MAX,
    ensures
        r == matches_ci_at(s@, pat@, from as int),
{
    let m = pat.unicode_len();
    let mut j: usize = 0;
    while j < m
        invariant
            m == pat@.len(),
            from + m <= s@.len(),
            s@.len() <= usize::MAX,
            0 <= j <= m,
            forall|k: int| 0 <= k < j ==> char_ieq(s@[from + k], pat@[k]),
        decreases m - j,
    {
        if !char_ieq_exec(s.get_char(from + j), pat.get_char(j)) {
            return false;
        }
        j += 1;
    }
    true
}

/// Whether `pat` occurs anywhere in `s`, folding ASCII case.
pub fn contains_ci_str(s: &str, pat: &str) -> (r: bool)
    ensures
        r == contains_ci(s@, pat@),
{
    let n = s.unicode_len();
    let m = pat.unicode_len();
    if m > n {
        assert(!contains_ci(s@, pat@));
        return false;
    }
    if m == 0 {
        assert(matches_ci_at(s@, pat@, 0));
        return true;
    }
    let mut i: usize = 0;
    while i <= n - m
        invariant
            n == s@.len(),
            m == pat@.len(),
            m <= n,
            0 <= i <= n - m + 1,
            forall|k: int| 0 <= k < i ==> !matches_ci_at(s@, pat@, k),
        decreases n - m + 1 - i,
    {
        if matches_ci_at_exec(s, pat, i) {
            return true;
        }
        i += 1;
    }
    assert(!contains_ci(s@, pat@));
    false
}

/// Whether `s` ends with `pat`, folding ASCII case.
pub fn ends_with_ci_str(s: &str, pat: &str) -> (r: bool)
    ensures
        r == ends_with_ci(s@, pat@),
{
    let n = s.unicode_len();
    let m = pat.unicode_len();
    if m > n {
        return false;
    }
    matches_ci_at_exec(s, pat, n - m)
}

/// The decimal digit character for `d`.
pub open spec fn digit_char(d: int) -> char {
    if d == 0 { '0' }
    else if d == 1 { '1' }
    else if d == 2 { '2' }
    else if d == 3 { '3' }
    else if d == 4 { '4' }
    else if d == 5 { '5' }
    else if d == 6 { '6' }
    else if d == 7 { '7' }
    else if d == 8 { '8' }
    else { '9' }
}

/// The usual decimal rendering of `n`, without leading zeros.
pub open spec fn dec_str(n: nat) -> Seq<char>
    decreases n,
{
    if n < 10 {
        seq![digit_char(n as int)]
    } else {
        dec_str(n / 10) + seq![digit_char((n % 10) as int)]
    }
}

fn digit_str(d: u16) -> (r: String)
    requires
        d < 10,
    ensures
        r@ == seq![digit_char(d as int)],
{
    let r = if d == 0 { String::from_str("0") }
    else if d == 1 { String::from_str("1") }
    else if d == 2 { String::from_str("2") }
    else if d == 3 { String::from_str("3") }
    else if d == 4 { String::from_str("4") }
    else if d == 5 { String::from_str("5") }
    else if d == 6 { String::from_str("6") }
    else if d == 7 { String::from_str("7") }
    else if d == 8 { String::from_str("8") }
    else { String::from_str("9") };
    proof {
        reveal_strlit("0");
        reveal_strlit("1");
        reveal_strlit("2");
        reveal_strlit("3");
        reveal_strlit("4");
        reveal_strlit("5");
        reveal_strlit("6");
        reveal_strlit("7");
        reveal_strlit("8");
        reveal_strlit("9");
    }
    assert(r@ =~= seq![digit_char(d as int)]);
    r
}

/// Renders `n` in decimal.
pub fn u16_dec(n: u16) -> (r: String)
    ensures
        r@ == dec_str(n as nat),
    decreases n,
{
    if n < 10 {
        digit_str(n)
    } else {
        let mut r = u16_dec(n / 10);
        let d = digit_str(n % 10);
        r.append(d.as_str());
        r
    }
}

} // verus!
