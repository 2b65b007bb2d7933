//! Semantic versions, as the update checker compares them.
//!
//! A version is modelled as its three numeric components plus the list of
//! pre-release identifiers. Parsing a version string is delegated to the
//! `semver` crate through a trusted wrapper; everything after the parse —
//! splitting the pre-release text into identifiers and the precedence
//! ordering — is verified library code.
//!
//! Precedence follows the semantic-versioning rules: major, minor and patch
//! compare numerically; a version with a pre-release precedes the same
//! version without one; pre-release identifier lists compare element by
//! element, numeric identifiers numerically and before alphanumeric ones,
//! alphanumeric identifiers in code-point order, and a shorter list that is
//! a prefix of a longer one precedes it. Build metadata has no effect on
//! precedence and is dropped at the parse.

use vstd::prelude::*;
use vstd::string::StrSliceExecFns;

verus! {

/// A parsed semantic version: numeric components and pre-release
/// identifiers (empty when the version has no pre-release).
#[derive(Debug)]
pub struct SemVer {
    pub major: u64,
    pub minor: u64,
    pub patch: u64,
    pub pre: Vec<String>,
}

/// What `semver::Version::parse` yields on a given string: `None` where the
/// string is not a semantic version, else major, minor, patch and the raw
/// pre-release text (empty where there is none). The result depends on the
/// string alone.
pub uninterp spec fn semver_parts(s: Seq<char>) -> Option<(u64, u64, u64, Seq<char>)>;

/// Relies on `semver::Version::parse`: it accepts exactly the strings of
/// the semantic-versioning grammar, and on success the `major`, `minor`,
/// `patch` and `pre` fields hold the parsed components. Build metadata is
/// dropped here, as it has no effect on precedence.
#[verifier::external_body]
fn parse_parts(s: &str) -> (r: Option<(u64, u64, u64, String)>)
    ensures
        r matches Some(p) ==> semver_parts(s@) == Some((p.0, p.1, p.2, p.3@)),
        r is None ==> semver_parts(s@) is None,
{
    match semver::Version::parse(s) {
        Ok(v) => Some((v.major, v.minor, v.patch, v.pre.as_str().to_owned())),
        Err(_) => None,
    }
}

/// The pre-release text split at each dot.
pub open spec fn split_ids(s: Seq<char>) -> Seq<Seq<char>>
    decreases s.len(),
{
    if s.len() == 0 {
        seq![Seq::<char>::empty()]
    } else if s[0] == '.' {
        seq![Seq::<char>::empty()] + split_ids(s.drop_first())
    } else {
        let rest = split_ids(s.drop_first());
        seq![seq![s[0]] + rest[0]] + rest.drop_first()
    }
}

/// The identifier list of a pre-release text: empty for the empty text,
/// else the text split at each dot.
pub open spec fn pre_ids_of(p: Seq<char>) -> Seq<Seq<char>> {
    if p.len() == 0 {
        Seq::empty()
    } else {
        split_ids(p)
    }
}

proof fn lemma_split_ids_len(s: Seq<char>)
    ensures
        split_ids(s).len() >= 1,
    decreases s.len(),
{
    if s.len() == 0 {
    } else if s[0] == '.' {
    } else {
        lemma_split_ids_len(s.drop_first());
    }
}

proof fn lemma_split_no_dot(s: Seq<char>)
    requires
        forall|k: int| 0 <= k < s.len() ==> s[k] != '.',
    ensures
        split_ids(s) == seq![s],
    decreases s.len(),
{
    if s.len() == 0 {
        assert(split_ids(s) =~~= seq![s]);
    } else {
        lemma_split_no_dot(s.drop_first());
        lemma_split_ids_len(s.drop_first());
        assert(seq![s[0]] + s.drop_first() =~= s);
        assert(split_ids(s) =~~= seq![s]);
    }
}

proof fn lemma_split_at_dot(s: Seq<char>, i: int)
    requires
        0 <= i < s.len(),
        s[i] == '.',
        forall|k: int| 0 <= k < i ==> s[k] != '.',
    ensures
        split_ids(s) == seq![s.take(i)] + split_ids(s.skip(i + 1)),
    decreases i,
{
    if i == 0 {
        assert(s.take(0) =~= Seq::<char>::empty());
        assert(s.drop_first() =~= s.skip(1));
        assert(split_ids(s) =~~= seq![s.take(0)] + split_ids(s.skip(1)));
    } else {
        let d = s.drop_first();
        assert(d[i - 1] == s[i]);
        assert(forall|k: int| 0 <= k < i - 1 ==> d[k] == s[k + 1] && d[k] != '.');
        lemma_split_at_dot(d, i - 1);
        lemma_split_ids_len(d);
        assert(seq![s[0]] + d.take(i - 1) =~= s.take(i));
        assert(d.skip(i) =~= s.skip(i + 1));
        assert((seq![d.take(i - 1)] + split_ids(d.skip(i))).drop_first() =~~= split_ids(d.skip(i)));
        assert(split_ids(s) =~~= seq![s.take(i)] + split_ids(s.skip(i + 1)));
    }
}

fn first_dot_index(s: &str) -> (r: Option<usize>)
    ensures
        r matches Some(i) ==> i < s@.len() && s@[i as int] == '.' && forall|k: int|
            0 <= k < i ==> s@[k] != '.',
        r is None ==> forall|k: int| 0 <= k < s@.len() ==> s@[k] != '.',
{
    let n = s.unicode_len();
    let mut i: usize = 0;
    while i < n
        invariant
            n == s@.len(),
            0 <= i <= n,
            forall|k: int| 0 <= k < i ==> s@[k] != '.',
        decreases n - i,
    {
        if s.get_char(i) == '.' {
            return Some(i);
        }
        i += 1;
    }
    None
}

/// Splits a pre-release text into its dot-separated identifiers.
pub fn split_pre(s: &str) -> (r: Vec<String>)
    ensures
        r.deep_view() == split_ids(s@),
    decreases s@.len(),
{
    match first_dot_index(s) {
        None => {
            let mut r: Vec<String> = Vec::new();
            r.push(s.to_owned());
            proof {
                lemma_split_no_dot(s@);
                assert(r.deep_view() =~~= seq![s@]);
            }
            r
        },
        Some(i) => {
            let n = s.unicode_len();
            let head = s.substring_char(0, i).to_owned();
            let rest = s.substring_char(i + 1, n);
            let mut r = split_pre(rest);
            r.insert(0, head);
            proof {
                lemma_split_at_dot(s@, i as int);
                assert(head@ =~= s@.take(i as int));
                assert(rest@ =~= s@.skip(i + 1));
                assert(r.deep_view() =~~= seq![s@.take(i as int)] + split_ids(s@.skip(i + 1)));
            }
            r
        },
    }
}

/// A decimal digit.
pub open spec fn is_digit(c: char) -> bool {
    '0' as int <= c as int && c as int <= '9' as int
}

/// A numeric pre-release identifier: nonempty and all digits.
pub open spec fn id_is_numeric(x: Seq<char>) -> bool {
    x.len() > 0 && forall|k: int| 0 <= k < x.len() ==> is_digit(x[k])
}

/// Code-point lexicographic order on character sequences; a proper prefix
/// precedes the longer sequence.
pub open spec fn lex_lt(x: Seq<char>, y: Seq<char>) -> bool
    decreases x.len(),
{
    if y.len() == 0 {
        false
    } else if x.len() == 0 {
        true
    } else if x[0] != y[0] {
        (x[0] as int) < (y[0] as int)
    } else {
        lex_lt(x.drop_first(), y.drop_first())
    }
}

/// Numeric order on digit strings without leading zeros: a shorter string
/// is a smaller number; equal lengths compare digit by digit.
pub open spec fn num_lt(x: Seq<char>, y: Seq<char>) -> bool {
    x.len() < y.len() || (x.len() == y.len() && lex_lt(x, y))
}

/// Order on single pre-release identifiers: numeric identifiers compare
/// numerically and precede alphanumeric ones; alphanumeric identifiers
/// compare in code-point order.
pub open spec fn id_lt(x: Seq<char>, y: Seq<char>) -> bool {
    if id_is_numeric(x) && id_is_numeric(y) {
        num_lt(x, y)
    } else if id_is_numeric(x) {
        true
    } else if id_is_numeric(y) {
        false
    } else {
        lex_lt(x, y)
    }
}

/// Order on identifier lists: element by element, a proper prefix first.
pub open spec fn ids_lt(a: Seq<Seq<char>>, b: Seq<Seq<char>>) -> bool
    decreases a.len(),
{
    if a.len() == 0 {
        b.len() > 0
    } else if b.len() == 0 {
        false
    } else if a[0] != b[0] {
        id_lt(a[0], b[0])
    } else {
        ids_lt(a.drop_first(), b.drop_first())
    }
}

/// Order on pre-release identifier lists of whole versions: a pre-release
/// precedes the release without one; two pre-releases compare by their
/// identifier lists.
pub open spec fn pre_lt(a: Seq<Seq<char>>, b: Seq<Seq<char>>) -> bool {
    if a.len() == 0 {
        false
    } else if b.len() == 0 {
        true
    } else {
        ids_lt(a, b)
    }
}

/// Semantic-version precedence on parsed versions.
pub open spec fn version_lt(a: SemVer, b: SemVer) -> bool {
    if a.major != b.major {
        a.major < b.major
    } else if a.minor != b.minor {
        a.minor < b.minor
    } else if a.patch != b.patch {
        a.patch < b.patch
    } else {
        pre_lt(a.pre.deep_view(), b.pre.deep_view())
    }
}

/// Semantic-version precedence on raw parse results.
pub open spec fn parts_lt(a: (u64, u64, u64, Seq<char>), b: (u64, u64, u64, Seq<char>)) -> bool {
    if a.0 != b.0 {
        a.0 < b.0
    } else if a.1 != b.1 {
        a.1 < b.1
    } else if a.2 != b.2 {
        a.2 < b.2
    } else {
        pre_lt(pre_ids_of(a.3), pre_ids_of(b.3))
    }
}

fn is_digit_exec(c: char) -> (r: bool)
    ensures
        r == is_digit(c),
{
    let cu = c as u32;
    48 <= cu && cu <= 57
}

fn id_is_numeric_exec(x: &str) -> (r: bool)
    ensures
        r == id_is_numeric(x@),
{
    let n = x.unicode_len();
    if n == 0 {
        return false;
    }
    let mut i: usize = 0;
    while i < n
        invariant
            n == x@.len(),
            0 <= i <= n,
            forall|k: int| 0 <= k < i ==> is_digit(x@[k]),
        decreases n - i,
    {
        if !is_digit_exec(x.get_char(i)) {
            return false;
        }
        i += 1;
    }
    true
}

fn lex_lt_exec(x: &str, y: &str) -> (r: bool)
    ensures
        r == lex_lt(x@, y@),
{
    let xn = x.unicode_len();
    let yn = y.unicode_len();
    let mut i: usize = 0;
    proof {
        assert(x@.skip(0) =~= x@);
        assert(y@.skip(0) =~= y@);
    }
    while i < xn && i < yn
        invariant
            xn == x@.len(),
            yn == y@.len(),
            0 <= i <= xn,
            i <= yn,
            lex_lt(x@, y@) == lex_lt(x@.skip(i as int), y@.skip(i as int)),
        decreases xn - i,
    {
        let cx = x.get_char(i);
        let cy = y.get_char(i);
        proof {
            assert(x@.skip(i as int)[0] == x@[i as int]);
            assert(y@.skip(i as int)[0] == y@[i as int]);
            assert(x@.skip(i as int).drop_first() =~= x@.skip(i + 1));
            assert(y@.skip(i as int).drop_first() =~= y@.skip(i + 1));
        }
        if cx != cy {
            return (cx as u32) < (cy as u32);
        }
        i += 1;
    }
    proof {
        assert(x@.skip(i as int).len() == xn - i);
        assert(y@.skip(i as int).len() == yn - i);
    }
    yn > i
}

fn id_lt_exec(x: &str, y: &str) -> (r: bool)
    ensures
        r == id_lt(x@, y@),
{
    let xn_num = id_is_numeric_exec(x);
    let yn_num = id_is_numeric_exec(y);
    if xn_num && yn_num {
        let xl = x.unicode_len();
        let yl = y.unicode_len();
        if xl != yl {
            xl < yl
        } else {
            lex_lt_exec(x, y)
        }
    } else if xn_num {
        true
    } else if yn_num {
        false
    } else {
        lex_lt_exec(x, y)
    }
}

fn ids_lt_exec(a: &Vec<String>, b: &Vec<String>) -> (r: bool)
    ensures
        r == ids_lt(a.deep_view(), b.deep_view()),
{
    let an = a.len();
    let bn = b.len();
    let mut i: usize = 0;
    proof {
        assert(a.deep_view().skip(0) =~= a.deep_view());
        assert(b.deep_view().skip(0) =~= b.deep_view());
    }
    while i < an && i < bn
        invariant
            an == a@.len(),
            bn == b@.len(),
            0 <= i <= an,
            i <= bn,
            ids_lt(a.deep_view(), b.deep_view()) == ids_lt(
                a.deep_view().skip(i as int),
                b.deep_view().skip(i as int),
            ),
        decreases an - i,
    {
        proof {
            assert(a.deep_view().skip(i as int)[0] == a@[i as int]@);
            assert(b.deep_view().skip(i as int)[0] == b@[i as int]@);
            assert(a.deep_view().skip(i as int).drop_first() =~= a.deep_view().skip(i + 1));
            assert(b.deep_view().skip(i as int).drop_first() =~= b.deep_view().skip(i + 1));
        }
        if a[i] == b[i] {
            i += 1;
        } else {
            return id_lt_exec(a[i].as_str(), b[i].as_str());
        }
    }
    proof {
        assert(a.deep_view().skip(i as int).len() == an - i);
        assert(b.deep_view().skip(i as int).len() == bn - i);
    }
    bn > i
}

fn pre_lt_exec(a: &Vec<String>, b: &Vec<String>) -> (r: bool)
    ensures
        r == pre_lt(a.deep_view(), b.deep_view()),
{
    if a.len() == 0 {
        false
    } else if b.len() == 0 {
        true
    } else {
        ids_lt_exec(a, b)
    }
}

/// Whether `latest` has higher semantic-version precedence than `current`.
pub fn is_newer_version(current: &SemVer, latest: &SemVer) -> (r: bool)
    ensures
        r == version_lt(*current, *latest),
{
    if current.major != latest.major {
        current.major < latest.major
    } else if current.minor != latest.minor {
        current.minor < latest.minor
    } else if current.patch != latest.patch {
        current.patch < latest.patch
    } else {
        pre_lt_exec(&current.pre, &latest.pre)
    }
}

/// Parses a version string; `None` exactly where the string is not a
/// semantic version.
pub fn parse_version(s: &str) -> (r: Option<SemVer>)
    ensures
        r is Some <==> semver_parts(s@) is Some,
        r matches Some(v) ==> semver_parts(s@) matches Some(p) && v.major == p.0 && v.minor
            == p.1 && v.patch == p.2 && v.pre.deep_view() == pre_ids_of(p.3),
{
    match parse_parts(s) {
        None => None,
        Some((major, minor, patch, pre)) => {
            let ids: Vec<String> = if pre.as_str().unicode_len() == 0 {
                let empty: Vec<String> = Vec::new();
                proof {
                    assert(empty.deep_view() =~~= Seq::<Seq<char>>::empty());
                }
                empty
            } else {
                split_pre(pre.as_str())
            };
            Some(SemVer { major, minor, patch, pre: ids })
        },
    }
}

} // verus!
