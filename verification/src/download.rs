//! Planning of an installer download: the target file name derived from
//! the URL, the target path inside the update directory, and the message
//! for a failed download.
//!
//! Fetching the bytes, clearing the update directory and launching the
//! installer are input/output and happen outside the library.

use vstd::prelude::*;
use vstd::string::StrSliceExecFns;
use vstd::string::StringExecFns;
use crate::text::dec_str;
use crate::text::u16_dec;

verus! {

/// The index of the last '/' in `s`, or -1 where it has none.
pub open spec fn last_slash(s: Seq<char>) -> int
    decreases s.len(),
{
    if s.len() == 0 {
        -1
    } else if s[s.len() - 1] == '/' {
        s.len() - 1
    } else {
        last_slash(s.take(s.len() - 1))
    }
}

/// The final path segment of a URL: everything after the last '/', or the
/// whole string where it has none.
pub open spec fn spec_file_name(url: Seq<char>) -> Seq<char> {
    url.skip(last_slash(url) + 1)
}

proof fn lemma_last_slash_at(s: Seq<char>, i: int)
    requires
        -1 <= i < s.len(),
        i >= 0 ==> s[i] == '/',
        forall|k: int| i < k < s.len() ==> s[k] != '/',
    ensures
        last_slash(s) == i,
    decreases s.len(),
{
    if s.len() == 0 {
    } else if i == s.len() - 1 {
    } else {
        let t = s.take(s.len() - 1);
        assert(forall|k: int| i < k < t.len() ==> t[k] == s[k] && t[k] != '/');
        lemma_last_slash_at(t, i);
    }
}

/// Derives the download target's file name from the URL: its final path
/// segment.
pub fn file_name_from_url(url: &str) -> (r: String)
    ensures
        r@ == spec_file_name(url@),
{
    let n = url.unicode_len();
    let mut i: usize = n;
    while i > 0 && url.get_char(i - 1) != '/'
        invariant
            n == url@.len(),
            0 <= i <= n,
            forall|k: int| i <= k < n ==> url@[k] != '/',
        decreases i,
    {
        i -= 1;
    }
    proof {
        lemma_last_slash_at(url@, i - 1);
    }
    let r = url.substring_char(i, n).to_owned();
    proof {
        assert(r@ =~= url@.skip(i as int));
    }
    r
}

/// The download target: `name` inside `dir`, joined with a forward slash.
pub open spec fn spec_update_file_path(dir: Seq<char>, name: Seq<char>) -> Seq<char> {
    dir + "/"@ + name
}

/// The path the installer is written to inside the update directory.
pub fn update_file_path(update_dir: &str, file_name: &str) -> (r: String)
    ensures
        r@ == spec_update_file_path(update_dir@, file_name@),
{
    let mut r = update_dir.to_owned();
    r.append("/");
    r.append(file_name);
    r
}

/// The message reported when the download response carries a non-success
/// HTTP status.
pub open spec fn spec_download_error(code: u16) -> Seq<char> {
    "Download failed, HTTP status code: "@ + dec_str(code as nat)
}

/// Renders the failure message for a non-success download status.
pub fn download_error_message(code: u16) -> (r: String)
    ensures
        r@ == spec_download_error(code),
{
    let mut r = String::from_str("Download failed, HTTP status code: ");
    let digits = u16_dec(code);
    r.append(digits.as_str());
    r
}

} // verus!
