//! The update check: mapping HTTP status codes to user-facing messages,
//! trimming the tag prefix, comparing versions, and assembling the result
//! handed to the front end.

use vstd::prelude::*;
use vstd::string::StrSliceExecFns;
use vstd::string::StringExecFns;
use crate::release::GitHubRelease;
use crate::release::chosen_download_url;
use crate::release::find_installer_url;
use crate::text::dec_str;
use crate::text::u16_dec;
use crate::version::parse_version;
use crate::version::is_newer_version;
use crate::version::parts_lt;
use crate::version::semver_parts;
use crate::version::version_lt;

verus! {

/// Why an update check failed.
#[derive(Clone, Copy, Debug, PartialEq, Eq, Structural)]
pub enum UpdateError {
    /// The endpoint answered 403 and no access token was supplied.
    RateLimited,
    /// The endpoint answered 403 although an access token was supplied.
    TokenRejected,
    /// The endpoint answered 404: no release information exists.
    NotFound,
    /// Any other non-success HTTP status.
    HttpStatus(u16),
    /// The running application's own version string did not parse.
    CurrentVersionInvalid,
    /// The latest release's version string did not parse.
    LatestVersionInvalid,
}

/// The user-facing message of each failure.
pub open spec fn spec_message(e: UpdateError) -> Seq<char> {
    match e {
        UpdateError::RateLimited => "GitHub API access is restricted; turn off any VPN and retry, or open the releases page in a browser"@,
        UpdateError::TokenRejected => "The GitHub access token may be invalid or expired; please update the token"@,
        UpdateError::NotFound => "No release information found; the repository may not exist or has no published releases"@,
        UpdateError::HttpStatus(code) => "GitHub API returned an error ("@ + dec_str(code as nat)
            + "): please try again later"@,
        UpdateError::CurrentVersionInvalid => "Could not parse the current application version"@,
        UpdateError::LatestVersionInvalid => "Could not parse the latest version number; the tag format may be nonstandard"@,
    }
}

impl UpdateError {
    /// The user-facing message of this failure.
    pub fn message(&self) -> (r: String)
        ensures
            r@ == spec_message(*self),
    {
        match self {
            UpdateError::RateLimited => String::from_str(
                "GitHub API access is restricted; turn off any VPN and retry, or open the releases page in a browser",
            ),
            UpdateError::TokenRejected => String::from_str(
                "The GitHub access token may be invalid or expired; please update the token",
            ),
            UpdateError::NotFound => String::from_str(
                "No release information found; the repository may not exist or has no published releases",
            ),
            UpdateError::HttpStatus(code) => {
                let mut r = String::from_str("GitHub API returned an error (");
                let digits = u16_dec(*code);
                r.append(digits.as_str());
                r.append("): please try again later");
                r
            },
            UpdateError::CurrentVersionInvalid => String::from_str(
                "Could not parse the current application version",
            ),
            UpdateError::LatestVersionInvalid => String::from_str(
                "Could not parse the latest version number; the tag format may be nonstandard",
            ),
        }
    }
}

/// The failure reported for a non-success HTTP status: 403 is told apart
/// by whether a token was supplied, 404 means no release exists, and any
/// other status is carried as is.
pub open spec fn spec_status_error(code: u16, has_token: bool) -> UpdateError {
    if code == 403 {
        if has_token {
            UpdateError::TokenRejected
        } else {
            UpdateError::RateLimited
        }
    } else if code == 404 {
        UpdateError::NotFound
    } else {
        UpdateError::HttpStatus(code)
    }
}

/// Maps a non-success HTTP status to the failure to report.
pub fn status_error(code: u16, has_token: bool) -> (r: UpdateError)
    requires
        !(200 <= code < 300),
    ensures
        r == spec_status_error(code, has_token),
{
    if code == 403 {
        if has_token {
            UpdateError::TokenRejected
        } else {
            UpdateError::RateLimited
        }
    } else if code == 404 {
        UpdateError::NotFound
    } else {
        UpdateError::HttpStatus(code)
    }
}

/// The tag with every leading 'v' removed.
pub open spec fn trim_v(s: Seq<char>) -> Seq<char>
    decreases s.len(),
{
    if s.len() > 0 && s[0] == 'v' {
        trim_v(s.drop_first())
    } else {
        s
    }
}

proof fn lemma_trim_v_skip(s: Seq<char>, i: int)
    requires
        0 <= i <= s.len(),
        forall|k: int| 0 <= k < i ==> s[k] == 'v',
        i == s.len() || s[i] != 'v',
    ensures
        trim_v(s) == s.skip(i),
    decreases i,
{
    if i == 0 {
        assert(s.skip(0) =~= s);
    } else {
        let d = s.drop_first();
        assert(forall|k: int| 0 <= k < i - 1 ==> d[k] == s[k + 1] && d[k] == 'v');
        lemma_trim_v_skip(d, i - 1);
        assert(d.skip(i - 1) =~= s.skip(i));
    }
}

/// Strips the leading version-prefix characters from a tag.
pub fn trim_v_prefix(s: &str) -> (r: String)
    ensures
        r@ == trim_v(s@),
{
    let n = s.unicode_len();
    let mut i: usize = 0;
    while i < n && s.get_char(i) == 'v'
        invariant
            n == s@.len(),
            0 <= i <= n,
            forall|k: int| 0 <= k < i ==> s@[k] == 'v',
        decreases n - i,
    {
        i += 1;
    }
    proof {
        lemma_trim_v_skip(s@, i as int);
    }
    let r = s.substring_char(i, n).to_owned();
    proof {
        assert(r@ =~= s@.skip(i as int));
    }
    r
}

/// What an update check reports to the front end.
#[derive(Debug)]
pub struct UpdateCheckResult {
    pub has_update: bool,
    pub current_version: String,
    pub latest_version: String,
    pub download_url: String,
    pub release_notes: Option<String>,
}

/// Evaluates a fetched release against the running version: trims the tag,
/// parses both versions, compares their precedence, and picks the download
/// URL — the chosen installer asset if any, else the release's web page.
pub fn evaluate_release(current_version: &str, release: &GitHubRelease) -> (r: Result<
    UpdateCheckResult,
    UpdateError,
>)
    ensures
        ({
            let cur = semver_parts(current_version@);
            let lat = semver_parts(trim_v(release.tag_name@));
            match r {
                Ok(u) => cur matches Some(cp) && lat matches Some(lp) && u.has_update
                    == parts_lt(cp, lp) && u.current_version@ == current_version@
                    && u.latest_version@ == trim_v(release.tag_name@) && u.download_url@ == (
                match chosen_download_url(release.assets@) {
                    Some(chosen) => chosen,
                    None => release.html_url@,
                }) && u.release_notes.deep_view() == release.body.deep_view(),
                Err(e) => (cur is None || lat is None) && e == (if cur is None {
                    UpdateError::CurrentVersionInvalid
                } else {
                    UpdateError::LatestVersionInvalid
                }),
            }
        }),
{
    let latest_str = trim_v_prefix(release.tag_name.as_str());
    let current = match parse_version(current_version) {
        Some(v) => v,
        None => {
            return Err(UpdateError::CurrentVersionInvalid);
        },
    };
    let latest = match parse_version(latest_str.as_str()) {
        Some(v) => v,
        None => {
            return Err(UpdateError::LatestVersionInvalid);
        },
    };
    let has_update = is_newer_version(&current, &latest);
    proof {
        let cp = semver_parts(current_version@).unwrap();
        let lp = semver_parts(trim_v(release.tag_name@)).unwrap();
        assert(version_lt(current, latest) == parts_lt(cp, lp));
    }
    let download_url = match find_installer_url(&release.assets) {
        Some(u) => u,
        None => release.html_url.clone(),
    };
    let release_notes = match &release.body {
        Some(b) => Some(b.clone()),
        None => None,
    };
    Ok(
        UpdateCheckResult {
            has_update,
            current_version: current_version.to_owned(),
            latest_version: latest_str,
            download_url,
            release_notes,
        },
    )
}

} // verus!
