//! Release metadata as fetched from the release-listing endpoint, and the
//! choice of which asset to offer for download.

use vstd::prelude::*;
use crate::text::contains_ci;
use crate::text::contains_ci_str;
use crate::text::ends_with_ci;
use crate::text::ends_with_ci_str;

verus! {

/// One downloadable asset of a release.
#[derive(Debug)]
pub struct ReleaseAsset {
    pub name: String,
    pub browser_download_url: String,
}

/// The fields of a release that the update checker reads.
#[derive(Debug)]
pub struct GitHubRelease {
    pub tag_name: String,
    pub html_url: String,
    pub body: Option<String>,
    pub assets: Vec<ReleaseAsset>,
}

/// A setup executable: its name contains "setup" and ends in ".exe",
/// ignoring ASCII case.
pub open spec fn is_setup_exe_name(name: Seq<char>) -> bool {
    contains_ci(name, "setup"@) && ends_with_ci(name, ".exe"@)
}

/// An installer package: its name ends in ".msi", ignoring ASCII case.
pub open spec fn is_msi_name(name: Seq<char>) -> bool {
    ends_with_ci(name, ".msi"@)
}

/// The first asset whose name is a setup executable.
pub open spec fn first_setup_exe(assets: Seq<ReleaseAsset>) -> Option<ReleaseAsset>
    decreases assets.len(),
{
    if assets.len() == 0 {
        None
    } else if is_setup_exe_name(assets[0].name@) {
        Some(assets[0])
    } else {
        first_setup_exe(assets.drop_first())
    }
}

/// The first asset whose name is an installer package.
pub open spec fn first_msi(assets: Seq<ReleaseAsset>) -> Option<ReleaseAsset>
    decreases assets.len(),
{
    if assets.len() == 0 {
        None
    } else if is_msi_name(assets[0].name@) {
        Some(assets[0])
    } else {
        first_msi(assets.drop_first())
    }
}

/// The download URL the checker offers: the first setup executable if any,
/// else the first installer package, else none.
pub open spec fn chosen_download_url(assets: Seq<ReleaseAsset>) -> Option<Seq<char>> {
    match first_setup_exe(assets) {
        Some(a) => Some(a.browser_download_url@),
        None => match first_msi(assets) {
            Some(a) => Some(a.browser_download_url@),
            None => None,
        },
    }
}

proof fn lemma_first_setup_exe_at(assets: Seq<ReleaseAsset>, i: int)
    requires
        0 <= i < assets.len(),
        is_setup_exe_name(assets[i].name@),
        forall|k: int| 0 <= k < i ==> !is_setup_exe_name(assets[k].name@),
    ensures
        first_setup_exe(assets) == Some(assets[i]),
    decreases i,
{
    if i > 0 {
        lemma_first_setup_exe_at(assets.drop_first(), i - 1);
    }
}

proof fn lemma_first_setup_exe_none(assets: Seq<ReleaseAsset>)
    requires
        forall|k: int| 0 <= k < assets.len() ==> !is_setup_exe_name(assets[k].name@),
    ensures
        first_setup_exe(assets) is None,
    decreases assets.len(),
{
    if assets.len() > 0 {
        lemma_first_setup_exe_none(assets.drop_first());
    }
}

proof fn lemma_first_msi_at(assets: Seq<ReleaseAsset>, i: int)
    requires
        0 <= i < assets.len(),
        is_msi_name(assets[i].name@),
        forall|k: int| 0 <= k < i ==> !is_msi_name(assets[k].name@),
    ensures
        first_msi(assets) == Some(assets[i]),
    decreases i,
{
    if i > 0 {
        lemma_first_msi_at(assets.drop_first(), i - 1);
    }
}

proof fn lemma_first_msi_none(assets: Seq<ReleaseAsset>)
    requires
        forall|k: int| 0 <= k < assets.len() ==> !is_msi_name(assets[k].name@),
    ensures
        first_msi(assets) is None,
    decreases assets.len(),
{
    if assets.len() > 0 {
        lemma_first_msi_none(assets.drop_first());
    }
}

/// Finds the URL of the installer asset: a setup executable first, else an
/// installer package, else none.
pub fn find_installer_url(assets: &Vec<ReleaseAsset>) -> (r: Option<String>)
    ensures
        r matches Some(u) ==> chosen_download_url(assets@) == Some(u@),
        r is None ==> chosen_download_url(assets@) is None,
{
    let n = assets.len();
    let mut i: usize = 0;
    while i < n
        invariant
            n == assets@.len(),
            0 <= i <= n,
            forall|k: int| 0 <= k < i ==> !is_setup_exe_name(assets@[k].name@),
        decreases n - i,
    {
        let name = assets[i].name.as_str();
        if contains_ci_str(name, "setup") && ends_with_ci_str(name, ".exe") {
            proof {
                lemma_first_setup_exe_at(assets@, i as int);
            }
            return Some(assets[i].browser_download_url.clone());
        }
        i += 1;
    }
    proof {
        lemma_first_setup_exe_none(assets@);
    }
    let mut j: usize = 0;
    while j < n
        invariant
            n == assets@.len(),
            0 <= j <= n,
            first_setup_exe(assets@) is None,
            forall|k: int| 0 <= k < j ==> !is_msi_name(assets@[k].name@),
        decreases n - j,
    {
        if ends_with_ci_str(assets[j].name.as_str(), ".msi") {
            proof {
                lemma_first_msi_at(assets@, j as int);
            }
            return Some(assets[j].browser_download_url.clone());
        }
        j += 1;
    }
    proof {
        lemma_first_msi_none(assets@);
    }
    None
}

} // verus!
