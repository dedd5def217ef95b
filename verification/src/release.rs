//! Release resolution: how a repository reference is looked up and which of
//! a release's assets is chosen for download.

use vstd::prelude::*;

use crate::error::Error;
use crate::repo::RepoRef;
use crate::text::{ends_with, is_suffix_of};

verus! {

/// One downloadable file attached to a release.
pub struct ReleaseAsset {
    pub name: String,
    pub download_url: String,
}

/// The mathematical value of a [`ReleaseAsset`].
pub struct ReleaseAssetSpec {
    pub name: Seq<char>,
    pub download_url: Seq<char>,
}

impl View for ReleaseAsset {
    type V = ReleaseAssetSpec;

    open spec fn view(&self) -> ReleaseAssetSpec {
        ReleaseAssetSpec { name: self.name@, download_url: self.download_url@ }
    }
}

/// A concrete release: its tag and its downloadable assets.
pub struct Release {
    pub tag_name: String,
    pub assets: Vec<ReleaseAsset>,
}

/// How a repository reference is turned into a release: a reference with a
/// tag is looked up by that tag; one without asks for the latest release.
pub enum ReleaseLookup {
    ByTag(String),
    Latest,
}

/// Decides the lookup for `repo`.
pub fn release_lookup(repo: &RepoRef) -> (r: ReleaseLookup)
    ensures
        repo@.reference matches Some(t) ==> (r matches ReleaseLookup::ByTag(u) && u@ == t),
        repo@.reference is None ==> r is Latest,
{
    match &repo.reference {
        Some(t) => ReleaseLookup::ByTag(t.clone()),
        None => ReleaseLookup::Latest,
    }
}

/// Maps a failed release lookup to the library's failure taxonomy: the API
/// reporting that no matching release exists is `NotFound`; any other
/// failure is a transport error.
pub fn release_lookup_error(not_found: bool) -> (r: Error)
    ensures
        not_found ==> r == Error::NotFound,
        !not_found ==> r == Error::Transport,
{
    if not_found {
        Error::NotFound
    } else {
        Error::Transport
    }
}

/// The two archive formats an extractor asset may use.
#[derive(Clone, Copy, Debug, PartialEq, Eq, Structural)]
pub enum ArchiveKind {
    Tar,
    Zip,
}

/// Whether an asset name denotes a gzipped tarball.
pub open spec fn is_tar_name(name: Seq<char>) -> bool {
    is_suffix_of(".tar.gz"@, name)
}

/// Whether an asset name denotes a zip archive.
pub open spec fn is_zip_name(name: Seq<char>) -> bool {
    is_suffix_of(".zip"@, name)
}

/// Picks the asset to download: the first whose name ends in `.tar.gz`,
/// else the first whose name ends in `.zip` — the tarball is preferred
/// whenever one exists. With no suitable asset the release is unusable.
pub fn select_asset(assets: &Vec<ReleaseAsset>) -> (r: Result<(usize, ArchiveKind), Error>)
    ensures
        (exists|i: int| 0 <= i < assets@.len() && is_tar_name(assets@[i].name@))
            <==> (r matches Ok(sel) && sel.1 is Tar),
        r matches Ok(sel) ==> {
            &&& sel.1 is Tar ==> {
                &&& sel.0 < assets@.len()
                &&& is_tar_name(assets@[sel.0 as int].name@)
                &&& forall|j: int| 0 <= j < sel.0 ==> !is_tar_name(assets@[j].name@)
            }
            &&& sel.1 is Zip ==> {
                &&& sel.0 < assets@.len()
                &&& is_zip_name(assets@[sel.0 as int].name@)
                &&& forall|j: int| 0 <= j < assets@.len() ==> !is_tar_name(assets@[j].name@)
                &&& forall|j: int| 0 <= j < sel.0 ==> !is_zip_name(assets@[j].name@)
            }
        },
        r is Err <==> (forall|j: int|
            0 <= j < assets@.len() ==> !is_tar_name(assets@[j].name@) && !is_zip_name(
                assets@[j].name@,
            )),
        r matches Err(e) ==> e == Error::NoSuitableAsset,
{
    let n = assets.len();
    let mut i: usize = 0;
    while i < n
        invariant
            n == assets@.len(),
            i <= n,
            forall|j: int| 0 <= j < i ==> !is_tar_name(assets@[j].name@),
        decreases n - i,
    {
        if ends_with(assets[i].name.as_str(), ".tar.gz") {
            return Ok((i, ArchiveKind::Tar));
        }
        i = i + 1;
    }
    let mut i: usize = 0;
    while i < n
        invariant
            n == assets@.len(),
            i <= n,
            forall|j: int| 0 <= j < n ==> !is_tar_name(assets@[j].name@),
            forall|j: int| 0 <= j < i ==> !is_zip_name(assets@[j].name@),
        decreases n - i,
    {
        if ends_with(assets[i].name.as_str(), ".zip") {
            return Ok((i, ArchiveKind::Zip));
        }
        i = i + 1;
    }
    Err(Error::NoSuitableAsset)
}

} // verus!
