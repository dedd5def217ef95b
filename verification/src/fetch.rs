//! Fetching an extractor archive: deterministic local names, the cache
//! decision, the attestation gate, the extraction decision, and the
//! manifest-search fallback.

use vstd::prelude::*;

use crate::error::Error;
use crate::release::ArchiveKind;
use crate::text::concat2;

verus! {

/// The deterministic local names an extractor from repository `name` uses,
/// all relative to the output directory.
pub struct ArchiveNames {
    /// Local name of a tarball asset: `{name}.tar.gz`.
    pub tarball: String,
    /// Local name of a zip asset: `{name}.zip`.
    pub zip: String,
    /// Directory the archive is extracted into: `{name}`.
    pub pack_dir: String,
}

/// Computes the local names for an extractor from repository `repo_name`.
pub fn archive_names(repo_name: &str) -> (r: ArchiveNames)
    ensures
        r.tarball@ == repo_name@ + ".tar.gz"@,
        r.zip@ == repo_name@ + ".zip"@,
        r.pack_dir@ == repo_name@,
{
    ArchiveNames {
        tarball: concat2(repo_name, ".tar.gz"),
        zip: concat2(repo_name, ".zip"),
        pack_dir: repo_name.to_owned(),
    }
}

/// Whether the archive must be downloaded, or which cached file serves.
pub enum CacheDecision {
    /// Neither archive file exists: resolve the release and download.
    Download,
    /// The tarball is already on disk; no network call is made.
    UseTarball,
    /// Only the zip is already on disk; no network call is made.
    UseZip,
}

/// The cache decision as a function of which archive files exist.
pub open spec fn spec_cache_decision(tarball_exists: bool, zip_exists: bool) -> CacheDecision {
    if tarball_exists {
        CacheDecision::UseTarball
    } else if zip_exists {
        CacheDecision::UseZip
    } else {
        CacheDecision::Download
    }
}

/// Decides whether a download is needed: an archive already on disk is
/// reused and the network is not touched at all.
pub fn cache_decision(tarball_exists: bool, zip_exists: bool) -> (r: CacheDecision)
    ensures
        r == spec_cache_decision(tarball_exists, zip_exists),
        r is Download <==> (!tarball_exists && !zip_exists),
{
    if tarball_exists {
        CacheDecision::UseTarball
    } else if zip_exists {
        CacheDecision::UseZip
    } else {
        CacheDecision::Download
    }
}

/// Law: fetching again with an already-present archive file downloads
/// nothing — the decision is `Download` exactly when no archive exists.
pub proof fn lemma_cache_hit_skips_download(tarball_exists: bool, zip_exists: bool)
    ensures
        (tarball_exists || zip_exists) ==> !(spec_cache_decision(tarball_exists, zip_exists)
            is Download),
{
}

/// The attestation decision: when provenance verification was requested, a
/// failed verification is fatal, whether or not the archive came from the
/// cache; when it was not requested, the archive is accepted as it is.
pub fn attestation_gate(attest: bool, verify_succeeded: bool) -> (r: Result<(), Error>)
    ensures
        r is Ok <==> (!attest || verify_succeeded),
        r matches Err(e) ==> e == Error::AttestationFailed,
{
    if attest && !verify_succeeded {
        Err(Error::AttestationFailed)
    } else {
        Ok(())
    }
}

/// Whether the archive still has to be extracted: once the target directory
/// exists, extraction is skipped on later runs. The directory's contents are
/// not re-validated against the archive, so a changed archive behind an
/// unchanged directory name is ignored — a known cache-invalidation gap.
pub fn extraction_needed(pack_dir_exists: bool) -> (r: bool)
    ensures
        r == !pack_dir_exists,
{
    !pack_dir_exists
}

/// Name of the manifest file that identifies an extractor inside its
/// extracted tree.
pub fn manifest_file_name() -> (r: &'static str)
    ensures
        r@ == "codeql-extractor.yml"@,
{
    "codeql-extractor.yml"
}

/// Resolves the extractor's search path from the manifest search. A found
/// manifest yields its directory and permission normalization runs; with no
/// manifest the raw extraction directory is a degraded fallback and the
/// permissions step is skipped.
pub fn resolve_search_path(manifest_dir: Option<String>, pack_dir: String) -> (r: (
    String,
    bool,
))
    ensures
        manifest_dir matches Some(d) ==> r.0@ == d@ && r.1,
        manifest_dir is None ==> r.0@ == pack_dir@ && !r.1,
{
    match manifest_dir {
        Some(d) => (d, true),
        None => (pack_dir, false),
    }
}

/// Which cached archive file a cache hit uses, as a format.
pub fn cached_archive_kind(decision: &CacheDecision) -> (r: Option<ArchiveKind>)
    ensures
        decision is UseTarball ==> r == Some(ArchiveKind::Tar),
        decision is UseZip ==> r == Some(ArchiveKind::Zip),
        decision is Download ==> r is None,
{
    match decision {
        CacheDecision::UseTarball => Some(ArchiveKind::Tar),
        CacheDecision::UseZip => Some(ArchiveKind::Zip),
        CacheDecision::Download => None,
    }
}

} // verus!
