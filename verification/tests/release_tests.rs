use codeql_extractor::error::Error;
use codeql_extractor::release::{
    release_lookup, release_lookup_error, select_asset, ArchiveKind, ReleaseAsset, ReleaseLookup,
};
use codeql_extractor::repo::RepoRef;

fn asset(name: &str) -> ReleaseAsset {
    ReleaseAsset {
        name: name.to_string(),
        download_url: format!("https://example.invalid/{name}"),
    }
}

#[test]
fn test_release_lookup_by_tag() {
    let repo = RepoRef {
        owner: "owner".to_string(),
        name: "repo".to_string(),
        reference: Some("v2.1.0".to_string()),
    };
    match release_lookup(&repo) {
        ReleaseLookup::ByTag(tag) => assert_eq!(tag, "v2.1.0"),
        ReleaseLookup::Latest => panic!("expected a by-tag lookup"),
    }
}

#[test]
fn test_release_lookup_latest() {
    let repo = RepoRef {
        owner: "owner".to_string(),
        name: "repo".to_string(),
        reference: None,
    };
    assert!(matches!(release_lookup(&repo), ReleaseLookup::Latest));
}

#[test]
fn test_select_asset_prefers_tarball() {
    let assets = vec![asset("x.zip"), asset("x.tar.gz")];
    assert_eq!(select_asset(&assets), Ok((1, ArchiveKind::Tar)));
}

#[test]
fn test_select_asset_first_tarball() {
    let assets = vec![asset("a.txt"), asset("b.tar.gz"), asset("c.tar.gz")];
    assert_eq!(select_asset(&assets), Ok((1, ArchiveKind::Tar)));
}

#[test]
fn test_select_asset_zip_fallback() {
    let assets = vec![asset("notes.md"), asset("x.zip")];
    assert_eq!(select_asset(&assets), Ok((1, ArchiveKind::Zip)));
}

#[test]
fn test_select_asset_none_suitable() {
    let assets = vec![asset("readme.txt"), asset("source.tar")];
    assert_eq!(select_asset(&assets), Err(Error::NoSuitableAsset));
    assert_eq!(select_asset(&Vec::new()), Err(Error::NoSuitableAsset));
}

#[test]
fn test_release_lookup_error_classification() {
    assert_eq!(release_lookup_error(true), Error::NotFound);
    assert_eq!(release_lookup_error(false), Error::Transport);
}
