use codeql_extractor::error::Error;
use codeql_extractor::fetch::{
    archive_names, attestation_gate, cache_decision, cached_archive_kind, extraction_needed,
    manifest_file_name, resolve_search_path, CacheDecision,
};
use codeql_extractor::release::ArchiveKind;

#[test]
fn test_archive_names() {
    let names = archive_names("iac-extractor");
    assert_eq!(names.tarball, "iac-extractor.tar.gz");
    assert_eq!(names.zip, "iac-extractor.zip");
    assert_eq!(names.pack_dir, "iac-extractor");
}

#[test]
fn test_cache_decision_download_only_when_nothing_cached() {
    assert!(matches!(cache_decision(false, false), CacheDecision::Download));
    assert!(matches!(cache_decision(true, false), CacheDecision::UseTarball));
    assert!(matches!(cache_decision(false, true), CacheDecision::UseZip));
    assert!(matches!(cache_decision(true, true), CacheDecision::UseTarball));
}

#[test]
fn test_cached_archive_kind() {
    assert_eq!(
        cached_archive_kind(&cache_decision(true, true)),
        Some(ArchiveKind::Tar)
    );
    assert_eq!(
        cached_archive_kind(&cache_decision(false, true)),
        Some(ArchiveKind::Zip)
    );
    assert_eq!(cached_archive_kind(&cache_decision(false, false)), None);
}

#[test]
fn test_attestation_gate() {
    assert!(attestation_gate(false, false).is_ok());
    assert!(attestation_gate(false, true).is_ok());
    assert!(attestation_gate(true, true).is_ok());
    assert_eq!(attestation_gate(true, false), Err(Error::AttestationFailed));
}

#[test]
fn test_extraction_needed() {
    assert!(extraction_needed(false));
    assert!(!extraction_needed(true));
}

#[test]
fn test_manifest_file_name() {
    assert_eq!(manifest_file_name(), "codeql-extractor.yml");
}

#[test]
fn test_resolve_search_path() {
    let (dir, found) = resolve_search_path(
        Some("/cache/extractors/iac/pack".to_string()),
        "/cache/extractors/iac".to_string(),
    );
    assert_eq!(dir, "/cache/extractors/iac/pack");
    assert!(found);

    let (dir, found) = resolve_search_path(None, "/cache/extractors/iac".to_string());
    assert_eq!(dir, "/cache/extractors/iac");
    assert!(!found);
}
