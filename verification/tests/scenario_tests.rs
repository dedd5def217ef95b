//! One run from end to end, on plain values: two extractor repositories,
//! distinct languages, and a forced database-creation failure on the second
//! language with empty databases disallowed.

use codeql_extractor::action::{Action, Language};
use codeql_extractor::error::Error;
use codeql_extractor::extractor::ExtractorDescriptor;
use codeql_extractor::fetch::{archive_names, cache_decision, CacheDecision};
use codeql_extractor::pipeline::{
    database_for_extractor, pipeline_step, query_pack_name, sarif_file_name, DbState,
    PipelineDecision, PipelineEvent, PipelineStage,
};
use codeql_extractor::release::{release_lookup, select_asset, ArchiveKind, ReleaseAsset,
    ReleaseLookup};
use codeql_extractor::sarif::{update_sarif, JsonValue};

fn driver_report(name: &str) -> JsonValue {
    JsonValue::Object(vec![(
        "runs".to_string(),
        JsonValue::Array(vec![JsonValue::Object(vec![(
            "tool".to_string(),
            JsonValue::Object(vec![(
                "driver".to_string(),
                JsonValue::Object(vec![("name".to_string(), JsonValue::Text(name.to_string()))]),
            )]),
        )])]),
    )])
}

fn driver_name(doc: &JsonValue) -> Option<String> {
    let JsonValue::Object(top) = doc else { return None };
    let runs = &top.iter().find(|(k, _)| k == "runs")?.1;
    let JsonValue::Array(elems) = runs else { return None };
    let JsonValue::Object(run0) = elems.first()? else { return None };
    let tool = &run0.iter().find(|(k, _)| k == "tool")?.1;
    let JsonValue::Object(tool) = tool else { return None };
    let driver = &tool.iter().find(|(k, _)| k == "driver")?.1;
    let JsonValue::Object(driver) = driver else { return None };
    match &driver.iter().find(|(k, _)| k == "name")?.1 {
        JsonValue::Text(s) => Some(s.clone()),
        _ => None,
    }
}

#[test]
fn test_two_extractors_second_creation_failure_aborts() {
    let action = Action {
        extractors: vec![
            "octo/python-extractor@v1.0.0".to_string(),
            "octo/javascript-extractor".to_string(),
        ],
        languages: vec!["python".to_string(), "javascript".to_string()],
        allow_empty_database: false,
        ..Default::default()
    };

    // Both references parse; the first is looked up by tag, the second by
    // the latest release.
    let repos = action.extractor_repository("unused/unused").unwrap();
    assert_eq!(repos.len(), 2);
    assert!(matches!(release_lookup(&repos[0]), ReleaseLookup::ByTag(ref t) if t == "v1.0.0"));
    assert!(matches!(release_lookup(&repos[1]), ReleaseLookup::Latest));

    // Each resolves to a release with one usable asset.
    let assets = vec![ReleaseAsset {
        name: "python-extractor.tar.gz".to_string(),
        download_url: "https://example.invalid/python-extractor.tar.gz".to_string(),
    }];
    assert_eq!(select_asset(&assets), Ok((0, ArchiveKind::Tar)));
    let names = archive_names(&repos[0].name);
    assert_eq!(names.tarball, "python-extractor.tar.gz");
    assert!(matches!(cache_decision(false, false), CacheDecision::Download));

    // Each repository yields a distinct extractor exposing one language.
    let python_extractor = ExtractorDescriptor::new(
        "python".to_string(),
        "Python Extractor".to_string(),
        "1.0.0".to_string(),
        vec!["python".to_string()],
        "/cache/extractors/python-extractor/pack".to_string(),
    );
    let javascript_extractor = ExtractorDescriptor::new(
        "javascript".to_string(),
        "JavaScript Extractor".to_string(),
        "2.0.0".to_string(),
        vec!["javascript".to_string()],
        "/cache/extractors/javascript-extractor/pack".to_string(),
    );
    let offered = vec![
        Language::from_name(python_extractor.language()),
        Language::from_name(javascript_extractor.language()),
    ];
    assert!(action.validate_languages(&offered).is_ok());

    // First language: creation, analysis, patching, reload all succeed, and
    // its report carries the extractor's display name.
    let mut db1 = database_for_extractor(
        &python_extractor,
        "repo".to_string(),
        "/work".to_string(),
        "/dbs/db-python".to_string(),
    );
    assert_eq!(db1.language, "python");
    assert_eq!(
        pipeline_step(PipelineStage::Create, PipelineEvent::CreateOk, false),
        PipelineDecision::Proceed(PipelineStage::ResolveQueries)
    );
    db1.mark_create_result(true);
    assert_eq!(db1.state, DbState::Created);
    assert_eq!(query_pack_name(&repos[0].owner, "python"), "octo/python-queries");
    assert_eq!(
        pipeline_step(PipelineStage::ResolveQueries, PipelineEvent::QueriesResolved, false),
        PipelineDecision::Proceed(PipelineStage::Analyze)
    );
    assert_eq!(
        pipeline_step(PipelineStage::Analyze, PipelineEvent::AnalyzeOk, false),
        PipelineDecision::Proceed(PipelineStage::Patch)
    );
    assert_eq!(sarif_file_name("python"), "python-results.sarif");
    let report = update_sarif(driver_report("python-analyzer"), &python_extractor.display_name);
    assert_eq!(
        driver_name(&report),
        Some("CodeQL - Python Extractor".to_string())
    );
    assert_eq!(
        pipeline_step(PipelineStage::Patch, PipelineEvent::PatchOk, false),
        PipelineDecision::Proceed(PipelineStage::Reload)
    );
    assert_eq!(
        pipeline_step(PipelineStage::Reload, PipelineEvent::ReloadOk, false),
        PipelineDecision::Proceed(PipelineStage::Complete)
    );
    db1.mark_analyzed();
    assert_eq!(db1.state, DbState::Analyzed);

    // Second language: the forced creation failure aborts the whole run
    // before any report for it is produced.
    let mut db2 = database_for_extractor(
        &javascript_extractor,
        "repo".to_string(),
        "/work".to_string(),
        "/dbs/db-javascript".to_string(),
    );
    assert_eq!(db2.language, "javascript");
    db2.mark_create_result(false);
    assert_eq!(db2.state, DbState::Failed);
    assert_eq!(
        pipeline_step(PipelineStage::Create, PipelineEvent::CreateFailed, false),
        PipelineDecision::Abort(Error::DatabaseCreateFailed)
    );
}

#[test]
fn test_second_creation_failure_skipped_when_empty_allowed() {
    assert_eq!(
        pipeline_step(PipelineStage::Create, PipelineEvent::CreateFailed, true),
        PipelineDecision::SkipLanguage
    );
}
