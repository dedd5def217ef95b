use codeql_extractor::error::Error;
use codeql_extractor::pipeline::{
    db_dir_name, pipeline_step, query_pack_name, sarif_file_name, Database, DbState,
    PipelineDecision, PipelineEvent, PipelineStage,
};

#[test]
fn test_naming_conventions() {
    assert_eq!(db_dir_name("python"), "db-python");
    assert_eq!(sarif_file_name("python"), "python-results.sarif");
    assert_eq!(query_pack_name("octo", "python"), "octo/python-queries");
}

#[test]
fn test_database_lifecycle() {
    let mut db = Database::init(
        "repo".to_string(),
        "/work".to_string(),
        "/dbs/db-python".to_string(),
        "python".to_string(),
    );
    assert_eq!(db.state, DbState::Uninitialized);
    db.mark_create_result(true);
    assert_eq!(db.state, DbState::Created);
    assert_eq!(db.language, "python");
    db.mark_analyzed();
    assert_eq!(db.state, DbState::Analyzed);

    let mut failed = Database::init(
        "repo".to_string(),
        "/work".to_string(),
        "/dbs/db-go".to_string(),
        "go".to_string(),
    );
    failed.mark_create_result(false);
    assert_eq!(failed.state, DbState::Failed);
}

#[test]
fn test_create_failure_policy() {
    assert_eq!(
        pipeline_step(PipelineStage::Create, PipelineEvent::CreateFailed, true),
        PipelineDecision::SkipLanguage
    );
    assert_eq!(
        pipeline_step(PipelineStage::Create, PipelineEvent::CreateFailed, false),
        PipelineDecision::Abort(Error::DatabaseCreateFailed)
    );
    assert_eq!(
        pipeline_step(PipelineStage::Create, PipelineEvent::CreateOk, false),
        PipelineDecision::Proceed(PipelineStage::ResolveQueries)
    );
}

#[test]
fn test_query_resolution_failure_is_fatal() {
    assert_eq!(
        pipeline_step(PipelineStage::ResolveQueries, PipelineEvent::QueriesFailed, true),
        PipelineDecision::Abort(Error::QueryResolutionFailed)
    );
    assert_eq!(
        pipeline_step(PipelineStage::ResolveQueries, PipelineEvent::QueriesResolved, false),
        PipelineDecision::Proceed(PipelineStage::Analyze)
    );
}

#[test]
fn test_analysis_failures_never_abort() {
    for event in [
        PipelineEvent::AnalyzeOk,
        PipelineEvent::AnalyzeReportMalformed,
        PipelineEvent::AnalyzeFailed,
    ] {
        assert_eq!(
            pipeline_step(PipelineStage::Analyze, event, false),
            PipelineDecision::Proceed(PipelineStage::Patch)
        );
    }
}

#[test]
fn test_patch_and_reload_policy() {
    assert_eq!(
        pipeline_step(PipelineStage::Patch, PipelineEvent::PatchOk, false),
        PipelineDecision::Proceed(PipelineStage::Reload)
    );
    assert_eq!(
        pipeline_step(
            PipelineStage::Patch,
            PipelineEvent::PatchFailed(Error::ReportUnreadable),
            true,
        ),
        PipelineDecision::Abort(Error::ReportUnreadable)
    );
    assert_eq!(
        pipeline_step(
            PipelineStage::Patch,
            PipelineEvent::PatchFailed(Error::ReportWriteFailed),
            true,
        ),
        PipelineDecision::Abort(Error::ReportWriteFailed)
    );
    assert_eq!(
        pipeline_step(PipelineStage::Reload, PipelineEvent::ReloadOk, false),
        PipelineDecision::Proceed(PipelineStage::Complete)
    );
    assert_eq!(
        pipeline_step(PipelineStage::Reload, PipelineEvent::ReloadFailed, true),
        PipelineDecision::Abort(Error::DatabaseInconsistent)
    );
}
