//! The per-language pipeline: database lifecycle, the create/analyze state
//! machine with its asymmetric failure policy, and the naming conventions
//! for databases, reports, and query packs.

use vstd::prelude::*;

use crate::error::Error;
use crate::extractor::ExtractorDescriptor;
use crate::text::{concat2, concat4};

verus! {

/// Lifecycle of a per-language database within one run.
#[derive(Clone, Copy, Debug, PartialEq, Eq, Structural)]
pub enum DbState {
    Uninitialized,
    Created,
    Failed,
    Analyzed,
}

/// A per-language database, created fresh each run.
pub struct Database {
    pub name: String,
    pub source_path: String,
    pub output_path: String,
    pub language: String,
    pub state: DbState,
}

/// The mathematical value of a [`Database`].
pub struct DatabaseSpec {
    pub name: Seq<char>,
    pub source_path: Seq<char>,
    pub output_path: Seq<char>,
    pub language: Seq<char>,
    pub state: DbState,
}

impl View for Database {
    type V = DatabaseSpec;

    open spec fn view(&self) -> DatabaseSpec {
        DatabaseSpec {
            name: self.name@,
            source_path: self.source_path@,
            output_path: self.output_path@,
            language: self.language@,
            state: self.state,
        }
    }
}

impl Database {
    /// A fresh, not yet created database for one language.
    pub fn init(name: String, source_path: String, output_path: String, language: String) -> (r:
        Database)
        ensures
            r@.name == name@,
            r@.source_path == source_path@,
            r@.output_path == output_path@,
            r@.language == language@,
            r@.state == DbState::Uninitialized,
    {
        Database { name, source_path, output_path, language, state: DbState::Uninitialized }
    }

    /// Records the outcome of database creation; nothing else changes.
    pub fn mark_create_result(&mut self, succeeded: bool)
        ensures
            final(self)@ == (DatabaseSpec {
                state: if succeeded {
                    DbState::Created
                } else {
                    DbState::Failed
                },
                ..old(self)@
            }),
    {
        self.state = if succeeded {
            DbState::Created
        } else {
            DbState::Failed
        };
    }

    /// Records a completed analysis; nothing else changes.
    pub fn mark_analyzed(&mut self)
        requires
            old(self)@.state == DbState::Created,
        ensures
            final(self)@ == (DatabaseSpec { state: DbState::Analyzed, ..old(self)@ }),
    {
        self.state = DbState::Analyzed;
    }
}

/// The database the run builds for one extractor: its language is exactly
/// the extractor's internal name, so no language is ever analyzed without a
/// corresponding installed extractor.
pub fn database_for_extractor(
    descriptor: &ExtractorDescriptor,
    name: String,
    source_path: String,
    output_path: String,
) -> (r: Database)
    ensures
        r@.language == descriptor@.internal_name,
        r@.name == name@,
        r@.source_path == source_path@,
        r@.output_path == output_path@,
        r@.state == DbState::Uninitialized,
{
    Database::init(name, source_path, output_path, descriptor.internal_name.clone())
}

/// The marker that opens a named, scoped log phase.
pub fn phase_begin_marker(title: &str) -> (r: String)
    ensures
        r@ == "::group::"@ + title@,
{
    concat2("::group::", title)
}

/// The marker that closes the current log phase.
pub fn phase_end_marker() -> (r: &'static str)
    ensures
        r@ == "::endgroup::"@,
{
    "::endgroup::"
}

/// Directory name of the database for `language`: `db-{language}`.
pub fn db_dir_name(language: &str) -> (r: String)
    ensures
        r@ == "db-"@ + language@,
{
    concat2("db-", language)
}

/// File name of the report for `language`: `{language}-results.sarif`.
pub fn sarif_file_name(language: &str) -> (r: String)
    ensures
        r@ == language@ + "-results.sarif"@,
{
    concat2(language, "-results.sarif")
}

/// The query-pack reference resolved by convention for an extractor owned
/// by `owner`: `{owner}/{language}-queries`.
pub fn query_pack_name(owner: &str, language: &str) -> (r: String)
    ensures
        r@ == owner@ + "/"@ + language@ + "-queries"@,
{
    concat4(owner, "/", language, "-queries")
}

/// Where the pipeline for one language stands.
#[derive(Clone, Copy, Debug, PartialEq, Eq, Structural)]
pub enum PipelineStage {
    /// Create the database against the source tree (prior contents at the
    /// output path are deleted first; there are no incremental builds).
    Create,
    /// Resolve the query-pack reference.
    ResolveQueries,
    /// Run analysis, writing the report to the per-language output path.
    Analyze,
    /// Patch the produced report with the extractor's display name.
    Patch,
    /// Reload database metadata for observability.
    Reload,
    /// The language is done.
    Complete,
}

/// What the outside work reported back for the stage that just ran.
#[derive(Clone, Copy, Debug, PartialEq, Eq, Structural)]
pub enum PipelineEvent {
    CreateOk,
    CreateFailed,
    QueriesResolved,
    QueriesFailed,
    AnalyzeOk,
    /// The produced report did not parse; downgraded to a warning.
    AnalyzeReportMalformed,
    /// Any other analysis failure; never aborts the batch.
    AnalyzeFailed,
    PatchOk,
    /// Patching failed with the given fatal error.
    PatchFailed(Error),
    ReloadOk,
    ReloadFailed,
}

/// Whether `event` can be reported for `stage`.
pub open spec fn event_fits_stage(stage: PipelineStage, event: PipelineEvent) -> bool {
    match stage {
        PipelineStage::Create => event is CreateOk || event is CreateFailed,
        PipelineStage::ResolveQueries => event is QueriesResolved || event is QueriesFailed,
        PipelineStage::Analyze => event is AnalyzeOk || event is AnalyzeReportMalformed
            || event is AnalyzeFailed,
        PipelineStage::Patch => event is PatchOk || event is PatchFailed,
        PipelineStage::Reload => event is ReloadOk || event is ReloadFailed,
        PipelineStage::Complete => false,
    }
}

/// What the pipeline does next for this language.
#[derive(Clone, Copy, Debug, PartialEq, Eq, Structural)]
pub enum PipelineDecision {
    /// Move on to the named stage.
    Proceed(PipelineStage),
    /// Give up on this language only and continue the batch.
    SkipLanguage,
    /// Abort the whole run with the given error.
    Abort(Error),
}

/// The failure policy, stage by stage. A creation failure aborts the run
/// unless empty databases are allowed, in which case only this language is
/// skipped. Query resolution failure is always fatal. Analysis failures
/// never abort — a malformed report is only a warning, and the report is
/// patched regardless. Patch failures are fatal: a corrupted report is
/// worse than an aborted run. Metadata reload failure is fatal, since the
/// database is assumed inconsistent when that read fails.
pub open spec fn spec_pipeline_step(
    stage: PipelineStage,
    event: PipelineEvent,
    allow_empty_database: bool,
) -> PipelineDecision {
    match event {
        PipelineEvent::CreateOk => PipelineDecision::Proceed(PipelineStage::ResolveQueries),
        PipelineEvent::CreateFailed => if allow_empty_database {
            PipelineDecision::SkipLanguage
        } else {
            PipelineDecision::Abort(Error::DatabaseCreateFailed)
        },
        PipelineEvent::QueriesResolved => PipelineDecision::Proceed(PipelineStage::Analyze),
        PipelineEvent::QueriesFailed => PipelineDecision::Abort(Error::QueryResolutionFailed),
        PipelineEvent::AnalyzeOk => PipelineDecision::Proceed(PipelineStage::Patch),
        PipelineEvent::AnalyzeReportMalformed => PipelineDecision::Proceed(PipelineStage::Patch),
        PipelineEvent::AnalyzeFailed => PipelineDecision::Proceed(PipelineStage::Patch),
        PipelineEvent::PatchOk => PipelineDecision::Proceed(PipelineStage::Reload),
        PipelineEvent::PatchFailed(e) => PipelineDecision::Abort(e),
        PipelineEvent::ReloadOk => PipelineDecision::Proceed(PipelineStage::Complete),
        PipelineEvent::ReloadFailed => PipelineDecision::Abort(Error::DatabaseInconsistent),
    }
}

/// Decides the pipeline's next move for this language.
pub fn pipeline_step(stage: PipelineStage, event: PipelineEvent, allow_empty_database: bool) -> (r:
    PipelineDecision)
    requires
        event_fits_stage(stage, event),
    ensures
        r == spec_pipeline_step(stage, event, allow_empty_database),
{
    match event {
        PipelineEvent::CreateOk => PipelineDecision::Proceed(PipelineStage::ResolveQueries),
        PipelineEvent::CreateFailed => if allow_empty_database {
            PipelineDecision::SkipLanguage
        } else {
            PipelineDecision::Abort(Error::DatabaseCreateFailed)
        },
        PipelineEvent::QueriesResolved => PipelineDecision::Proceed(PipelineStage::Analyze),
        PipelineEvent::QueriesFailed => PipelineDecision::Abort(Error::QueryResolutionFailed),
        PipelineEvent::AnalyzeOk => PipelineDecision::Proceed(PipelineStage::Patch),
        PipelineEvent::AnalyzeReportMalformed => PipelineDecision::Proceed(PipelineStage::Patch),
        PipelineEvent::AnalyzeFailed => PipelineDecision::Proceed(PipelineStage::Patch),
        PipelineEvent::PatchOk => PipelineDecision::Proceed(PipelineStage::Reload),
        PipelineEvent::PatchFailed(e) => PipelineDecision::Abort(e),
        PipelineEvent::ReloadOk => PipelineDecision::Proceed(PipelineStage::Complete),
        PipelineEvent::ReloadFailed => PipelineDecision::Abort(Error::DatabaseInconsistent),
    }
}

/// Law: analysis failures never abort the batch — for every analyze-stage
/// event the pipeline proceeds to patch the report.
pub proof fn lemma_analysis_never_fatal(event: PipelineEvent, allow_empty_database: bool)
    requires
        event_fits_stage(PipelineStage::Analyze, event),
    ensures
        spec_pipeline_step(PipelineStage::Analyze, event, allow_empty_database)
            == PipelineDecision::Proceed(PipelineStage::Patch),
{
}

/// Law: a creation failure is fatal to the whole run exactly when empty
/// databases are not allowed; otherwise only this language is skipped.
pub proof fn lemma_create_failure_policy(allow_empty_database: bool)
    ensures
        spec_pipeline_step(PipelineStage::Create, PipelineEvent::CreateFailed, allow_empty_database)
            == (if allow_empty_database {
            PipelineDecision::SkipLanguage
        } else {
            PipelineDecision::Abort(Error::DatabaseCreateFailed)
        }),
{
}

} // verus!
