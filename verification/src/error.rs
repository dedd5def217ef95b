//! Failure taxonomy of the pipeline.

use vstd::prelude::*;

verus! {

/// Every way a run can fail. Which of these abort the run and which are
/// downgraded to a skip or a warning is decided by the pipeline policy,
/// not by the variant itself.
#[derive(Clone, Copy, Debug, PartialEq, Eq, Structural)]
pub enum Error {
    /// A network or API call failed.
    Transport,
    /// No release matched the requested tag, or no latest release exists.
    NotFound,
    /// A release had no asset ending in `.tar.gz` or `.zip`.
    NoSuitableAsset,
    /// Provenance verification of a downloaded archive failed.
    AttestationFailed,
    /// Unpacking a downloaded archive failed.
    ExtractionFailed,
    /// No extractor manifest was found in an extracted tree (soft).
    ManifestNotFound,
    /// Setting executable permissions failed.
    PermissionError,
    /// A configured repository reference could not be parsed.
    RepositoryParseFailed,
    /// A requested language is not supported by any installed extractor.
    UnsupportedLanguage,
    /// No directory for the tool's work could be found or created.
    DirectoryCreateFailed,
    /// Creating a per-language database failed.
    DatabaseCreateFailed,
    /// A query-pack reference could not be resolved.
    QueryResolutionFailed,
    /// Analysis of a database failed (soft at the batch level).
    AnalysisFailed,
    /// Reloading database metadata after analysis failed; the database is
    /// assumed inconsistent.
    DatabaseInconsistent,
    /// The produced report could not be read or parsed.
    ReportUnreadable,
    /// The patched report could not be written back.
    ReportWriteFailed,
    /// All three tool-installation tiers failed.
    ToolInstallExhausted,
}

impl Error {
    /// What `describe` returns for each variant.
    pub open spec fn describe_spec(self) -> Seq<char> {
        match self {
            Error::Transport => "network or API request failed"@,
            Error::NotFound => "no matching release was found"@,
            Error::NoSuitableAsset => "no suitable asset found for extractor"@,
            Error::AttestationFailed => "attestation failed"@,
            Error::ExtractionFailed => "failed to extract archive"@,
            Error::ManifestNotFound => "no extractor manifest found"@,
            Error::PermissionError => "failed to set permissions"@,
            Error::RepositoryParseFailed => "failed to parse repository reference"@,
            Error::UnsupportedLanguage => "language not supported by the extractor"@,
            Error::DirectoryCreateFailed => "no working directory could be found or created"@,
            Error::DatabaseCreateFailed => "failed to create database"@,
            Error::QueryResolutionFailed => "failed to resolve queries"@,
            Error::AnalysisFailed => "failed to analyze database"@,
            Error::DatabaseInconsistent => "failed to reload database metadata"@,
            Error::ReportUnreadable => "failed to read report file"@,
            Error::ReportWriteFailed => "failed to write report file"@,
            Error::ToolInstallExhausted => "all installation methods failed"@,
        }
    }

    /// A short human-readable account of the failure.
    pub fn describe(&self) -> (r: &'static str)
        ensures
            r@ == self.describe_spec(),
    {
        match self {
            Error::Transport => "network or API request failed",
            Error::NotFound => "no matching release was found",
            Error::NoSuitableAsset => "no suitable asset found for extractor",
            Error::AttestationFailed => "attestation failed",
            Error::ExtractionFailed => "failed to extract archive",
            Error::ManifestNotFound => "no extractor manifest found",
            Error::PermissionError => "failed to set permissions",
            Error::RepositoryParseFailed => "failed to parse repository reference",
            Error::UnsupportedLanguage => "language not supported by the extractor",
            Error::DirectoryCreateFailed => "no working directory could be found or created",
            Error::DatabaseCreateFailed => "failed to create database",
            Error::QueryResolutionFailed => "failed to resolve queries",
            Error::AnalysisFailed => "failed to analyze database",
            Error::DatabaseInconsistent => "failed to reload database metadata",
            Error::ReportUnreadable => "failed to read report file",
            Error::ReportWriteFailed => "failed to write report file",
            Error::ToolInstallExhausted => "all installation methods failed",
        }
    }
}

} // verus!
