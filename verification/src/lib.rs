//! Verified core of a CI action that provisions a static-analysis tool,
//! fetches pluggable extractor bundles from release artifacts, builds a
//! database per language, runs analysis, and patches the resulting report.
//!
//! Every decision the pipeline takes — installation fallback, artifact
//! caching, asset selection, failure policy, report mutation — lives here
//! with a contract. The surrounding process (network, subprocesses,
//! filesystem) feeds these functions plain values and carries out the
//! actions they return.

pub mod action;
pub mod error;
pub mod extractor;
pub mod fetch;
pub mod installer;
pub mod permissions;
pub mod pipeline;
pub mod release;
pub mod repo;
pub mod sarif;
pub mod text;
