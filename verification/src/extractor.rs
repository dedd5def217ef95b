//! The extractor descriptor: what one fetched and extracted bundle exposes,
//! held as plain values for the lifetime of one run.

use vstd::prelude::*;

verus! {

/// One installed extractor: its identity from the manifest and the search
/// path its extracted tree was resolved to. One descriptor exists per
/// configured repository reference, and its internal name doubles as the
/// language whose database the pipeline builds.
pub struct ExtractorDescriptor {
    /// The manifest's internal name; also the language it extracts.
    pub internal_name: String,
    /// The manifest's display name, stamped into patched reports.
    pub display_name: String,
    /// The manifest's version.
    pub version: String,
    /// The languages the extractor supports.
    pub supported_languages: Vec<String>,
    /// The resolved directory handed to the tool as a search path.
    pub search_path: String,
}

/// The mathematical value of an [`ExtractorDescriptor`].
pub struct ExtractorDescriptorSpec {
    pub internal_name: Seq<char>,
    pub display_name: Seq<char>,
    pub version: Seq<char>,
    pub supported_languages: Seq<Seq<char>>,
    pub search_path: Seq<char>,
}

impl View for ExtractorDescriptor {
    type V = ExtractorDescriptorSpec;

    open spec fn view(&self) -> ExtractorDescriptorSpec {
        ExtractorDescriptorSpec {
            internal_name: self.internal_name@,
            display_name: self.display_name@,
            version: self.version@,
            supported_languages: self.supported_languages@.map_values(|s: String| s@),
            search_path: self.search_path@,
        }
    }
}

impl ExtractorDescriptor {
    /// A descriptor for a bundle whose manifest declared the given identity,
    /// resolved to `search_path`.
    pub fn new(
        internal_name: String,
        display_name: String,
        version: String,
        supported_languages: Vec<String>,
        search_path: String,
    ) -> (r: ExtractorDescriptor)
        ensures
            r@.internal_name == internal_name@,
            r@.display_name == display_name@,
            r@.version == version@,
            r@.supported_languages == supported_languages@.map_values(|s: String| s@),
            r@.search_path == search_path@,
    {
        ExtractorDescriptor { internal_name, display_name, version, supported_languages, search_path }
    }

    /// The language this extractor's database is built for: its internal
    /// name.
    pub fn language(&self) -> (r: &str)
        ensures
            r@ == self@.internal_name,
    {
        self.internal_name.as_str()
    }
}

} // verus!
