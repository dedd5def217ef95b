//! The action's configuration and the decisions derived from it: token
//! choice, working-directory resolution, extractor repositories, languages
//! and their validation, pack installation, and output-path reporting.

use vstd::prelude::*;

use crate::error::Error;
use crate::repo::{parse_repository, parsed_repo_of, parsed_repos, repo_parses, RepoRef};
use crate::text::{
    before_char, concat2, count_char, is_prefix_of, lower_of, starts_with, substring_after,
    to_lowercase,
};

verus! {

/// The action's inputs and outputs, as plain values.
pub struct Action {
    /// API credential; empty when none was provided.
    pub token: String,
    /// Repository references of the extractors to fetch.
    pub extractors: Vec<String>,
    /// Languages to analyze.
    pub languages: Vec<String>,
    /// Query packs to install beforehand.
    pub packs: Vec<String>,
    /// Whether a language whose database cannot be created is skipped
    /// instead of aborting the run.
    pub allow_empty_database: bool,
    /// Requested tool version; empty means latest.
    pub codeql_version: String,
    /// Working directory; empty means the current directory.
    pub working_directory: String,
    /// Whether produced reports get the extractor's name stamped in.
    pub sarif_tool_name: bool,
    /// Whether downloaded archives must pass provenance verification.
    pub attestation: bool,
    /// Output: where the reports were written.
    pub sarif_results: String,
    /// Output: version of the extractor used.
    pub version: String,
    /// Output: path of the extractor used.
    pub extractor_path: String,
}

impl Default for Action {
    /// An action with every text input empty and every switch off.
    fn default() -> (r: Action)
        ensures
            r.token@.len() == 0,
            r.extractors@.len() == 0,
            r.languages@.len() == 0,
            r.packs@.len() == 0,
            !r.allow_empty_database,
            r.codeql_version@.len() == 0,
            r.working_directory@.len() == 0,
            !r.sarif_tool_name,
            !r.attestation,
            r.sarif_results@.len() == 0,
            r.version@.len() == 0,
            r.extractor_path@.len() == 0,
    {
        Action {
            token: String::new(),
            extractors: Vec::new(),
            languages: Vec::new(),
            packs: Vec::new(),
            allow_empty_database: false,
            codeql_version: String::new(),
            working_directory: String::new(),
            sarif_tool_name: false,
            attestation: false,
            sarif_results: String::new(),
            version: String::new(),
            extractor_path: String::new(),
        }
    }
}

/// How the working directory is obtained.
pub enum WorkingDirectoryPlan {
    /// No directory was provided: the current directory is used.
    UseCurrentDirectory,
    /// The provided directory, to be resolved to an absolute path.
    Canonicalize(String),
}

/// One language requested for analysis or offered by an extractor.
pub struct Language {
    pub name: String,
}

impl View for Language {
    type V = Seq<char>;

    open spec fn view(&self) -> Seq<char> {
        self.name@
    }
}

impl Language {
    /// A language named `name`.
    pub fn from_name(name: &str) -> (r: Language)
        ensures
            r@ == name@,
    {
        Language { name: name.to_owned() }
    }
}

/// What to do about one query pack.
pub enum PackAction {
    /// The pack is already installed; nothing to do.
    AlreadyInstalled,
    /// A local pack (named `./…`) is installed from its directory.
    InstallLocal,
    /// A remote pack is downloaded through the tool.
    DownloadRemote,
}

/// One probed candidate directory for the tool's work.
#[derive(Clone, Copy, Debug, PartialEq, Eq, Structural)]
pub struct DirProbe {
    /// The directory already exists.
    pub exists: bool,
    /// Creating it succeeded (probed only when it does not exist).
    pub create_ok: bool,
}

/// `lang` matches one of the `offered` languages, compared lower-cased.
pub open spec fn language_supported(lang: Seq<char>, offered: Seq<Language>) -> bool {
    exists|j: int| 0 <= j < offered.len() && lower_of(lang) == lower_of(#[trigger] offered[j]@)
}

/// Every requested language matches an offered one, compared lower-cased.
pub open spec fn languages_supported(requested: Seq<String>, offered: Seq<Language>) -> bool {
    forall|i: int|
        0 <= i < requested.len() ==> language_supported(#[trigger] requested[i]@, offered)
}

/// A probed directory can be used: it exists or could be created.
pub open spec fn probe_usable(p: DirProbe) -> bool {
    p.exists || p.create_ok
}

impl Action {
    /// The credential for API calls: the provided token when one is set,
    /// else the ambient token when one is present, else empty.
    pub fn get_token(&self, ambient_token: Option<String>) -> (r: String)
        ensures
            self.token@.len() > 0 ==> r@ == self.token@,
            self.token@.len() == 0 ==> match ambient_token {
                Some(t) => r@ == t@,
                None => r@.len() == 0,
            },
    {
        if !self.token.as_str().is_empty() {
            self.token.clone()
        } else {
            match ambient_token {
                Some(t) => t,
                None => String::new(),
            }
        }
    }

    /// How the working directory is resolved: the current directory when
    /// none was provided, else the provided one, canonicalized.
    pub fn working_directory(&self) -> (r: WorkingDirectoryPlan)
        ensures
            self.working_directory@.len() == 0 ==> r is UseCurrentDirectory,
            self.working_directory@.len() > 0 ==> (r matches WorkingDirectoryPlan::Canonicalize(p)
                && p@ == self.working_directory@),
    {
        if self.working_directory.as_str().is_empty() {
            WorkingDirectoryPlan::UseCurrentDirectory
        } else {
            WorkingDirectoryPlan::Canonicalize(self.working_directory.clone())
        }
    }

    /// The repository references of the extractors: with none configured,
    /// the current repository is parsed; otherwise the result holds exactly
    /// the configured references that parse, in input order — the rest are
    /// dropped.
    pub fn extractor_repository(&self, current_repository: &str) -> (r: Result<Vec<RepoRef>, Error>)
        ensures
            self.extractors@.len() == 0 ==> match r {
                Ok(v) => v@.len() == 1 && v@[0]@ == parsed_repo_of(current_repository@),
                Err(e) => e == Error::RepositoryParseFailed,
            },
            self.extractors@.len() == 0 ==> (r is Ok <==> repo_parses(current_repository@)),
            self.extractors@.len() == 0 && count_char(before_char(current_repository@, '@'), '/')
                <= 1 ==> r is Ok,
            self.extractors@.len() > 0 ==> (r matches Ok(v) && v@.map_values(|rr: RepoRef| rr@)
                == parsed_repos(self.extractors@)),
    {
        if self.extractors.len() == 0 {
            match parse_repository(current_repository) {
                Ok(rr) => {
                    let mut v: Vec<RepoRef> = Vec::new();
                    v.push(rr);
                    Ok(v)
                },
                Err(e) => Err(e),
            }
        } else {
            let ghost inputs = self.extractors@;
            let mut v: Vec<RepoRef> = Vec::new();
            let mut i: usize = 0;
            while i < self.extractors.len()
                invariant
                    i <= inputs.len(),
                    inputs == self.extractors@,
                    v@.map_values(|rr: RepoRef| rr@) == parsed_repos(inputs.take(i as int)),
                decreases inputs.len() - i,
            {
                let ghost prefix = inputs.take(i as int);
                match parse_repository(self.extractors[i].as_str()) {
                    Ok(rr) => {
                        v.push(rr);
                    },
                    Err(_) => {},
                }
                proof {
                    assert(inputs.take(i + 1).drop_last() =~= prefix);
                    assert(inputs.take(i + 1).last() == inputs[i as int]);
                    assert(v@.map_values(|rr: RepoRef| rr@) =~= parsed_repos(inputs.take(i + 1)));
                }
                i = i + 1;
            }
            proof {
                assert(inputs.take(inputs.len() as int) =~= inputs);
            }
            Ok(v)
        }
    }

    /// The requested languages, in order.
    pub fn languages(&self) -> (r: Vec<Language>)
        ensures
            r@.len() == self.languages@.len(),
            forall|i: int| 0 <= i < r@.len() ==> r@[i]@ == self.languages@[i]@,
    {
        let mut r: Vec<Language> = Vec::new();
        let mut i: usize = 0;
        while i < self.languages.len()
            invariant
                i <= self.languages@.len(),
                r@.len() == i,
                forall|j: int| 0 <= j < i ==> r@[j]@ == self.languages@[j]@,
            decreases self.languages@.len() - i,
        {
            r.push(Language { name: self.languages[i].clone() });
            i = i + 1;
        }
        r
    }

    /// Checks every requested language against the languages the tool
    /// supports, compared lower-cased. The first unsupported one fails the
    /// run.
    pub fn validate_languages(&self, codeql_languages: &Vec<Language>) -> (r: Result<(), Error>)
        ensures
            r is Ok <==> languages_supported(self.languages@, codeql_languages@),
            r matches Err(e) ==> e == Error::UnsupportedLanguage,
    {
        let mut i: usize = 0;
        while i < self.languages.len()
            invariant
                i <= self.languages@.len(),
                forall|k: int|
                    0 <= k < i ==> language_supported(
                        #[trigger] self.languages@[k]@,
                        codeql_languages@,
                    ),
            decreases self.languages@.len() - i,
        {
            let lang_lower = to_lowercase(self.languages[i].as_str());
            let mut supported = false;
            let mut j: usize = 0;
            while j < codeql_languages.len()
                invariant
                    i < self.languages@.len(),
                    j <= codeql_languages@.len(),
                    lang_lower@ == lower_of(self.languages@[i as int]@),
                    supported ==> language_supported(self.languages@[i as int]@, codeql_languages@),
                    !supported ==> forall|n: int|
                        0 <= n < j ==> lower_of(self.languages@[i as int]@) != lower_of(
                            #[trigger] codeql_languages@[n]@,
                        ),
                decreases codeql_languages@.len() - j,
            {
                let offered_lower = to_lowercase(codeql_languages[j].name.as_str());
                proof {
                    assert(codeql_languages@[j as int]@ == codeql_languages@[j as int].name@);
                }
                if !supported && lang_lower == offered_lower {
                    proof {
                        assert(lower_of(self.languages@[i as int]@) == lower_of(
                            codeql_languages@[j as int]@,
                        ));
                        assert(language_supported(self.languages@[i as int]@, codeql_languages@));
                    }
                    supported = true;
                } else {
                    proof {
                        if !supported {
                            assert(lower_of(self.languages@[i as int]@) != lower_of(
                                codeql_languages@[j as int]@,
                            ));
                        }
                    }
                }
                j = j + 1;
            }
            if !supported {
                proof {
                    assert(!language_supported(self.languages@[i as int]@, codeql_languages@));
                    assert(!languages_supported(self.languages@, codeql_languages@));
                }
                return Err(Error::UnsupportedLanguage);
            }
            i = i + 1;
        }
        Ok(())
    }

    /// The tool version to install: the requested one, or the latest when
    /// none was requested.
    pub fn codeql_version(&self) -> (r: &str)
        ensures
            self.codeql_version@.len() == 0 ==> r@ == "latest"@,
            self.codeql_version@.len() > 0 ==> r@ == self.codeql_version@,
    {
        if self.codeql_version.as_str().is_empty() {
            "latest"
        } else {
            self.codeql_version.as_str()
        }
    }

    /// What to do for one configured query pack: nothing when it is already
    /// installed; a local pack is installed from its directory; any other is
    /// downloaded through the tool.
    pub fn pack_action(&self, pack: &str, installed: bool) -> (r: PackAction)
        ensures
            installed ==> r is AlreadyInstalled,
            !installed && is_prefix_of("./"@, pack@) ==> r is InstallLocal,
            !installed && !is_prefix_of("./"@, pack@) ==> r is DownloadRemote,
    {
        if installed {
            PackAction::AlreadyInstalled
        } else if starts_with(pack, "./") {
            PackAction::InstallLocal
        } else {
            PackAction::DownloadRemote
        }
    }

    /// Whether downloaded archives must pass provenance verification.
    pub fn attestation(&self) -> (r: bool)
        ensures
            r == self.attestation,
    {
        self.attestation
    }

    /// Whether a language whose database cannot be created is skipped.
    pub fn allow_empty_database(&self) -> (r: bool)
        ensures
            r == self.allow_empty_database,
    {
        self.allow_empty_database
    }

    /// Whether produced reports get the extractor's name stamped in.
    pub fn sarif_tool_name(&self) -> (r: bool)
        ensures
            r == self.sarif_tool_name,
    {
        self.sarif_tool_name
    }
}

/// The candidate directories for the tool's work, in the order they are
/// tried: the already-resolved `.codeql` next to the working directory,
/// then `.codeql` under the workspace root, the runner's temporary
/// directory, and the system's temporary directory.
pub fn codeql_dir_candidates(
    local_codeql: Option<String>,
    github_workspace: Option<String>,
    runner_temp: Option<String>,
    system_temp: Option<String>,
) -> (r: Vec<String>)
    ensures
        r@.map_values(|s: String| s@) == (match local_codeql {
            Some(d) => seq![d@],
            None => Seq::<Seq<char>>::empty(),
        }) + (match github_workspace {
            Some(d) => seq![d@ + "/.codeql"@],
            None => Seq::<Seq<char>>::empty(),
        }) + (match runner_temp {
            Some(d) => seq![d@ + "/.codeql"@],
            None => Seq::<Seq<char>>::empty(),
        }) + (match system_temp {
            Some(d) => seq![d@ + "/.codeql"@],
            None => Seq::<Seq<char>>::empty(),
        }),
{
    let mut r: Vec<String> = Vec::new();
    match local_codeql {
        Some(d) => {
            r.push(d);
        },
        None => {},
    }
    match github_workspace {
        Some(d) => {
            r.push(concat2(d.as_str(), "/.codeql"));
        },
        None => {},
    }
    match runner_temp {
        Some(d) => {
            r.push(concat2(d.as_str(), "/.codeql"));
        },
        None => {},
    }
    match system_temp {
        Some(d) => {
            r.push(concat2(d.as_str(), "/.codeql"));
        },
        None => {},
    }
    proof {
        assert(r@.map_values(|s: String| s@) =~= (match local_codeql {
            Some(d) => seq![d@],
            None => Seq::<Seq<char>>::empty(),
        }) + (match github_workspace {
            Some(d) => seq![d@ + "/.codeql"@],
            None => Seq::<Seq<char>>::empty(),
        }) + (match runner_temp {
            Some(d) => seq![d@ + "/.codeql"@],
            None => Seq::<Seq<char>>::empty(),
        }) + (match system_temp {
            Some(d) => seq![d@ + "/.codeql"@],
            None => Seq::<Seq<char>>::empty(),
        }));
    }
    r
}

/// Picks the first candidate directory that exists or could be created; a
/// candidate that exists is taken without creating anything.
pub fn select_codeql_dir(probes: &Vec<DirProbe>) -> (r: Result<usize, Error>)
    ensures
        r matches Ok(i) ==> i < probes@.len() && probe_usable(probes@[i as int]) && (forall|j: int|
            0 <= j < i ==> !probe_usable(probes@[j])),
        r is Err <==> (forall|j: int| 0 <= j < probes@.len() ==> !probe_usable(probes@[j])),
        r matches Err(e) ==> e == Error::DirectoryCreateFailed,
{
    let mut i: usize = 0;
    while i < probes.len()
        invariant
            i <= probes@.len(),
            forall|j: int| 0 <= j < i ==> !probe_usable(probes@[j]),
        decreases probes@.len() - i,
    {
        let p = probes[i];
        if p.exists || p.create_ok {
            return Ok(i);
        }
        i = i + 1;
    }
    Err(Error::DirectoryCreateFailed)
}

/// The textual remainder of `target` under `base`, used when reporting the
/// results directory: `{base}/rest` becomes `rest`. Any other shape —
/// including `target` equal to `base` — is kept as it is.
pub open spec fn spec_relative_to(base: Seq<char>, target: Seq<char>) -> Seq<char> {
    if is_prefix_of(base + "/"@, target) {
        target.skip(base.len() as int + 1)
    } else {
        target
    }
}

/// The results path the action reports: relative to the working directory
/// when running under CI (the repository is mounted at a fixed root there),
/// absolute otherwise.
pub fn sarif_results_path(ci: bool, cwd: &str, sarif_output: &str) -> (r: String)
    ensures
        ci ==> r@ == spec_relative_to(cwd@, sarif_output@),
        !ci ==> r@ == sarif_output@,
{
    if !ci {
        return sarif_output.to_owned();
    }
    proof {
        reveal_strlit("/");
    }
    let base = concat2(cwd, "/");
    if starts_with(sarif_output, base.as_str()) {
        substring_after(sarif_output, base.unicode_len())
    } else {
        sarif_output.to_owned()
    }
}

} // verus!
