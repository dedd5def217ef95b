//! Acquiring the analysis-engine CLI: a three-tier fallback chain, tried in
//! order, with a first-class exhaustion state, and the fallback tier's own
//! sub-steps through the external package-manager CLI.

use vstd::prelude::*;

use crate::error::Error;

verus! {

/// The three ways the tool can be installed, in the order they are tried.
#[derive(Clone, Copy, Debug, PartialEq, Eq, Structural)]
pub enum InstallTier {
    /// Install through the API client carrying a credential.
    Authenticated,
    /// Install through a credential-free API client (rate-limited).
    Unauthenticated,
    /// Shell out to the external package-manager CLI.
    GithubCli,
}

/// Where the installation stands.
#[derive(Clone, Copy, Debug, PartialEq, Eq, Structural)]
pub enum InstallState {
    /// Exactly one binary is resolvable on the execution path.
    Installed,
    /// The named tier is attempted next.
    Trying(InstallTier),
    /// Every tier failed; there is no fourth tier.
    Exhausted,
}

/// The first state: an already-installed tool is done at once; otherwise
/// the authenticated tier is tried when a credential is present, and is
/// skipped entirely when none is.
pub open spec fn spec_initial_install_state(
    already_installed: bool,
    token_present: bool,
) -> InstallState {
    if already_installed {
        InstallState::Installed
    } else if token_present {
        InstallState::Trying(InstallTier::Authenticated)
    } else {
        InstallState::Trying(InstallTier::Unauthenticated)
    }
}

/// Decides where installation starts.
pub fn initial_install_state(already_installed: bool, token_present: bool) -> (r: InstallState)
    ensures
        r == spec_initial_install_state(already_installed, token_present),
{
    if already_installed {
        InstallState::Installed
    } else if token_present {
        InstallState::Trying(InstallTier::Authenticated)
    } else {
        InstallState::Trying(InstallTier::Unauthenticated)
    }
}

/// After one tier ran: success ends the chain; failure falls through to the
/// next tier, and failure of the final tier exhausts the chain.
pub open spec fn spec_next_install_state(tier: InstallTier, succeeded: bool) -> InstallState {
    if succeeded {
        InstallState::Installed
    } else {
        match tier {
            InstallTier::Authenticated => InstallState::Trying(InstallTier::Unauthenticated),
            InstallTier::Unauthenticated => InstallState::Trying(InstallTier::GithubCli),
            InstallTier::GithubCli => InstallState::Exhausted,
        }
    }
}

/// Decides what follows the tier that just ran.
pub fn next_install_state(tier: InstallTier, succeeded: bool) -> (r: InstallState)
    ensures
        r == spec_next_install_state(tier, succeeded),
{
    if succeeded {
        InstallState::Installed
    } else {
        match tier {
            InstallTier::Authenticated => InstallState::Trying(InstallTier::Unauthenticated),
            InstallTier::Unauthenticated => InstallState::Trying(InstallTier::GithubCli),
            InstallTier::GithubCli => InstallState::Exhausted,
        }
    }
}

/// The terminal verdict of a state: exhaustion is the only failure, and it
/// reports that every tier failed, not the first tier's error alone.
pub fn install_verdict(state: &InstallState) -> (r: Result<bool, Error>)
    ensures
        state is Installed ==> r == Ok::<bool, Error>(true),
        state is Trying ==> r == Ok::<bool, Error>(false),
        state is Exhausted ==> r == Err::<bool, Error>(Error::ToolInstallExhausted),
{
    match state {
        InstallState::Installed => Ok(true),
        InstallState::Trying(_) => Ok(false),
        InstallState::Exhausted => Err(Error::ToolInstallExhausted),
    }
}

/// Law: when the authenticated and unauthenticated installs both fail, the
/// external-CLI fallback is the next tier tried; and when it fails too, the
/// chain ends exhausted — whether or not a credential was present at the
/// start, and with the exhaustion verdict, not an earlier tier's error.
pub proof fn lemma_install_fallback_order(token_present: bool)
    ensures
        spec_next_install_state(InstallTier::Authenticated, false) == InstallState::Trying(
            InstallTier::Unauthenticated,
        ),
        spec_next_install_state(InstallTier::Unauthenticated, false) == InstallState::Trying(
            InstallTier::GithubCli,
        ),
        spec_next_install_state(InstallTier::GithubCli, false) == InstallState::Exhausted,
        spec_initial_install_state(false, token_present) matches InstallState::Trying(t) && (t
            == InstallTier::Authenticated || t == InstallTier::Unauthenticated),
{
}

/// The fallback tier's sub-steps, in order. Each runs one external
/// invocation; a non-zero exit at any sub-step is fatal for this path.
#[derive(Clone, Copy, Debug, PartialEq, Eq, Structural)]
pub enum CliStep {
    /// Install the package manager's extension for the tool.
    InstallExtension,
    /// Pin the extension to the requested tool version.
    SetVersion,
    /// Materialize a stub binary on the execution path.
    InstallStub,
    /// Query the tool itself to confirm the installation.
    VerifyInstalled,
}

/// The sub-step that follows a successful one; `None` after the last.
pub open spec fn spec_cli_next(step: CliStep) -> Option<CliStep> {
    match step {
        CliStep::InstallExtension => Some(CliStep::SetVersion),
        CliStep::SetVersion => Some(CliStep::InstallStub),
        CliStep::InstallStub => Some(CliStep::VerifyInstalled),
        CliStep::VerifyInstalled => None,
    }
}

/// Decides what follows a sub-step of the fallback tier: on success the
/// next sub-step (or completion), on failure the exhaustion of the chain —
/// the fallback is the last tier, so its failure is final.
pub fn cli_next_step(step: CliStep, succeeded: bool) -> (r: Result<Option<CliStep>, Error>)
    ensures
        succeeded ==> r == Ok::<Option<CliStep>, Error>(spec_cli_next(step)),
        !succeeded ==> r == Err::<Option<CliStep>, Error>(Error::ToolInstallExhausted),
{
    if !succeeded {
        return Err(Error::ToolInstallExhausted);
    }
    match step {
        CliStep::InstallExtension => Ok(Some(CliStep::SetVersion)),
        CliStep::SetVersion => Ok(Some(CliStep::InstallStub)),
        CliStep::InstallStub => Ok(Some(CliStep::VerifyInstalled)),
        CliStep::VerifyInstalled => Ok(None),
    }
}

/// The arguments of the external command a sub-step runs; the verification
/// sub-step queries the tool directly and runs no external command.
pub fn cli_step_args(step: &CliStep, version: &str) -> (r: Vec<String>)
    ensures
        step is InstallExtension ==> r@.map_values(|s: String| s@) == seq![
            "extensions"@,
            "install"@,
            "github/gh-codeql"@,
        ],
        step is SetVersion ==> r@.map_values(|s: String| s@) == seq![
            "codeql"@,
            "set-version"@,
            version@,
        ],
        step is InstallStub ==> r@.map_values(|s: String| s@) == seq!["codeql"@, "install-stub"@],
        step is VerifyInstalled ==> r@.map_values(|s: String| s@) == Seq::<Seq<char>>::empty(),
{
    let mut r: Vec<String> = Vec::new();
    match step {
        CliStep::InstallExtension => {
            r.push("extensions".to_owned());
            r.push("install".to_owned());
            r.push("github/gh-codeql".to_owned());
        },
        CliStep::SetVersion => {
            r.push("codeql".to_owned());
            r.push("set-version".to_owned());
            r.push(version.to_owned());
        },
        CliStep::InstallStub => {
            r.push("codeql".to_owned());
            r.push("install-stub".to_owned());
        },
        CliStep::VerifyInstalled => {},
    }
    proof {
        if step is InstallExtension {
            assert(r@.map_values(|s: String| s@) =~= seq![
                "extensions"@,
                "install"@,
                "github/gh-codeql"@,
            ]);
        }
        if step is SetVersion {
            assert(r@.map_values(|s: String| s@) =~= seq!["codeql"@, "set-version"@, version@]);
        }
        if step is InstallStub {
            assert(r@.map_values(|s: String| s@) =~= seq!["codeql"@, "install-stub"@]);
        }
        if step is VerifyInstalled {
            assert(r@.map_values(|s: String| s@) =~= Seq::<Seq<char>>::empty());
        }
    }
    r
}

/// The stable location the stub binary is materialized at, handed back as
/// the tool path after a successful fallback installation.
pub fn cli_stub_path() -> (r: String)
    ensures
        r@ == "/usr/local/bin/codeql"@,
{
    "/usr/local/bin/codeql".to_owned()
}

} // verus!
