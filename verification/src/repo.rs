//! Repository references: the identity of a remote extractor source.

use vstd::prelude::*;

use crate::error::Error;
use crate::text::{after_char, before_char, contains_char, count_char};

verus! {

/// A parsed repository reference: owner, name, and an optional release tag
/// or branch. An absent `reference` means "latest release".
#[derive(Debug)]
pub struct RepoRef {
    pub owner: String,
    pub name: String,
    pub reference: Option<String>,
}

/// The mathematical value of a [`RepoRef`].
pub struct RepoRefSpec {
    pub owner: Seq<char>,
    pub name: Seq<char>,
    pub reference: Option<Seq<char>>,
}

impl View for RepoRef {
    type V = RepoRefSpec;

    open spec fn view(&self) -> RepoRefSpec {
        RepoRefSpec {
            owner: self.owner@,
            name: self.name@,
            reference: match self.reference {
                Some(t) => Some(t@),
                None => None,
            },
        }
    }
}

/// Whether `input` parses as a repository reference. The exact failure
/// condition rests on the path rules applied to any segments after the
/// name, so it is not restated here; what is known of it stands in the
/// contract of `parse_repository`.
pub uninterp spec fn repo_parses(input: Seq<char>) -> bool;

/// What a successful parse of `input` extracts: everything before the first
/// `@` is split at `/` into owner and name; everything after the first `@`
/// is the reference.
pub open spec fn parsed_repo_of(input: Seq<char>) -> RepoRefSpec {
    let repo_part = before_char(input, '@');
    RepoRefSpec {
        owner: before_char(repo_part, '/'),
        name: if contains_char(repo_part, '/') {
            before_char(after_char(repo_part, '/'), '/')
        } else {
            Seq::<char>::empty()
        },
        reference: if contains_char(input, '@') {
            Some(after_char(input, '@'))
        } else {
            None
        },
    }
}

/// Relies on `ghactions_core::RepositoryReference::parse`: the text before
/// the first `@` is split at `/` into owner, name, and an optional trailing
/// path; the text after the first `@` becomes the reference. Inputs whose
/// repository part has at most one `/` carry no path and always parse.
#[verifier::external_body]
pub fn parse_repository(input: &str) -> (r: Result<RepoRef, Error>)
    ensures
        r is Ok <==> repo_parses(input@),
        r matches Ok(rr) ==> rr@ == parsed_repo_of(input@),
        count_char(before_char(input@, '@'), '/') <= 1 ==> r is Ok,
        r matches Err(e) ==> e == Error::RepositoryParseFailed,
{
    match ghactions_core::RepositoryReference::parse(input) {
        Ok(rr) => Ok(RepoRef { owner: rr.owner, name: rr.name, reference: rr.reference }),
        Err(_) => Err(Error::RepositoryParseFailed),
    }
}

/// The references of exactly those `inputs` that parse, in input order.
pub open spec fn parsed_repos(inputs: Seq<String>) -> Seq<RepoRefSpec>
    decreases inputs.len(),
{
    if inputs.len() == 0 {
        Seq::empty()
    } else {
        parsed_repos(inputs.drop_last()) + (if repo_parses(inputs.last()@) {
            seq![parsed_repo_of(inputs.last()@)]
        } else {
            Seq::<RepoRefSpec>::empty()
        })
    }
}

} // verus!
