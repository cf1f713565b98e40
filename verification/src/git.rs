use vstd::prelude::*;
use crate::stash::push_message;

verus! {

#[verifier::external_type_specification]
#[verifier::external_body]
pub struct ExRepository(git2::Repository);

#[verifier::external_type_specification]
#[verifier::external_body]
pub struct ExSignature<'a>(git2::Signature<'a>);

/// A repository error of the library's own: the text git reported.
#[derive(Debug)]
pub struct GitError {
    pub msg: String,
}

impl GitError {
    pub fn message(&self) -> (r: &String)
        ensures
            r == &self.msg,
    {
        &self.msg
    }
}

/// Relies on `git2::Repository::open`: opens the repository at the given
/// path, or fails with a git error.
#[verifier::external_body]
pub(crate) fn repo_open(path: &str) -> (r: Result<git2::Repository, GitError>) {
    git2::Repository::open(path).map_err(|e| GitError { msg: e.message().to_owned() })
}

/// Relies on `git2::Repository::stash_foreach`: visits every stash entry in
/// list order and hands each entry's message to the callback.
#[verifier::external_body]
pub(crate) fn stash_messages(repo: &mut git2::Repository) -> (r: Result<Vec<String>, GitError>) {
    let mut list: Vec<String> = Vec::new();
    let res = repo.stash_foreach(|_index, msg, _id| {
        push_message(&mut list, msg);
        true
    });
    match res {
        Ok(()) => Ok(list),
        Err(e) => Err(GitError { msg: e.message().to_owned() }),
    }
}

/// Relies on `git2::Repository::signature`: the default identity from the
/// repository's configuration, or a git error where none is set.
#[verifier::external_body]
pub(crate) fn repo_signature(repo: &git2::Repository) -> (r: Result<
    git2::Signature<'static>,
    GitError,
>) {
    repo.signature().map_err(|e| GitError { msg: e.message().to_owned() })
}

/// Relies on `git2::Repository::stash_save`: records the local
/// modifications, untracked files included, as a new stash entry with the
/// given message, or fails with a git error (for one, on a clean tree).
#[verifier::external_body]
pub(crate) fn stash_save_untracked(
    repo: &mut git2::Repository,
    sig: &git2::Signature<'static>,
    message: &str,
) -> (r: Result<(), GitError>) {
    match repo.stash_save(sig, message, Some(git2::StashFlags::INCLUDE_UNTRACKED)) {
        Ok(_) => Ok(()),
        Err(e) => Err(GitError { msg: e.message().to_owned() }),
    }
}

} // verus!
