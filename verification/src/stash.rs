use vstd::prelude::*;
use vstd::string::*;
use crate::components::{visibility_blocking, CommandBlocking, CommandInfo};
use crate::git::{repo_open, repo_signature, stash_messages, stash_save_untracked, GitError};

verus! {

/// The stash entries of a repository: one message per entry, in list order.
#[derive(Debug)]
pub struct StashItems(pub Vec<String>);

impl StashItems {
    pub fn len(&self) -> (r: usize)
        ensures
            r == self.0@.len(),
    {
        self.0.len()
    }

    pub fn is_empty(&self) -> (r: bool)
        ensures
            r == (self.0@.len() == 0),
    {
        self.0.len() == 0
    }

    pub fn get(&self, i: usize) -> (r: Option<&String>)
        ensures
            i < self.0@.len() ==> r == Some(&self.0@[i as int]),
            i >= self.0@.len() ==> r is None,
    {
        if i < self.0.len() {
            Some(&self.0[i])
        } else {
            None
        }
    }
}

/// Append one stash message to the collected list.
pub fn push_message(list: &mut Vec<String>, msg: &str)
    ensures
        final(list)@.len() == old(list)@.len() + 1,
        final(list)@.subrange(0, old(list)@.len() as int) == old(list)@,
        final(list)@[old(list)@.len() as int]@ == msg@,
{
    list.push(msg.to_owned());
    assert(list@.subrange(0, old(list)@.len() as int) =~= old(list)@);
}

/// List the stash entries of the repository at `repo_path`, in list order.
/// The answer is whatever the repository reports; any git failure comes
/// back as the error.
pub fn get_stashes(repo_path: &str) -> (r: Result<StashItems, GitError>) {
    let repo = repo_open(repo_path);
    match repo {
        Ok(mut repo) => match stash_messages(&mut repo) {
            Ok(list) => Ok(StashItems(list)),
            Err(e) => Err(e),
        },
        Err(e) => Err(e),
    }
}

/// Save the working tree, untracked files included, as a new stash entry
/// with the given message.  Fails on a clean tree or without an identity,
/// as the repository reports it.
pub fn stash(repo_path: &str, message: &str) -> (r: Result<(), GitError>) {
    match repo_open(repo_path) {
        Ok(mut repo) => match repo_signature(&repo) {
            Ok(sig) => stash_save_untracked(&mut repo, &sig, message),
            Err(e) => Err(e),
        },
        Err(e) => Err(e),
    }
}

/// The stashing tab: shows the repository's stash entries.
pub struct StashingTab {
    pub visible: bool,
    pub stashes: StashItems,
}

impl StashingTab {
    pub fn new() -> (r: StashingTab)
        ensures
            !r.visible,
            r.stashes.0@.len() == 0,
    {
        StashingTab { visible: false, stashes: StashItems(Vec::new()) }
    }

    pub fn is_visible(&self) -> (r: bool)
        ensures
            r == self.visible,
    {
        self.visible
    }

    pub fn show(&mut self)
        ensures
            final(self).visible,
            final(self).stashes == old(self).stashes,
    {
        self.visible = true;
    }

    pub fn set_hidden(&mut self)
        ensures
            !final(self).visible,
            final(self).stashes == old(self).stashes,
    {
        self.visible = false;
    }

    /// Refresh the shown entries from the repository.  A failing listing
    /// leaves the cached entries untouched — transient repository errors
    /// are recovered locally and raise no flags.
    pub fn update(&mut self, repo_path: &str)
        ensures
            final(self).visible == old(self).visible,
    {
        match get_stashes(repo_path) {
            Ok(items) => {
                self.stashes = items;
            },
            Err(_) => {},
        }
    }

    pub fn commands(&self, out: &mut Vec<CommandInfo>, force_all: bool) -> (r: CommandBlocking)
        ensures
            final(out)@.len() == old(out)@.len() + 1,
            final(out)@.subrange(0, old(out)@.len() as int) == old(out)@,
            final(out)@[old(out)@.len() as int].name@ == "stashes [navigate]"@,
            final(out)@[old(out)@.len() as int].enabled == self.visible,
            final(out)@[old(out)@.len() as int].available == (self.visible || force_all),
            final(out)@[old(out)@.len() as int].order == 0,
            !final(out)@[old(out)@.len() as int].hidden,
            r == (if self.visible {
                CommandBlocking::Blocking
            } else {
                CommandBlocking::PassingOn
            }),
    {
        let info = CommandInfo::new("stashes [navigate]", self.visible, self.visible || force_all);
        out.push(info);
        assert(out@.subrange(0, old(out)@.len() as int) =~= old(out)@);
        visibility_blocking(self.visible)
    }
}

} // verus!
