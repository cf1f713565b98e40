use vstd::prelude::*;
use vstd::string::*;

verus! {

/// Whether a component claims exclusive command focus.  A visible modal
/// component answers `Blocking` from its command enumeration, which hides
/// every lower-priority component's commands from the default listing.
#[derive(Clone, Copy, PartialEq, Eq, Structural, Debug)]
pub enum CommandBlocking {
    Blocking,
    PassingOn,
}

/// One entry of the command/help listing.
#[derive(Clone, Debug)]
pub struct CommandInfo {
    /// The label shown to the operator, key hint included.
    pub name: String,
    /// The action could run right now.
    pub enabled: bool,
    /// The owning component would react to the key at all.
    pub available: bool,
    /// Ordering weight in the quick command bar; lower comes first.
    pub order: i8,
    /// Listed only in the full help, never in the quick bar.
    pub hidden: bool,
}

impl CommandInfo {
    pub fn new(name: &str, enabled: bool, available: bool) -> (r: CommandInfo)
        ensures
            r.name@ == name@,
            r.enabled == enabled,
            r.available == available,
            r.order == 0,
            !r.hidden,
    {
        CommandInfo {
            name: String::from_str(name),
            enabled,
            available,
            order: 0,
            hidden: false,
        }
    }

    pub fn order(self, order: i8) -> (r: CommandInfo)
        ensures
            r == (CommandInfo { order, ..self }),
    {
        CommandInfo { order, ..self }
    }

    pub fn hidden(self) -> (r: CommandInfo)
        ensures
            r == (CommandInfo { hidden: true, ..self }),
    {
        CommandInfo { hidden: true, ..self }
    }

    /// The quick bar shows a command that is available and not help-only.
    pub open spec fn spec_show_in_quickbar(self) -> bool {
        self.available && !self.hidden
    }

    pub fn show_in_quickbar(&self) -> (r: bool)
        ensures
            r == self.spec_show_in_quickbar(),
    {
        self.available && !self.hidden
    }
}

/// The usual command answer of a modal component: it blocks exactly while it
/// is visible.
pub fn visibility_blocking(visible: bool) -> (r: CommandBlocking)
    ensures
        visible ==> r == CommandBlocking::Blocking,
        !visible ==> r == CommandBlocking::PassingOn,
{
    if visible {
        CommandBlocking::Blocking
    } else {
        CommandBlocking::PassingOn
    }
}

} // verus!
