use vstd::prelude::*;
use std::collections::VecDeque;
use crate::flags::NeedsUpdate;

verus! {

/// A working-tree path that an action wants reset, and whether it names a
/// folder rather than a single file.
#[derive(Clone, Debug)]
pub struct ResetItem {
    pub path: String,
    pub is_folder: bool,
}

/// The closed set of high-level intents that components enqueue during an
/// input cycle.  Each variant carries only the data needed to perform the
/// action; the queue itself performs no validation.
#[derive(Clone, Debug)]
pub enum InternalEvent {
    /// Reset the given path in the working tree.
    ResetItem(ResetItem),
    /// Open the confirmation popup for a reset of the given path.
    ConfirmResetItem(ResetItem),
    /// Stage or unstage the hunk with the given identity hash.
    AddHunk(u64),
    /// Surface a message to the operator through the message popup.
    ShowMsg(String),
    /// Raise the given dirty bits directly.
    Update(NeedsUpdate),
    /// Open the commit message editor.
    OpenCommit,
}

/// The process-wide, single-consumer FIFO of internal events.  Components
/// write into it while an input event is dispatched; the top-level controller
/// alone drains it, once per cycle.
pub struct Queue {
    pub inner: VecDeque<InternalEvent>,
}

impl Queue {
    pub open spec fn view(self) -> Seq<InternalEvent> {
        self.inner@
    }

    pub fn new() -> (r: Queue)
        ensures
            r@ == Seq::<InternalEvent>::empty(),
    {
        Queue { inner: VecDeque::new() }
    }

    pub fn push_back(&mut self, ev: InternalEvent)
        ensures
            final(self)@ == old(self)@.push(ev),
    {
        self.inner.push_back(ev);
    }

    pub fn pop_front(&mut self) -> (r: Option<InternalEvent>)
        ensures
            old(self)@.len() == 0 ==> r is None && final(self)@ == old(self)@,
            old(self)@.len() > 0 ==> r == Some(old(self)@[0]) && final(self)@ == old(
                self,
            )@.drop_first(),
    {
        self.inner.pop_front()
    }

    pub fn clear(&mut self)
        ensures
            final(self)@ == Seq::<InternalEvent>::empty(),
    {
        self.inner.clear();
    }

    pub fn len(&self) -> (r: usize)
        ensures
            r == self@.len(),
    {
        self.inner.len()
    }
}

} // verus!
