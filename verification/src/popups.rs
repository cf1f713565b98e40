use vstd::prelude::*;
use vstd::string::*;
use crate::components::{visibility_blocking, CommandBlocking, CommandInfo};
use crate::input::{InputEvent, KeyCode};
use crate::queue::{InternalEvent, Queue, ResetItem};

verus! {

/// The message popup: surfaces one user-visible text until dismissed.
pub struct MsgPopup {
    pub visible: bool,
    pub msg: String,
}

impl MsgPopup {
    pub fn new() -> (r: MsgPopup)
        ensures
            !r.visible,
            r.msg@ == Seq::<char>::empty(),
    {
        MsgPopup { visible: false, msg: String::new() }
    }

    pub fn is_visible(&self) -> (r: bool)
        ensures
            r == self.visible,
    {
        self.visible
    }

    /// Show the given text to the operator.
    pub fn show_msg(&mut self, msg: &str)
        ensures
            final(self).visible,
            final(self).msg@ == msg@,
    {
        self.visible = true;
        self.msg = msg.to_owned();
    }

    /// The event consumes: the popup is visible and the key confirms or
    /// closes.
    pub open spec fn spec_consumes(self, ev: InputEvent) -> bool {
        self.visible && match ev {
            InputEvent::Key(k) => (k.code is Enter || k.code is Esc) && !k.ctrl,
            _ => false,
        }
    }

    /// What one dispatched event does to the popup: a consuming key
    /// dismisses it, anything else changes nothing and passes on.
    pub open spec fn spec_event_outcome(
        pre: MsgPopup,
        ev: InputEvent,
        post: MsgPopup,
        consumed: bool,
    ) -> bool {
        &&& consumed == pre.spec_consumes(ev)
        &&& (if pre.spec_consumes(ev) {
            !post.visible && post.msg == pre.msg
        } else {
            post == pre
        })
    }

    /// While visible, the confirm and close keys dismiss the popup; nothing
    /// else is consumed.
    pub fn event(&mut self, ev: &InputEvent) -> (consumed: bool)
        ensures
            MsgPopup::spec_event_outcome(*old(self), *ev, *final(self), consumed),
    {
        if self.visible {
            if let InputEvent::Key(k) = ev {
                if !k.ctrl && (matches!(k.code, KeyCode::Enter) || matches!(k.code, KeyCode::Esc)) {
                    self.visible = false;
                    return true;
                }
            }
        }
        false
    }

    pub fn commands(&self, out: &mut Vec<CommandInfo>, _force_all: bool) -> (r: CommandBlocking)
        ensures
            final(out)@.len() == old(out)@.len() + 1,
            final(out)@.subrange(0, old(out)@.len() as int) == old(out)@,
            final(out)@[old(out)@.len() as int].name@ == "close msg [enter]"@,
            final(out)@[old(out)@.len() as int].enabled,
            final(out)@[old(out)@.len() as int].available == self.visible,
            final(out)@[old(out)@.len() as int].order == 0,
            !final(out)@[old(out)@.len() as int].hidden,
            r == (if self.visible {
                CommandBlocking::Blocking
            } else {
                CommandBlocking::PassingOn
            }),
    {
        let info = CommandInfo::new("close msg [enter]", true, self.visible);
        out.push(info);
        assert(out@.subrange(0, old(out)@.len() as int) =~= old(out)@);
        visibility_blocking(self.visible)
    }
}

/// The reset confirmation popup: holds the path a reset was asked for until
/// the operator confirms or aborts.
pub struct ResetPopup {
    pub visible: bool,
    pub item: Option<ResetItem>,
}

impl ResetPopup {
    pub fn new() -> (r: ResetPopup)
        ensures
            !r.visible,
            r.item is None,
    {
        ResetPopup { visible: false, item: None }
    }

    pub fn is_visible(&self) -> (r: bool)
        ensures
            r == self.visible,
    {
        self.visible
    }

    /// Open the confirmation for the given path.
    pub fn open_for_path(&mut self, item: ResetItem)
        ensures
            final(self).visible,
            final(self).item == Some(item),
    {
        self.item = Some(item);
        self.visible = true;
    }

    /// The event consumes: the popup is visible and the key confirms or
    /// aborts.
    pub open spec fn spec_consumes(self, ev: InputEvent) -> bool {
        self.visible && match ev {
            InputEvent::Key(k) => (k.code is Enter || k.code is Esc) && !k.ctrl,
            _ => false,
        }
    }

    /// The intents a dispatched event enqueues: the confirm key turns the
    /// held path into the actual reset intent.
    pub open spec fn spec_event_pushes(pre: ResetPopup, ev: InputEvent) -> Seq<InternalEvent> {
        if pre.visible && (match ev {
            InputEvent::Key(k) => k.code is Enter && !k.ctrl,
            _ => false,
        }) && pre.item is Some {
            seq![InternalEvent::ResetItem(pre.item->0)]
        } else {
            Seq::empty()
        }
    }

    /// What one dispatched event does to the popup: the confirm key hands
    /// the held path on and closes, the abort key just closes, anything
    /// else changes nothing and passes on.
    pub open spec fn spec_event_outcome(
        pre: ResetPopup,
        ev: InputEvent,
        post: ResetPopup,
        consumed: bool,
    ) -> bool {
        &&& consumed == pre.spec_consumes(ev)
        &&& (if pre.visible && (match ev {
            InputEvent::Key(k) => k.code is Enter && !k.ctrl,
            _ => false,
        }) {
            !post.visible && post.item is None
        } else if pre.spec_consumes(ev) {
            !post.visible && post.item == pre.item
        } else {
            post == pre
        })
    }

    /// While visible, the confirm key enqueues the actual reset intent and
    /// closes the popup; the close key aborts.  Nothing else is consumed.
    pub fn event(&mut self, ev: &InputEvent, queue: &mut Queue) -> (consumed: bool)
        ensures
            ResetPopup::spec_event_outcome(*old(self), *ev, *final(self), consumed),
            final(queue)@ == old(queue)@ + ResetPopup::spec_event_pushes(*old(self), *ev),
    {
        if self.visible {
            if let InputEvent::Key(k) = ev {
                if !k.ctrl && matches!(k.code, KeyCode::Enter) {
                    let item = self.item.take();
                    if let Some(item) = item {
                        queue.push_back(InternalEvent::ResetItem(item));
                    }
                    self.visible = false;
                    return true;
                }
                if !k.ctrl && matches!(k.code, KeyCode::Esc) {
                    self.visible = false;
                    return true;
                }
            }
        }
        false
    }

    pub fn commands(&self, out: &mut Vec<CommandInfo>, _force_all: bool) -> (r: CommandBlocking)
        ensures
            final(out)@.len() == old(out)@.len() + 1,
            final(out)@.subrange(0, old(out)@.len() as int) == old(out)@,
            final(out)@[old(out)@.len() as int].name@ == "confirm reset [enter]"@,
            final(out)@[old(out)@.len() as int].enabled,
            final(out)@[old(out)@.len() as int].available == self.visible,
            final(out)@[old(out)@.len() as int].order == 0,
            !final(out)@[old(out)@.len() as int].hidden,
            r == (if self.visible {
                CommandBlocking::Blocking
            } else {
                CommandBlocking::PassingOn
            }),
    {
        let info = CommandInfo::new("confirm reset [enter]", true, self.visible);
        out.push(info);
        assert(out@.subrange(0, old(out)@.len() as int) =~= old(out)@);
        visibility_blocking(self.visible)
    }
}

/// The help popup: the full command listing, rebuilt whenever commands
/// change.
pub struct HelpPopup {
    pub visible: bool,
    pub cmds: Vec<CommandInfo>,
}

impl HelpPopup {
    pub fn new() -> (r: HelpPopup)
        ensures
            !r.visible,
            r.cmds@.len() == 0,
    {
        HelpPopup { visible: false, cmds: Vec::new() }
    }

    pub fn is_visible(&self) -> (r: bool)
        ensures
            r == self.visible,
    {
        self.visible
    }

    /// Replace the full listing this popup shows.
    pub fn set_cmds(&mut self, cmds: Vec<CommandInfo>)
        ensures
            final(self).cmds == cmds,
            final(self).visible == old(self).visible,
    {
        self.cmds = cmds;
    }

    /// The event consumes: the popup is visible and the key closes it.
    pub open spec fn spec_consumes(self, ev: InputEvent) -> bool {
        self.visible && match ev {
            InputEvent::Key(k) => k.code is Esc && !k.ctrl,
            _ => false,
        }
    }

    /// What one dispatched event does to the popup: the close key
    /// dismisses it, anything else changes nothing and passes on.
    pub open spec fn spec_event_outcome(
        pre: HelpPopup,
        ev: InputEvent,
        post: HelpPopup,
        consumed: bool,
    ) -> bool {
        &&& consumed == pre.spec_consumes(ev)
        &&& (if pre.spec_consumes(ev) {
            !post.visible && post.cmds == pre.cmds
        } else {
            post == pre
        })
    }

    /// While visible, the close key dismisses the popup.
    pub fn event(&mut self, ev: &InputEvent) -> (consumed: bool)
        ensures
            HelpPopup::spec_event_outcome(*old(self), *ev, *final(self), consumed),
    {
        if self.visible {
            if let InputEvent::Key(k) = ev {
                if !k.ctrl && matches!(k.code, KeyCode::Esc) {
                    self.visible = false;
                    return true;
                }
            }
        }
        false
    }

    pub fn commands(&self, out: &mut Vec<CommandInfo>, _force_all: bool) -> (r: CommandBlocking)
        ensures
            final(out)@.len() == old(out)@.len() + 1,
            final(out)@.subrange(0, old(out)@.len() as int) == old(out)@,
            final(out)@[old(out)@.len() as int].name@ == "close help [esc]"@,
            final(out)@[old(out)@.len() as int].enabled,
            final(out)@[old(out)@.len() as int].available == self.visible,
            final(out)@[old(out)@.len() as int].order == 0,
            !final(out)@[old(out)@.len() as int].hidden,
            r == (if self.visible {
                CommandBlocking::Blocking
            } else {
                CommandBlocking::PassingOn
            }),
    {
        let info = CommandInfo::new("close help [esc]", true, self.visible);
        out.push(info);
        assert(out@.subrange(0, old(out)@.len() as int) =~= old(out)@);
        visibility_blocking(self.visible)
    }
}

} // verus!
