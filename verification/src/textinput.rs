use vstd::prelude::*;
use vstd::string::*;
use crate::components::{visibility_blocking, CommandBlocking, CommandInfo};
use crate::input::{exit_popup_key_matches, InputEvent, KeyCode};
use crate::render::{run_views, RunStyle, TextRun};
use crate::strutil::{chars_range_to_string, chars_to_string, push_char, string_to_chars};

verus! {

/// The glyph that stands in for a line break when the cursor rests on one.
pub const NEWLINE_GLYPH: char = '\u{21b5}';

/// A popup for free text entry, primarily the commit message editor.  The
/// text is kept as its sequence of characters and the cursor as a character
/// index, always within `0 ..= text length`.
pub struct TextInputComponent {
    title: String,
    default_msg: String,
    msg: Vec<char>,
    visible: bool,
    cursor_position: usize,
}

impl TextInputComponent {
    /// The entered text.
    pub closed spec fn text(self) -> Seq<char> {
        self.msg@
    }

    /// The character index the cursor rests on.
    pub closed spec fn cursor(self) -> int {
        self.cursor_position as int
    }

    pub closed spec fn shown(self) -> bool {
        self.visible
    }

    pub closed spec fn title_text(self) -> Seq<char> {
        self.title@
    }

    pub closed spec fn default_text(self) -> Seq<char> {
        self.default_msg@
    }

    /// The cursor never leaves the entered text.
    pub open spec fn wf(self) -> bool {
        0 <= self.cursor() <= self.text().len()
    }

    pub fn new(title: &str, default_msg: &str) -> (r: TextInputComponent)
        ensures
            r.wf(),
            r.text() == Seq::<char>::empty(),
            r.cursor() == 0,
            !r.shown(),
            r.title_text() == title@,
            r.default_text() == default_msg@,
    {
        TextInputComponent {
            title: String::from_str(title),
            default_msg: String::from_str(default_msg),
            msg: Vec::new(),
            visible: false,
            cursor_position: 0,
        }
    }

    /// Drop the entered text and park the cursor at the start.
    pub fn clear(&mut self)
        ensures
            final(self).wf(),
            final(self).text() == Seq::<char>::empty(),
            final(self).cursor() == 0,
            final(self).shown() == old(self).shown(),
            final(self).title_text() == old(self).title_text(),
            final(self).default_text() == old(self).default_text(),
    {
        self.msg = Vec::new();
        self.cursor_position = 0;
    }

    /// The entered text, encoded back into a string.
    pub fn get_text(&self) -> (r: String)
        ensures
            r@ == self.text(),
    {
        chars_to_string(&self.msg)
    }

    /// Replace the entered text and park the cursor at the start.
    pub fn set_text(&mut self, msg: String)
        ensures
            final(self).wf(),
            final(self).text() == msg@,
            final(self).cursor() == 0,
            final(self).shown() == old(self).shown(),
            final(self).title_text() == old(self).title_text(),
            final(self).default_text() == old(self).default_text(),
    {
        self.msg = string_to_chars(msg.as_str());
        self.cursor_position = 0;
    }

    pub fn set_title(&mut self, t: String)
        ensures
            final(self).wf() == old(self).wf(),
            final(self).title_text() == t@,
            final(self).text() == old(self).text(),
            final(self).cursor() == old(self).cursor(),
            final(self).shown() == old(self).shown(),
            final(self).default_text() == old(self).default_text(),
    {
        self.title = t;
    }

    /// Where the character after the cursor starts: one index further, or
    /// nothing when the cursor already rests at the end of the text.
    pub fn next_char_position(&self) -> (r: Option<usize>)
        requires
            self.wf(),
        ensures
            (r is Some) == (self.cursor() < self.text().len()),
            r is Some ==> r->0 == self.cursor() + 1,
    {
        if self.cursor_position >= self.msg.len() {
            None
        } else {
            Some(self.cursor_position + 1)
        }
    }

    /// Move the cursor right one character, stopping at the end.
    pub fn incr_cursor(&mut self)
        requires
            old(self).wf(),
        ensures
            final(self).wf(),
            final(self).cursor() == if old(self).cursor() < old(self).text().len() {
                old(self).cursor() + 1
            } else {
                old(self).cursor()
            },
            final(self).text() == old(self).text(),
            final(self).shown() == old(self).shown(),
            final(self).title_text() == old(self).title_text(),
            final(self).default_text() == old(self).default_text(),
    {
        if let Some(pos) = self.next_char_position() {
            self.cursor_position = pos;
        }
    }

    /// Move the cursor left one character, stopping at the start.
    pub fn decr_cursor(&mut self)
        requires
            old(self).wf(),
        ensures
            final(self).wf(),
            final(self).cursor() == if old(self).cursor() > 0 {
                old(self).cursor() - 1
            } else {
                0
            },
            final(self).text() == old(self).text(),
            final(self).shown() == old(self).shown(),
            final(self).title_text() == old(self).title_text(),
            final(self).default_text() == old(self).default_text(),
    {
        if self.cursor_position > 0 {
            self.cursor_position = self.cursor_position - 1;
        }
    }

    /// Remove the character left of the cursor, if any, moving the cursor
    /// onto the freed place.
    pub fn backspace(&mut self)
        requires
            old(self).wf(),
        ensures
            final(self).wf(),
            old(self).cursor() > 0 ==> final(self).text() == old(self).text().remove(
                old(self).cursor() - 1,
            ) && final(self).cursor() == old(self).cursor() - 1,
            old(self).cursor() == 0 ==> final(self).text() == old(self).text() && final(self).cursor() == 0,
            final(self).shown() == old(self).shown(),
            final(self).title_text() == old(self).title_text(),
            final(self).default_text() == old(self).default_text(),
    {
        if self.cursor_position > 0 {
            self.decr_cursor();
            self.msg.remove(self.cursor_position);
        }
    }

    /// The character index the cursor rests on.
    pub fn cursor_position(&self) -> (r: usize)
        ensures
            r == self.cursor(),
    {
        self.cursor_position
    }

    pub fn is_visible(&self) -> (r: bool)
        ensures
            r == self.shown(),
    {
        self.visible
    }

    pub fn set_hidden(&mut self)
        ensures
            final(self).wf() == old(self).wf(),
            !final(self).shown(),
            final(self).text() == old(self).text(),
            final(self).cursor() == old(self).cursor(),
            final(self).title_text() == old(self).title_text(),
            final(self).default_text() == old(self).default_text(),
    {
        self.visible = false;
    }

    pub fn show(&mut self)
        ensures
            final(self).wf() == old(self).wf(),
            final(self).shown(),
            final(self).text() == old(self).text(),
            final(self).cursor() == old(self).cursor(),
            final(self).title_text() == old(self).title_text(),
            final(self).default_text() == old(self).default_text(),
    {
        self.visible = true;
    }

    /// The event consumes: the component is visible and the key is the
    /// close-popup key or a plain editing key.
    pub open spec fn spec_consumes(self, ev: InputEvent) -> bool {
        self.shown() && match ev {
            InputEvent::Key(k) => crate::input::is_exit_popup_key(k) || (!k.ctrl && (k.code is Char
                || k.code is Delete || k.code is Backspace || k.code is Left || k.code is Right
                || k.code is Home || k.code is End)),
            _ => false,
        }
    }

    /// What one dispatched event does to the component: the editing keys
    /// transform text and cursor as named, the close-popup key hides it,
    /// anything else changes nothing and passes on.
    pub open spec fn spec_event_outcome(
        pre: TextInputComponent,
        ev: InputEvent,
        post: TextInputComponent,
        consumed: bool,
    ) -> bool {
        &&& consumed == pre.spec_consumes(ev)
        &&& post.title_text() == pre.title_text()
        &&& post.default_text() == pre.default_text()
        &&& (!pre.shown() ==> post == pre)
        &&& (pre.shown() ==> match ev {
            InputEvent::Key(k) => {
                if crate::input::is_exit_popup_key(k) {
                    !post.shown() && post.text() == pre.text() && post.cursor() == pre.cursor()
                } else if k.code is Char && !k.ctrl {
                    post.text() == pre.text().insert(pre.cursor(), k.code->Char_0)
                        && post.cursor() == pre.cursor() + 1 && post.shown()
                } else if k.code is Delete && !k.ctrl {
                    post.cursor() == pre.cursor() && post.shown() && post.text() == if pre.cursor()
                        < pre.text().len() {
                        pre.text().remove(pre.cursor())
                    } else {
                        pre.text()
                    }
                } else if k.code is Backspace && !k.ctrl {
                    post.shown() && (if pre.cursor() > 0 {
                        post.text() == pre.text().remove(pre.cursor() - 1) && post.cursor()
                            == pre.cursor() - 1
                    } else {
                        post.text() == pre.text() && post.cursor() == 0
                    })
                } else if k.code is Left && !k.ctrl {
                    post.shown() && post.text() == pre.text() && post.cursor() == if pre.cursor()
                        > 0 {
                        pre.cursor() - 1
                    } else {
                        0
                    }
                } else if k.code is Right && !k.ctrl {
                    post.shown() && post.text() == pre.text() && post.cursor() == if pre.cursor()
                        < pre.text().len() {
                        pre.cursor() + 1
                    } else {
                        pre.cursor()
                    }
                } else if k.code is Home && !k.ctrl {
                    post.shown() && post.text() == pre.text() && post.cursor() == 0
                } else if k.code is End && !k.ctrl {
                    post.shown() && post.text() == pre.text() && post.cursor() == pre.text().len()
                } else {
                    post == pre
                }
            },
            _ => post == pre,
        })
    }

    /// The entered text and cursor after one dispatched key, as
    /// `spec_event_outcome` fixes them.
    pub open spec fn spec_text_cursor_after(pre: TextInputComponent, ev: InputEvent) -> (
        Seq<char>,
        int,
    ) {
        if !pre.spec_consumes(ev) {
            (pre.text(), pre.cursor())
        } else {
            let k = ev->Key_0;
            if crate::input::is_exit_popup_key(k) {
                (pre.text(), pre.cursor())
            } else if k.code is Char {
                (pre.text().insert(pre.cursor(), k.code->Char_0), pre.cursor() + 1)
            } else if k.code is Delete {
                (
                    if pre.cursor() < pre.text().len() {
                        pre.text().remove(pre.cursor())
                    } else {
                        pre.text()
                    },
                    pre.cursor(),
                )
            } else if k.code is Backspace {
                if pre.cursor() > 0 {
                    (pre.text().remove(pre.cursor() - 1), pre.cursor() - 1)
                } else {
                    (pre.text(), 0)
                }
            } else if k.code is Left {
                (
                    pre.text(),
                    if pre.cursor() > 0 {
                        pre.cursor() - 1
                    } else {
                        0
                    },
                )
            } else if k.code is Right {
                (
                    pre.text(),
                    if pre.cursor() < pre.text().len() {
                        pre.cursor() + 1
                    } else {
                        pre.cursor()
                    },
                )
            } else if k.code is Home {
                (pre.text(), 0)
            } else {
                (pre.text(), pre.text().len() as int)
            }
        }
    }

    /// Whether the editor stays shown after one dispatched key: only the
    /// close-popup key hides it.
    pub open spec fn spec_shown_after(pre: TextInputComponent, ev: InputEvent) -> bool {
        if pre.spec_consumes(ev) {
            !crate::input::is_exit_popup_key(ev->Key_0)
        } else {
            pre.shown()
        }
    }

    /// React to one input event.  While visible, the component consumes
    /// every plain character and editing key; the close-popup key hides it.
    /// While hidden it consumes nothing.
    pub fn event(&mut self, ev: &InputEvent) -> (consumed: bool)
        requires
            old(self).wf(),
        ensures
            final(self).wf(),
            TextInputComponent::spec_event_outcome(*old(self), *ev, *final(self), consumed),
    {
        if self.visible {
            if let InputEvent::Key(k) = ev {
                if exit_popup_key_matches(k) {
                    self.set_hidden();
                    return true;
                }
                if !k.ctrl {
                    match k.code {
                        KeyCode::Char(c) => {
                            self.msg.insert(self.cursor_position, c);
                            self.incr_cursor();
                            return true;
                        },
                        KeyCode::Delete => {
                            if self.cursor_position < self.msg.len() {
                                self.msg.remove(self.cursor_position);
                            }
                            return true;
                        },
                        KeyCode::Backspace => {
                            self.backspace();
                            return true;
                        },
                        KeyCode::Left => {
                            self.decr_cursor();
                            return true;
                        },
                        KeyCode::Right => {
                            self.incr_cursor();
                            return true;
                        },
                        KeyCode::Home => {
                            self.cursor_position = 0;
                            return true;
                        },
                        KeyCode::End => {
                            self.cursor_position = self.msg.len();
                            return true;
                        },
                        _ => {},
                    }
                }
            }
        }
        false
    }

    /// Enumerate this component's commands: the one close-popup entry.  A
    /// visible text input is modal and blocks lower-priority commands.
    pub fn commands(&self, out: &mut Vec<CommandInfo>, _force_all: bool) -> (r: CommandBlocking)
        ensures
            final(out)@.len() == old(out)@.len() + 1,
            final(out)@.subrange(0, old(out)@.len() as int) == old(out)@,
            final(out)@[old(out)@.len() as int].name@ == "close popup [esc]"@,
            final(out)@[old(out)@.len() as int].enabled,
            final(out)@[old(out)@.len() as int].available == self.shown(),
            final(out)@[old(out)@.len() as int].order == 1,
            !final(out)@[old(out)@.len() as int].hidden,
            r == (if self.shown() {
                CommandBlocking::Blocking
            } else {
                CommandBlocking::PassingOn
            }),
    {
        let info = CommandInfo::new("close popup [esc]", true, self.visible).order(1);
        out.push(info);
        assert(out@.subrange(0, old(out)@.len() as int) =~= old(out)@);
        visibility_blocking(self.visible)
    }

    /// The styled runs that picture the entered text with its cursor: the
    /// text before the cursor, the character under the cursor underlined —
    /// a blank past the end, a glyph plus a real line break on a newline —
    /// and the text after it.
    pub open spec fn spec_draw_runs(t: Seq<char>, c: int) -> Seq<(Seq<char>, RunStyle)> {
        let pre: Seq<(Seq<char>, RunStyle)> = if c > 0 {
            seq![(t.subrange(0, c), RunStyle::Plain)]
        } else {
            Seq::empty()
        };
        if c >= t.len() {
            pre + seq![(seq![' '], RunStyle::PlainUnderlined)]
        } else {
            let rest: Seq<(Seq<char>, RunStyle)> = if c + 1 < t.len() {
                seq![(t.subrange(c + 1, t.len() as int), RunStyle::Plain)]
            } else {
                Seq::empty()
            };
            if t[c] == '\n' {
                pre + seq![
                    (seq![NEWLINE_GLYPH], RunStyle::DimUnderlined),
                    (seq!['\n'], RunStyle::Plain),
                ] + rest
            } else {
                pre + seq![(seq![t[c]], RunStyle::PlainUnderlined)] + rest
            }
        }
    }

    /// Picture the entered text with its cursor.
    pub fn get_draw_text(&self) -> (r: Vec<TextRun>)
        requires
            self.wf(),
        ensures
            run_views(r@) == Self::spec_draw_runs(self.text(), self.cursor()),
    {
        let mut r: Vec<TextRun> = Vec::new();
        let cp = self.cursor_position;
        let n = self.msg.len();
        if cp > 0 {
            r.push(TextRun::new(chars_range_to_string(&self.msg, 0, cp), RunStyle::Plain));
        }
        if cp >= n {
            let mut s = String::new();
            push_char(&mut s, ' ');
            r.push(TextRun::new(s, RunStyle::PlainUnderlined));
        } else {
            let cursor_char = self.msg[cp];
            if cursor_char == '\n' {
                let mut g = String::new();
                push_char(&mut g, NEWLINE_GLYPH);
                r.push(TextRun::new(g, RunStyle::DimUnderlined));
                let mut nl = String::new();
                push_char(&mut nl, '\n');
                r.push(TextRun::new(nl, RunStyle::Plain));
            } else {
                let mut cs = String::new();
                push_char(&mut cs, cursor_char);
                r.push(TextRun::new(cs, RunStyle::PlainUnderlined));
            }
            if cp + 1 < n {
                r.push(
                    TextRun::new(chars_range_to_string(&self.msg, cp + 1, n), RunStyle::Plain),
                );
            }
        }
        proof {
            assert(run_views(r@) =~~= Self::spec_draw_runs(self.text(), self.cursor()));
        }
        r
    }

    /// What the popup should paint: nothing while hidden, the placeholder
    /// while no text is entered, the cursor-annotated text otherwise.
    pub fn draw_text(&self) -> (r: Vec<TextRun>)
        requires
            self.wf(),
        ensures
            !self.shown() ==> r@.len() == 0,
            self.shown() && self.text().len() == 0 ==> run_views(r@) == seq![
                (self.default_text(), RunStyle::Dim),
            ],
            self.shown() && self.text().len() > 0 ==> run_views(r@) == Self::spec_draw_runs(
                self.text(),
                self.cursor(),
            ),
    {
        let mut r: Vec<TextRun> = Vec::new();
        if !self.visible {
            return r;
        }
        if self.msg.len() == 0 {
            r.push(TextRun::new(self.default_msg.clone(), RunStyle::Dim));
            proof {
                assert(run_views(r@) =~~= seq![(self.default_text(), RunStyle::Dim)]);
            }
            r
        } else {
            self.get_draw_text()
        }
    }
}

} // verus!
