use vstd::prelude::*;
use vstd::string::*;
use crate::asynclog::AsyncLog;
use crate::components::{CommandBlocking, CommandInfo, visibility_blocking};
use crate::input::{InputEvent, KeyCode};
use crate::itembatch::{ItemBatch, LogEntry, SLICE_SIZE};
use crate::scroll::{ScrollSpeed, ScrollType};
use crate::strutil::{join_strings, spec_join, views_of_strings};
use crate::tags::Tags;

verus! {

/// Styled runs per picture line of the log list.
pub const ELEMENTS_PER_LINE: usize = 10;

/// The role a run plays in one log line; the renderer maps roles to colors.
#[derive(Clone, Copy, PartialEq, Eq, Structural, Debug)]
pub enum RunKind {
    Hash,
    Time,
    Author,
    Tag,
    Message,
    Splitter,
    LineBreak,
}

/// One styled run of a log line, ready to be painted.
#[derive(Debug)]
pub struct LogRun {
    pub text: String,
    pub kind: RunKind,
    pub selected: bool,
}

/// The mathematical shadow of a log-run list.
pub open spec fn lrun_views(rs: Seq<LogRun>) -> Seq<(Seq<char>, RunKind, bool)> {
    rs.map_values(|r: LogRun| (r.text@, r.kind, r.selected))
}

/// The ten runs that picture one log row: abbreviated hash, time, author,
/// tags and message, separated by blanks and closed by a line break.
pub open spec fn spec_line_runs(e: LogEntry, tag: Option<Seq<char>>, selected: bool) -> Seq<
    (Seq<char>, RunKind, bool),
> {
    seq![
        (e.hash@.subrange(0, 7), RunKind::Hash, selected),
        (seq![' '], RunKind::Splitter, selected),
        (e.time@, RunKind::Time, selected),
        (seq![' '], RunKind::Splitter, selected),
        (e.author@, RunKind::Author, selected),
        (seq![' '], RunKind::Splitter, selected),
        (
            match tag {
                Some(t) => seq![' '] + t,
                None => Seq::empty(),
            },
            RunKind::Tag,
            selected,
        ),
        (seq![' '], RunKind::Splitter, selected),
        (e.msg@, RunKind::Message, selected),
        (seq!['\n'], RunKind::LineBreak, selected),
    ]
}

/// Every cached row carries a hash of at least the seven characters the
/// picture abbreviates it to.
pub open spec fn entries_wf(items: Seq<LogEntry>) -> bool {
    forall|i: int| 0 <= i < items.len() ==> (#[trigger] items[i]).hash@.len() >= 7
}

/// What the log tab asks its collaborators for after a state change: the
/// commit ids whose rows must be looked up, and whether the tag association
/// still awaits its one lazy load.
pub struct UpdateRequest {
    pub commits: Option<CommitsRequest>,
    pub tags_wanted: bool,
}

/// One batched row lookup: the rows for `ids` belong at global log indexes
/// `start`, `start + 1`, ...; messages are wrapped for a view `width`
/// columns wide.
pub struct CommitsRequest {
    pub start: usize,
    pub ids: Vec<String>,
    pub width: u16,
}

/// The ids the policy window centered on selection `sel` takes from the
/// discovered log.
pub open spec fn spec_window_ids(commits: Seq<Seq<char>>, sel: int) -> Seq<Seq<char>> {
    let fs = ItemBatch::fetch_start(sel);
    commits.subrange(
        if fs <= commits.len() {
            fs
        } else {
            commits.len() as int
        },
        if fs + SLICE_SIZE <= commits.len() {
            fs + SLICE_SIZE as int
        } else {
            commits.len() as int
        },
    )
}

/// The fetch request the log tab issues from state `s`: a row window — at
/// the policy start, with the discovered ids of that window — exactly when
/// the cache is stale for the selection, and the tag load exactly when the
/// association was empty before.
pub open spec fn spec_update_request(s: Revlog, tags_empty_before: bool, r: UpdateRequest) -> bool {
    &&& (r.commits is Some) == s.items.spec_needs_data(s.selection as int, s.selection_max as int)
    &&& (r.commits is Some ==> r.commits->0.start == ItemBatch::fetch_start(s.selection as int))
    &&& (r.commits is Some ==> views_of_strings(r.commits->0.ids@) == spec_window_ids(
        s.git_log.commits(),
        s.selection as int,
    ))
    &&& (r.commits is Some ==> r.commits->0.width == s.current_size.0)
    &&& r.tags_wanted == tags_empty_before
}

/// The scroll kind a navigation key asks for, if it is one.
pub open spec fn nav_scroll(k: KeyCode) -> Option<ScrollType> {
    match k {
        KeyCode::Up => Some(ScrollType::Up),
        KeyCode::Down => Some(ScrollType::Down),
        KeyCode::Home => Some(ScrollType::Home),
        KeyCode::End => Some(ScrollType::End),
        KeyCode::PageUp => Some(ScrollType::PageUp),
        KeyCode::PageDown => Some(ScrollType::PageDown),
        _ => None,
    }
}

/// The tab's state after one navigation intent: the scroll velocity
/// accounted, the discovered range tracked, the selection stepped and
/// clamped into it.
pub open spec fn spec_after_nav(pre: Revlog, scroll: ScrollType, now_millis: u64) -> Revlog {
    let max = if pre.git_log.commits().len() > 0 {
        pre.git_log.commits().len() - 1
    } else {
        0
    };
    let sel = pre.spec_selection_after(scroll, now_millis);
    Revlog {
        selection: (if sel <= max {
            sel
        } else {
            max as int
        }) as usize,
        selection_max: max as usize,
        scroll_speed: ScrollSpeed {
            last_move_millis: now_millis,
            speed_milli: pre.scroll_speed.spec_next_speed(now_millis) as u64,
        },
        ..pre
    }
}

/// The commit-log tab: a bounded selection into the logical log, the
/// windowed row cache, the background walk state and the scroll velocity.
pub struct Revlog {
    pub selection: usize,
    pub selection_max: usize,
    pub items: ItemBatch,
    pub git_log: AsyncLog,
    pub visible: bool,
    pub first_open_done: bool,
    pub scroll_speed: ScrollSpeed,
    pub tags: Tags,
    pub current_size: (u16, u16),
    pub scroll_top: usize,
}

impl Revlog {
    pub open spec fn wf(self) -> bool {
        &&& self.scroll_speed.wf()
        &&& entries_wf(self.items.items@)
        &&& self.selection <= self.selection_max
    }

    /// The selection the update that follows a move clamps to: the intended
    /// target, kept within the discovered log.
    pub open spec fn spec_step_after(self, now_millis: u64) -> int {
        let ns = self.scroll_speed.spec_next_speed(now_millis);
        if ns / 1000 >= 1 {
            ns / 1000
        } else {
            1
        }
    }

    /// One page of rows, as the last drawn height showed it.
    pub open spec fn spec_page_offset(self) -> int {
        if self.current_size.1 >= 1 {
            self.current_size.1 - 1
        } else {
            0
        }
    }

    /// Where a move intent of kind `scroll` sends the selection before
    /// clamping.
    pub open spec fn spec_target(self, scroll: ScrollType, now_millis: u64) -> int {
        match scroll {
            ScrollType::Up => if self.selection >= self.spec_step_after(now_millis) {
                self.selection - self.spec_step_after(now_millis)
            } else {
                0
            },
            ScrollType::Down => self.selection + self.spec_step_after(now_millis),
            ScrollType::PageUp => if self.selection >= self.spec_page_offset() {
                self.selection - self.spec_page_offset()
            } else {
                0
            },
            ScrollType::PageDown => self.selection + self.spec_page_offset(),
            ScrollType::Home => 0,
            ScrollType::End => self.selection_max as int,
        }
    }

    /// The selection after a move intent: the target, clamped into the
    /// discovered range.
    pub open spec fn spec_selection_after(self, scroll: ScrollType, now_millis: u64) -> int {
        if self.spec_target(scroll, now_millis) <= self.selection_max {
            self.spec_target(scroll, now_millis)
        } else {
            self.selection_max as int
        }
    }

    pub fn new() -> (r: Revlog)
        ensures
            r.wf(),
            r.selection == 0,
            r.selection_max == 0,
            r.items.items@.len() == 0,
            r.git_log.commits().len() == 0,
            !r.git_log.pending(),
            !r.visible,
            !r.first_open_done,
            r.tags.entries_view().len() == 0,
            r.scroll_top == 0,
    {
        Revlog {
            selection: 0,
            selection_max: 0,
            items: ItemBatch::empty(),
            git_log: AsyncLog::new(),
            visible: false,
            first_open_done: false,
            scroll_speed: ScrollSpeed::new(),
            tags: Tags::new(),
            current_size: (0, 0),
            scroll_top: 0,
        }
    }

    pub fn any_work_pending(&self) -> (r: bool)
        ensures
            r == self.git_log.pending(),
    {
        self.git_log.is_pending()
    }

    /// Track the discovered count, keep the selection within the
    /// discovered range, and decide what must be fetched: a row window
    /// when the cache is stale for the current selection, and the tag
    /// association when it was never loaded.
    pub fn update(&mut self) -> (r: UpdateRequest)
        requires
            old(self).wf(),
        ensures
            final(self).wf(),
            final(self).selection_max == if old(self).git_log.commits().len() > 0 {
                old(self).git_log.commits().len() - 1
            } else {
                0
            },
            final(self).selection == if old(self).selection <= final(self).selection_max {
                old(self).selection
            } else {
                final(self).selection_max
            },
            *final(self) == (Revlog {
                selection: final(self).selection,
                selection_max: final(self).selection_max,
                ..*old(self)
            }),
            spec_update_request(*final(self), old(self).tags.entries_view().len() == 0, r),
    {
        let count = self.git_log.count();
        self.selection_max = if count > 0 {
            count - 1
        } else {
            0
        };
        if self.selection > self.selection_max {
            self.selection = self.selection_max;
        }
        let commits = if self.items.needs_data(self.selection, self.selection_max) {
            let start = if self.selection >= SLICE_SIZE / 2 {
                self.selection - SLICE_SIZE / 2
            } else {
                0
            };
            let ids = self.git_log.get_slice(start, SLICE_SIZE);
            Some(CommitsRequest { start, ids, width: self.current_size.0 })
        } else {
            None
        };
        UpdateRequest { commits, tags_wanted: self.tags.is_empty() }
    }

    /// Take in the rows a lookup delivered, replacing the cache window.
    pub fn apply_commits(&mut self, start: usize, entries: Vec<LogEntry>)
        requires
            old(self).wf(),
            entries_wf(entries@),
        ensures
            final(self).wf(),
            final(self).items.index_offset == start,
            final(self).items.items@ == entries@,
            *final(self) == (Revlog { items: final(self).items, ..*old(self) }),
    {
        self.items.set_items(start, entries);
    }

    /// Take in the tag association its lazy load delivered.
    pub fn apply_tags(&mut self, entries: Vec<(String, Vec<String>)>)
        requires
            old(self).wf(),
        ensures
            final(self).wf(),
            final(self).tags.entries_view() == entries@,
            *final(self) == (Revlog { tags: final(self).tags, ..*old(self) }),
    {
        self.tags.set_entries(entries);
    }

    /// Apply one move intent: account the scroll velocity, step the
    /// selection, clamp it into the discovered range, and decide what must
    /// be fetched for the new viewport.
    pub fn move_selection(&mut self, scroll: ScrollType, now_millis: u64) -> (r: UpdateRequest)
        requires
            old(self).wf(),
        ensures
            final(self).wf(),
            final(self).selection == if old(self).spec_selection_after(scroll, now_millis)
                <= final(self).selection_max {
                old(self).spec_selection_after(scroll, now_millis)
            } else {
                final(self).selection_max as int
            },
            final(self).selection <= old(self).selection_max,
            final(self).scroll_speed == (ScrollSpeed {
                last_move_millis: now_millis,
                speed_milli: old(self).scroll_speed.spec_next_speed(now_millis) as u64,
            }),
            final(self).selection_max == if old(self).git_log.commits().len() > 0 {
                old(self).git_log.commits().len() - 1
            } else {
                0
            },
            final(self).items == old(self).items,
            final(self).git_log == old(self).git_log,
            final(self).tags == old(self).tags,
            final(self).visible == old(self).visible,
            final(self).first_open_done == old(self).first_open_done,
            final(self).current_size == old(self).current_size,
            final(self).scroll_top == old(self).scroll_top,
            spec_update_request(*final(self), old(self).tags.entries_view().len() == 0, r),
    {
        self.scroll_speed.update(now_millis);
        let speed_int = self.scroll_speed.step();
        let page_offset: usize = if self.current_size.1 >= 1 {
            (self.current_size.1 - 1) as usize
        } else {
            0
        };
        let target: usize = match scroll {
            ScrollType::Up => if self.selection >= speed_int {
                self.selection - speed_int
            } else {
                0
            },
            ScrollType::Down => if self.selection <= usize::MAX - speed_int {
                self.selection + speed_int
            } else {
                usize::MAX
            },
            ScrollType::PageUp => if self.selection >= page_offset {
                self.selection - page_offset
            } else {
                0
            },
            ScrollType::PageDown => if self.selection <= usize::MAX - page_offset {
                self.selection + page_offset
            } else {
                usize::MAX
            },
            ScrollType::Home => 0,
            ScrollType::End => self.selection_max,
        };
        self.selection = if target <= self.selection_max {
            target
        } else {
            self.selection_max
        };
        self.update()
    }

    /// Note the drawn area: the page step and the kept scroll window
    /// follow it.  Two columns and two rows go to the frame.
    pub fn resize(&mut self, width: u16, height: u16)
        ensures
            final(self).current_size.0 == if width >= 2 {
                width - 2
            } else {
                0
            },
            final(self).current_size.1 == if height >= 2 {
                height - 2
            } else {
                0
            },
            *final(self) == (Revlog { current_size: final(self).current_size, ..*old(self) }),
    {
        self.current_size = (
            if width >= 2 {
                width - 2
            } else {
                0
            },
            if height >= 2 {
                height - 2
            } else {
                0
            },
        );
    }

    /// Scroll the drawn window just far enough that the selected row stays
    /// on screen, and not at all when it already is.
    pub fn update_scroll_top(&mut self)
        ensures
            *final(self) == (Revlog { scroll_top: final(self).scroll_top, ..*old(self) }),
            final(self).scroll_top == calc_scroll_top_spec(
                old(self).scroll_top as int,
                old(self).current_size.1 as int,
                if old(self).selection >= old(self).items.index_offset {
                    old(self).selection - old(self).items.index_offset
                } else {
                    0
                },
            ),
    {
        let h = self.current_size.1 as usize;
        let rel = self.relative_selection();
        self.scroll_top = calc_scroll_top(self.scroll_top, h, rel);
    }

    /// The selection's place within the cached window.
    pub fn relative_selection(&self) -> (r: usize)
        ensures
            r == if self.selection >= self.items.index_offset {
                self.selection - self.items.index_offset
            } else {
                0
            },
    {
        if self.selection >= self.items.index_offset {
            self.selection - self.items.index_offset
        } else {
            0
        }
    }

    pub fn is_visible(&self) -> (r: bool)
        ensures
            r == self.visible,
    {
        self.visible
    }

    pub fn set_hidden(&mut self)
        ensures
            *final(self) == (Revlog { visible: false, ..*old(self) }),
    {
        self.visible = false;
    }

    /// Make the tab visible.  Its first opening starts the background walk;
    /// the returned generation tells the embedder which walk to run.
    pub fn show(&mut self) -> (g: Option<u64>)
        requires
            old(self).wf(),
            old(self).git_log.generation() < u64::MAX,
        ensures
            final(self).wf(),
            final(self).visible,
            old(self).first_open_done ==> g is None && *final(self) == (Revlog {
                visible: true,
                ..*old(self)
            }),
            !old(self).first_open_done ==> {
                &&& g == Some(((old(self).git_log.generation() + 1) as u64))
                &&& final(self).first_open_done
                &&& final(self).git_log.pending()
                &&& final(self).git_log.commits().len() == 0
                &&& final(self).git_log.generation() == old(self).git_log.generation() + 1
                &&& *final(self) == (Revlog {
                    visible: true,
                    first_open_done: true,
                    git_log: final(self).git_log,
                    ..*old(self)
                })
            },
    {
        self.visible = true;
        if !self.first_open_done {
            self.first_open_done = true;
            Some(self.git_log.fetch())
        } else {
            None
        }
    }

    /// The event consumes: the tab is visible and the key is a plain
    /// navigation key.
    pub open spec fn spec_consumes(self, ev: InputEvent) -> bool {
        self.visible && match ev {
            InputEvent::Key(k) => !k.ctrl && nav_scroll(k.code) is Some,
            _ => false,
        }
    }

    /// What one dispatched event does to the tab: a navigation key moves
    /// the selection as `spec_after_nav` says and yields the refresh
    /// request of the new state; anything else changes nothing, passes on
    /// and asks for nothing.
    pub open spec fn spec_event_outcome(
        pre: Revlog,
        ev: InputEvent,
        now_millis: u64,
        post: Revlog,
        consumed: bool,
        req: UpdateRequest,
    ) -> bool {
        &&& consumed == pre.spec_consumes(ev)
        &&& (if pre.spec_consumes(ev) {
            &&& post == spec_after_nav(pre, nav_scroll(ev->Key_0.code)->0, now_millis)
            &&& spec_update_request(post, pre.tags.entries_view().len() == 0, req)
        } else {
            post == pre && req.commits is None && !req.tags_wanted
        })
    }

    /// React to one input event: while visible, the navigation keys move
    /// the selection; everything else passes on.
    pub fn event(&mut self, ev: &InputEvent, now_millis: u64) -> (r: (bool, UpdateRequest))
        requires
            old(self).wf(),
        ensures
            final(self).wf(),
            Revlog::spec_event_outcome(*old(self), *ev, now_millis, *final(self), r.0, r.1),
    {
        if self.visible {
            if let InputEvent::Key(k) = ev {
                if !k.ctrl {
                    let scroll: Option<ScrollType> = match k.code {
                        KeyCode::Up => Some(ScrollType::Up),
                        KeyCode::Down => Some(ScrollType::Down),
                        KeyCode::Home => Some(ScrollType::Home),
                        KeyCode::End => Some(ScrollType::End),
                        KeyCode::PageUp => Some(ScrollType::PageUp),
                        KeyCode::PageDown => Some(ScrollType::PageDown),
                        _ => None,
                    };
                    if let Some(s) = scroll {
                        let req = self.move_selection(s, now_millis);
                        return (true, req);
                    }
                }
            }
        }
        (false, UpdateRequest { commits: None, tags_wanted: false })
    }

    /// Enumerate this tab's commands.  A visible tab owns the input and
    /// blocks lower-priority components' commands.
    pub fn commands(&self, out: &mut Vec<CommandInfo>, force_all: bool) -> (r: CommandBlocking)
        ensures
            final(out)@.len() == old(out)@.len() + 1,
            final(out)@.subrange(0, old(out)@.len() as int) == old(out)@,
            final(out)@[old(out)@.len() as int].name@ == "scroll [up/down]"@,
            final(out)@[old(out)@.len() as int].enabled == self.visible,
            final(out)@[old(out)@.len() as int].available == (self.visible || force_all),
            final(out)@[old(out)@.len() as int].order == 0,
            !final(out)@[old(out)@.len() as int].hidden,
            r == (if self.visible {
                CommandBlocking::Blocking
            } else {
                CommandBlocking::PassingOn
            }),
    {
        let info = CommandInfo::new("scroll [up/down]", self.visible, self.visible || force_all);
        out.push(info);
        assert(out@.subrange(0, old(out)@.len() as int) =~= old(out)@);
        visibility_blocking(self.visible)
    }

    /// The tag text the picture shows for cached row `i`: a blank plus the
    /// commit's tag names glued with blanks, or nothing when it has none.
    pub open spec fn spec_tag_text(self, i: int) -> Option<Seq<char>> {
        match self.tags.spec_get(self.items.items@[i].hash@) {
            Some(ts) => Some(spec_join(ts, seq![' '])),
            None => None,
        }
    }

    /// Picture every cached row: ten runs per row, the row under the
    /// selection marked.
    pub fn get_text(&self) -> (r: Vec<LogRun>)
        requires
            self.wf(),
        ensures
            r@.len() == self.items.items@.len() * 10,
            forall|i: int|
                0 <= i < self.items.items@.len() ==> #[trigger] lrun_views(r@).subrange(
                    10 * i,
                    10 * i + 10,
                ) == spec_line_runs(
                    self.items.items@[i],
                    self.spec_tag_text(i),
                    i == if self.selection >= self.items.index_offset {
                        self.selection - self.items.index_offset
                    } else {
                        0
                    },
                ),
    {
        let rel_sel = self.relative_selection();
        let n = self.items.items.len();
        let mut txt: Vec<LogRun> = Vec::new();
        let mut idx: usize = 0;
        while idx < n
            invariant
                self.wf(),
                0 <= idx <= n == self.items.items@.len(),
                rel_sel == if self.selection >= self.items.index_offset {
                    self.selection - self.items.index_offset
                } else {
                    0
                },
                txt@.len() == idx * 10,
                forall|i: int|
                    0 <= i < idx ==> #[trigger] lrun_views(txt@).subrange(10 * i, 10 * i + 10)
                        == spec_line_runs(
                        self.items.items@[i],
                        self.spec_tag_text(i),
                        i == rel_sel,
                    ),
            decreases n - idx,
        {
            let e = &self.items.items[idx];
            let tag: Option<String> = match self.tags.get(&e.hash) {
                Some(ts) => Some(join_strings(ts, " ")),
                None => None,
            };
            proof {
                reveal_strlit(" ");
                assert(" "@ =~= seq![' ']);
            }
            let ghost pre = txt@;
            add_entry(e, idx == rel_sel, &mut txt, tag);
            proof {
                assert forall|i: int| 0 <= i < idx + 1 implies #[trigger] lrun_views(
                    txt@,
                ).subrange(10 * i, 10 * i + 10) == spec_line_runs(
                    self.items.items@[i],
                    self.spec_tag_text(i),
                    i == rel_sel,
                ) by {
                    if i < idx {
                        assert(lrun_views(txt@).subrange(10 * i, 10 * i + 10) =~~= lrun_views(
                            pre,
                        ).subrange(10 * i, 10 * i + 10));
                    } else {
                        assert(lrun_views(txt@).subrange(10 * i, 10 * i + 10) =~~= spec_line_runs(
                            self.items.items@[i],
                            self.spec_tag_text(i),
                            i == rel_sel,
                        ));
                    }
                }
            }
            idx += 1;
        }
        txt
    }
}

/// Append the ten runs that picture one log row: abbreviated hash, time,
/// author, tags and message, separated by blanks and closed by a line
/// break.  The whole row is marked when it sits under the selection.
pub fn add_entry(e: &LogEntry, selected: bool, txt: &mut Vec<LogRun>, tags: Option<String>)
    requires
        e.hash@.len() >= 7,
    ensures
        final(txt)@.len() == old(txt)@.len() + 10,
        lrun_views(final(txt)@) == lrun_views(old(txt)@) + spec_line_runs(
            *e,
            match tags {
                Some(t) => Some(t@),
                None => None,
            },
            selected,
        ),
{
    txt.push(
        LogRun {
            text: e.hash.as_str().substring_char(0, 7).to_owned(),
            kind: RunKind::Hash,
            selected,
        },
    );
    txt.push(LogRun { text: String::from_str(" "), kind: RunKind::Splitter, selected });
    txt.push(LogRun { text: e.time.clone(), kind: RunKind::Time, selected });
    txt.push(LogRun { text: String::from_str(" "), kind: RunKind::Splitter, selected });
    txt.push(LogRun { text: e.author.clone(), kind: RunKind::Author, selected });
    txt.push(LogRun { text: String::from_str(" "), kind: RunKind::Splitter, selected });
    let tag_text: String = match tags {
        Some(t) => String::from_str(" ").concat(t.as_str()),
        None => String::new(),
    };
    txt.push(LogRun { text: tag_text, kind: RunKind::Tag, selected });
    txt.push(LogRun { text: String::from_str(" "), kind: RunKind::Splitter, selected });
    txt.push(LogRun { text: e.msg.clone(), kind: RunKind::Message, selected });
    txt.push(LogRun { text: String::from_str("\n"), kind: RunKind::LineBreak, selected });
    proof {
        reveal_strlit(" ");
        reveal_strlit("\n");
        assert(" "@ =~= seq![' ']);
        assert("\n"@ =~= seq!['\n']);
        assert(lrun_views(txt@) =~~= lrun_views(old(txt)@) + spec_line_runs(
            *e,
            match tags {
                Some(t) => Some(t@),
                None => None,
            },
            selected,
        ));
    }
}

/// Where the drawn window starts so that the selected row stays within it:
/// unchanged while the selection already is, else moved just far enough.
pub open spec fn calc_scroll_top_spec(current_top: int, height_in_lines: int, selection: int) -> int {
    if height_in_lines == 0 {
        current_top
    } else if selection < current_top {
        selection
    } else if selection - current_top >= height_in_lines {
        selection - height_in_lines + 1
    } else {
        current_top
    }
}

/// Keep the selected row within the drawn window: scroll just far enough
/// that the selection stays on screen, and not at all when it already is.
pub fn calc_scroll_top(current_top: usize, height_in_lines: usize, selection: usize) -> (r: usize)
    ensures
        r == calc_scroll_top_spec(current_top as int, height_in_lines as int, selection as int),
        height_in_lines > 0 ==> r <= selection < r + height_in_lines,
        height_in_lines > 0 && current_top <= selection < current_top + height_in_lines ==> r
            == current_top,
        height_in_lines == 0 ==> r == current_top,
{
    if height_in_lines == 0 {
        current_top
    } else if selection < current_top {
        selection
    } else if selection - current_top >= height_in_lines {
        selection - height_in_lines + 1
    } else {
        current_top
    }
}

/// Law: the fetch the log tab issues for a stale selection satisfies it.
/// The request starts half a fetch window before the selection and carries
/// as many ids as the discovered log holds there; once rows for exactly
/// those ids are cached at that start, the cache covers the selection and
/// no longer reports stale for it.
pub proof fn lemma_refetch_satisfies(r: Revlog, b: ItemBatch)
    requires
        r.selection <= r.selection_max,
        r.selection_max + 1 == r.git_log.commits().len(),
        b.index_offset == ItemBatch::fetch_start(r.selection as int),
        b.items@.len() == if ItemBatch::fetch_start(r.selection as int) + SLICE_SIZE
            <= r.git_log.commits().len() {
            SLICE_SIZE as int
        } else {
            r.git_log.commits().len() - ItemBatch::fetch_start(r.selection as int)
        },
    ensures
        b.covers(r.selection as int),
        !b.spec_needs_data(r.selection as int, r.selection_max as int),
{
    crate::itembatch::lemma_fresh_window_satisfies(
        b,
        r.selection as int,
        r.selection_max as int,
    );
}

/// Law: a move intent cannot escape the discovered range — Down at the
/// bottom and Up at the top leave the selection where it was, and Home and
/// End land exactly on the first and the last discovered row.
pub proof fn lemma_selection_clamp(s: Revlog, now_millis: u64)
    requires
        s.wf(),
        s.selection <= s.selection_max,
    ensures
        s.selection == s.selection_max ==> s.spec_selection_after(ScrollType::Down, now_millis)
            == s.selection,
        s.selection == 0 ==> s.spec_selection_after(ScrollType::Up, now_millis) == 0,
        s.spec_selection_after(ScrollType::Home, now_millis) == 0,
        s.spec_selection_after(ScrollType::End, now_millis) == s.selection_max,
        0 <= s.spec_selection_after(ScrollType::Down, now_millis) <= s.selection_max,
        0 <= s.spec_selection_after(ScrollType::Up, now_millis) <= s.selection_max,
{
}

} // verus!
