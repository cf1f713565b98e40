use vstd::prelude::*;
use crate::components::{CommandBlocking, CommandInfo};
use crate::flags::NeedsUpdate;
use crate::input::{exit_key_matches, tab_toggle_key_matches, InputEvent};
use crate::itembatch::ItemBatch;
use crate::popups::{HelpPopup, MsgPopup, ResetPopup};
use crate::queue::{InternalEvent, Queue, ResetItem};
use crate::revlog::{nav_scroll, spec_after_nav, spec_update_request, spec_window_ids, Revlog,
    UpdateRequest};
use crate::stash::StashingTab;
use crate::strutil::views_of_strings;
use crate::textinput::TextInputComponent;

verus! {

/// One piece of outside work the controller asks its embedder to perform:
/// a repository mutation, a data fetch, or starting the background walk.
/// The controller only decides; the embedder acts and reports back.
pub enum Task {
    /// Reset the file at `path` in the working tree.
    ResetFile { path: String },
    /// Reset the folder at `path` in the working tree.
    ResetFolder { path: String },
    /// Stage the hunk `hash` of the file at `path`.
    StageHunk { path: String, hash: u64 },
    /// Unstage the hunk `hash` of the file at `path`.
    UnstageHunk { path: String, hash: u64 },
    /// Run the background commit walk of the given generation.
    StartWalk { generation: u64 },
    /// Look up display rows for `ids`, which belong at global log indexes
    /// `start`, `start + 1`, ..., wrapped for a view `width` columns wide.
    FetchCommits { start: usize, ids: Vec<String>, width: u16 },
    /// Load the tag association.
    FetchTags,
    /// Refresh any open diff view.
    RefreshDiff,
}

/// The mathematical shadow of one task.
pub enum TaskView {
    ResetFile { path: Seq<char> },
    ResetFolder { path: Seq<char> },
    StageHunk { path: Seq<char>, hash: u64 },
    UnstageHunk { path: Seq<char>, hash: u64 },
    StartWalk { generation: u64 },
    FetchCommits { start: int, ids: Seq<Seq<char>>, width: u16 },
    FetchTags,
    RefreshDiff,
}

pub open spec fn task_view(t: Task) -> TaskView {
    match t {
        Task::ResetFile { path } => TaskView::ResetFile { path: path@ },
        Task::ResetFolder { path } => TaskView::ResetFolder { path: path@ },
        Task::StageHunk { path, hash } => TaskView::StageHunk { path: path@, hash },
        Task::UnstageHunk { path, hash } => TaskView::UnstageHunk { path: path@, hash },
        Task::StartWalk { generation } => TaskView::StartWalk { generation },
        Task::FetchCommits { start, ids, width } => TaskView::FetchCommits {
            start: start as int,
            ids: views_of_strings(ids@),
            width,
        },
        Task::FetchTags => TaskView::FetchTags,
        Task::RefreshDiff => TaskView::RefreshDiff,
    }
}

pub open spec fn task_views(ts: Seq<Task>) -> Seq<TaskView> {
    ts.map_values(|t: Task| task_view(t))
}

/// The file the status view has selected, with whether the staged side is
/// shown — what a stage/unstage intent acts on.
pub open spec fn spec_sel(sel: Option<(String, bool)>) -> Option<(Seq<char>, bool)> {
    match sel {
        Some((p, staged)) => Some((p@, staged)),
        None => None,
    }
}

/// The repository work one queued intent asks for.  Only the reset and
/// hunk intents touch the repository; the rest act on the controller's own
/// state.
pub open spec fn spec_event_tasks(ev: InternalEvent, sel: Option<(Seq<char>, bool)>) -> Seq<
    TaskView,
> {
    match ev {
        InternalEvent::ResetItem(ri) => if ri.is_folder {
            seq![TaskView::ResetFolder { path: ri.path@ }]
        } else {
            seq![TaskView::ResetFile { path: ri.path@ }]
        },
        InternalEvent::AddHunk(h) => match sel {
            Some((p, true)) => seq![TaskView::UnstageHunk { path: p, hash: h }],
            Some((p, false)) => seq![TaskView::StageHunk { path: p, hash: h }],
            None => Seq::empty(),
        },
        _ => Seq::empty(),
    }
}

/// The repository work a whole queue asks for, in queue order.
pub open spec fn spec_queue_tasks(evs: Seq<InternalEvent>, sel: Option<(Seq<char>, bool)>) -> Seq<
    TaskView,
>
    decreases evs.len(),
{
    if evs.len() == 0 {
        Seq::empty()
    } else {
        spec_event_tasks(evs[0], sel) + spec_queue_tasks(evs.drop_first(), sel)
    }
}

/// The dirty bits one queued intent raises at drain time.  Reset and hunk
/// intents raise nothing here: their bits depend on whether the repository
/// work succeeds, which the embedder reports after the drain.
pub open spec fn spec_event_flags(ev: InternalEvent) -> NeedsUpdate {
    match ev {
        InternalEvent::ConfirmResetItem(_) => NeedsUpdate {
            all: false,
            diff: false,
            commands: true,
        },
        InternalEvent::ShowMsg(_) => NeedsUpdate::spec_all(),
        InternalEvent::Update(u) => u,
        _ => NeedsUpdate::spec_empty(),
    }
}

/// The dirty bits a whole queue raises at drain time.
pub open spec fn spec_queue_flags(evs: Seq<InternalEvent>) -> NeedsUpdate
    decreases evs.len(),
{
    if evs.len() == 0 {
        NeedsUpdate::spec_empty()
    } else {
        spec_event_flags(evs[0]).spec_union(spec_queue_flags(evs.drop_first()))
    }
}

/// The message popup — shown, and the text — after the intents are
/// performed in order, starting from `cur`: the last show-message intent
/// wins.
pub open spec fn spec_msg_after(evs: Seq<InternalEvent>, cur: (bool, Seq<char>)) -> (
    bool,
    Seq<char>,
)
    decreases evs.len(),
{
    if evs.len() == 0 {
        cur
    } else {
        let next = match evs[0] {
            InternalEvent::ShowMsg(m) => (true, m@),
            _ => cur,
        };
        spec_msg_after(evs.drop_first(), next)
    }
}

/// The reset popup — shown, and the path awaiting confirmation — after
/// the intents are performed in order, starting from `cur`: the last
/// confirm-reset intent wins.
pub open spec fn spec_reset_after(evs: Seq<InternalEvent>, cur: (bool, Option<ResetItem>)) -> (
    bool,
    Option<ResetItem>,
)
    decreases evs.len(),
{
    if evs.len() == 0 {
        cur
    } else {
        let next = match evs[0] {
            InternalEvent::ConfirmResetItem(r) => (true, Some(r)),
            _ => cur,
        };
        spec_reset_after(evs.drop_first(), next)
    }
}

/// Whether the commit editor is shown after the intents are performed:
/// any open-commit intent shows it, nothing in the queue hides it.
pub open spec fn spec_commit_shown_after(evs: Seq<InternalEvent>, cur: bool) -> bool
    decreases evs.len(),
{
    if evs.len() == 0 {
        cur
    } else {
        spec_commit_shown_after(evs.drop_first(), cur || evs[0] is OpenCommit)
    }
}

/// The tasks one fetch decision carries: the row lookup, then the tag
/// load.
pub open spec fn spec_request_tasks(req: UpdateRequest) -> Seq<TaskView> {
    (match req.commits {
        Some(c) => seq![
            TaskView::FetchCommits {
                start: c.start as int,
                ids: views_of_strings(c.ids@),
                width: c.width,
            },
        ],
        None => Seq::empty(),
    }) + (if req.tags_wanted {
        seq![TaskView::FetchTags]
    } else {
        Seq::empty()
    })
}

/// The tasks the log tab's refresh decision yields in state `s`: the
/// policy row window while the cache is stale for the selection, and the
/// tag load while the association was empty before.
pub open spec fn spec_revlog_fetch_tasks(s: Revlog, tags_empty_before: bool) -> Seq<TaskView> {
    (if s.items.spec_needs_data(s.selection as int, s.selection_max as int) {
        seq![
            TaskView::FetchCommits {
                start: ItemBatch::fetch_start(s.selection as int),
                ids: spec_window_ids(s.git_log.commits(), s.selection as int),
                width: s.current_size.0,
            },
        ]
    } else {
        Seq::empty()
    }) + (if tags_empty_before {
        seq![TaskView::FetchTags]
    } else {
        Seq::empty()
    })
}

/// A request that meets its issuing state's contract carries exactly that
/// state's fetch tasks.
proof fn lemma_request_tasks(s: Revlog, tags_empty_before: bool, req: UpdateRequest)
    requires
        spec_update_request(s, tags_empty_before, req),
    ensures
        spec_request_tasks(req) == spec_revlog_fetch_tasks(s, tags_empty_before),
{
    assert(spec_request_tasks(req) =~~= spec_revlog_fetch_tasks(s, tags_empty_before));
}

/// One intent folds as its match arm says.
proof fn lemma_one_intent_folds(
    ev: InternalEvent,
    m: (bool, Seq<char>),
    r: (bool, Option<ResetItem>),
    c: bool,
)
    ensures
        spec_msg_after(seq![ev], m) == (match ev {
            InternalEvent::ShowMsg(x) => (true, x@),
            _ => m,
        }),
        spec_reset_after(seq![ev], r) == (match ev {
            InternalEvent::ConfirmResetItem(x) => (true, Some(x)),
            _ => r,
        }),
        spec_commit_shown_after(seq![ev], c) == (c || ev is OpenCommit),
{
    let evs = seq![ev];
    assert(evs.drop_first() =~= Seq::<InternalEvent>::empty());
    let m1 = match ev {
        InternalEvent::ShowMsg(x) => (true, x@),
        _ => m,
    };
    assert(spec_msg_after(evs, m) == spec_msg_after(evs.drop_first(), m1));
    assert(spec_msg_after(Seq::<InternalEvent>::empty(), m1) == m1);
    let r1 = match ev {
        InternalEvent::ConfirmResetItem(x) => (true, Some(x)),
        _ => r,
    };
    assert(spec_reset_after(evs, r) == spec_reset_after(evs.drop_first(), r1));
    assert(spec_reset_after(Seq::<InternalEvent>::empty(), r1) == r1);
    let c1 = c || ev is OpenCommit;
    assert(spec_commit_shown_after(evs, c) == spec_commit_shown_after(evs.drop_first(), c1));
    assert(spec_commit_shown_after(Seq::<InternalEvent>::empty(), c1) == c1);
}

/// Some component of the ordered tree consumes the event.
pub open spec fn spec_cycle_consumed(pre: App, ev: InputEvent) -> bool {
    pre.msg.spec_consumes(ev) || pre.reset.spec_consumes(ev) || pre.commit.spec_consumes(ev)
        || pre.help.spec_consumes(ev) || pre.revlog.spec_consumes(ev)
}

/// The reset popup is reached and consumes: no higher-priority component
/// does.
pub open spec fn spec_reset_dispatched(pre: App, ev: InputEvent) -> bool {
    !pre.msg.spec_consumes(ev) && pre.reset.spec_consumes(ev)
}

/// The commit editor is reached and consumes.
pub open spec fn spec_commit_dispatched(pre: App, ev: InputEvent) -> bool {
    !pre.msg.spec_consumes(ev) && !pre.reset.spec_consumes(ev) && pre.commit.spec_consumes(ev)
}

/// The help popup is reached and consumes.
pub open spec fn spec_help_dispatched(pre: App, ev: InputEvent) -> bool {
    !pre.msg.spec_consumes(ev) && !pre.reset.spec_consumes(ev) && !pre.commit.spec_consumes(ev)
        && pre.help.spec_consumes(ev)
}

/// The log tab is reached and consumes.
pub open spec fn spec_revlog_dispatched(pre: App, ev: InputEvent) -> bool {
    !pre.msg.spec_consumes(ev) && !pre.reset.spec_consumes(ev) && !pre.commit.spec_consumes(ev)
        && !pre.help.spec_consumes(ev) && pre.revlog.spec_consumes(ev)
}

/// The intents dispatch enqueues: only the reset popup pushes, and only
/// when the message popup has not intercepted the event first.
pub open spec fn spec_cycle_pushes(pre: App, ev: InputEvent) -> Seq<InternalEvent> {
    if pre.msg.spec_consumes(ev) {
        Seq::empty()
    } else {
        ResetPopup::spec_event_pushes(pre.reset, ev)
    }
}

/// The whole queue one cycle drains: what stood there when the event
/// arrived, plus what its dispatch enqueued.
pub open spec fn spec_cycle_queue(pre: App, ev: InputEvent) -> Seq<InternalEvent> {
    pre.queue@ + spec_cycle_pushes(pre, ev)
}

/// The cycle rotates the tabs: the tab-switch key, left unconsumed.
pub open spec fn spec_cycle_toggles(pre: App, ev: InputEvent) -> bool {
    !spec_cycle_consumed(pre, ev) && match ev {
        InputEvent::Key(k) => crate::input::is_tab_toggle_key(k),
        _ => false,
    }
}

/// The ordered dispatch of one event through the component tree, popups
/// before tabs: the first component willing to consume it acts as its own
/// outcome predicate says and stops the dispatch, every component not
/// reached stands still, only the reset popup can enqueue, and only a
/// dispatched log-tab move asks to fetch.
pub open spec fn spec_dispatch_outcome(
    pre: App,
    ev: InputEvent,
    now_millis: u64,
    post: App,
    consumed: bool,
    req: UpdateRequest,
) -> bool {
    &&& consumed == spec_cycle_consumed(pre, ev)
    &&& post.queue@ == spec_cycle_queue(pre, ev)
    &&& (if pre.msg.spec_consumes(ev) {
        &&& MsgPopup::spec_event_outcome(pre.msg, ev, post.msg, true)
        &&& post.reset == pre.reset
        &&& post.commit == pre.commit
        &&& post.help == pre.help
        &&& post.revlog == pre.revlog
        &&& req.commits is None && !req.tags_wanted
    } else {
        &&& post.msg == pre.msg
        &&& ResetPopup::spec_event_outcome(pre.reset, ev, post.reset, pre.reset.spec_consumes(ev))
        &&& (if pre.reset.spec_consumes(ev) {
            &&& post.commit == pre.commit
            &&& post.help == pre.help
            &&& post.revlog == pre.revlog
            &&& req.commits is None && !req.tags_wanted
        } else {
            &&& TextInputComponent::spec_event_outcome(
                pre.commit,
                ev,
                post.commit,
                pre.commit.spec_consumes(ev),
            )
            &&& (if pre.commit.spec_consumes(ev) {
                &&& post.help == pre.help
                &&& post.revlog == pre.revlog
                &&& req.commits is None && !req.tags_wanted
            } else {
                &&& HelpPopup::spec_event_outcome(
                    pre.help,
                    ev,
                    post.help,
                    pre.help.spec_consumes(ev),
                )
                &&& (if pre.help.spec_consumes(ev) {
                    &&& post.revlog == pre.revlog
                    &&& req.commits is None && !req.tags_wanted
                } else {
                    Revlog::spec_event_outcome(
                        pre.revlog,
                        ev,
                        now_millis,
                        post.revlog,
                        pre.revlog.spec_consumes(ev),
                        req,
                    )
                })
            })
        })
    })
}

/// The notifications background work delivers through the shared channel.
#[derive(Clone, Copy, PartialEq, Eq, Structural, Debug)]
pub enum AsyncNotification {
    Log,
    Status,
    Diff,
}

/// The top-level controller: owns the component tree, the internal action
/// queue and the change-flag set, and orchestrates one full input cycle —
/// dispatch, drain the queue, accumulate flags, then selectively refresh.
pub struct App {
    pub do_quit: bool,
    pub msg: MsgPopup,
    pub reset: ResetPopup,
    pub commit: TextInputComponent,
    pub help: HelpPopup,
    pub current_commands: Vec<CommandInfo>,
    pub tab: usize,
    pub revlog: Revlog,
    pub stashing_tab: StashingTab,
    pub queue: Queue,
    pub pending_flags: NeedsUpdate,
    pub selected_path: Option<(String, bool)>,
    pub repo_path: String,
}

impl App {
    pub open spec fn wf(self) -> bool {
        &&& self.revlog.wf()
        &&& self.commit.wf()
        &&& self.tab < 2
    }

    pub fn new(repo_path: &str) -> (r: App)
        ensures
            r.wf(),
            !r.do_quit,
            r.queue@.len() == 0,
            r.pending_flags == NeedsUpdate::spec_empty(),
            r.tab == 1,
            r.stashing_tab.visible,
            !r.revlog.visible,
            r.repo_path@ == repo_path@,
    {
        let mut stashing_tab = StashingTab::new();
        stashing_tab.show();
        App {
            do_quit: false,
            msg: MsgPopup::new(),
            reset: ResetPopup::new(),
            commit: TextInputComponent::new("commit", "type a commit message.."),
            help: HelpPopup::new(),
            current_commands: Vec::new(),
            tab: 1,
            revlog: Revlog::new(),
            stashing_tab,
            queue: Queue::new(),
            pending_flags: NeedsUpdate::empty(),
            selected_path: None,
            repo_path: <String as vstd::string::StringExecFns>::from_str(repo_path),
        }
    }

    pub fn is_quit(&self) -> (r: bool)
        ensures
            r == self.do_quit,
    {
        self.do_quit
    }

    pub fn any_work_pending(&self) -> (r: bool)
        ensures
            r == self.revlog.git_log.pending(),
    {
        self.revlog.any_work_pending()
    }

    /// Record what the status view has selected, so stage and unstage
    /// intents know their file.
    pub fn set_selected_path(&mut self, sel: Option<(String, bool)>)
        ensures
            final(self).selected_path == sel,
            *final(self) == (App { selected_path: sel, ..*old(self) }),
    {
        self.selected_path = sel;
    }

    /// Perform one queued intent against the controller's own state and
    /// name the repository work it asks for.
    fn process_internal_event(&mut self, ev: InternalEvent, tasks: &mut Vec<Task>) -> (flags:
        NeedsUpdate)
        requires
            old(self).wf(),
        ensures
            final(self).wf(),
            flags == spec_event_flags(ev),
            task_views(final(tasks)@) == task_views(old(tasks)@) + spec_event_tasks(
                ev,
                spec_sel(old(self).selected_path),
            ),
            (final(self).msg.visible, final(self).msg.msg@) == spec_msg_after(
                seq![ev],
                (old(self).msg.visible, old(self).msg.msg@),
            ),
            (final(self).reset.visible, final(self).reset.item) == spec_reset_after(
                seq![ev],
                (old(self).reset.visible, old(self).reset.item),
            ),
            final(self).commit.shown() == spec_commit_shown_after(
                seq![ev],
                old(self).commit.shown(),
            ),
            final(self).commit.text() == old(self).commit.text(),
            final(self).commit.cursor() == old(self).commit.cursor(),
            final(self).commit.title_text() == old(self).commit.title_text(),
            final(self).commit.default_text() == old(self).commit.default_text(),
            final(self).queue@ == old(self).queue@,
            final(self).revlog == old(self).revlog,
            final(self).stashing_tab == old(self).stashing_tab,
            final(self).help == old(self).help,
            final(self).do_quit == old(self).do_quit,
            final(self).tab == old(self).tab,
            final(self).selected_path == old(self).selected_path,
            final(self).current_commands == old(self).current_commands,
            final(self).pending_flags == old(self).pending_flags,
            final(self).repo_path == old(self).repo_path,
    {
        let ghost pre_tasks = tasks@;
        let ghost ev0 = ev;
        let flags: NeedsUpdate = match ev {
            InternalEvent::ResetItem(reset_item) => {
                if reset_item.is_folder {
                    tasks.push(Task::ResetFolder { path: reset_item.path });
                } else {
                    tasks.push(Task::ResetFile { path: reset_item.path });
                }
                NeedsUpdate::empty()
            },
            InternalEvent::ConfirmResetItem(reset_item) => {
                self.reset.open_for_path(reset_item);
                NeedsUpdate::commands()
            },
            InternalEvent::AddHunk(hash) => {
                match &self.selected_path {
                    Some(p) => {
                        let path = p.0.clone();
                        if p.1 {
                            tasks.push(Task::UnstageHunk { path, hash });
                        } else {
                            tasks.push(Task::StageHunk { path, hash });
                        }
                    },
                    None => {},
                }
                NeedsUpdate::empty()
            },
            InternalEvent::ShowMsg(msg) => {
                self.msg.show_msg(msg.as_str());
                NeedsUpdate::all()
            },
            InternalEvent::Update(u) => u,
            InternalEvent::OpenCommit => {
                self.commit.show();
                NeedsUpdate::empty()
            },
        };
        proof {
            assert(task_views(tasks@) =~~= task_views(pre_tasks) + spec_event_tasks(
                ev0,
                spec_sel(self.selected_path),
            ));
            lemma_one_intent_folds(
                ev0,
                (old(self).msg.visible, old(self).msg.msg@),
                (old(self).reset.visible, old(self).reset.item),
                old(self).commit.shown(),
            );
        }
        flags
    }

    /// Drain the internal action queue completely, in arrival order, and
    /// clear it.  The repository work and the dirty bits that come out are
    /// a function of the queued intents and the state before the drain
    /// alone: an intent never observes the repository effect of an earlier
    /// intent of the same cycle, and nothing enqueued while draining is
    /// processed in this pass.
    pub fn process_queue(&mut self, tasks: &mut Vec<Task>) -> (flags: NeedsUpdate)
        requires
            old(self).wf(),
        ensures
            final(self).wf(),
            final(self).queue@.len() == 0,
            flags == spec_queue_flags(old(self).queue@),
            task_views(final(tasks)@) == task_views(old(tasks)@) + spec_queue_tasks(
                old(self).queue@,
                spec_sel(old(self).selected_path),
            ),
            (final(self).msg.visible, final(self).msg.msg@) == spec_msg_after(
                old(self).queue@,
                (old(self).msg.visible, old(self).msg.msg@),
            ),
            (final(self).reset.visible, final(self).reset.item) == spec_reset_after(
                old(self).queue@,
                (old(self).reset.visible, old(self).reset.item),
            ),
            final(self).commit.shown() == spec_commit_shown_after(
                old(self).queue@,
                old(self).commit.shown(),
            ),
            final(self).commit.text() == old(self).commit.text(),
            final(self).commit.cursor() == old(self).commit.cursor(),
            final(self).commit.title_text() == old(self).commit.title_text(),
            final(self).commit.default_text() == old(self).commit.default_text(),
            final(self).revlog == old(self).revlog,
            final(self).stashing_tab == old(self).stashing_tab,
            final(self).help == old(self).help,
            final(self).do_quit == old(self).do_quit,
            final(self).tab == old(self).tab,
            final(self).selected_path == old(self).selected_path,
            final(self).current_commands == old(self).current_commands,
            final(self).pending_flags == old(self).pending_flags,
            final(self).repo_path == old(self).repo_path,
    {
        let ghost q0 = self.queue@;
        let ghost t0 = tasks@;
        let ghost sel = spec_sel(self.selected_path);
        let mut flags = NeedsUpdate::empty();
        while self.queue.len() > 0
            invariant
                self.wf(),
                spec_queue_tasks(q0, sel) == task_views(tasks@).skip(t0.len() as int)
                    + spec_queue_tasks(self.queue@, sel),
                task_views(tasks@).subrange(0, t0.len() as int) == task_views(t0),
                task_views(tasks@).len() >= t0.len(),
                spec_queue_flags(q0) == flags.spec_union(spec_queue_flags(self.queue@)),
                sel == spec_sel(self.selected_path),
                spec_msg_after(q0, (old(self).msg.visible, old(self).msg.msg@))
                    == spec_msg_after(self.queue@, (self.msg.visible, self.msg.msg@)),
                spec_reset_after(q0, (old(self).reset.visible, old(self).reset.item))
                    == spec_reset_after(self.queue@, (self.reset.visible, self.reset.item)),
                spec_commit_shown_after(q0, old(self).commit.shown())
                    == spec_commit_shown_after(self.queue@, self.commit.shown()),
                self.commit.text() == old(self).commit.text(),
                self.commit.cursor() == old(self).commit.cursor(),
                self.commit.title_text() == old(self).commit.title_text(),
                self.commit.default_text() == old(self).commit.default_text(),
                self.revlog == old(self).revlog,
                self.stashing_tab == old(self).stashing_tab,
                self.help == old(self).help,
                self.do_quit == old(self).do_quit,
                self.tab == old(self).tab,
                self.selected_path == old(self).selected_path,
                self.current_commands == old(self).current_commands,
                self.pending_flags == old(self).pending_flags,
                self.repo_path == old(self).repo_path,
            decreases self.queue@.len(),
        {
            let ghost q_pre = self.queue@;
            let ghost t_pre = tasks@;
            let ghost m_pre = (self.msg.visible, self.msg.msg@);
            let ghost r_pre = (self.reset.visible, self.reset.item);
            let ghost c_pre = self.commit.shown();
            let e = self.queue.pop_front().unwrap();
            let ghost ev = e;
            let f = self.process_internal_event(e, tasks);
            flags.insert(f);
            proof {
                lemma_one_intent_folds(ev, m_pre, r_pre, c_pre);
                assert(spec_msg_after(q_pre, m_pre) == spec_msg_after(
                    self.queue@,
                    (self.msg.visible, self.msg.msg@),
                ));
                assert(spec_reset_after(q_pre, r_pre) == spec_reset_after(
                    self.queue@,
                    (self.reset.visible, self.reset.item),
                ));
                assert(spec_commit_shown_after(q_pre, c_pre) == spec_commit_shown_after(
                    self.queue@,
                    self.commit.shown(),
                ));
                assert(spec_queue_tasks(q_pre, sel) == spec_event_tasks(ev, sel)
                    + spec_queue_tasks(self.queue@, sel));
                assert(task_views(tasks@) =~~= task_views(t_pre) + spec_event_tasks(ev, sel));
                assert(task_views(tasks@).skip(t0.len() as int) =~~= task_views(t_pre).skip(
                    t0.len() as int,
                ) + spec_event_tasks(ev, sel));
                assert(spec_queue_tasks(q0, sel) =~~= task_views(tasks@).skip(t0.len() as int)
                    + spec_queue_tasks(self.queue@, sel));
                assert(task_views(tasks@).subrange(0, t0.len() as int) =~~= task_views(
                    t_pre,
                ).subrange(0, t0.len() as int));
                assert(spec_queue_flags(q_pre) == spec_event_flags(ev).spec_union(
                    spec_queue_flags(self.queue@),
                ));
                assert(spec_queue_flags(q0) == flags.spec_union(
                    spec_queue_flags(self.queue@),
                ));
            }
        }
        self.queue.clear();
        proof {
            assert(spec_queue_tasks(self.queue@, sel) =~~= Seq::<TaskView>::empty());
            assert(task_views(tasks@) =~~= task_views(t0) + task_views(tasks@).skip(
                t0.len() as int,
            ));
        }
        flags
    }

    pub open spec fn spec_any_popup_visible(self) -> bool {
        self.commit.shown() || self.help.visible || self.reset.visible || self.msg.visible
    }

    pub fn any_popup_visible(&self) -> (r: bool)
        ensures
            r == self.spec_any_popup_visible(),
    {
        self.commit.is_visible() || self.help.is_visible() || self.reset.is_visible()
            || self.msg.is_visible()
    }

    /// The two commands the controller itself contributes: tab toggling,
    /// help-only, and quitting.  Both step back while a popup is open.
    pub open spec fn spec_global_cmds(self) -> Seq<(Seq<char>, bool, bool, int, bool)> {
        seq![
            ("toggle tabs [tab]"@, true, !self.spec_any_popup_visible(), 0int, true),
            ("quit [ctrl+c]"@, true, !self.spec_any_popup_visible(), 100int, false),
        ]
    }

    /// The command listing one enumeration yields, as name, enabled and
    /// available per entry.  Components are asked in priority order —
    /// popups before tabs — and without `force_all` the enumeration stops
    /// after the first component that blocks: a visible modal component
    /// hides every lower-priority component's commands from the default
    /// listing.  With `force_all` every component is listed.
    pub open spec fn spec_commands(self, force_all: bool) -> Seq<(Seq<char>, bool, bool, int, bool)> {
        let c1 = seq![("close msg [enter]"@, true, self.msg.visible, 0int, false)];
        if !force_all && self.msg.visible {
            c1 + self.spec_global_cmds()
        } else {
            let c2 = c1 + seq![("confirm reset [enter]"@, true, self.reset.visible, 0int, false)];
            if !force_all && self.reset.visible {
                c2 + self.spec_global_cmds()
            } else {
                let c3 = c2 + seq![("close popup [esc]"@, true, self.commit.shown(), 1int, false)];
                if !force_all && self.commit.shown() {
                    c3 + self.spec_global_cmds()
                } else {
                    let c4 = c3 + seq![("close help [esc]"@, true, self.help.visible, 0int, false)];
                    if !force_all && self.help.visible {
                        c4 + self.spec_global_cmds()
                    } else {
                        let c5 = c4 + seq![
                            (
                                "scroll [up/down]"@,
                                self.revlog.visible,
                                self.revlog.visible || force_all,
                                0int,
                                false,
                            ),
                        ];
                        if !force_all && self.revlog.visible {
                            c5 + self.spec_global_cmds()
                        } else {
                            let c6 = c5 + seq![
                                (
                                    "stashes [navigate]"@,
                                    self.stashing_tab.visible,
                                    self.stashing_tab.visible || force_all,
                                    0int,
                                    false,
                                ),
                            ];
                            c6 + self.spec_global_cmds()
                        }
                    }
                }
            }
        }
    }

    /// Enumerate the commands available right now, in priority order.
    pub fn commands(&self, force_all: bool) -> (r: Vec<CommandInfo>)
        ensures
            cmd_views(r@) == self.spec_commands(force_all),
    {
        let mut res: Vec<CommandInfo> = Vec::new();
        let mut done = false;
        let b = self.msg.commands(&mut res, force_all);
        if !matches!(b, CommandBlocking::PassingOn) && !force_all {
            done = true;
        }
        if !done {
            let b = self.reset.commands(&mut res, force_all);
            if !matches!(b, CommandBlocking::PassingOn) && !force_all {
                done = true;
            }
        }
        if !done {
            let b = self.commit.commands(&mut res, force_all);
            if !matches!(b, CommandBlocking::PassingOn) && !force_all {
                done = true;
            }
        }
        if !done {
            let b = self.help.commands(&mut res, force_all);
            if !matches!(b, CommandBlocking::PassingOn) && !force_all {
                done = true;
            }
        }
        if !done {
            let b = self.revlog.commands(&mut res, force_all);
            if !matches!(b, CommandBlocking::PassingOn) && !force_all {
                done = true;
            }
        }
        if !done {
            let _ = self.stashing_tab.commands(&mut res, force_all);
        }
        let any_popup = self.any_popup_visible();
        res.push(CommandInfo::new("toggle tabs [tab]", true, !any_popup).hidden());
        res.push(CommandInfo::new("quit [ctrl+c]", true, !any_popup).order(100));
        proof {
            assert(cmd_views(res@) =~~= self.spec_commands(force_all));
        }
        res
    }
}

impl App {
    /// Rebuild both command listings: the full one for the help popup and
    /// the current one for the quick bar, ordered by weight.
    pub fn update_commands(&mut self)
        ensures
            cmd_views(final(self).help.cmds@) == old(self).spec_commands(true),
            cmd_views(final(self).current_commands@).to_multiset() == old(self).spec_commands(false).to_multiset(),
            forall|i: int, j: int|
                0 <= i < j < final(self).current_commands@.len() ==> final(self).current_commands@[i].order <= final(self).current_commands@[j].order,
            final(self).help.visible == old(self).help.visible,
            final(self).msg == old(self).msg,
            final(self).reset == old(self).reset,
            final(self).commit == old(self).commit,
            final(self).revlog == old(self).revlog,
            final(self).stashing_tab == old(self).stashing_tab,
            final(self).queue@ == old(self).queue@,
            final(self).do_quit == old(self).do_quit,
            final(self).tab == old(self).tab,
            final(self).selected_path == old(self).selected_path,
            final(self).pending_flags == old(self).pending_flags,
            final(self).repo_path == old(self).repo_path,
    {
        let full = self.commands(true);
        self.help.set_cmds(full);
        let current = self.commands(false);
        let ghost pre = current@;
        let sorted = sort_by_order(current);
        self.current_commands = sorted;
        proof {
            assert(cmd_views(pre) == old(self).spec_commands(false));
        }
    }

    /// Rotate the visible tab, hiding the one that was shown.  Showing the
    /// log tab for the first time starts the background walk; the task
    /// names the walk generation to run.
    pub fn toggle_tabs(&mut self, tasks: &mut Vec<Task>)
        requires
            old(self).wf(),
            old(self).revlog.git_log.generation() < u64::MAX,
        ensures
            final(self).wf(),
            final(self).tab == (old(self).tab + 1) % 2,
            task_views(final(tasks)@) == task_views(old(tasks)@) + (if (old(self).tab + 1) % 2
                == 0 && !old(self).revlog.first_open_done {
                seq![
                    TaskView::StartWalk {
                        generation: ((old(self).revlog.git_log.generation() + 1) as u64),
                    },
                ]
            } else {
                Seq::empty()
            }),
            (old(self).tab + 1) % 2 == 0 ==> {
                &&& final(self).revlog.visible
                &&& final(self).revlog.first_open_done
                &&& (old(self).revlog.first_open_done ==> final(self).revlog == (Revlog {
                    visible: true,
                    ..old(self).revlog
                }))
                &&& (!old(self).revlog.first_open_done ==> final(self).revlog == (Revlog {
                    visible: true,
                    first_open_done: true,
                    git_log: final(self).revlog.git_log,
                    ..old(self).revlog
                }) && final(self).revlog.git_log.pending() && final(self).revlog.git_log.commits().len() == 0 && final(self).revlog.git_log.generation()
                    == old(self).revlog.git_log.generation() + 1)
                &&& final(self).stashing_tab == (StashingTab {
                    visible: false,
                    ..old(self).stashing_tab
                })
            },
            (old(self).tab + 1) % 2 == 1 ==> final(self).revlog == (Revlog {
                visible: false,
                ..old(self).revlog
            }) && final(self).stashing_tab == (StashingTab {
                visible: true,
                ..old(self).stashing_tab
            }),
            final(self).msg == old(self).msg,
            final(self).reset == old(self).reset,
            final(self).commit == old(self).commit,
            final(self).help == old(self).help,
            final(self).current_commands == old(self).current_commands,
            final(self).selected_path == old(self).selected_path,
            final(self).repo_path == old(self).repo_path,
            final(self).queue@ == old(self).queue@,
            final(self).pending_flags == old(self).pending_flags,
            final(self).do_quit == old(self).do_quit,
    {
        let new_tab = (self.tab + 1) % 2;
        if new_tab == 0 {
            self.stashing_tab.set_hidden();
            let g = self.revlog.show();
            if let Some(generation) = g {
                tasks.push(Task::StartWalk { generation });
            }
        } else {
            self.revlog.set_hidden();
            self.stashing_tab.show();
        }
        self.tab = new_tab;
    }

    /// Hand one input event to the component tree, popups before tabs; the
    /// first component that consumes it stops the dispatch.  The returned
    /// request is what a dispatched log-tab move asks to fetch.
    fn event_pump(&mut self, ev: &InputEvent, now_millis: u64) -> (r: (bool, UpdateRequest))
        requires
            old(self).wf(),
        ensures
            final(self).wf(),
            spec_dispatch_outcome(*old(self), *ev, now_millis, *final(self), r.0, r.1),
            final(self).do_quit == old(self).do_quit,
            final(self).tab == old(self).tab,
            final(self).selected_path == old(self).selected_path,
            final(self).pending_flags == old(self).pending_flags,
            final(self).repo_path == old(self).repo_path,
            final(self).stashing_tab == old(self).stashing_tab,
            final(self).current_commands == old(self).current_commands,
    {
        let empty_req = UpdateRequest { commits: None, tags_wanted: false };
        if self.msg.event(ev) {
            proof {
                assert(self.queue@ =~= spec_cycle_queue(*old(self), *ev));
            }
            return (true, empty_req);
        }
        let reset_consumed = self.reset.event(ev, &mut self.queue);
        proof {
            assert(self.queue@ =~= spec_cycle_queue(*old(self), *ev));
        }
        if reset_consumed {
            return (true, empty_req);
        }
        if self.commit.event(ev) {
            return (true, empty_req);
        }
        if self.help.event(ev) {
            return (true, empty_req);
        }
        let (consumed, req) = self.revlog.event(ev, now_millis);
        (consumed, req)
    }

    /// Run one input cycle: quit check, component dispatch, the global
    /// tab-switch key, then a full drain of the action queue.  The dirty
    /// bits the cycle raises are accumulated; `finish_cycle` consumes them
    /// once the embedder has performed the returned repository work and
    /// reported how it went.
    pub fn event(&mut self, ev: InputEvent, now_millis: u64, tasks: &mut Vec<Task>)
        requires
            old(self).wf(),
            old(self).revlog.git_log.generation() < u64::MAX,
        ensures
            final(self).wf(),
            final(self).pending_flags.spec_contains(old(self).pending_flags),
            (ev matches InputEvent::Key(k) && crate::input::is_exit_key(k)) ==> *final(self)
                == (App { do_quit: true, ..*old(self) }) && final(tasks)@ == old(tasks)@,
            !(ev matches InputEvent::Key(k) && crate::input::is_exit_key(k)) ==> {
                let pre = *old(self);
                let post = *final(self);
                let consumed = spec_cycle_consumed(pre, ev);
                let toggled = spec_cycle_toggles(pre, ev);
                let drained = spec_cycle_queue(pre, ev);
                &&& post.queue@.len() == 0
                &&& post.do_quit == pre.do_quit
                &&& post.selected_path == pre.selected_path
                &&& post.repo_path == pre.repo_path
                &&& post.current_commands == pre.current_commands
                &&& post.help.cmds == pre.help.cmds
                &&& post.tab == if toggled {
                    ((pre.tab + 1) % 2) as int
                } else {
                    pre.tab as int
                }
                &&& post.pending_flags == pre.pending_flags.spec_union(
                    if consumed || toggled {
                        NeedsUpdate { all: false, diff: false, commands: true }
                    } else {
                        NeedsUpdate::spec_empty()
                    },
                ).spec_union(spec_queue_flags(drained))
                &&& task_views(final(tasks)@) == task_views(old(tasks)@) + (if spec_revlog_dispatched(pre, ev) {
                    spec_revlog_fetch_tasks(
                        spec_after_nav(pre.revlog, nav_scroll(ev->Key_0.code)->0, now_millis),
                        pre.revlog.tags.entries_view().len() == 0,
                    )
                } else {
                    Seq::empty()
                }) + (if toggled && (pre.tab + 1) % 2 == 0 && !pre.revlog.first_open_done {
                    seq![
                        TaskView::StartWalk {
                            generation: ((pre.revlog.git_log.generation() + 1) as u64),
                        },
                    ]
                } else {
                    Seq::empty()
                }) + spec_queue_tasks(drained, spec_sel(pre.selected_path))
                &&& (post.msg.visible, post.msg.msg@) == spec_msg_after(
                    drained,
                    if pre.msg.spec_consumes(ev) {
                        (false, pre.msg.msg@)
                    } else {
                        (pre.msg.visible, pre.msg.msg@)
                    },
                )
                &&& (post.reset.visible, post.reset.item) == spec_reset_after(
                    drained,
                    if spec_reset_dispatched(pre, ev) {
                        (
                            false,
                            if ev matches InputEvent::Key(k) && k.code is Enter {
                                None
                            } else {
                                pre.reset.item
                            },
                        )
                    } else {
                        (pre.reset.visible, pre.reset.item)
                    },
                )
                &&& post.commit.shown() == spec_commit_shown_after(
                    drained,
                    if spec_commit_dispatched(pre, ev) {
                        TextInputComponent::spec_shown_after(pre.commit, ev)
                    } else {
                        pre.commit.shown()
                    },
                )
                &&& (post.commit.text(), post.commit.cursor()) == (if spec_commit_dispatched(
                    pre,
                    ev,
                ) {
                    TextInputComponent::spec_text_cursor_after(pre.commit, ev)
                } else {
                    (pre.commit.text(), pre.commit.cursor())
                })
                &&& post.commit.title_text() == pre.commit.title_text()
                &&& post.commit.default_text() == pre.commit.default_text()
                &&& post.help.visible == (pre.help.visible && !spec_help_dispatched(pre, ev))
                &&& (spec_revlog_dispatched(pre, ev) ==> post.revlog == spec_after_nav(
                    pre.revlog,
                    nav_scroll(ev->Key_0.code)->0,
                    now_millis,
                ) && post.stashing_tab == pre.stashing_tab)
                &&& (toggled && (pre.tab + 1) % 2 == 0 ==> {
                    &&& post.revlog.visible
                    &&& post.revlog.first_open_done
                    &&& (pre.revlog.first_open_done ==> post.revlog == (Revlog {
                        visible: true,
                        ..pre.revlog
                    }))
                    &&& (!pre.revlog.first_open_done ==> post.revlog == (Revlog {
                        visible: true,
                        first_open_done: true,
                        git_log: post.revlog.git_log,
                        ..pre.revlog
                    }) && post.revlog.git_log.pending() && post.revlog.git_log.commits().len()
                        == 0 && post.revlog.git_log.generation() == pre.revlog.git_log.generation()
                        + 1)
                    &&& post.stashing_tab == (StashingTab {
                        visible: false,
                        ..pre.stashing_tab
                    })
                })
                &&& (toggled && (pre.tab + 1) % 2 == 1 ==> post.revlog == (Revlog {
                    visible: false,
                    ..pre.revlog
                }) && post.stashing_tab == (StashingTab {
                    visible: true,
                    ..pre.stashing_tab
                }))
                &&& (!spec_revlog_dispatched(pre, ev) && !toggled ==> post.revlog == pre.revlog
                    && post.stashing_tab == pre.stashing_tab)
            },
    {
        if let InputEvent::Key(k) = ev {
            if exit_key_matches(&k) {
                self.do_quit = true;
                return ;
            }
        }
        let ghost t0 = tasks@;
        let mut flags = NeedsUpdate::empty();
        let (consumed, req) = self.event_pump(&ev, now_millis);
        let ghost req0 = req;
        let ghost mid = *self;
        push_requests(tasks, req);
        if consumed {
            flags.insert(NeedsUpdate::commands());
        } else if let InputEvent::Key(k) = ev {
            if tab_toggle_key_matches(&k) {
                self.toggle_tabs(tasks);
                flags.insert(NeedsUpdate::commands());
            }
        }
        let ghost t_toggle = tasks@;
        let qflags = self.process_queue(tasks);
        flags.insert(qflags);
        self.pending_flags.insert(flags);
        proof {
            if spec_revlog_dispatched(*old(self), ev) {
                lemma_request_tasks(
                    mid.revlog,
                    old(self).revlog.tags.entries_view().len() == 0,
                    req0,
                );
            } else {
                assert(spec_request_tasks(req0) =~~= Seq::<TaskView>::empty());
            }
            assert(task_views(tasks@) =~~= task_views(t0) + (if spec_revlog_dispatched(
                *old(self),
                ev,
            ) {
                spec_revlog_fetch_tasks(
                    spec_after_nav(old(self).revlog, nav_scroll(ev->Key_0.code)->0, now_millis),
                    old(self).revlog.tags.entries_view().len() == 0,
                )
            } else {
                Seq::<TaskView>::empty()
            }) + (if spec_cycle_toggles(*old(self), ev) && (old(self).tab + 1) % 2 == 0 && !old(self).revlog.first_open_done {
                seq![
                    TaskView::StartWalk {
                        generation: ((old(self).revlog.git_log.generation() + 1) as u64),
                    },
                ]
            } else {
                Seq::<TaskView>::empty()
            }) + spec_queue_tasks(spec_cycle_queue(*old(self), ev), spec_sel(old(self).selected_path)));
        }
    }

    /// Note how one repository mutation went.  Success schedules the full
    /// refresh; failure leaves the state untouched and raises nothing —
    /// the quiet non-refresh is the chosen failure signal.
    pub fn note_mutation_result(&mut self, ok: bool)
        ensures
            ok ==> final(self).pending_flags == old(self).pending_flags.spec_union(
                NeedsUpdate::spec_all(),
            ),
            !ok ==> *final(self) == *old(self),
            *final(self) == (App { pending_flags: final(self).pending_flags, ..*old(self) }),
    {
        if ok {
            self.pending_flags.insert(NeedsUpdate::all());
        }
    }

    /// The log tab's part of a refresh: track the discovered count, keep
    /// the selection in range, and name what must be fetched.
    pub open spec fn spec_log_refreshed(pre: App, post: App) -> bool {
        &&& post.revlog.selection_max == if pre.revlog.git_log.commits().len() > 0 {
            pre.revlog.git_log.commits().len() - 1
        } else {
            0
        }
        &&& post.revlog.selection == if pre.revlog.selection <= post.revlog.selection_max {
            pre.revlog.selection as int
        } else {
            post.revlog.selection_max as int
        }
        &&& post.revlog == (Revlog {
            selection: post.revlog.selection,
            selection_max: post.revlog.selection_max,
            ..pre.revlog
        })
    }

    /// The full data refresh the `ALL` bit asks for: re-list the stashes
    /// and re-check the log cache's staleness.
    pub fn update(&mut self, tasks: &mut Vec<Task>)
        requires
            old(self).wf(),
        ensures
            final(self).wf(),
            App::spec_log_refreshed(*old(self), *final(self)),
            task_views(final(tasks)@) == task_views(old(tasks)@) + spec_revlog_fetch_tasks(
                final(self).revlog,
                old(self).revlog.tags.entries_view().len() == 0,
            ),
            final(self).stashing_tab.visible == old(self).stashing_tab.visible,
            final(self).msg == old(self).msg,
            final(self).reset == old(self).reset,
            final(self).commit == old(self).commit,
            final(self).help == old(self).help,
            final(self).current_commands == old(self).current_commands,
            final(self).tab == old(self).tab,
            final(self).selected_path == old(self).selected_path,
            final(self).repo_path == old(self).repo_path,
            final(self).queue@ == old(self).queue@,
            final(self).pending_flags == old(self).pending_flags,
            final(self).do_quit == old(self).do_quit,
    {
        let repo_path = self.repo_path.clone();
        self.stashing_tab.update(repo_path.as_str());
        let req = self.revlog.update();
        let ghost req0 = req;
        let ghost mid = *self;
        push_requests(tasks, req);
        proof {
            lemma_request_tasks(
                mid.revlog,
                old(self).revlog.tags.entries_view().len() == 0,
                req0,
            );
        }
    }

    /// React to one background notification: finished log work refreshes
    /// the log tab, finished status work refreshes the command listings.
    pub fn update_git(&mut self, ev: AsyncNotification, tasks: &mut Vec<Task>)
        requires
            old(self).wf(),
        ensures
            final(self).wf(),
            final(self).queue@ == old(self).queue@,
            final(self).do_quit == old(self).do_quit,
            ev is Diff ==> *final(self) == *old(self) && final(tasks)@ == old(tasks)@,
            ev is Log ==> App::spec_log_refreshed(*old(self), *final(self)) && task_views(
                final(tasks)@,
            ) == task_views(old(tasks)@) + spec_revlog_fetch_tasks(
                final(self).revlog,
                old(self).revlog.tags.entries_view().len() == 0,
            ) && *final(self) == (App { revlog: final(self).revlog, ..*old(self) }),
            ev is Status ==> {
                &&& cmd_views(final(self).help.cmds@) == old(self).spec_commands(true)
                &&& cmd_views(final(self).current_commands@).to_multiset() == old(self).spec_commands(false).to_multiset()
                &&& forall|i: int, j: int|
                    0 <= i < j < final(self).current_commands@.len() ==> final(self).current_commands@[i].order <= final(self).current_commands@[j].order
                &&& final(tasks)@ == old(tasks)@
                &&& final(self).msg == old(self).msg
                &&& final(self).reset == old(self).reset
                &&& final(self).commit == old(self).commit
                &&& final(self).help.visible == old(self).help.visible
                &&& final(self).revlog == old(self).revlog
                &&& final(self).stashing_tab == old(self).stashing_tab
                &&& final(self).tab == old(self).tab
                &&& final(self).selected_path == old(self).selected_path
                &&& final(self).repo_path == old(self).repo_path
                &&& final(self).pending_flags == old(self).pending_flags
            },
    {
        match ev {
            AsyncNotification::Diff => {},
            AsyncNotification::Log => {
                let req = self.revlog.update();
                let ghost req0 = req;
                let ghost mid = *self;
                push_requests(tasks, req);
                proof {
                    lemma_request_tasks(
                        mid.revlog,
                        old(self).revlog.tags.entries_view().len() == 0,
                        req0,
                    );
                }
            },
            AsyncNotification::Status => self.update_commands(),
        }
    }

    /// Take in one progress report of the background walk: publish the
    /// discovered ids — a report from a superseded generation changes
    /// nothing — and let the log tab react as to any log notification.
    pub fn walk_progress(
        &mut self,
        generation: u64,
        ids: Vec<String>,
        done: bool,
        tasks: &mut Vec<Task>,
    )
        requires
            old(self).wf(),
        ensures
            final(self).wf(),
            generation == old(self).revlog.git_log.generation() ==> final(self).revlog.git_log.commits() == old(self).revlog.git_log.commits()
                + views_of_strings(ids@),
            generation != old(self).revlog.git_log.generation() ==> final(self).revlog.git_log.commits() == old(self).revlog.git_log.commits(),
            final(self).revlog.git_log.commits().len() >= old(self).revlog.git_log.commits().len(),
            final(self).revlog.git_log.generation() == old(self).revlog.git_log.generation(),
            generation == old(self).revlog.git_log.generation() && done ==> !final(self).revlog.git_log.pending(),
            final(self).revlog.selection_max == if final(self).revlog.git_log.commits().len()
                > 0 {
                final(self).revlog.git_log.commits().len() - 1
            } else {
                0
            },
            final(self).revlog.selection == if old(self).revlog.selection <= final(self).revlog.selection_max {
                old(self).revlog.selection as int
            } else {
                final(self).revlog.selection_max as int
            },
            final(self).revlog == (Revlog {
                selection: final(self).revlog.selection,
                selection_max: final(self).revlog.selection_max,
                git_log: final(self).revlog.git_log,
                ..old(self).revlog
            }),
            task_views(final(tasks)@) == task_views(old(tasks)@) + spec_revlog_fetch_tasks(
                final(self).revlog,
                old(self).revlog.tags.entries_view().len() == 0,
            ),
            *final(self) == (App { revlog: final(self).revlog, ..*old(self) }),
    {
        self.revlog.git_log.publish(generation, ids);
        if done {
            self.revlog.git_log.finish(generation);
        }
        let req = self.revlog.update();
        let ghost req0 = req;
        let ghost mid = *self;
        push_requests(tasks, req);
        proof {
            lemma_request_tasks(
                mid.revlog,
                old(self).revlog.tags.entries_view().len() == 0,
                req0,
            );
        }
    }

    /// Consume the accumulated dirty bits, exactly once: `ALL` triggers
    /// the full data refresh, `DIFF` asks for a diff refresh, `COMMANDS`
    /// rebuilds the command listings.
    pub fn finish_cycle(&mut self, tasks: &mut Vec<Task>)
        requires
            old(self).wf(),
        ensures
            final(self).wf(),
            final(self).pending_flags == NeedsUpdate::spec_empty(),
            final(self).do_quit == old(self).do_quit,
            old(self).pending_flags == NeedsUpdate::spec_empty() ==> *final(self) == *old(self)
                && final(tasks)@ == old(tasks)@,
            task_views(final(tasks)@) == task_views(old(tasks)@) + (if old(self).pending_flags.spec_contains(NeedsUpdate::spec_all()) {
                spec_revlog_fetch_tasks(
                    final(self).revlog,
                    old(self).revlog.tags.entries_view().len() == 0,
                )
            } else {
                Seq::empty()
            }) + (if old(self).pending_flags.diff {
                seq![TaskView::RefreshDiff]
            } else {
                Seq::empty()
            }),
            old(self).pending_flags.spec_contains(NeedsUpdate::spec_all())
                ==> App::spec_log_refreshed(*old(self), *final(self)) && final(self).stashing_tab.visible == old(self).stashing_tab.visible,
            !old(self).pending_flags.spec_contains(NeedsUpdate::spec_all()) ==> final(self).revlog == old(self).revlog && final(self).stashing_tab == old(self).stashing_tab,
            old(self).pending_flags.commands ==> {
                &&& cmd_views(final(self).help.cmds@) == old(self).spec_commands(true)
                &&& cmd_views(final(self).current_commands@).to_multiset() == old(self).spec_commands(false).to_multiset()
                &&& forall|i: int, j: int|
                    0 <= i < j < final(self).current_commands@.len() ==> final(self).current_commands@[i].order <= final(self).current_commands@[j].order
            },
            !old(self).pending_flags.commands ==> final(self).help.cmds == old(self).help.cmds
                && final(self).current_commands == old(self).current_commands,
            final(self).msg == old(self).msg,
            final(self).reset == old(self).reset,
            final(self).commit == old(self).commit,
            final(self).help.visible == old(self).help.visible,
            final(self).tab == old(self).tab,
            final(self).selected_path == old(self).selected_path,
            final(self).repo_path == old(self).repo_path,
            final(self).queue@ == old(self).queue@,
    {
        let flags = self.pending_flags;
        self.pending_flags = NeedsUpdate::empty();
        let ghost t0 = tasks@;
        if flags.contains(NeedsUpdate::all()) {
            self.update(tasks);
        }
        let ghost t_all = tasks@;
        if flags.contains(NeedsUpdate::diff()) {
            tasks.push(Task::RefreshDiff);
        }
        let ghost mid = *self;
        if flags.contains(NeedsUpdate::commands()) {
            self.update_commands();
            proof {
                assert(mid.spec_commands(true) =~~= old(self).spec_commands(true));
                assert(mid.spec_commands(false) =~~= old(self).spec_commands(false));
            }
        }
        proof {
            assert(task_views(tasks@) =~~= task_views(t0) + (if old(self).pending_flags.spec_contains(NeedsUpdate::spec_all()) {
                spec_revlog_fetch_tasks(
                    self.revlog,
                    old(self).revlog.tags.entries_view().len() == 0,
                )
            } else {
                Seq::<TaskView>::empty()
            }) + (if old(self).pending_flags.diff {
                seq![TaskView::RefreshDiff]
            } else {
                Seq::<TaskView>::empty()
            }));
        }
    }
}

/// Turn the log tab's fetch decisions into tasks for the embedder.
pub fn push_requests(tasks: &mut Vec<Task>, req: UpdateRequest)
    ensures
        task_views(final(tasks)@) == task_views(old(tasks)@) + spec_request_tasks(req),
{
    let ghost req0 = req;
    let UpdateRequest { commits, tags_wanted } = req;
    let ghost t0 = tasks@;
    if let Some(c) = commits {
        tasks.push(Task::FetchCommits { start: c.start, ids: c.ids, width: c.width });
    }
    if tags_wanted {
        tasks.push(Task::FetchTags);
    }
    proof {
        assert(task_views(tasks@) =~~= task_views(t0) + spec_request_tasks(req0));
    }
}

/// Order a command listing by its ordering weight, keeping exactly the
/// same commands.
fn sort_by_order(v: Vec<CommandInfo>) -> (r: Vec<CommandInfo>)
    ensures
        r@.len() == v@.len(),
        cmd_views(r@).to_multiset() == cmd_views(v@).to_multiset(),
        forall|i: int, j: int| 0 <= i < j < r@.len() ==> r@[i].order <= r@[j].order,
{
    broadcast use vstd::seq_lib::group_to_multiset_ensures;

    let mut src = v;
    let mut out: Vec<CommandInfo> = Vec::new();
    proof {
        assert(cmd_views(out@).to_multiset().add(cmd_views(src@).to_multiset())
            =~= cmd_views(v@).to_multiset());
    }
    while src.len() > 0
        invariant
            out@.len() + src@.len() == v@.len(),
            cmd_views(out@).to_multiset().add(cmd_views(src@).to_multiset()) == cmd_views(
                v@,
            ).to_multiset(),
            forall|i: int, j: int| 0 <= i < j < out@.len() ==> out@[i].order <= out@[j].order,
            forall|i: int, j: int|
                0 <= i < out@.len() && 0 <= j < src@.len() ==> out@[i].order <= src@[j].order,
        decreases src@.len(),
    {
        broadcast use vstd::seq_lib::group_to_multiset_ensures;

        let mut min_i: usize = 0;
        let mut k: usize = 1;
        while k < src.len()
            invariant
                src@.len() > 0,
                min_i < k <= src@.len(),
                forall|t: int| 0 <= t < k ==> src@[min_i as int].order <= src@[t].order,
            decreases src@.len() - k,
        {
            if src[k].order < src[min_i].order {
                min_i = k;
            }
            k += 1;
        }
        let ghost src_pre = src@;
        let ghost out_pre = out@;
        let e = src.remove(min_i);
        out.push(e);
        proof {
            src_pre.remove_ensures(min_i as int);
            assert(cmd_views(out@) =~~= cmd_views(out_pre).push((e.name@, e.enabled, e.available, e.order as int, e.hidden)));
            assert(cmd_views(src@) =~~= cmd_views(src_pre).remove(min_i as int));
            cmd_views(src_pre).remove_ensures(min_i as int);
            assert(cmd_views(src_pre)[min_i as int] == (e.name@, e.enabled, e.available, e.order as int, e.hidden));
            assert(cmd_views(out@).to_multiset().add(cmd_views(src@).to_multiset())
                =~= cmd_views(v@).to_multiset());
            assert forall|j: int| 0 <= j < src@.len() implies e.order <= src@[j].order by {
                if j < min_i {
                    assert(src@[j] == src_pre[j]);
                } else {
                    assert(src@[j] == src_pre[j + 1]);
                }
            }
        }
    }
    out
}

/// The mathematical shadow of a command listing: name, enabled, available.
pub open spec fn cmd_views(cs: Seq<CommandInfo>) -> Seq<(Seq<char>, bool, bool, int, bool)> {
    cs.map_values(|c: CommandInfo| (c.name@, c.enabled, c.available, c.order as int, c.hidden))
}

/// Law: a visible modal component suppresses lower-priority commands from
/// the default listing but not from the full one.  With the message popup
/// open, the default listing holds nothing but the popup's own command and
/// the two global ones, while the full listing still carries every
/// component's entry — the log tab's scroll command among them, available
/// as always under `force_all`.
pub proof fn lemma_command_blocking(app: App)
    requires
        app.msg.visible,
    ensures
        app.spec_commands(false) == seq![("close msg [enter]"@, true, true, 0int, false)]
            + app.spec_global_cmds(),
        app.spec_commands(true).len() == 8,
        app.spec_commands(true)[4] == ("scroll [up/down]"@, app.revlog.visible, true, 0int, false),
        app.spec_commands(true)[5] == (
            "stashes [navigate]"@,
            app.stashing_tab.visible,
            true,
            0int,
            false,
        ),
{
    assert(app.spec_commands(false) =~~= seq![("close msg [enter]"@, true, true, 0int, false)]
        + app.spec_global_cmds());
    assert(app.spec_commands(true)[4] == ("scroll [up/down]"@, app.revlog.visible, true, 0int, false));
    assert(app.spec_commands(true)[5] == (
        "stashes [navigate]"@,
        app.stashing_tab.visible,
        true,
        0int,
        false,
    ));
}

} // verus!
