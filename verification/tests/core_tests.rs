use gitui::app::{App, Task};
use gitui::asynclog::AsyncLog;
use gitui::flags::NeedsUpdate;
use gitui::input::{InputEvent, KeyCode, KeyEvent};
use gitui::itembatch::{ItemBatch, LogEntry, SLICE_SIZE};
use gitui::queue::{InternalEvent, ResetItem};
use gitui::revlog::{calc_scroll_top, Revlog, RunKind};
use gitui::scroll::{ScrollSpeed, ScrollType};
use gitui::strutil::join_strings;
use gitui::tags::Tags;

fn entry(hash: &str, msg: &str) -> LogEntry {
    LogEntry {
        hash: hash.to_string(),
        time: String::from("now"),
        author: String::from("author"),
        msg: msg.to_string(),
    }
}

fn hash40(i: usize) -> String {
    format!("{:040x}", i)
}

fn key(code: KeyCode) -> InputEvent {
    InputEvent::Key(KeyEvent { code, ctrl: false })
}

#[test]
fn test_windowed_cache_refetch_after_set_items() {
    // a stale cache, then the fetch the policy issues for the selection,
    // then no staleness for that selection
    let mut batch = ItemBatch::empty();
    let selection: usize = 5;
    let selection_max: usize = 1000;
    assert!(batch.needs_data(selection, selection_max));

    let offset = selection.saturating_sub(SLICE_SIZE / 2);
    let len = SLICE_SIZE.min(selection_max + 1 - offset);
    let items: Vec<LogEntry> = (0..len).map(|i| entry(&hash40(offset + i), "m")).collect();
    batch.set_items(offset, items);

    assert!(!batch.needs_data(selection, selection_max));
}

#[test]
fn test_windowed_cache_edge_window_still_stale() {
    // a window that holds the selection as its last row without margin
    // below it stays stale for that selection
    let mut batch = ItemBatch::empty();
    let items: Vec<LogEntry> = (0..SLICE_SIZE).map(|i| entry(&hash40(i), "m")).collect();
    batch.set_items(0, items);
    assert!(batch.needs_data(SLICE_SIZE - 1, 100_000));
    assert!(!batch.needs_data(10, 100_000));
}

#[test]
fn test_cache_contiguity() {
    let mut batch = ItemBatch::empty();
    let items: Vec<LogEntry> = (0..3).map(|i| entry(&hash40(10 + i), "m")).collect();
    batch.set_items(10, items);

    assert_eq!(batch.len(), 3);
    assert!(batch.get_global(9).is_none());
    assert_eq!(batch.get_global(10).unwrap().hash, hash40(10));
    assert_eq!(batch.get_global(11).unwrap().hash, hash40(11));
    assert_eq!(batch.get_global(12).unwrap().hash, hash40(12));
    assert!(batch.get_global(13).is_none());
}

#[test]
fn test_scroll_speed_never_below_start() {
    // even a rapid first move from the fresh state lands on the start
    // speed: the clamp holds the speed inside [start, cap]
    let mut s = ScrollSpeed::new();
    s.update(0);
    assert_eq!(s.speed_milli, 100);
}

#[test]
fn test_scroll_speed_acceleration_and_reset() {
    let mut s = ScrollSpeed::new();
    // the first move after a long pause starts at the start speed
    s.update(1000);
    assert_eq!(s.speed_milli, 100);

    // fifty rapid moves accelerate strictly, here in thousandths with the
    // multiplier 21/20 applied and floored each step
    let mut now: u64 = 1000;
    let mut last = s.speed_milli;
    for _ in 0..50 {
        now += 10;
        s.update(now);
        assert!(s.speed_milli > last || s.speed_milli == 10_000);
        last = s.speed_milli;
    }
    assert_eq!(s.speed_milli, 1054);
    assert_eq!(s.step(), 1);

    // enough rapid moves reach the cap exactly and never pass it
    for _ in 0..200 {
        now += 10;
        s.update(now);
        assert!(s.speed_milli <= 10_000);
    }
    assert_eq!(s.speed_milli, 10_000);
    assert_eq!(s.step(), 10);

    // a pause longer than the threshold resets to the start speed
    now += 500;
    s.update(now);
    assert_eq!(s.speed_milli, 100);
}

fn revlog_with_commits(n: usize) -> Revlog {
    let mut r = Revlog::new();
    let ids: Vec<String> = (0..n).map(hash40).collect();
    let generation = r.git_log.current_generation();
    r.git_log.publish(generation, ids);
    let _ = r.update();
    r
}

#[test]
fn test_selection_clamp() {
    let mut r = revlog_with_commits(11);
    assert_eq!(r.selection_max, 10);

    // Down at the bottom stays put
    r.selection = 10;
    let _ = r.move_selection(ScrollType::Down, 1000);
    assert_eq!(r.selection, 10);

    // Up at the top stays put
    r.selection = 0;
    let _ = r.move_selection(ScrollType::Up, 5000);
    assert_eq!(r.selection, 0);

    // Home and End land exactly on the ends
    r.selection = 5;
    let _ = r.move_selection(ScrollType::End, 9000);
    assert_eq!(r.selection, 10);
    let _ = r.move_selection(ScrollType::Home, 13000);
    assert_eq!(r.selection, 0);
}

#[test]
fn test_revlog_navigation_keys() {
    let mut r = Revlog::new();
    let (consumed, _) = r.event(&key(KeyCode::Down), 1000);
    assert!(!consumed, "hidden tab consumes nothing");

    // the first show starts a walk; feed it five commits
    let g = r.show().unwrap();
    r.git_log.publish(g, (0..5).map(hash40).collect());
    let _ = r.update();

    let (consumed, _) = r.event(&key(KeyCode::Down), 5000);
    assert!(consumed);
    assert_eq!(r.selection, 1);
    let (consumed, _) = r.event(&key(KeyCode::End), 9000);
    assert!(consumed);
    assert_eq!(r.selection, 4);
}

#[test]
fn test_revlog_first_show_starts_walk_once() {
    let mut r = Revlog::new();
    let g = r.show();
    assert_eq!(g, Some(1));
    assert!(r.any_work_pending());
    r.set_hidden();
    assert_eq!(r.show(), None);
}

#[test]
fn test_async_log_generations() {
    let mut log = AsyncLog::new();
    let g = log.fetch();
    assert_eq!(g, 1);
    assert!(log.is_pending());

    log.publish(g, vec![hash40(0), hash40(1)]);
    assert_eq!(log.count(), 2);

    // a report from a superseded walk is a harmless no-op
    log.publish(0, vec![hash40(9)]);
    assert_eq!(log.count(), 2);
    log.finish(0);
    assert!(log.is_pending());

    log.finish(g);
    assert!(!log.is_pending());

    // a fresh fetch supersedes: the count resets, the generation moves on
    let g2 = log.fetch();
    assert_eq!(g2, 2);
    assert_eq!(log.count(), 0);

    log.publish(g2, vec![hash40(5), hash40(6), hash40(7)]);
    let slice = log.get_slice(1, 5);
    assert_eq!(slice, vec![hash40(6), hash40(7)]);
}

#[test]
fn test_tags_lookup() {
    let mut tags = Tags::new();
    assert!(tags.is_empty());
    tags.set_entries(vec![
        (hash40(1), vec![String::from("v1.0")]),
        (hash40(2), vec![String::from("a"), String::from("b")]),
    ]);
    assert!(!tags.is_empty());
    assert_eq!(tags.get(&hash40(1)).unwrap(), &vec![String::from("v1.0")]);
    assert_eq!(tags.get(&hash40(2)).unwrap().len(), 2);
    assert!(tags.get(&hash40(3)).is_none());
}

#[test]
fn test_join_strings() {
    assert_eq!(join_strings(&vec![], " "), "");
    assert_eq!(join_strings(&vec![String::from("a")], " "), "a");
    assert_eq!(
        join_strings(&vec![String::from("a"), String::from("bb"), String::from("c")], " "),
        "a bb c"
    );
}

#[test]
fn test_get_text_lines() {
    let mut r = revlog_with_commits(2);
    r.apply_commits(0, vec![entry(&hash40(0), "first"), entry(&hash40(1), "second")]);
    r.apply_tags(vec![(hash40(1), vec![String::from("v1")])]);
    r.selection = 1;

    let runs = r.get_text();
    assert_eq!(runs.len(), 20);
    // the first line: untagged, unselected
    assert_eq!(runs[0].text, hash40(0)[0..7].to_string());
    assert_eq!(runs[0].kind, RunKind::Hash);
    assert!(!runs[0].selected);
    assert_eq!(runs[6].text, "");
    assert_eq!(runs[8].text, "first");
    assert_eq!(runs[9].text, "\n");
    // the second line: tagged and selected
    assert_eq!(runs[10].text, hash40(1)[0..7].to_string());
    assert!(runs[10].selected);
    assert_eq!(runs[16].text, " v1");
    assert_eq!(runs[16].kind, RunKind::Tag);
    assert_eq!(runs[18].text, "second");
}

#[test]
fn test_calc_scroll_top() {
    assert_eq!(calc_scroll_top(0, 10, 5), 0);
    assert_eq!(calc_scroll_top(0, 10, 10), 1);
    assert_eq!(calc_scroll_top(5, 10, 3), 3);
    assert_eq!(calc_scroll_top(5, 0, 3), 5);
}

#[test]
fn test_page_navigation_follows_drawn_height() {
    let mut r = revlog_with_commits(100);
    r.resize(80, 12);
    assert_eq!(r.current_size, (78, 10));

    // one page is the drawn height less one row of overlap
    let _ = r.move_selection(ScrollType::PageDown, 1000);
    assert_eq!(r.selection, 9);
    let _ = r.move_selection(ScrollType::PageUp, 5000);
    assert_eq!(r.selection, 0);

    // the drawn window follows the selection
    r.selection = 50;
    r.update_scroll_top();
    assert_eq!(r.scroll_top, 41);
    r.update_scroll_top();
    assert_eq!(r.scroll_top, 41);
}

#[test]
fn test_flags_union() {
    let mut f = NeedsUpdate::empty();
    assert!(f.is_empty());
    f.insert(NeedsUpdate::diff());
    f.insert(NeedsUpdate::commands());
    assert!(f.contains(NeedsUpdate::diff()));
    assert!(f.contains(NeedsUpdate::commands()));
    assert!(!f.contains(NeedsUpdate::all()));
    f.insert(NeedsUpdate::all());
    assert!(f.contains(NeedsUpdate::all()));
}

#[test]
fn test_command_blocking() {
    let mut app = App::new(".");

    // no popup: the default listing carries the tab and global commands
    let default_cmds = app.commands(false);
    assert!(default_cmds.iter().any(|c| c.name == "stashes [navigate]"));

    // a visible modal popup suppresses lower-priority commands from the
    // default listing
    app.msg.show_msg("hello");
    let blocked = app.commands(false);
    assert_eq!(blocked.len(), 3);
    assert_eq!(blocked[0].name, "close msg [enter]");
    assert!(!blocked.iter().any(|c| c.name == "scroll [up/down]"));

    // but not from the full listing
    let full = app.commands(true);
    assert_eq!(full.len(), 8);
    assert!(full.iter().any(|c| c.name == "scroll [up/down]"));
    assert!(full.iter().any(|c| c.name == "stashes [navigate]"));
}

#[test]
fn test_queue_isolation() {
    let mut app = App::new(".");
    app.set_selected_path(Some((String::from("f.rs"), false)));

    // two intents of one cycle: the repository work and the flags that
    // come out are decided from the queue alone, in FIFO order, before
    // any effect is performed
    app.queue.push_back(InternalEvent::ResetItem(ResetItem {
        path: String::from("a.txt"),
        is_folder: false,
    }));
    app.queue.push_back(InternalEvent::AddHunk(7));
    app.queue.push_back(InternalEvent::Update(NeedsUpdate::diff()));

    let mut tasks: Vec<Task> = Vec::new();
    let flags = app.process_queue(&mut tasks);

    assert_eq!(app.queue.len(), 0);
    assert_eq!(tasks.len(), 2);
    assert!(matches!(&tasks[0], Task::ResetFile { path } if path == "a.txt"));
    assert!(matches!(&tasks[1], Task::StageHunk { path, hash: 7 } if path == "f.rs"));
    assert!(flags.contains(NeedsUpdate::diff()));
    assert!(!flags.contains(NeedsUpdate::all()));
}

#[test]
fn test_queue_show_msg_raises_all() {
    let mut app = App::new(".");
    app.queue.push_back(InternalEvent::ShowMsg(String::from("commit failed")));
    let mut tasks: Vec<Task> = Vec::new();
    let flags = app.process_queue(&mut tasks);
    assert!(flags.contains(NeedsUpdate::all()));
    assert!(app.msg.is_visible());
    assert_eq!(app.msg.msg, "commit failed");
    assert!(tasks.is_empty());
}

#[test]
fn test_mutation_failure_raises_nothing() {
    let mut app = App::new(".");
    app.note_mutation_result(false);
    assert!(app.pending_flags.is_empty());
    app.note_mutation_result(true);
    assert!(app.pending_flags.contains(NeedsUpdate::all()));
}

#[test]
fn test_exit_key() {
    let mut app = App::new(".");
    assert!(!app.is_quit());
    let mut tasks: Vec<Task> = Vec::new();
    app.event(InputEvent::Key(KeyEvent { code: KeyCode::Char('c'), ctrl: true }), 0, &mut tasks);
    assert!(app.is_quit());
}

#[test]
fn test_tab_toggle_starts_walk() {
    let mut app = App::new(".");
    assert_eq!(app.tab, 1);
    let mut tasks: Vec<Task> = Vec::new();
    app.event(key(KeyCode::Tab), 0, &mut tasks);
    assert_eq!(app.tab, 0);
    assert!(app.revlog.is_visible());
    assert!(!app.stashing_tab.is_visible());
    assert!(tasks.iter().any(|t| matches!(t, Task::StartWalk { generation: 1 })));

    // toggling back and forth does not start a second walk
    let mut tasks2: Vec<Task> = Vec::new();
    app.event(key(KeyCode::Tab), 0, &mut tasks2);
    app.event(key(KeyCode::Tab), 0, &mut tasks2);
    assert!(!tasks2.iter().any(|t| matches!(t, Task::StartWalk { .. })));
}

#[test]
fn test_reset_confirm_flow() {
    // the confirm key on the open reset popup enqueues the actual reset,
    // and the same cycle's drain turns it into the repository task
    let mut app = App::new(".");
    app.reset.open_for_path(ResetItem { path: String::from("a.txt"), is_folder: false });
    assert!(app.reset.is_visible());

    let mut tasks: Vec<Task> = Vec::new();
    app.event(key(KeyCode::Enter), 0, &mut tasks);

    assert!(!app.reset.is_visible());
    assert_eq!(app.queue.len(), 0);
    assert_eq!(tasks.len(), 1);
    assert!(matches!(&tasks[0], Task::ResetFile { path } if path == "a.txt"));
}

#[test]
fn test_finish_cycle_consumes_flags_once() {
    let mut app = App::new(".");
    app.pending_flags.insert(NeedsUpdate::diff());
    let mut tasks: Vec<Task> = Vec::new();
    app.finish_cycle(&mut tasks);
    assert!(tasks.iter().any(|t| matches!(t, Task::RefreshDiff)));
    assert!(app.pending_flags.is_empty());

    // the bits were consumed: a second pass does nothing
    let mut tasks2: Vec<Task> = Vec::new();
    app.finish_cycle(&mut tasks2);
    assert!(tasks2.is_empty());
}

#[test]
fn test_walk_to_fetch_round_trip() {
    let mut app = App::new(".");
    let mut tasks: Vec<Task> = Vec::new();
    app.event(key(KeyCode::Tab), 0, &mut tasks);
    assert!(tasks.iter().any(|t| matches!(t, Task::StartWalk { generation: 1 })));

    // the walk reports five commits; the controller asks for their rows
    // (and for the never-loaded tags)
    let ids: Vec<String> = (0..5).map(hash40).collect();
    let mut tasks2: Vec<Task> = Vec::new();
    app.walk_progress(1, ids, true, &mut tasks2);
    assert!(!app.any_work_pending());
    assert!(
        matches!(&tasks2[0], Task::FetchCommits { start: 0, ids, .. } if ids.len() == 5)
    );
    assert!(matches!(&tasks2[1], Task::FetchTags));

    // with the rows cached, nothing more is asked for this selection
    let entries: Vec<LogEntry> = (0..5).map(|i| entry(&hash40(i), "m")).collect();
    app.revlog.apply_commits(0, entries);
    app.revlog.apply_tags(vec![(hash40(0), vec![String::from("v1")])]);
    let req = app.revlog.update();
    assert!(req.commits.is_none());
    assert!(!req.tags_wanted);
}

#[test]
fn test_open_commit_event() {
    let mut app = App::new(".");
    app.queue.push_back(InternalEvent::OpenCommit);
    let mut tasks: Vec<Task> = Vec::new();
    let _ = app.process_queue(&mut tasks);
    assert!(app.commit.is_visible());
}
