use showcore::hub::Hub;
use showcore::session::{SessionEvent, StreamSession};
use showcore::show::ShowCore;
use showcore::types::{
    DbLoadSong, FormSong, LineComp, LoadSong, SkipLineRequest, SongRequest,
};
use showcore::ShowError;

fn line(text: &str) -> LineComp {
    LineComp::from_text(text.to_string())
}

fn test_song() -> (LoadSong, Vec<LineComp>) {
    let lines = vec![line("Hello"), line("---"), line("World")];
    let snap = LoadSong {
        id: 1,
        title: "Test".to_string(),
        lines: lines.clone(),
    };
    (snap, lines)
}

/// Watches all three feeds of a core through fresh sessions.
struct Watcher {
    text: StreamSession,
    index: StreamSession,
    load: StreamSession,
}

impl Watcher {
    fn attach(core: &mut ShowCore) -> Watcher {
        Watcher {
            text: StreamSession::open(&mut core.line_ch),
            index: StreamSession::open(&mut core.index_ch),
            load: StreamSession::open(&mut core.load_song_ch),
        }
    }

    fn next_text(&self, core: &mut ShowCore) -> Option<String> {
        match self.text.poll(&mut core.line_ch) {
            SessionEvent::Message(m) => Some(m),
            SessionEvent::Idle => None,
        }
    }

    fn next_index(&self, core: &mut ShowCore) -> Option<Option<u32>> {
        match self.index.poll(&mut core.index_ch) {
            SessionEvent::Message(m) => Some(m),
            SessionEvent::Idle => None,
        }
    }

    fn next_load(&self, core: &mut ShowCore) -> Option<LoadSong> {
        match self.load.poll(&mut core.load_song_ch) {
            SessionEvent::Message(m) => Some(m),
            SessionEvent::Idle => None,
        }
    }
}

#[test]
fn fresh_core_is_empty() {
    let mut core = ShowCore::new();
    assert_eq!(core.active_song_id(), None);
    assert_eq!(core.line_index(), 0);
    let w = Watcher::attach(&mut core);
    assert!(w.next_text(&mut core).is_none());
    assert!(w.next_index(&mut core).is_none());
    assert!(w.next_load(&mut core).is_none());
}

#[test]
fn activate_missing_song_changes_nothing() {
    let mut core = ShowCore::new();
    let w = Watcher::attach(&mut core);
    let r = core.set_active_song(SongRequest { id: 7 }, None);
    assert_eq!(r, Err(ShowError::NotFound));
    assert_eq!(core.active_song_id(), None);
    assert_eq!(core.line_index(), 0);
    assert!(w.next_text(&mut core).is_none());
    assert!(w.next_index(&mut core).is_none());
    assert!(w.next_load(&mut core).is_none());
}

#[test]
fn activate_missing_song_keeps_previous_selection() {
    let mut core = ShowCore::new();
    let (snap, lines) = test_song();
    core.set_active_song(SongRequest { id: 1 }, Some(snap)).unwrap();
    core.next_line(SkipLineRequest { skips: 1 }, &lines).unwrap();
    let r = core.set_active_song(SongRequest { id: 99 }, None);
    assert_eq!(r, Err(ShowError::NotFound));
    assert_eq!(core.active_song_id(), Some(1));
    assert_eq!(core.line_index(), 1);
}

#[test]
fn activate_publishes_snapshot() {
    let mut core = ShowCore::new();
    let w = Watcher::attach(&mut core);
    let (snap, _) = test_song();
    let r = core.set_active_song(SongRequest { id: 1 }, Some(snap));
    assert_eq!(r, Ok(()));
    assert_eq!(core.active_song_id(), Some(1));
    assert_eq!(core.line_index(), 0);
    let got = w.next_load(&mut core).expect("snapshot published");
    assert_eq!(got.id, 1);
    assert_eq!(got.title, "Test");
    assert_eq!(got.lines.len(), 3);
    assert_eq!(got.lines[0].line, "Hello");
    assert!(w.next_text(&mut core).is_none());
    assert!(w.next_index(&mut core).is_none());
}

#[test]
fn advance_without_song_is_refused() {
    let mut core = ShowCore::new();
    let w = Watcher::attach(&mut core);
    let r = core.next_line(SkipLineRequest { skips: 1 }, &Vec::new());
    assert_eq!(r, Err(ShowError::NoActiveSong));
    assert_eq!(core.line_index(), 0);
    assert!(w.next_text(&mut core).is_none());
    assert!(w.next_index(&mut core).is_none());
}

#[test]
fn end_to_end_navigation() {
    let mut core = ShowCore::new();
    let w = Watcher::attach(&mut core);
    let (snap, lines) = test_song();

    assert_eq!(core.set_active_song(SongRequest { id: 1 }, Some(snap)), Ok(()));
    assert_eq!(core.line_index(), 0);
    assert!(w.next_load(&mut core).is_some());

    assert_eq!(core.next_line(SkipLineRequest { skips: 1 }, &lines), Ok(()));
    assert_eq!(core.line_index(), 1);
    assert_eq!(w.next_text(&mut core).unwrap(), "Hello");
    assert_eq!(w.next_index(&mut core).unwrap(), Some(1));

    assert_eq!(core.next_line(SkipLineRequest { skips: 1 }, &lines), Ok(()));
    assert_eq!(core.line_index(), 2);
    assert_eq!(w.next_text(&mut core).unwrap(), "");
    assert_eq!(w.next_index(&mut core).unwrap(), Some(2));

    assert_eq!(core.next_line(SkipLineRequest { skips: 1 }, &lines), Ok(()));
    assert_eq!(core.line_index(), 3);
    assert_eq!(w.next_text(&mut core).unwrap(), "World");
    assert_eq!(w.next_index(&mut core).unwrap(), Some(3));

    // Clamped at the end: the index stays and the publications repeat.
    assert_eq!(core.next_line(SkipLineRequest { skips: 1 }, &lines), Ok(()));
    assert_eq!(core.line_index(), 3);
    assert_eq!(w.next_text(&mut core).unwrap(), "World");
    assert_eq!(w.next_index(&mut core).unwrap(), Some(3));

    // A large backward skip saturates at 0 and publishes the blank pair.
    assert_eq!(core.next_line(SkipLineRequest { skips: -10 }, &lines), Ok(()));
    assert_eq!(core.line_index(), 0);
    assert_eq!(w.next_text(&mut core).unwrap(), "");
    assert_eq!(w.next_index(&mut core).unwrap(), None);
}

#[test]
fn sentinel_line_publishes_blank_text_with_true_index() {
    let mut core = ShowCore::new();
    let lines = vec![line("---")];
    let snap = LoadSong { id: 2, title: "Blank".to_string(), lines: lines.clone() };
    core.set_active_song(SongRequest { id: 2 }, Some(snap)).unwrap();
    let w = Watcher::attach(&mut core);
    core.next_line(SkipLineRequest { skips: 1 }, &lines).unwrap();
    assert_eq!(w.next_text(&mut core).unwrap(), "");
    assert_eq!(w.next_index(&mut core).unwrap(), Some(1));
}

#[test]
fn reset_is_idempotent() {
    let mut core = ShowCore::new();
    let (snap, lines) = test_song();
    core.set_active_song(SongRequest { id: 1 }, Some(snap)).unwrap();
    core.next_line(SkipLineRequest { skips: 2 }, &lines).unwrap();
    let w = Watcher::attach(&mut core);

    core.reset_line();
    assert_eq!(core.active_song_id(), Some(1));
    assert_eq!(core.line_index(), 0);
    let first = (w.next_text(&mut core).unwrap(), w.next_index(&mut core).unwrap());

    core.reset_line();
    assert_eq!(core.active_song_id(), Some(1));
    assert_eq!(core.line_index(), 0);
    let second = (w.next_text(&mut core).unwrap(), w.next_index(&mut core).unwrap());

    assert_eq!(first, ("".to_string(), None));
    assert_eq!(second, first);
}

#[test]
fn subscriber_sees_no_history() {
    let mut hub: Hub<u32> = Hub::new(16);
    hub.publish(1);
    hub.publish(2);
    hub.publish(3);
    let id = hub.subscribe();
    assert_eq!(hub.try_recv(id), None);
    hub.publish(4);
    assert_eq!(hub.try_recv(id), Some(4));
    assert_eq!(hub.try_recv(id), None);
}

#[test]
fn slow_subscriber_drops_oldest_and_resumes() {
    let mut hub: Hub<u32> = Hub::new(2);
    let id = hub.subscribe();
    hub.publish(1);
    hub.publish(2);
    hub.publish(3);
    hub.publish(4);
    assert_eq!(hub.lost(id), 2);
    assert_eq!(hub.try_recv(id), Some(3));
    assert_eq!(hub.try_recv(id), Some(4));
    assert_eq!(hub.try_recv(id), None);
    assert_eq!(hub.lost(id), 0);
}

#[test]
fn subscribers_read_independently() {
    let mut hub: Hub<u32> = Hub::new(16);
    let a = hub.subscribe();
    hub.publish(10);
    let b = hub.subscribe();
    hub.publish(20);
    assert_eq!(hub.try_recv(a), Some(10));
    assert_eq!(hub.try_recv(b), Some(20));
    assert_eq!(hub.try_recv(a), Some(20));
    assert_eq!(hub.try_recv(a), None);
    assert_eq!(hub.try_recv(b), None);
}

#[test]
fn publish_with_no_subscribers_succeeds() {
    let mut hub: Hub<String> = Hub::new(16);
    hub.publish("dropped".to_string());
    assert_eq!(hub.message_count(), 1);
    assert_eq!(hub.subscriber_count(), 0);
}

#[test]
fn session_reports_idle_then_message() {
    let mut hub: Hub<u32> = Hub::new(16);
    let s = StreamSession::open(&mut hub);
    assert!(matches!(s.poll(&mut hub), SessionEvent::Idle));
    hub.publish(5);
    match s.poll(&mut hub) {
        SessionEvent::Message(m) => assert_eq!(m, 5),
        SessionEvent::Idle => panic!("expected a message"),
    }
}

#[test]
fn assemble_builds_snapshot_from_row_and_lines() {
    let song = DbLoadSong { id: 9, name: "Ninth".to_string() };
    let snap = LoadSong::assemble(song, vec![line("a"), line("b")]);
    assert_eq!(snap.id, 9);
    assert_eq!(snap.title, "Ninth");
    assert_eq!(snap.lines.len(), 2);
    assert_eq!(snap.lines[1].line, "b");
}

#[test]
fn from_lines_builds_untitled_snapshot() {
    let snap = LoadSong::from_lines(vec!["x".to_string(), "y".to_string()]);
    assert_eq!(snap.id, 0);
    assert_eq!(snap.title, "Undefined");
    assert_eq!(snap.lines.len(), 2);
    assert_eq!(snap.lines[0].line, "x");
    assert_eq!(snap.lines[0].id, 0);
}

#[test]
fn form_song_splits_and_trims_rows() {
    let form = FormSong {
        name: "New".to_string(),
        lines: "  Hello \n---\n\n World".to_string(),
    };
    let comps = form.line_comps();
    let texts: Vec<&str> = comps.iter().map(|c| c.line.as_str()).collect();
    assert_eq!(texts, vec!["Hello", "---", "", "World"]);
}

#[test]
fn split_lines_keeps_empty_rows() {
    assert_eq!(showcore::text::split_lines(""), vec!["".to_string()]);
    assert_eq!(
        showcore::text::split_lines("a\n\nb\n"),
        vec!["a".to_string(), "".to_string(), "b".to_string(), "".to_string()]
    );
}

#[test]
fn is_sentinel_matches_only_the_marker() {
    assert!(showcore::text::is_sentinel("---"));
    assert!(!showcore::text::is_sentinel("--"));
    assert!(!showcore::text::is_sentinel("----"));
    assert!(!showcore::text::is_sentinel(""));
    assert!(!showcore::text::is_sentinel("-x-"));
}

#[test]
fn advance_index_clamps_both_ways() {
    assert_eq!(showcore::nav::advance_index(0, 5, 3), 3);
    assert_eq!(showcore::nav::advance_index(2, -5, 3), 0);
    assert_eq!(showcore::nav::advance_index(1, 1, 3), 2);
    assert_eq!(showcore::nav::advance_index(0, 0, 0), 0);
    assert_eq!(showcore::nav::advance_index(3, i32::MIN, 3), 0);
    assert_eq!(showcore::nav::advance_index(0, i32::MAX, 4), 4);
}

#[test]
fn line_comp_carries_hints_and_clones_exactly() {
    let mut l = line("Chorus");
    l.id = 42;
    l.keep_n_last = 3;
    l.color = Some(showcore::types::Color { color: "#ff00ff".to_string() });
    let c = l.clone();
    assert_eq!(c.id, 42);
    assert_eq!(c.line, "Chorus");
    assert_eq!(c.keep_n_last, 3);
    assert_eq!(c.color.as_ref().unwrap().color, "#ff00ff");
}

#[test]
fn snapshot_clone_preserves_all_lines() {
    let (snap, _) = test_song();
    let copy = snap.clone();
    assert_eq!(copy.id, snap.id);
    assert_eq!(copy.title, snap.title);
    assert_eq!(copy.lines.len(), snap.lines.len());
    for (a, b) in copy.lines.iter().zip(snap.lines.iter()) {
        assert_eq!(a.line, b.line);
    }
}
