//! Active show state and its control operations: the single source of
//! truth for which song and which line are live, and the publications each
//! transition pushes onto the three broadcast topics.
//!
//! The line store is an external collaborator: callers fetch a song's
//! existence and lines before calling in, so no lock is ever held across
//! store I/O, and hand the operations plain values.

use vstd::prelude::*;
use crate::hub::{Hub, HubModel};
use crate::nav::{advance_index, clamp_index};
use crate::text::{displayed_text, is_sentinel, sentinel_text};
use crate::types::{LineComp, LineCompView, LoadSong, LoadSongView, SkipLineRequest, SongRequest};
use crate::ShowError;

verus! {

/// Bound on each topic's per-subscriber window.
pub const CHANNEL_CAPACITY: usize = 16;

/// The live pointer: the selected song, if any, and the 1-based line
/// index, 0 meaning no line is displayed (pre-show or reset state).
pub struct ActiveSong {
    pub id: Option<i32>,
    pub line: u32,
}

/// The text topic's model with each message read as its character
/// sequence.
pub open spec fn text_model(h: HubModel<String>) -> HubModel<Seq<char>> {
    HubModel { log: h.log.map_values(|s: String| s@), cursors: h.cursors, capacity: h.capacity }
}

/// The snapshot topic's model with each message read as its view.
pub open spec fn load_model(h: HubModel<LoadSong>) -> HubModel<LoadSongView> {
    HubModel { log: h.log.map_values(|l: LoadSong| l@), cursors: h.cursors, capacity: h.capacity }
}

/// Mathematical state of the whole core: the live pointer and the three
/// topics, messages read mathematically.
#[verifier::ext_equal]
pub ghost struct ShowView {
    pub song: Option<i32>,
    pub line: u32,
    pub texts: HubModel<Seq<char>>,
    pub indices: HubModel<Option<u32>>,
    pub loads: HubModel<LoadSongView>,
}

impl ShowView {
    /// Validity of the three topics.
    pub open spec fn wf(self) -> bool {
        &&& self.texts.wf()
        &&& self.indices.wf()
        &&& self.loads.wf()
    }
}

/// The state as the process starts: no song, no line, nothing published,
/// no subscribers.
pub open spec fn init_view() -> ShowView {
    ShowView {
        song: None,
        line: 0,
        texts: HubModel {
            log: Seq::empty(),
            cursors: Seq::empty(),
            capacity: CHANNEL_CAPACITY as nat,
        },
        indices: HubModel {
            log: Seq::empty(),
            cursors: Seq::empty(),
            capacity: CHANNEL_CAPACITY as nat,
        },
        loads: HubModel {
            log: Seq::empty(),
            cursors: Seq::empty(),
            capacity: CHANNEL_CAPACITY as nat,
        },
    }
}

/// Effect of a reset: the line pointer returns to 0, the song selection
/// stays, and the blank pair goes out — empty text and an absent index.
pub open spec fn reset_v(v: ShowView) -> ShowView {
    ShowView {
        song: v.song,
        line: 0,
        texts: v.texts.publish_m(Seq::empty()),
        indices: v.indices.publish_m(None),
        loads: v.loads,
    }
}

/// Effect of activating an existing song: the pointer moves to it at line
/// 0 and its snapshot goes out on the song-loaded topic; the text and
/// index topics are untouched.
pub open spec fn activate_v(v: ShowView, id: i32, snap: LoadSongView) -> ShowView {
    ShowView {
        song: Some(id),
        line: 0,
        texts: v.texts,
        indices: v.indices,
        loads: v.loads.publish_m(snap),
    }
}

/// Effect of an advance over the given lines: the pointer moves to the
/// clamped index; at 0 the blank pair goes out, otherwise the index goes
/// out as it is and the text goes out through the blank-marker filter.
pub open spec fn advance_v(v: ShowView, d: i32, lines: Seq<LineCompView>) -> ShowView
    recommends
        lines.len() <= u32::MAX,
{
    let ni = clamp_index(v.line as int, d as int, lines.len() as int);
    if ni == 0 {
        ShowView {
            song: v.song,
            line: 0,
            texts: v.texts.publish_m(Seq::empty()),
            indices: v.indices.publish_m(None),
            loads: v.loads,
        }
    } else {
        ShowView {
            song: v.song,
            line: ni as u32,
            texts: v.texts.publish_m(displayed_text(lines[ni - 1].line)),
            indices: v.indices.publish_m(Some(ni as u32)),
            loads: v.loads,
        }
    }
}

/// The core: the live pointer and one broadcast topic for each feed —
/// current line text, current line index, and whole-song snapshots.
pub struct ShowCore {
    pub active_song: ActiveSong,
    pub line_ch: Hub<String>,
    pub index_ch: Hub<Option<u32>>,
    pub load_song_ch: Hub<LoadSong>,
}

impl View for ShowCore {
    type V = ShowView;

    open spec fn view(&self) -> ShowView {
        ShowView {
            song: self.active_song.id,
            line: self.active_song.line,
            texts: text_model(self.line_ch@),
            indices: self.index_ch@,
            loads: load_model(self.load_song_ch@),
        }
    }
}

impl ShowCore {
    /// A fresh core: no song, line 0, three empty topics.
    pub fn new() -> (c: ShowCore)
        ensures
            c@ == init_view(),
            c@.wf(),
    {
        let c = ShowCore {
            active_song: ActiveSong { id: None, line: 0 },
            line_ch: Hub::new(CHANNEL_CAPACITY),
            index_ch: Hub::new(CHANNEL_CAPACITY),
            load_song_ch: Hub::new(CHANNEL_CAPACITY),
        };
        proof {
            assert(c@ =~= init_view());
        }
        c
    }

    /// The selected song's identifier, for status reporting.
    pub fn active_song_id(&self) -> (r: Option<i32>)
        ensures
            r == self@.song,
    {
        self.active_song.id
    }

    /// The live line index: 0 before the show and after a reset, otherwise
    /// the 1-based position of the displayed line.
    pub fn line_index(&self) -> (r: u32)
        ensures
            r == self@.line,
    {
        self.active_song.line
    }

    /// Activate a song.  The caller has already asked the line store for
    /// the song named by `req` and hands in the built snapshot, or `None`
    /// when the store does not know the song.  On `None` nothing changes
    /// and nothing is published; otherwise the pointer moves to the song
    /// at line 0 and the snapshot goes out on the song-loaded topic.
    pub fn set_active_song(&mut self, req: SongRequest, fetched: Option<LoadSong>) -> (r: Result<
        (),
        ShowError,
    >)
        ensures
            fetched.is_none() ==> r == Err::<(), ShowError>(ShowError::NotFound) && final(self)@
                == old(self)@,
            fetched.is_some() ==> r == Ok::<(), ShowError>(()) && final(self)@ == activate_v(
                old(self)@,
                req.id,
                fetched.unwrap()@,
            ),
            old(self)@.wf() ==> final(self)@.wf(),
    {
        match fetched {
            None => Err(ShowError::NotFound),
            Some(snap) => {
                self.active_song.id = Some(req.id);
                self.active_song.line = 0;
                let ghost snap_view = snap@;
                self.load_song_ch.publish(snap);
                proof {
                    assert(self@ =~~= activate_v(old(self)@, req.id, snap_view));
                }
                Ok(())
            },
        }
    }

    /// Move the line pointer by `req.skips` over the song's current
    /// `lines`, clamping into `[0, lines.len()]`.  The caller has already
    /// fetched the active song's lines from the store.  With no active
    /// song nothing changes, nothing is published, and the call reports
    /// `NoActiveSong`; otherwise the clamped index and the filtered text
    /// go out on their topics.
    pub fn next_line(&mut self, req: SkipLineRequest, lines: &Vec<LineComp>) -> (r: Result<
        (),
        ShowError,
    >)
        requires
            lines@.len() <= u32::MAX,
        ensures
            old(self)@.song.is_none() ==> r == Err::<(), ShowError>(ShowError::NoActiveSong)
                && final(self)@ == old(self)@,
            old(self)@.song.is_some() ==> r == Ok::<(), ShowError>(()) && final(self)@
                == advance_v(old(self)@, req.skips, lines@.map_values(|l: LineComp| l@)),
            old(self)@.song.is_some() ==> final(self)@.line <= lines@.len(),
            old(self)@.wf() ==> final(self)@.wf(),
    {
        if self.active_song.id.is_none() {
            return Err(ShowError::NoActiveSong);
        }
        let n: u32 = lines.len() as u32;
        let ni = advance_index(self.active_song.line, req.skips, n);
        self.active_song.line = ni;
        if ni == 0 {
            self.line_ch.publish(String::new());
            self.index_ch.publish(None);
        } else {
            self.index_ch.publish(Some(ni));
            let l = &lines[(ni - 1) as usize];
            if is_sentinel(l.line.as_str()) {
                self.line_ch.publish(String::new());
            } else {
                self.line_ch.publish(l.line.clone());
            }
        }
        proof {
            assert(self@ =~~= advance_v(old(self)@, req.skips, lines@.map_values(|l: LineComp| l@)));
        }
        Ok(())
    }

    /// Unconditionally return the line pointer to 0, leaving the song
    /// selection alone, and publish the blank pair: empty text and an
    /// absent index.
    pub fn reset_line(&mut self)
        ensures
            final(self)@ == reset_v(old(self)@),
            old(self)@.wf() ==> final(self)@.wf(),
    {
        self.line_ch.publish(String::new());
        self.index_ch.publish(None);
        self.active_song.line = 0;
        proof {
            assert(self@ =~~= reset_v(old(self)@));
        }
    }
}

/// Reset is idempotent: a second reset publishes the very same pair —
/// empty text, absent index — as the first, and neither touches the song
/// selection or the snapshot topic.
pub proof fn lemma_reset_idempotent(v: ShowView)
    ensures
        reset_v(v).song == v.song,
        reset_v(reset_v(v)).song == v.song,
        reset_v(v).line == 0,
        reset_v(reset_v(v)).line == 0,
        reset_v(v).texts.log.last() == Seq::<char>::empty(),
        reset_v(reset_v(v)).texts.log.last() == Seq::<char>::empty(),
        reset_v(v).indices.log.last() == None::<u32>,
        reset_v(reset_v(v)).indices.log.last() == None::<u32>,
        reset_v(reset_v(v)).loads == v.loads,
{
}

/// A line holding the blank marker always publishes empty text, while its
/// true numeric position still goes out on the index topic.
pub proof fn lemma_sentinel_blank(v: ShowView, d: i32, lines: Seq<LineCompView>)
    requires
        lines.len() <= u32::MAX,
        1 <= clamp_index(v.line as int, d as int, lines.len() as int),
        lines[clamp_index(v.line as int, d as int, lines.len() as int) - 1].line
            == sentinel_text(),
    ensures
        advance_v(v, d, lines).texts.log.last() == Seq::<char>::empty(),
        advance_v(v, d, lines).indices.log.last() == Some(
            clamp_index(v.line as int, d as int, lines.len() as int) as u32,
        ),
{
}

} // verus!
