//! Data carried through the show: lines with their display text, whole-song
//! snapshots, and the plain request records the transport layer hands in.
//!
//! The navigation and broadcast logic reads only the line text; staging
//! geometry stays in the transport layer's own representation and is
//! rejoined there through the stable line `id`.

use vstd::prelude::*;

verus! {

/// Colour tint attached to a line's rendering; carried through unchanged.
#[derive(Debug)]
pub struct Color {
    pub color: String,
}

impl View for Color {
    type V = Seq<char>;

    open spec fn view(&self) -> Seq<char> {
        self.color@
    }
}

impl Clone for Color {
    fn clone(&self) -> (res: Self)
        ensures
            res == *self,
    {
        Color { color: self.color.clone() }
    }
}

/// Mathematical image of a [`LineComp`].
pub ghost struct LineCompView {
    pub id: int,
    pub line: Seq<char>,
    pub keep_n_last: int,
    pub color: Option<Seq<char>>,
}

/// One line of a song: its stable identifier, display text, and the
/// rendering hints the core can hold as plain values.
#[derive(Debug)]
pub struct LineComp {
    pub id: i32,
    pub line: String,
    pub keep_n_last: i32,
    pub color: Option<Color>,
}

impl View for LineComp {
    type V = LineCompView;

    open spec fn view(&self) -> LineCompView {
        LineCompView {
            id: self.id as int,
            line: self.line@,
            keep_n_last: self.keep_n_last as int,
            color: match self.color {
                Some(c) => Some(c@),
                None => None,
            },
        }
    }
}

impl Clone for LineComp {
    fn clone(&self) -> (res: Self)
        ensures
            res == *self,
    {
        LineComp {
            id: self.id,
            line: self.line.clone(),
            keep_n_last: self.keep_n_last,
            color: match &self.color {
                Some(c) => Some(c.clone()),
                None => None,
            },
        }
    }
}

impl LineComp {
    /// A bare line holding only its text, as freshly split script lines
    /// start out: no identifier yet, no rendering hints.
    pub fn from_text(line: String) -> (r: LineComp)
        ensures
            r@ == (LineCompView { id: 0, line: line@, keep_n_last: 0, color: None }),
    {
        LineComp { id: 0, line, keep_n_last: 0, color: None }
    }
}

/// Mathematical image of a [`LoadSong`] snapshot.
pub ghost struct LoadSongView {
    pub id: int,
    pub title: Seq<char>,
    pub lines: Seq<LineCompView>,
}

/// Immutable whole-song snapshot: identifier, title and the full ordered
/// line list, produced once per activation and published as one value.
#[derive(Debug)]
pub struct LoadSong {
    pub id: i32,
    pub title: String,
    pub lines: Vec<LineComp>,
}

impl View for LoadSong {
    type V = LoadSongView;

    open spec fn view(&self) -> LoadSongView {
        LoadSongView {
            id: self.id as int,
            title: self.title@,
            lines: self.lines@.map_values(|l: LineComp| l@),
        }
    }
}

impl Clone for LoadSong {
    fn clone(&self) -> (res: Self)
        ensures
            res@ == self@,
    {
        let lines = self.lines.clone();
        proof {
            assert(lines@.map_values(|l: LineComp| l@) =~= self.lines@.map_values(
                |l: LineComp| l@,
            ));
        }
        LoadSong { id: self.id, title: self.title.clone(), lines }
    }
}

/// A song row as the line store returns it: identifier and title.
#[derive(Debug)]
pub struct DbLoadSong {
    pub id: i32,
    pub name: String,
}

/// A song listing entry: identifier and title, as shown in the catalogue.
#[derive(Debug)]
pub struct SongNames {
    pub id: i32,
    pub name: String,
}

/// Request naming a song by identifier.
#[derive(Clone, Copy, Debug, PartialEq, Eq, Structural)]
pub struct SongRequest {
    pub id: i32,
}

/// Request to move the line pointer by a signed number of steps.
#[derive(Clone, Copy, Debug, PartialEq, Eq, Structural)]
pub struct SkipLineRequest {
    pub skips: i32,
}

/// Request naming a single line by identifier, for the store's
/// edit and delete operations.
#[derive(Clone, Copy, Debug, PartialEq, Eq, Structural)]
pub struct DeleteLine {
    pub id: i32,
}

/// A song as submitted for creation: a title and the raw script text,
/// one line per newline-separated row.
#[derive(Debug)]
pub struct FormSong {
    pub name: String,
    pub lines: String,
}

/// Turn plain text rows into bare lines, one [`LineComp::from_text`] each,
/// in order.
pub fn lines_to_comps(rows: Vec<String>) -> (r: Vec<LineComp>)
    ensures
        r@.len() == rows@.len(),
        forall|i: int|
            0 <= i < r@.len() ==> r@[i]@ == (LineCompView {
                id: 0,
                line: rows@[i]@,
                keep_n_last: 0,
                color: None,
            }),
{
    let mut r: Vec<LineComp> = Vec::new();
    let mut idx: usize = 0;
    while idx < rows.len()
        invariant
            idx <= rows.len(),
            r@.len() == idx,
            forall|i: int|
                0 <= i < r@.len() ==> r@[i]@ == (LineCompView {
                    id: 0,
                    line: rows@[i]@,
                    keep_n_last: 0,
                    color: None,
                }),
        decreases rows.len() - idx,
    {
        r.push(LineComp::from_text(rows[idx].clone()));
        idx += 1;
    }
    r
}

impl LoadSong {
    /// An untitled snapshot holding the given rows as bare lines, as a
    /// script pasted in without a stored song yields it.
    pub fn from_lines(rows: Vec<String>) -> (r: LoadSong)
        ensures
            r@.id == 0,
            r@.title == "Undefined"@,
            r@.lines.len() == rows@.len(),
            forall|i: int|
                0 <= i < rows@.len() ==> r@.lines[i] == (LineCompView {
                    id: 0,
                    line: rows@[i]@,
                    keep_n_last: 0,
                    color: None,
                }),
    {
        let lines = lines_to_comps(rows);
        LoadSong { id: 0, title: "Undefined".to_owned(), lines }
    }

    /// Assemble a snapshot from a fetched song row and its converted lines.
    pub fn assemble(song: DbLoadSong, lines: Vec<LineComp>) -> (r: LoadSong)
        ensures
            r@.id == song.id as int,
            r@.title == song.name@,
            r@.lines == lines@.map_values(|l: LineComp| l@),
    {
        LoadSong { id: song.id, title: song.name, lines }
    }
}

} // verus!
