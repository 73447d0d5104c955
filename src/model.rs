//! A note as the table stores it, and the form in which replies show it.

use vstd::prelude::*;

verus! {

/// A moment as the database records it: whole seconds since the Unix epoch
/// and the nanoseconds past that second.
#[derive(Clone, Copy, Debug, PartialEq, Eq, Structural)]
pub struct Timestamp {
    pub secs: i64,
    pub nanos: u32,
}

/// A row of the notes table; the table stores the flag as a small integer,
/// and either timestamp may be missing from a row.
#[derive(Clone, Debug)]
pub struct NoteModel {
    pub id: String,
    pub title: String,
    pub content: String,
    pub is_published: i8,
    pub created_at: Option<Timestamp>,
    pub updated_at: Option<Timestamp>,
}

/// A note as replies show it.
#[derive(Clone, Debug)]
pub struct NoteModelResponse {
    pub id: String,
    pub title: String,
    pub content: String,
    pub is_published: bool,
    pub created_at: Timestamp,
    pub updated_at: Timestamp,
}

/// The mathematical value of a stored row.
pub ghost struct RowView {
    pub id: Seq<char>,
    pub title: Seq<char>,
    pub content: Seq<char>,
    pub is_published: i8,
    pub created_at: Option<Timestamp>,
    pub updated_at: Option<Timestamp>,
}

/// The mathematical value of a note as replies show it.
pub ghost struct NoteView {
    pub id: Seq<char>,
    pub title: Seq<char>,
    pub content: Seq<char>,
    pub is_published: bool,
    pub created_at: Timestamp,
    pub updated_at: Timestamp,
}

impl View for NoteModel {
    type V = RowView;

    open spec fn view(&self) -> RowView {
        RowView {
            id: self.id@,
            title: self.title@,
            content: self.content@,
            is_published: self.is_published,
            created_at: self.created_at,
            updated_at: self.updated_at,
        }
    }
}

impl View for NoteModelResponse {
    type V = NoteView;

    open spec fn view(&self) -> NoteView {
        NoteView {
            id: self.id@,
            title: self.title@,
            content: self.content@,
            is_published: self.is_published,
            created_at: self.created_at,
            updated_at: self.updated_at,
        }
    }
}

impl RowView {
    /// Both timestamps are present, so the row can be shown.
    pub open spec fn is_complete(self) -> bool {
        self.created_at is Some && self.updated_at is Some
    }

    /// The row as replies show it: a nonzero flag reads as published.
    pub open spec fn shown(self) -> NoteView {
        NoteView {
            id: self.id,
            title: self.title,
            content: self.content,
            is_published: self.is_published != 0,
            created_at: self.created_at->Some_0,
            updated_at: self.updated_at->Some_0,
        }
    }
}

/// The values of a sequence of rows.
pub open spec fn row_views(rows: Seq<NoteModel>) -> Seq<RowView> {
    rows.map_values(|n: NoteModel| n@)
}

/// The values of a sequence of shown notes.
pub open spec fn note_views(notes: Seq<NoteModelResponse>) -> Seq<NoteView> {
    notes.map_values(|n: NoteModelResponse| n@)
}

/// Every row of the sequence can be shown.
pub open spec fn all_complete(rows: Seq<RowView>) -> bool {
    forall|i: int| 0 <= i < rows.len() ==> (#[trigger] rows[i]).is_complete()
}

/// The rows as replies show them, in the same order.
pub open spec fn shown_all(rows: Seq<RowView>) -> Seq<NoteView> {
    rows.map_values(|r: RowView| r.shown())
}

/// The reply form of a stored row whose timestamps are both present.
pub fn to_note_response(note: &NoteModel) -> (r: NoteModelResponse)
    requires
        note@.is_complete(),
    ensures
        r@ == note@.shown(),
{
    let created_at = note.created_at.unwrap();
    let updated_at = note.updated_at.unwrap();
    NoteModelResponse {
        id: note.id.clone(),
        title: note.title.clone(),
        content: note.content.clone(),
        is_published: note.is_published != 0,
        created_at,
        updated_at,
    }
}

/// The reply form of each row, in order.
pub fn to_note_responses(notes: &Vec<NoteModel>) -> (r: Vec<NoteModelResponse>)
    requires
        all_complete(row_views(notes@)),
    ensures
        note_views(r@) == shown_all(row_views(notes@)),
{
    let ghost rows = row_views(notes@);
    let mut out: Vec<NoteModelResponse> = Vec::new();
    let mut i: usize = 0;
    while i < notes.len()
        invariant
            i <= notes.len(),
            rows == row_views(notes@),
            all_complete(rows),
            out@.len() == i,
            forall|j: int| 0 <= j < i ==> (#[trigger] out@[j])@ == rows[j].shown(),
        decreases notes.len() - i,
    {
        assert(rows[i as int] == notes@[i as int]@);
        assert(rows[i as int].is_complete());
        let n = to_note_response(&notes[i]);
        out.push(n);
        i = i + 1;
    }
    assert(note_views(out@) =~= shown_all(rows));
    out
}

} // verus!
