use vstd::prelude::*;
use crate::error::NotesError;
use crate::sqlite;

verus! {

/// A short text note. `id` is absent until the store has assigned one.
#[derive(Debug)]
pub struct Note {
    pub id: Option<usize>,
    pub title: String,
    pub text: String,
}

/// What a [`Note`] holds, with its strings as character sequences.
pub struct NoteView {
    pub id: Option<usize>,
    pub title: Seq<char>,
    pub text: Seq<char>,
}

impl View for Note {
    type V = NoteView;

    open spec fn view(&self) -> NoteView {
        NoteView { id: self.id, title: self.title@, text: self.text@ }
    }
}

/// The views of a list of notes, in the same order.
pub open spec fn note_views(notes: Seq<Note>) -> Seq<NoteView> {
    notes.map_values(|n: Note| n@)
}

impl Clone for Note {
    fn clone(&self) -> (copy: Note)
        ensures
            copy@ == self@,
    {
        Note { id: self.id, title: self.title.clone(), text: self.text.clone() }
    }
}

impl Note {
    pub fn new(id: Option<usize>, title: String, text: String) -> (note: Note)
        ensures
            note.id == id,
            note.title == title,
            note.text == text,
    {
        Note { id, title, text }
    }
}

/// A note as one text: its title on a first line, its body below.
pub open spec fn note_text(note: NoteView) -> Seq<char> {
    "title: "@ + note.title + "\n"@ + note.text
}

impl From<Note> for String {
    fn from(value: Note) -> (text: String)
        ensures
            text@ == note_text(value@),
    {
        let text = String::from_str("title: ");
        let text = text.concat(value.title.as_str());
        let text = text.concat("\n");
        text.concat(value.text.as_str())
    }
}

/// What the conversion gives is stated on `from` itself, over the
/// characters of the text: no spec function builds a `String`.
impl vstd::std_specs::convert::FromSpecImpl<Note> for String {
    open spec fn obeys_from_spec() -> bool {
        false
    }

    open spec fn from_spec(value: Note) -> String {
        arbitrary()
    }
}

impl Note {
    /// The note as it is shown to a reader: [`note_text`], and a line
    /// break after it.
    pub fn display(&self) -> (text: String)
        ensures
            text@ == note_text(self@) + "\n"@,
    {
        let text = String::from_str("title: ");
        let text = text.concat(self.title.as_str());
        let text = text.concat("\n");
        let text = text.concat(self.text.as_str());
        text.concat("\n")
    }
}

/// Whether `id` can be the id of a stored note: the database keeps ids as
/// signed 64-bit integers.
pub open spec fn is_database_id(id: usize) -> bool {
    id <= i64::MAX
}

/// The notes table of one SQLite database, behind a single connection.
pub struct Repository {
    db: rusqlite::Connection,
}

impl Repository {
    /// Opens the database at `db_path`, creating the file if there is none.
    /// A path with a NUL character in it names no file, and fails; for any
    /// other path the database decides. Every failure is a `Store` error.
    pub fn new(db_path: &str) -> (res: Result<Repository, NotesError>)
        ensures
            db_path@.contains('\0') ==> res is Err,
            res matches Err(e) ==> e is Store,
    {
        match NotesError::store(sqlite::open(db_path)) {
            Ok(db) => Ok(Repository { db }),
            Err(e) => Err(e),
        }
    }

    /// Creates the notes table unless it is there already.
    pub fn initialize_db(&self) -> (res: Result<(), NotesError>)
        ensures
            res matches Err(e) ==> e is Store,
    {
        let none: Vec<usize> = Vec::new();
        let created = sqlite::execute(
            &self.db,
            "CREATE TABLE IF NOT EXISTS note (
                id   INTEGER PRIMARY KEY AUTOINCREMENT,
                title TEXT NOT NULL,
                text TEXT NOT NULL
            )",
            &none,
        );
        match NotesError::store(created) {
            Ok(_) => Ok(()),
            Err(e) => Err(e),
        }
    }

    /// Reads every note, in the order the database yields them.
    pub fn get_notes(&self) -> (res: Result<Vec<Note>, NotesError>)
        ensures
            res matches Err(e) ==> e is Store,
    {
        let mut stmt = NotesError::store(
            sqlite::prepare(&self.db, "SELECT id, title, text FROM note"),
        )?;
        let none: Vec<usize> = Vec::new();
        NotesError::store(sqlite::query_notes(&mut stmt, &none))
    }

    /// Inserts all of `notes` in one transaction: the first insert that
    /// fails ends the call before the commit, and the transaction is rolled
    /// back as it goes out of scope. The ids of `notes` are not used: the
    /// database assigns them.
    pub fn add(&mut self, notes: Vec<Note>) -> (res: Result<(), NotesError>)
        ensures
            res matches Err(e) ==> e is Store,
    {
        let transaction = NotesError::store(sqlite::begin(&mut self.db))?;
        {
            let mut stmt = NotesError::store(
                sqlite::prepare(
                    sqlite::connection_of(&transaction),
                    "INSERT INTO note (title, text) VALUES (?, ?)",
                ),
            )?;
            let mut i: usize = 0;
            while i < notes.len()
                invariant
                    i <= notes.len(),
                decreases notes.len() - i,
            {
                let note = &notes[i];
                NotesError::store(
                    sqlite::execute_prepared(&mut stmt, note.title.as_str(), note.text.as_str()),
                )?;
                i += 1;
            }
        }
        NotesError::store(sqlite::commit(transaction))
    }

    /// What a lookup by id returns for the rows that the query gave: the
    /// first row, or `NotFound` where there is none.
    pub fn first_row(rows: Vec<Note>) -> (res: Result<Note, NotesError>)
        ensures
            rows@.len() == 0 ==> res == Err::<Note, NotesError>(NotesError::NotFound),
            rows@.len() > 0 ==> res == Ok::<Note, NotesError>(rows@[0]),
    {
        let mut rows = rows;
        if rows.len() == 0 {
            Err(NotesError::NotFound)
        } else {
            Ok(rows.swap_remove(0))
        }
    }

    /// Reads the note with the given id. An id that is no database integer
    /// names no note, and is `NotFound` without a look into the database;
    /// for any other id the database decides.
    pub fn get_note(&self, note_id: usize) -> (res: Result<Note, NotesError>)
        ensures
            !is_database_id(note_id) ==> res == Err::<Note, NotesError>(NotesError::NotFound),
            res matches Err(e) ==> e is Store || e is NotFound,
    {
        if note_id as u64 > i64::MAX as u64 {
            return Err(NotesError::NotFound);
        }
        let mut stmt = NotesError::store(
            sqlite::prepare(&self.db, "SELECT id, title, text FROM note WHERE id = ?1"),
        )?;
        let mut ids: Vec<usize> = Vec::new();
        ids.push(note_id);
        let rows = NotesError::store(sqlite::query_notes(&mut stmt, &ids))?;
        Self::first_row(rows)
    }

    /// Removes the note with the given id and returns what it held. Where
    /// the lookup fails, nothing is removed; it fails with `NotFound` for
    /// every id that is no database integer.
    pub fn delete(&self, note_id: usize) -> (res: Result<Note, NotesError>)
        ensures
            !is_database_id(note_id) ==> res == Err::<Note, NotesError>(NotesError::NotFound),
            res matches Err(e) ==> e is Store || e is NotFound,
    {
        let note = self.get_note(note_id)?;
        let mut ids: Vec<usize> = Vec::new();
        ids.push(note_id);
        NotesError::store(sqlite::execute(&self.db, "DELETE FROM note WHERE id = ?1", &ids))?;
        Ok(note)
    }

    /// Reserved for editing a note in place. It does nothing yet, and
    /// always succeeds.
    pub fn update(&self, _note_id: usize, _new_note: Note) -> (res: Result<(), NotesError>)
        ensures
            res is Ok,
    {
        Ok(())
    }
}

} // verus!
